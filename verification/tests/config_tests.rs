use raspivid_stream::config::{
    default_bind_addr, default_framerate, default_height, default_rotation, default_width, Config,
    HttpConfig, RaspividConfig,
};
use raspivid_stream::ptr::{ParentTerminator, ParentedRead};
use raspivid_stream::streams::saturation_threshold;

#[test]
fn defaults_match_the_documented_values() {
    assert_eq!(default_bind_addr(), "0.0.0.0:3128");
    assert_eq!(default_width(), 1280);
    assert_eq!(default_height(), 720);
    assert_eq!(default_framerate(), 20);
    assert_eq!(default_rotation(), 0);
}

#[test]
fn default_structs_agree_with_the_free_functions() {
    let config = Config::default();
    assert_eq!(config.http.bind_addr, default_bind_addr());
    assert_eq!(config.raspivid.width, default_width());
    assert_eq!(config.raspivid.height, default_height());
    assert_eq!(config.raspivid.framerate, default_framerate());
    assert_eq!(config.raspivid.rotation, default_rotation());

    let http = HttpConfig::default();
    assert_eq!(http.bind_addr, "0.0.0.0:3128");
    let raspivid = RaspividConfig::default();
    assert_eq!(raspivid, config.raspivid);
}

#[test]
fn default_framerate_saturates_at_eighty_units() {
    assert_eq!(saturation_threshold(default_framerate()), 80);
}

struct CountingParent<'a> {
    terminated: &'a mut u32,
}

impl<'a> ParentTerminator for CountingParent<'a> {
    fn terminate(&mut self) {
        *self.terminated += 1;
    }
}

#[test]
fn parented_read_terminates_its_parent_once_asked() {
    let mut terminated = 0u32;
    {
        let parent = CountingParent { terminated: &mut terminated };
        let stream: Vec<u8> = vec![1, 2, 3];
        let mut pr = ParentedRead::new(parent, stream);
        assert_eq!(pr.stream_ref().len(), 3);
        pr.stream_mut().push(4);
        assert_eq!(pr.stream_ref(), &vec![1, 2, 3, 4]);
        pr.terminate_parent();
    }
    assert_eq!(terminated, 1);
}
