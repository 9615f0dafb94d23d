use raspivid_stream::delivery::{fetch_decision, poll_decision, FetchDecision};
use raspivid_stream::store::SegmentStore;

#[test]
fn ordinals_advance_by_one_without_gaps() {
    let mut store = SegmentStore::new(3);
    assert_eq!(store.current_ordinal(), 0);
    for expected in 1..=10u64 {
        let p = store.publish();
        assert_eq!(p.ordinal, expected);
        assert_eq!(store.current_ordinal(), expected);
    }
}

#[test]
fn retention_keeps_the_most_recent_files() {
    // Simulate the disk alongside the store: rename in, prune out.
    let retention = 3u64;
    let mut store = SegmentStore::new(retention);
    let mut disk: Vec<u64> = Vec::new();
    for n in 1..=5u64 {
        let p = store.publish();
        disk.push(p.ordinal);
        if let Some(pruned) = p.prune {
            disk.retain(|&o| o != pruned);
        }
        // Exactly min(n, retention) files, and they are the most recent.
        let expect_len = n.min(retention);
        assert_eq!(disk.len() as u64, expect_len);
        for &o in &disk {
            assert!(o <= n && o + retention > n && o >= 1);
        }
    }
    assert_eq!(disk, vec![3, 4, 5]);
}

#[test]
fn nothing_is_pruned_until_the_window_fills() {
    let mut store = SegmentStore::new(2);
    assert_eq!(store.publish().prune, None);
    assert_eq!(store.publish().prune, None);
    assert_eq!(store.publish().prune, Some(1));
    assert_eq!(store.publish().prune, Some(2));
}

#[test]
fn delivery_serves_retained_ordinals() {
    // current 5, retention 3: ordinals 3, 4, 5 are on disk.
    assert_eq!(fetch_decision(3, 5, 3), FetchDecision::Serve);
    assert_eq!(fetch_decision(4, 5, 3), FetchDecision::Serve);
    assert_eq!(fetch_decision(5, 5, 3), FetchDecision::Serve);
}

#[test]
fn delivery_redirects_pruned_and_invalid_ordinals() {
    // Pruned ordinals never come back, they redirect to the latest.
    assert_eq!(fetch_decision(1, 5, 3), FetchDecision::Redirect(5));
    assert_eq!(fetch_decision(2, 5, 3), FetchDecision::Redirect(5));
    // Ordinal 0 never exists.
    assert_eq!(fetch_decision(0, 5, 3), FetchDecision::Redirect(5));
    assert_eq!(fetch_decision(0, 0, 3), FetchDecision::Redirect(0));
    // Too far ahead of the stream.
    assert_eq!(fetch_decision(8, 5, 3), FetchDecision::Redirect(5));
}

#[test]
fn delivery_waits_for_segments_about_to_appear() {
    assert_eq!(fetch_decision(6, 5, 3), FetchDecision::Wait);
    assert_eq!(fetch_decision(7, 5, 3), FetchDecision::Wait);
    // Before anything is published, the first segments are worth waiting for.
    assert_eq!(fetch_decision(1, 0, 3), FetchDecision::Wait);
}

#[test]
fn wait_budget_runs_out_into_a_redirect() {
    assert_eq!(poll_decision(6, 5, 3, 1), FetchDecision::Wait);
    assert_eq!(poll_decision(6, 5, 3, 0), FetchDecision::Redirect(5));
    // The budget only matters while waiting.
    assert_eq!(poll_decision(5, 5, 3, 0), FetchDecision::Serve);
    assert_eq!(poll_decision(1, 5, 3, 0), FetchDecision::Redirect(5));
}
