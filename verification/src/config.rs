//! Configuration data: the bind address for the reader-facing side and
//! the capture parameters, with their defaults. Reading and writing
//! the configuration file is an external concern; this module only
//! defines the values and pins the defaults down.

use vstd::prelude::*;
use vstd::string::StringExecFns;

verus! {

/// The whole configuration.
#[derive(Debug)]
pub struct Config {
    pub http: HttpConfig,
    pub raspivid: RaspividConfig,
}

/// Configuration of the reader-facing side.
#[derive(Debug)]
pub struct HttpConfig {
    pub bind_addr: String,
}

/// Configuration of the capture process.
#[derive(Debug, Clone, Copy, PartialEq, Eq, Structural)]
pub struct RaspividConfig {
    pub width: u16,
    pub height: u16,
    pub framerate: u8,
    pub rotation: u16,
}

impl core::default::Default for HttpConfig {
    /// The default bind address.
    fn default() -> (c: Self)
        ensures
            c.bind_addr@ == "0.0.0.0:3128"@,
    {
        HttpConfig { bind_addr: String::from_str("0.0.0.0:3128") }
    }
}

impl core::default::Default for RaspividConfig {
    /// The default capture parameters: 1280x720 at 20 frames per
    /// second, unrotated.
    fn default() -> (c: Self)
        ensures
            c == (RaspividConfig { width: 1280, height: 720, framerate: 20, rotation: 0 }),
    {
        RaspividConfig { width: 1280, height: 720, framerate: 20, rotation: 0 }
    }
}

impl core::default::Default for Config {
    fn default() -> (c: Self)
        ensures
            c.http.bind_addr@ == "0.0.0.0:3128"@,
            c.raspivid == (RaspividConfig { width: 1280, height: 720, framerate: 20, rotation: 0 }),
    {
        Config { http: HttpConfig::default(), raspivid: RaspividConfig::default() }
    }
}

/// The default bind address on its own.
pub fn default_bind_addr() -> (r: String)
    ensures
        r@ == "0.0.0.0:3128"@,
{
    HttpConfig::default().bind_addr
}

/// The default capture width on its own.
pub fn default_width() -> (r: u16)
    ensures
        r == 1280,
{
    RaspividConfig::default().width
}

/// The default capture height on its own.
pub fn default_height() -> (r: u16)
    ensures
        r == 720,
{
    RaspividConfig::default().height
}

/// The default capture framerate on its own.
pub fn default_framerate() -> (r: u8)
    ensures
        r == 20,
{
    RaspividConfig::default().framerate
}

/// The default capture rotation on its own.
pub fn default_rotation() -> (r: u16)
    ensures
        r == 0,
{
    RaspividConfig::default().rotation
}

} // verus!
