//! What a run is configured with, once the arguments have been checked.

use vstd::prelude::*;

verus! {

/// Why arguments do not make a configuration.
#[derive(Clone, Copy, Debug, PartialEq, Eq, Structural)]
pub enum ConfigError {
    /// Only one of the two sizes to resize to was given.
    IncompleteResize,
}

/// The size to resize to: both of width and height, or neither.
pub open spec fn resize_of(width: Option<u32>, height: Option<u32>) -> Result<
    Option<(u32, u32)>,
    ConfigError,
> {
    match (width, height) {
        (Some(w), Some(h)) => Ok(Some((w, h))),
        (None, None) => Ok(None),
        _ => Err(ConfigError::IncompleteResize),
    }
}

/// Checks the two sizes to resize to: both or neither must be given.
pub fn check_resize(width: Option<u32>, height: Option<u32>) -> (size: Result<
    Option<(u32, u32)>,
    ConfigError,
>)
    ensures
        size == resize_of(width, height),
{
    match (width, height) {
        (Some(w), Some(h)) => Ok(Some((w, h))),
        (None, None) => Ok(None),
        _ => Err(ConfigError::IncompleteResize),
    }
}

/// A checked configuration. It does not change during a run.
#[derive(Clone, Copy, Debug, PartialEq, Eq)]
pub struct Config {
    /// Seconds between two reports.
    pub interval: u64,
    /// Canvas column of the image's left edge.
    pub x: u16,
    /// Canvas row of the image's top edge.
    pub y: u16,
    /// Width and height to resize the image to before it is sent.
    pub resize: Option<(u32, u32)>,
    /// Whether to stop after one pass over the image.
    pub once: bool,
    /// Whether to send the pixels in a random order.
    pub shuffle: bool,
    /// Whether to print nothing.
    pub quiet: bool,
    /// Seconds to wait between two passes.
    pub timeout: Option<u64>,
    /// Whether to leave out pixels that are not fully opaque.
    pub opaque_only: bool,
    /// Degrees by which the hue turns every five seconds.
    pub hue_speed: Option<i32>,
}

impl Config {
    /// The configuration of a run without arguments: a report every second,
    /// no offset, the image as it is, endlessly, shuffled, not quiet, without
    /// pauses, with every pixel, in its own colours.
    pub open spec fn initial() -> Config {
        Config {
            interval: 1,
            x: 0,
            y: 0,
            resize: None,
            once: false,
            shuffle: true,
            quiet: false,
            timeout: None,
            opaque_only: false,
            hue_speed: None,
        }
    }
}

impl Default for Config {
    fn default() -> (config: Config)
        ensures
            config == Config::initial(),
    {
        Config {
            interval: 1,
            x: 0,
            y: 0,
            resize: None,
            once: false,
            shuffle: true,
            quiet: false,
            timeout: None,
            opaque_only: false,
            hue_speed: None,
        }
    }
}

} // verus!
