//! A pixel's colour as it is written out: three 8-bit channels.
use vstd::prelude::*;

verus! {

/// The largest value an output channel can hold.
pub const CHANNEL_MAX: u8 = 255;

/// The byte that a channel takes from its scaled value (the channel times
/// the output scale, truncated towards zero): values above the maximum are
/// held at the maximum, negative values at zero.
pub open spec fn clamp_channel(scaled: int) -> int {
    if scaled > CHANNEL_MAX {
        CHANNEL_MAX as int
    } else if scaled < 0 {
        0
    } else {
        scaled
    }
}

/// Maps a scaled channel value onto its output byte; a value above the
/// maximum gives exactly the maximum and never wraps round.
pub fn channel_byte(scaled: i64) -> (r: u8)
    ensures
        r == clamp_channel(scaled as int),
        scaled > CHANNEL_MAX ==> r == CHANNEL_MAX,
{
    if scaled > CHANNEL_MAX as i64 {
        CHANNEL_MAX
    } else if scaled < 0 {
        0
    } else {
        scaled as u8
    }
}

/// A colour with each channel in `0..=255`, ready for output.
#[derive(Clone, Copy, Debug, PartialEq, Eq, Structural)]
pub struct Rgb8 {
    pub r: u8,
    pub g: u8,
    pub b: u8,
}

impl Rgb8 {
    pub fn new(r: u8, g: u8, b: u8) -> (c: Rgb8)
        ensures
            c.r == r && c.g == g && c.b == b,
    {
        Rgb8 { r, g, b }
    }

    /// The output colour whose channels come from three scaled channel
    /// values, each mapped by `channel_byte`.
    pub fn from_scaled(r: i64, g: i64, b: i64) -> (c: Rgb8)
        ensures
            c.r == clamp_channel(r as int),
            c.g == clamp_channel(g as int),
            c.b == clamp_channel(b as int),
    {
        Rgb8 { r: channel_byte(r), g: channel_byte(g), b: channel_byte(b) }
    }
}

} // verus!
