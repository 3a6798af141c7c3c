use vstd::prelude::*;

verus! {

/// The largest value an 8-bit channel can hold.
pub const CHANNEL_MAX: u8 = 255;

/// The 8-bit value of a channel whose scaled value is `scaled`:
/// values below zero become 0, values above 255 become 255,
/// and every value in between is kept as it is.
pub open spec fn clamp_channel(scaled: int) -> int {
    if scaled < 0 {
        0
    } else if scaled > 255 {
        255
    } else {
        scaled
    }
}

/// Turns one scaled channel (a colour component already multiplied by
/// 255.999 and truncated toward zero) into an 8-bit channel, clamping
/// values that fall outside the range of a byte.
pub fn channel_byte(scaled: i64) -> (r: u8)
    ensures
        r as int == clamp_channel(scaled as int),
{
    if scaled < 0 {
        0
    } else if scaled > CHANNEL_MAX as i64 {
        CHANNEL_MAX
    } else {
        scaled as u8
    }
}

/// Turns the three scaled channels of a colour into an 8-bit pixel,
/// clamping each channel to the range of a byte.
pub fn pixel_from_scaled(r: i64, g: i64, b: i64) -> (p: (u8, u8, u8))
    ensures
        p.0 as int == clamp_channel(r as int),
        p.1 as int == clamp_channel(g as int),
        p.2 as int == clamp_channel(b as int),
{
    (channel_byte(r), channel_byte(g), channel_byte(b))
}

} // verus!
