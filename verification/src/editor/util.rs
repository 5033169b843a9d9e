//! How the canvas is looked at.

use vstd::prelude::*;

verus! {

/// The size of a cell on the screen after the wheel has turned by `value`
/// from the size `pixel_size`. From the size 20 on a turn counts double.
/// Zooming out stops at the size 10.
pub open spec fn zoomed(pixel_size: int, value: int) -> int {
    let step = if pixel_size >= 20 {
        2 * value
    } else {
        value
    };
    if value == 0 {
        pixel_size
    } else if value > 0 {
        pixel_size + step
    } else if pixel_size + step < 10 {
        10
    } else {
        pixel_size + step
    }
}

/// The size of a cell on the screen after the wheel has turned by `value`.
pub fn update_zoom(pixel_size: usize, value: i32) -> (size: usize)
    requires
        -0x4000_0000 < value < 0x4000_0000,
        zoomed(pixel_size as int, value as int) <= usize::MAX,
    ensures
        size == zoomed(pixel_size as int, value as int),
{
    let mut value = value;
    if value != 0 {
        if pixel_size >= 20 {
            value *= 2;
        }
        if value > 0 {
            pixel_size + value as usize
        } else {
            let less = pixel_size.saturating_sub((-value) as usize);
            if less < 10 {
                10
            } else {
                less
            }
        }
    } else {
        pixel_size
    }
}

} // verus!
