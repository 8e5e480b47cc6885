//! Preset pixel values for common colours.

use vstd::prelude::*;

use crate::Pixel;

verus! {

/// Black: all channels zero.
pub fn black() -> (p: Pixel)
    ensures
        p == (Pixel { r: 0u8, g: 0u8, b: 0u8 }),
{
    Pixel { r: 0, g: 0, b: 0 }
}

/// White: all channels full.
pub fn white() -> (p: Pixel)
    ensures
        p == (Pixel { r: 255u8, g: 255u8, b: 255u8 }),
{
    Pixel { r: 255, g: 255, b: 255 }
}

/// Red: only the red channel full.
pub fn red() -> (p: Pixel)
    ensures
        p == (Pixel { r: 255u8, g: 0u8, b: 0u8 }),
{
    Pixel { r: 255, g: 0, b: 0 }
}

/// Lime (full green): only the green channel full.
pub fn lime() -> (p: Pixel)
    ensures
        p == (Pixel { r: 0u8, g: 255u8, b: 0u8 }),
{
    Pixel { r: 0, g: 255, b: 0 }
}

/// Blue: only the blue channel full.
pub fn blue() -> (p: Pixel)
    ensures
        p == (Pixel { r: 0u8, g: 0u8, b: 255u8 }),
{
    Pixel { r: 0, g: 0, b: 255 }
}

} // verus!
