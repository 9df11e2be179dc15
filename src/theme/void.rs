//! The accent colours and their subtle variants.

use crate::colors::Color;
use vstd::prelude::*;

verus! {

/// Accent green.
pub fn green() -> (c: Color)
    ensures
        c@ == (0u8, 228u8, 154u8, 255u8),
{
    Color::rgb(0, 228, 154)
}

/// Accent green at about 15% opacity.
pub fn green_subtle() -> (c: Color)
    ensures
        c@ == (0u8, 228u8, 154u8, 38u8),
{
    Color::rgba(0, 228, 154, 38)
}

/// Accent purple.
pub fn purple() -> (c: Color)
    ensures
        c@ == (184u8, 110u8, 255u8, 255u8),
{
    Color::rgb(184, 110, 255)
}

/// Accent purple at about 15% opacity.
pub fn purple_subtle() -> (c: Color)
    ensures
        c@ == (184u8, 110u8, 255u8, 38u8),
{
    Color::rgba(184, 110, 255, 38)
}

} // verus!
