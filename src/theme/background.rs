//! Background elevation hierarchy.

use crate::colors::Color;
use vstd::prelude::*;

verus! {

/// Base background.
pub fn base() -> (c: Color)
    ensures
        c@ == (15u8, 18u8, 20u8, 255u8),
{
    Color::rgb(15, 18, 20)
}

/// First elevation level.
pub fn elevation_1() -> (c: Color)
    ensures
        c@ == (22u8, 27u8, 30u8, 255u8),
{
    Color::rgb(22, 27, 30)
}

/// Second elevation level.
pub fn elevation_2() -> (c: Color)
    ensures
        c@ == (29u8, 36u8, 40u8, 255u8),
{
    Color::rgb(29, 36, 40)
}

/// Third elevation level.
pub fn elevation_3() -> (c: Color)
    ensures
        c@ == (36u8, 43u8, 48u8, 255u8),
{
    Color::rgb(36, 43, 48)
}

} // verus!
