//! Colours of common interface elements.

use crate::colors::Color;
use vstd::prelude::*;

verus! {

/// Links.
pub fn link() -> (c: Color)
    ensures
        c@ == (184u8, 110u8, 255u8, 255u8),
{
    Color::rgb(184, 110, 255)
}

/// Buttons.
pub fn button() -> (c: Color)
    ensures
        c@ == (0u8, 228u8, 154u8, 255u8),
{
    Color::rgb(0, 228, 154)
}

/// Borders.
pub fn border() -> (c: Color)
    ensures
        c@ == (29u8, 36u8, 40u8, 255u8),
{
    Color::rgb(29, 36, 40)
}

/// Separators.
pub fn separator() -> (c: Color)
    ensures
        c@ == (22u8, 27u8, 30u8, 255u8),
{
    Color::rgb(22, 27, 30)
}

/// Selection highlight.
pub fn selection() -> (c: Color)
    ensures
        c@ == (184u8, 110u8, 255u8, 38u8),
{
    Color::rgba(184, 110, 255, 38)
}

/// Focus ring.
pub fn focus_ring() -> (c: Color)
    ensures
        c@ == (184u8, 110u8, 255u8, 255u8),
{
    Color::rgb(184, 110, 255)
}

/// Modal overlay at about 70% opacity.
pub fn modal_overlay() -> (c: Color)
    ensures
        c@ == (0u8, 0u8, 0u8, 178u8),
{
    Color::rgba(0, 0, 0, 178)
}

/// Dropdown shadow at about 80% opacity.
pub fn dropdown_shadow() -> (c: Color)
    ensures
        c@ == (0u8, 0u8, 0u8, 204u8),
{
    Color::rgba(0, 0, 0, 204)
}

} // verus!
