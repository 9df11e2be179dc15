//! Text hierarchy.

use crate::colors::Color;
use vstd::prelude::*;

verus! {

/// Primary text.
pub fn primary() -> (c: Color)
    ensures
        c@ == (230u8, 237u8, 243u8, 255u8),
{
    Color::rgb(230, 237, 243)
}

/// Secondary text.
pub fn secondary() -> (c: Color)
    ensures
        c@ == (139u8, 148u8, 158u8, 255u8),
{
    Color::rgb(139, 148, 158)
}

/// Disabled text.
pub fn disabled() -> (c: Color)
    ensures
        c@ == (106u8, 115u8, 125u8, 255u8),
{
    Color::rgb(106, 115, 125)
}

/// Placeholder text.
pub fn placeholder() -> (c: Color)
    ensures
        c@ == (88u8, 96u8, 105u8, 255u8),
{
    Color::rgb(88, 96, 105)
}

/// `base` with its alpha channel set to `opacity`.
pub fn with_opacity(base: Color, opacity: u8) -> (c: Color)
    ensures
        c@ == (base@.0, base@.1, base@.2, opacity),
{
    base.with_alpha(opacity)
}

} // verus!
