//! System status colours and their subtle background variants.

use crate::colors::Color;
use vstd::prelude::*;

verus! {

/// Info status.
pub fn info() -> (c: Color)
    ensures
        c@ == (41u8, 187u8, 255u8, 255u8),
{
    Color::rgb(41, 187, 255)
}

/// Success status.
pub fn success() -> (c: Color)
    ensures
        c@ == (35u8, 209u8, 139u8, 255u8),
{
    Color::rgb(35, 209, 139)
}

/// Warning status.
pub fn warning() -> (c: Color)
    ensures
        c@ == (255u8, 191u8, 0u8, 255u8),
{
    Color::rgb(255, 191, 0)
}

/// Error status.
pub fn error() -> (c: Color)
    ensures
        c@ == (255u8, 46u8, 95u8, 255u8),
{
    Color::rgb(255, 46, 95)
}

/// Subtle info background.
pub fn info_subtle() -> (c: Color)
    ensures
        c@ == (41u8, 187u8, 255u8, 38u8),
{
    Color::rgba(41, 187, 255, 38)
}

/// Subtle success background.
pub fn success_subtle() -> (c: Color)
    ensures
        c@ == (35u8, 209u8, 139u8, 38u8),
{
    Color::rgba(35, 209, 139, 38)
}

/// Subtle warning background.
pub fn warning_subtle() -> (c: Color)
    ensures
        c@ == (255u8, 191u8, 0u8, 38u8),
{
    Color::rgba(255, 191, 0, 38)
}

/// Subtle error background.
pub fn error_subtle() -> (c: Color)
    ensures
        c@ == (255u8, 46u8, 95u8, 38u8),
{
    Color::rgba(255, 46, 95, 38)
}

} // verus!
