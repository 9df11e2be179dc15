//! The sixteen-slot palette for terminals that use base16 themes.

use crate::colors::Color;
use vstd::prelude::*;

verus! {

/// Slot `00`: the background colour `base`.
pub fn base00() -> (c: Color)
    ensures
        c@ == (15u8, 18u8, 20u8, 255u8),
{
    super::background::base()
}

/// Slot `01`: the background colour `elevation_1`.
pub fn base01() -> (c: Color)
    ensures
        c@ == (22u8, 27u8, 30u8, 255u8),
{
    super::background::elevation_1()
}

/// Slot `02`: the background colour `elevation_2`.
pub fn base02() -> (c: Color)
    ensures
        c@ == (29u8, 36u8, 40u8, 255u8),
{
    super::background::elevation_2()
}

/// Slot `03`: the background colour `elevation_3`.
pub fn base03() -> (c: Color)
    ensures
        c@ == (36u8, 43u8, 48u8, 255u8),
{
    super::background::elevation_3()
}

/// Slot `04`: the text colour `secondary`.
pub fn base04() -> (c: Color)
    ensures
        c@ == (139u8, 148u8, 158u8, 255u8),
{
    super::text::secondary()
}

/// Slot `05`: the text colour `primary`.
pub fn base05() -> (c: Color)
    ensures
        c@ == (230u8, 237u8, 243u8, 255u8),
{
    super::text::primary()
}

/// Slot `06`: the void colour `green`.
pub fn base06() -> (c: Color)
    ensures
        c@ == (0u8, 228u8, 154u8, 255u8),
{
    super::void::green()
}

/// Slot `07`: the void colour `purple`.
pub fn base07() -> (c: Color)
    ensures
        c@ == (184u8, 110u8, 255u8, 255u8),
{
    super::void::purple()
}

/// Slot `08`: the status colour `error`.
pub fn base08() -> (c: Color)
    ensures
        c@ == (255u8, 46u8, 95u8, 255u8),
{
    super::status::error()
}

/// Slot `09`: the status colour `warning`.
pub fn base09() -> (c: Color)
    ensures
        c@ == (255u8, 191u8, 0u8, 255u8),
{
    super::status::warning()
}

/// Slot `0A`: the status colour `info`.
pub fn base0a() -> (c: Color)
    ensures
        c@ == (41u8, 187u8, 255u8, 255u8),
{
    super::status::info()
}

/// Slot `0B`: the status colour `success`.
pub fn base0b() -> (c: Color)
    ensures
        c@ == (35u8, 209u8, 139u8, 255u8),
{
    super::status::success()
}

/// Slot `0C`: the void colour `green`.
pub fn base0c() -> (c: Color)
    ensures
        c@ == (0u8, 228u8, 154u8, 255u8),
{
    super::void::green()
}

/// Slot `0D`: the void colour `purple`.
pub fn base0d() -> (c: Color)
    ensures
        c@ == (184u8, 110u8, 255u8, 255u8),
{
    super::void::purple()
}

/// Slot `0E`: the text colour `disabled`.
pub fn base0e() -> (c: Color)
    ensures
        c@ == (106u8, 115u8, 125u8, 255u8),
{
    super::text::disabled()
}

/// Slot `0F`: the text colour `placeholder`.
pub fn base0f() -> (c: Color)
    ensures
        c@ == (88u8, 96u8, 105u8, 255u8),
{
    super::text::placeholder()
}

} // verus!
