//! RGBA colours with 8-bit channels, their hexadecimal text form, and theme
//! colouring of text with ANSI true-colour sequences.

use crate::theme::{status, text, void};
use ratatui::style::Color as RatatuiColor;
use vstd::prelude::*;

verus! {

/// The lowercase hexadecimal digit for `d`.
pub open spec fn hex_digit(d: u8) -> char {
    seq!['0', '1', '2', '3', '4', '5', '6', '7', '8', '9', 'a', 'b', 'c', 'd', 'e', 'f'][d as int]
}

/// Two lowercase hexadecimal digits for a byte.
pub open spec fn hex_pair(b: u8) -> Seq<char> {
    seq![hex_digit(b / 16), hex_digit(b % 16)]
}

/// The value of one hexadecimal digit of either case.
pub open spec fn hex_value(c: char) -> Option<u8> {
    if '0' <= c <= '9' {
        Some((c as u32 - '0' as u32) as u8)
    } else if 'a' <= c <= 'f' {
        Some((c as u32 - 'a' as u32 + 10) as u8)
    } else if 'A' <= c <= 'F' {
        Some((c as u32 - 'A' as u32 + 10) as u8)
    } else {
        None
    }
}

/// The byte that a two-character channel field denotes: two hexadecimal
/// digits, or a `+` sign followed by one digit, as an unsigned radix-16 parse
/// reads it.
pub open spec fn field_value(f: Seq<char>) -> Option<u8> {
    if f.len() != 2 {
        None
    } else if f[0] == '+' {
        hex_value(f[1])
    } else {
        match (hex_value(f[0]), hex_value(f[1])) {
            (Some(h), Some(l)) => Some((h * 16 + l) as u8),
            _ => None,
        }
    }
}

/// `s` without its leading `#` characters.
pub open spec fn trim_hashes(s: Seq<char>) -> Seq<char>
    decreases s.len(),
{
    if s.len() > 0 && s[0] == '#' {
        trim_hashes(s.drop_first())
    } else {
        s
    }
}

/// The channels that a hexadecimal colour text denotes: after any leading `#`,
/// six characters (`RRGGBB`, opaque) or eight (`RRGGBBAA`).
pub open spec fn parse_hex(s: Seq<char>) -> Option<(u8, u8, u8, u8)> {
    let h = trim_hashes(s);
    if h.len() == 6 || h.len() == 8 {
        match (
            field_value(h.subrange(0, 2)),
            field_value(h.subrange(2, 4)),
            field_value(h.subrange(4, 6)),
        ) {
            (Some(r), Some(g), Some(b)) => if h.len() == 6 {
                Some((r, g, b, 255u8))
            } else {
                match field_value(h.subrange(6, 8)) {
                    Some(a) => Some((r, g, b, a)),
                    None => None,
                }
            },
            _ => None,
        }
    } else {
        None
    }
}

/// The hexadecimal text of a colour: `#rrggbb` when opaque, else `#rrggbbaa`.
pub open spec fn hex_text(c: (u8, u8, u8, u8)) -> Seq<char> {
    let rgb = seq!['#'] + hex_pair(c.0) + hex_pair(c.1) + hex_pair(c.2);
    if c.3 == 255 {
        rgb
    } else {
        rgb + hex_pair(c.3)
    }
}

/// Relies on `String::push`: it appends one character.
pub assume_specification[ String::push ](s: &mut String, ch: char)
    ensures
        final(s)@ == old(s)@.push(ch),
;

#[verifier::external_type_specification]
pub struct ExOwoRgb(owo_colors::Rgb);

#[verifier::external_type_specification]
pub struct ExRatatuiColor(RatatuiColor);

/// An RGBA colour with 8-bit channels.
#[derive(Debug, Clone, Copy, PartialEq, Eq)]
pub struct Color {
    r: u8,
    g: u8,
    b: u8,
    a: u8,
}

impl View for Color {
    type V = (u8, u8, u8, u8);

    closed spec fn view(&self) -> (u8, u8, u8, u8) {
        (self.r, self.g, self.b, self.a)
    }
}

fn hex_digit_char(d: u8) -> (c: char)
    requires
        d < 16,
    ensures
        c == hex_digit(d),
{
    if d < 10 {
        (d + 48) as char
    } else {
        (d + 87) as char
    }
}

fn push_hex_pair(s: &mut String, b: u8)
    ensures
        final(s)@ == old(s)@ + hex_pair(b),
{
    s.push(hex_digit_char(b / 16));
    s.push(hex_digit_char(b % 16));
    assert(final(s)@ =~= old(s)@ + hex_pair(b));
}

fn hex_char_value(c: char) -> (r: Option<u8>)
    ensures
        r == hex_value(c),
{
    if '0' <= c && c <= '9' {
        Some((c as u32 - '0' as u32) as u8)
    } else if 'a' <= c && c <= 'f' {
        Some((c as u32 - 'a' as u32 + 10) as u8)
    } else if 'A' <= c && c <= 'F' {
        Some((c as u32 - 'A' as u32 + 10) as u8)
    } else {
        None
    }
}

fn parse_field(s: &str, at: usize) -> (r: Option<u8>)
    requires
        at + 2 <= s@.len() <= usize::MAX,
    ensures
        r == field_value(s@.subrange(at as int, at + 2)),
{
    let ghost f = s@.subrange(at as int, at + 2);
    let c0 = s.get_char(at);
    let c1 = s.get_char(at + 1);
    assert(f[0] == c0 && f[1] == c1);
    if c0 == '+' {
        hex_char_value(c1)
    } else {
        match (hex_char_value(c0), hex_char_value(c1)) {
            (Some(h), Some(l)) => Some(h * 16 + l),
            _ => None,
        }
    }
}

impl Color {
    /// An opaque colour.
    pub fn rgb(r: u8, g: u8, b: u8) -> (c: Self)
        ensures
            c@ == (r, g, b, 255u8),
    {
        Color { r, g, b, a: 255 }
    }

    /// A colour with the given alpha channel.
    pub fn rgba(r: u8, g: u8, b: u8, a: u8) -> (c: Self)
        ensures
            c@ == (r, g, b, a),
    {
        Color { r, g, b, a }
    }

    /// Parses `#RRGGBB` or `#RRGGBBAA` (the `#` is optional, digits of either
    /// case); `None` for any other text.
    pub fn from_hex(hex: &str) -> (r: Option<Self>)
        ensures
            match r {
                Some(c) => parse_hex(hex@) == Some(c@),
                None => parse_hex(hex@) is None,
            },
    {
        let n = hex.unicode_len();
        let mut i: usize = 0;
        assert(hex@.skip(0) =~= hex@);
        while i < n && hex.get_char(i) == '#'
            invariant
                n == hex@.len(),
                i <= n,
                trim_hashes(hex@) == trim_hashes(hex@.skip(i as int)),
            decreases n - i,
        {
            assert(hex@.skip(i as int).drop_first() =~= hex@.skip(i + 1));
            i = i + 1;
        }
        let ghost h = hex@.skip(i as int);
        assert(trim_hashes(h) == h);
        let len = n - i;
        if len != 6 && len != 8 {
            return None;
        }
        assert(h.subrange(0, 2) =~= hex@.subrange(i as int, i + 2));
        assert(h.subrange(2, 4) =~= hex@.subrange(i + 2, i + 4));
        assert(h.subrange(4, 6) =~= hex@.subrange(i + 4, i + 6));
        let r = parse_field(hex, i);
        let g = parse_field(hex, i + 2);
        let b = parse_field(hex, i + 4);
        match (r, g, b) {
            (Some(r), Some(g), Some(b)) => {
                if len == 6 {
                    Some(Color::rgb(r, g, b))
                } else {
                    assert(h.subrange(6, 8) =~= hex@.subrange(i + 6, i + 8));
                    match parse_field(hex, i + 6) {
                        Some(a) => Some(Color::rgba(r, g, b, a)),
                        None => None,
                    }
                }
            },
            _ => None,
        }
    }

    /// The colour as `#rrggbb` when opaque, else as `#rrggbbaa`.
    pub fn to_hex(&self) -> (s: String)
        ensures
            s@ == hex_text(self@),
    {
        let mut s = String::new();
        s.push('#');
        push_hex_pair(&mut s, self.r);
        push_hex_pair(&mut s, self.g);
        push_hex_pair(&mut s, self.b);
        if self.a != 255 {
            push_hex_pair(&mut s, self.a);
        }
        proof {
            assert(seq!['#'] =~= Seq::<char>::empty().push('#'));
        }
        s
    }

    /// The same colour with alpha `alpha`.
    pub fn with_alpha(&self, alpha: u8) -> (c: Self)
        ensures
            c@ == (self@.0, self@.1, self@.2, alpha),
    {
        Color { a: alpha, ..*self }
    }

    /// The red, green and blue channels.
    pub fn rgb_components(&self) -> (t: (u8, u8, u8))
        ensures
            t == (self@.0, self@.1, self@.2),
    {
        (self.r, self.g, self.b)
    }

    /// All four channels.
    pub fn rgba_components(&self) -> (t: (u8, u8, u8, u8))
        ensures
            t == self@,
    {
        (self.r, self.g, self.b, self.a)
    }

    /// The red, green and blue channels as an owo-colors colour.
    pub fn to_owo_rgb(&self) -> (c: owo_colors::Rgb)
        ensures
            c == owo_colors::Rgb(self@.0, self@.1, self@.2),
    {
        owo_colors::Rgb(self.r, self.g, self.b)
    }

    /// The red, green and blue channels as a ratatui true colour.
    pub fn to_ratatui(&self) -> (c: RatatuiColor)
        ensures
            c == RatatuiColor::Rgb(self@.0, self@.1, self@.2),
    {
        RatatuiColor::Rgb(self.r, self.g, self.b)
    }

    /// Each colour channel replaced by its complement to 255; alpha kept.
    pub fn invert(&self) -> (c: Self)
        ensures
            c@ == ((255 - self@.0) as u8, (255 - self@.1) as u8, (255 - self@.2) as u8, self@.3),
    {
        Color::rgba(255 - self.r, 255 - self.g, 255 - self.b, self.a)
    }
}

proof fn lemma_hex_digit(d: u8)
    requires
        d < 16,
    ensures
        hex_value(hex_digit(d)) == Some(d),
        hex_digit(d) != '#',
        hex_digit(d) != '+',
{
    let digits = seq!['0', '1', '2', '3', '4', '5', '6', '7', '8', '9', 'a', 'b', 'c', 'd', 'e', 'f'];
    assert(digits[0] == '0' && digits[1] == '1' && digits[2] == '2' && digits[3] == '3');
    assert(digits[4] == '4' && digits[5] == '5' && digits[6] == '6' && digits[7] == '7');
    assert(digits[8] == '8' && digits[9] == '9' && digits[10] == 'a' && digits[11] == 'b');
    assert(digits[12] == 'c' && digits[13] == 'd' && digits[14] == 'e' && digits[15] == 'f');
}

proof fn lemma_hex_pair(b: u8)
    ensures
        field_value(hex_pair(b)) == Some(b),
        hex_pair(b).len() == 2,
        hex_pair(b)[0] != '#',
{
    lemma_hex_digit(b / 16);
    lemma_hex_digit(b % 16);
    let p = hex_pair(b);
    assert(p[0] == hex_digit(b / 16) && p[1] == hex_digit(b % 16));
    assert((b / 16) * 16 + b % 16 == b);
}

/// Writing a colour as hexadecimal text and parsing that text gives the
/// colour back.
pub proof fn lemma_hex_round_trip(c: (u8, u8, u8, u8))
    ensures
        parse_hex(hex_text(c)) == Some(c),
{
    lemma_hex_pair(c.0);
    lemma_hex_pair(c.1);
    lemma_hex_pair(c.2);
    lemma_hex_pair(c.3);
    let t = hex_text(c);
    let body = hex_pair(c.0) + hex_pair(c.1) + hex_pair(c.2) + if c.3 == 255 {
        Seq::<char>::empty()
    } else {
        hex_pair(c.3)
    };
    assert(t =~= seq!['#'] + body);
    assert(t.drop_first() =~= body);
    assert(body[0] == hex_pair(c.0)[0]);
    assert(trim_hashes(body) == body);
    assert(trim_hashes(t) == body);
    assert(body.subrange(0, 2) =~= hex_pair(c.0));
    assert(body.subrange(2, 4) =~= hex_pair(c.1));
    assert(body.subrange(4, 6) =~= hex_pair(c.2));
    if c.3 != 255 {
        assert(body.subrange(6, 8) =~= hex_pair(c.3));
    }
}

impl From<Color> for owo_colors::Rgb {
    fn from(c: Color) -> (r: owo_colors::Rgb) {
        c.to_owo_rgb()
    }
}

impl vstd::std_specs::convert::FromSpecImpl<Color> for owo_colors::Rgb {
    open spec fn obeys_from_spec() -> bool {
        true
    }

    open spec fn from_spec(c: Color) -> owo_colors::Rgb {
        owo_colors::Rgb(c@.0, c@.1, c@.2)
    }
}

impl From<Color> for RatatuiColor {
    fn from(c: Color) -> (r: RatatuiColor) {
        c.to_ratatui()
    }
}

impl vstd::std_specs::convert::FromSpecImpl<Color> for RatatuiColor {
    open spec fn obeys_from_spec() -> bool {
        true
    }

    open spec fn from_spec(c: Color) -> RatatuiColor {
        RatatuiColor::Rgb(c@.0, c@.1, c@.2)
    }
}

/// The decimal digits of `n`, without leading zeros.
pub open spec fn decimal(n: nat) -> Seq<char>
    decreases n,
{
    if n < 10 {
        seq![hex_digit(n as u8)]
    } else {
        decimal(n / 10).push(hex_digit((n % 10) as u8))
    }
}

/// The ANSI sequence that selects the true-colour foreground `(r, g, b)`.
pub open spec fn fg_open(r: u8, g: u8, b: u8) -> Seq<char> {
    seq!['\x1b', '[', '3', '8', ';', '2', ';'] + decimal(r as nat) + seq![';'] + decimal(g as nat)
        + seq![';'] + decimal(b as nat) + seq!['m']
}

/// The ANSI sequence that restores the default foreground.
pub open spec fn fg_close() -> Seq<char> {
    seq!['\x1b', '[', '3', '9', 'm']
}

/// `text` shown in the foreground colour `(r, g, b)`.
pub open spec fn painted(text: Seq<char>, r: u8, g: u8, b: u8) -> Seq<char> {
    fg_open(r, g, b) + text + fg_close()
}

/// Relies on `owo_colors::OwoColorize::truecolor`: its display writes
/// `ESC[38;2;{r};{g};{b}m`, the text, then `ESC[39m`.
#[verifier::external_body]
fn truecolor_text(text: &str, r: u8, g: u8, b: u8) -> (out: String)
    ensures
        out@ == painted(text@, r, g, b),
{
    format!("{}", owo_colors::OwoColorize::truecolor(&text, r, g, b))
}

/// `text` shown in the foreground of `color` (its alpha is not used).
pub fn paint(text: &str, color: Color) -> (out: String)
    ensures
        out@ == painted(text@, color@.0, color@.1, color@.2),
{
    let (r, g, b) = color.rgb_components();
    truecolor_text(text, r, g, b)
}

/// Text that can be shown in the theme's colours.
pub trait ThemeColorize: Sized {
    /// The characters that are shown.
    spec fn shown(&self) -> Seq<char>;

    /// The characters that are shown.
    fn as_text(&self) -> (t: &str)
        ensures
            t@ == self.shown(),
    ;

    /// In the primary text colour.
    fn primary(self) -> (out: String)
        ensures
            out@ == painted(self.shown(), 230, 237, 243),
    {
        paint(self.as_text(), text::primary())
    }

    /// In the secondary text colour.
    fn secondary(self) -> (out: String)
        ensures
            out@ == painted(self.shown(), 139, 148, 158),
    {
        paint(self.as_text(), text::secondary())
    }

    /// In the info status colour.
    fn info(self) -> (out: String)
        ensures
            out@ == painted(self.shown(), 41, 187, 255),
    {
        paint(self.as_text(), status::info())
    }

    /// In the warning status colour.
    fn warning(self) -> (out: String)
        ensures
            out@ == painted(self.shown(), 255, 191, 0),
    {
        paint(self.as_text(), status::warning())
    }

    /// In the error status colour.
    fn error(self) -> (out: String)
        ensures
            out@ == painted(self.shown(), 255, 46, 95),
    {
        paint(self.as_text(), status::error())
    }

    /// In the accent green.
    fn void_green(self) -> (out: String)
        ensures
            out@ == painted(self.shown(), 0, 228, 154),
    {
        paint(self.as_text(), void::green())
    }

    /// In the accent purple.
    fn void_purple(self) -> (out: String)
        ensures
            out@ == painted(self.shown(), 184, 110, 255),
    {
        paint(self.as_text(), void::purple())
    }
}

impl<'a> ThemeColorize for &'a str {
    open spec fn shown(&self) -> Seq<char> {
        (*self)@
    }

    fn as_text(&self) -> (t: &str) {
        *self
    }
}

impl ThemeColorize for String {
    open spec fn shown(&self) -> Seq<char> {
        self@
    }

    fn as_text(&self) -> (t: &str) {
        self.as_str()
    }
}

} // verus!
