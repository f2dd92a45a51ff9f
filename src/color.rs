//! Colours: R's packed colour word and its channels.
//!
//! R stores a colour as a 32-bit word whose lowest byte is red, then green,
//! then blue, and whose highest byte is alpha.
use vstd::prelude::*;

verus! {

/// The colour word with the given channels (each in `0..256`).
pub open spec fn packed_rgba(r: int, g: int, b: int, a: int) -> int {
    r + g * 0x100 + b * 0x1_0000 + a * 0x100_0000
}

/// The signed reading of a 32-bit word (two's complement).
pub open spec fn word_as_i32(w: int) -> int {
    if w < 0x8000_0000 {
        w
    } else {
        w - 0x1_0000_0000
    }
}

proof fn lemma_pack_bits(r: u32, g: u32, b: u32, a: u32)
    requires
        r < 0x100,
        g < 0x100,
        b < 0x100,
        a < 0x100,
    ensures
        (r | g << 8u32 | b << 16u32 | a << 24u32) as int == packed_rgba(
            r as int,
            g as int,
            b as int,
            a as int,
        ),
{
    assert((r | g << 8u32 | b << 16u32 | a << 24u32) == r + g * 0x100 + b * 0x1_0000 + a
        * 0x100_0000) by (bit_vector)
        requires
            r < 0x100,
            g < 0x100,
            b < 0x100,
            a < 0x100,
    ;
}

/// Packs the channels into a word and reads it as R's signed colour.
fn pack(r: u32, g: u32, b: u32, a: u32) -> (c: i32)
    requires
        r < 0x100,
        g < 0x100,
        b < 0x100,
        a < 0x100,
    ensures
        c as int == word_as_i32(packed_rgba(r as int, g as int, b as int, a as int)),
{
    proof {
        lemma_pack_bits(r, g, b, a);
    }
    let w: u32 = r | g << 8u32 | b << 16u32 | a << 24u32;
    if w < 0x8000_0000 {
        w as i32
    } else {
        (w - 0x8000_0000) as i32 - 0x7fff_ffff - 1
    }
}

/// An R colour, as the signed integer that R passes around.
pub struct Color(i32);

impl View for Color {
    type V = int;

    closed spec fn view(&self) -> int {
        self.0 as int
    }
}

impl Color {
    /// The R colour integer.
    pub fn to_i32(&self) -> (r: i32)
        ensures
            r as int == self@,
    {
        self.0
    }

    /// A colour from a CSS-like hex number `0xRRGGBB`, fully opaque.
    pub fn hex(hex: u32) -> (c: Color)
        ensures
            c@ == word_as_i32(
                packed_rgba((hex as int / 0x1_0000) % 0x100, (hex as int / 0x100) % 0x100, hex as int % 0x100, 0xff),
            ),
    {
        let red = (hex >> 16u32) & 0xff;
        let green = (hex >> 8u32) & 0xff;
        let blue = hex & 0xff;
        assert(red == (hex / 0x1_0000) % 0x100) by (bit_vector)
            requires
                red == (hex >> 16u32) & 0xff,
        ;
        assert(green == (hex / 0x100) % 0x100) by (bit_vector)
            requires
                green == (hex >> 8u32) & 0xff,
        ;
        assert(blue == hex % 0x100) by (bit_vector)
            requires
                blue == hex & 0xff,
        ;
        Color(pack(red, green, blue, 0xff))
    }

    /// A colour from a three-digit CSS-like hex number `0xRGB`, fully opaque;
    /// each digit `d` stands for the channel value `d * 17`.
    pub fn hex3(hex: u32) -> (c: Color)
        ensures
            c@ == word_as_i32(
                packed_rgba(
                    ((hex as int / 0x100) % 0x10) * 17,
                    ((hex as int / 0x10) % 0x10) * 17,
                    (hex as int % 0x10) * 17,
                    0xff,
                ),
            ),
    {
        let rd = (hex >> 8u32) & 0xf;
        let gd = (hex >> 4u32) & 0xf;
        let bd = hex & 0xf;
        assert(rd == (hex / 0x100) % 0x10) by (bit_vector)
            requires
                rd == (hex >> 8u32) & 0xf,
        ;
        assert(gd == (hex / 0x10) % 0x10) by (bit_vector)
            requires
                gd == (hex >> 4u32) & 0xf,
        ;
        assert(bd == hex % 0x10) by (bit_vector)
            requires
                bd == hex & 0xf,
        ;
        let red = rd * 0xff / 0x0f;
        let green = gd * 0xff / 0x0f;
        let blue = bd * 0xff / 0x0f;
        Color(pack(red, green, blue, 0xff))
    }

    /// A fully opaque colour from its red, green and blue channels.
    pub fn rgb(red: u8, green: u8, blue: u8) -> (c: Color)
        ensures
            c@ == word_as_i32(packed_rgba(red as int, green as int, blue as int, 0xff)),
    {
        Color(pack(red as u32, green as u32, blue as u32, 0xff))
    }

    /// A colour from its red, green, blue and alpha channels.
    pub fn rgba(red: u8, green: u8, blue: u8, alpha: u8) -> (c: Color)
        ensures
            c@ == word_as_i32(packed_rgba(red as int, green as int, blue as int, alpha as int)),
    {
        Color(pack(red as u32, green as u32, blue as u32, alpha as u32))
    }
}

/// The four channels of a colour, each in `0..256`.
#[derive(Clone, Copy, Debug, PartialEq, Eq, Structural)]
pub struct Rgba {
    pub r: u8,
    pub g: u8,
    pub b: u8,
    pub a: u8,
}

impl Rgba {
    /// The channels of a colour word.
    pub fn from_word(w: u32) -> (c: Rgba)
        ensures
            c.r == w % 0x100,
            c.g == (w / 0x100) % 0x100,
            c.b == (w / 0x1_0000) % 0x100,
            c.a == w / 0x100_0000,
            packed_rgba(c.r as int, c.g as int, c.b as int, c.a as int) == w,
    {
        Rgba {
            r: (w % 0x100) as u8,
            g: ((w / 0x100) % 0x100) as u8,
            b: ((w / 0x1_0000) % 0x100) as u8,
            a: (w / 0x100_0000) as u8,
        }
    }

    /// The colour word of these channels.
    pub fn to_word(&self) -> (w: u32)
        ensures
            w == packed_rgba(self.r as int, self.g as int, self.b as int, self.a as int),
    {
        self.r as u32 + self.g as u32 * 0x100 + self.b as u32 * 0x1_0000 + self.a as u32
            * 0x100_0000
    }
}

/// The value of a hexadecimal digit, or -1 for any other character.
pub open spec fn hex_digit(c: char) -> int {
    if '0' <= c && c <= '9' {
        c as int - '0' as int
    } else if 'a' <= c && c <= 'f' {
        c as int - 'a' as int + 10
    } else if 'A' <= c && c <= 'F' {
        c as int - 'A' as int + 10
    } else {
        -1
    }
}

/// A short CSS-like colour: three (`RGB`) or four (`RGBA`) hex digits.
pub open spec fn is_short_hex_color(s: Seq<char>) -> bool {
    &&& (s.len() == 3 || s.len() == 4)
    &&& forall|i: int| 0 <= i < s.len() ==> hex_digit(#[trigger] s[i]) >= 0
}

/// The colour word of a short hex colour: each digit `d` stands for the
/// channel value `d * 17`; without an alpha digit the colour is opaque.
pub open spec fn short_hex_color_word(s: Seq<char>) -> int {
    packed_rgba(
        hex_digit(s[0]) * 17,
        hex_digit(s[1]) * 17,
        hex_digit(s[2]) * 17,
        if s.len() == 4 {
            hex_digit(s[3]) * 17
        } else {
            0xff
        },
    )
}

fn hex_digit_value(c: char) -> (d: u32)
    requires
        hex_digit(c) >= 0,
    ensures
        d == hex_digit(c),
        d < 16,
{
    if '0' <= c && c <= '9' {
        (c as u32) - ('0' as u32)
    } else if 'a' <= c && c <= 'f' {
        (c as u32) - ('a' as u32) + 10
    } else {
        (c as u32) - ('A' as u32) + 10
    }
}

/// Whether `s` is a short hex colour (see `is_short_hex_color`).
pub fn is_hex_color(s: &str) -> (r: bool)
    ensures
        r == is_short_hex_color(s@),
{
    let n = s.unicode_len();
    if n != 3 && n != 4 {
        return false;
    }
    let mut i: usize = 0;
    while i < n
        invariant
            n == s@.len(),
            i <= n,
            forall|k: int| 0 <= k < i ==> hex_digit(#[trigger] s@[k]) >= 0,
        decreases n - i,
    {
        let c = s.get_char(i);
        if !(('0' <= c && c <= '9') || ('a' <= c && c <= 'f') || ('A' <= c && c <= 'F')) {
            return false;
        }
        i = i + 1;
    }
    true
}

/// The colour word of a short hex colour such as `"f00"` or `"f008"`.
pub fn hex_color_to_u32(x: &str) -> (w: u32)
    requires
        is_short_hex_color(x@),
    ensures
        w == short_hex_color_word(x@),
{
    let n = x.unicode_len();
    let r = hex_digit_value(x.get_char(0)) * 17;
    let g = hex_digit_value(x.get_char(1)) * 17;
    let b = hex_digit_value(x.get_char(2)) * 17;
    let a = if n == 4 {
        hex_digit_value(x.get_char(3)) * 17
    } else {
        0xff
    };
    r + g * 0x100 + b * 0x1_0000 + a * 0x100_0000
}

} // verus!
