//! The pixel value: a packed RGBA color, and the hex wire encoding
//! (`RGB`, `RRGGBB` or `RRGGBBAA`) that the protocol accepts for it.

use vstd::prelude::*;

verus! {

/// One canvas cell: four color channels, one byte each. The packed form
/// (see [`RGBAPixel::into_rgba`]) keeps a fixed, platform-independent
/// channel order: red in the lowest byte, alpha in the highest.
#[derive(Clone, Copy, PartialEq, Eq, Structural, Debug)]
pub struct RGBAPixel {
    pub r: u8,
    pub g: u8,
    pub b: u8,
    pub a: u8,
}

impl RGBAPixel {
    /// The four channels as one 32-bit word, red lowest, alpha highest.
    pub open spec fn spec_packed(self) -> u32 {
        (self.r + self.g * 0x100 + self.b * 0x1_0000 + self.a * 0x100_0000) as u32
    }

    /// An opaque color: alpha defaults to fully covering.
    pub fn new_rgb(r: u8, g: u8, b: u8) -> (p: Self)
        ensures
            p == (RGBAPixel { r, g, b, a: 0xFF }),
    {
        RGBAPixel { r, g, b, a: 0xFF }
    }

    /// A color with an explicit alpha channel. The alpha byte is stored
    /// with the color; merging overwrites rather than blends (see
    /// [`crate::canvas::PixelflutImage::combine_with`]).
    pub fn new_rgba(r: u8, g: u8, b: u8, a: u8) -> (p: Self)
        ensures
            p == (RGBAPixel { r, g, b, a }),
    {
        RGBAPixel { r, g, b, a }
    }

    /// The packed 32-bit form of the color, independent of host byte order.
    pub fn into_rgba(&self) -> (w: u32)
        ensures
            w == self.spec_packed(),
    {
        let w: u32 = (self.r as u32) | ((self.g as u32) << 8) | ((self.b as u32) << 16)
            | ((self.a as u32) << 24);
        proof {
            let (r, g, b, a) = (self.r, self.g, self.b, self.a);
            assert((r as u32) | ((g as u32) << 8) | ((b as u32) << 16) | ((a as u32) << 24)
                == (r + g * 0x100 + b * 0x1_0000 + a * 0x100_0000) as u32) by (bit_vector);
        }
        w
    }
}

impl Default for RGBAPixel {
    /// The initial canvas color: transparent black, all channels zero.
    fn default() -> (p: Self)
        ensures
            p == (RGBAPixel { r: 0u8, g: 0u8, b: 0u8, a: 0u8 }),
    {
        RGBAPixel { r: 0, g: 0, b: 0, a: 0 }
    }
}

/// Whether `c` is an ASCII hex digit, either case.
pub open spec fn is_hex_digit(c: u8) -> bool {
    ('0' as u8) <= c <= ('9' as u8) || ('A' as u8) <= c <= ('F' as u8) || ('a' as u8) <= c <= (
    'f' as u8)
}

/// The value of the hex digit `c` (meaningful only when `is_hex_digit(c)`).
pub open spec fn hex_val(c: u8) -> u8 {
    if ('0' as u8) <= c <= ('9' as u8) {
        (c - ('0' as u8)) as u8
    } else if ('A' as u8) <= c <= ('F' as u8) {
        (c - ('A' as u8) + 10) as u8
    } else {
        (c - ('a' as u8) + 10) as u8
    }
}

/// The byte spelled by the two hex digits `hi`, `lo`.
pub open spec fn spec_hex_pair(hi: u8, lo: u8) -> u8 {
    (hex_val(hi) * 16 + hex_val(lo)) as u8
}

/// What [`parse_rgba`] returns: a pixel exactly when the input is 3, 6 or 8
/// hex digits. The 3-digit form takes each single digit as the channel value
/// (`F` decodes to `0x0F`, not `0xFF`); the 6-digit form defaults alpha to
/// fully covering; the 8-digit form carries an explicit alpha pair.
pub open spec fn spec_parse_rgba(s: Seq<u8>) -> Option<RGBAPixel> {
    if s.len() == 6 {
        if is_hex_digit(s[0]) && is_hex_digit(s[1]) && is_hex_digit(s[2]) && is_hex_digit(s[3])
            && is_hex_digit(s[4]) && is_hex_digit(s[5]) {
            Some(
                RGBAPixel {
                    r: spec_hex_pair(s[0], s[1]),
                    g: spec_hex_pair(s[2], s[3]),
                    b: spec_hex_pair(s[4], s[5]),
                    a: 0xFF,
                },
            )
        } else {
            None
        }
    } else if s.len() == 8 {
        if is_hex_digit(s[0]) && is_hex_digit(s[1]) && is_hex_digit(s[2]) && is_hex_digit(s[3])
            && is_hex_digit(s[4]) && is_hex_digit(s[5]) && is_hex_digit(s[6]) && is_hex_digit(
            s[7],
        ) {
            Some(
                RGBAPixel {
                    r: spec_hex_pair(s[0], s[1]),
                    g: spec_hex_pair(s[2], s[3]),
                    b: spec_hex_pair(s[4], s[5]),
                    a: spec_hex_pair(s[6], s[7]),
                },
            )
        } else {
            None
        }
    } else if s.len() == 3 {
        if is_hex_digit(s[0]) && is_hex_digit(s[1]) && is_hex_digit(s[2]) {
            Some(RGBAPixel { r: hex_val(s[0]), g: hex_val(s[1]), b: hex_val(s[2]), a: 0xFF })
        } else {
            None
        }
    } else {
        None
    }
}

/// The uppercase hex digit spelling the value `v` (meaningful for `v < 16`).
pub open spec fn hex_digit(v: u8) -> u8 {
    if v < 10 {
        (48 + v) as u8
    } else {
        (55 + v) as u8
    }
}

/// The two-digit uppercase hex spelling of the byte `v`.
pub open spec fn spec_hex_byte(v: u8) -> Seq<u8> {
    seq![hex_digit(v / 16), hex_digit(v % 16)]
}

/// The 8-digit hex spelling of a pixel, channel order red, green, blue,
/// alpha.
pub open spec fn spec_hex8(p: RGBAPixel) -> Seq<u8> {
    spec_hex_byte(p.r) + spec_hex_byte(p.g) + spec_hex_byte(p.b) + spec_hex_byte(p.a)
}

/// A digit's spelling is a hex digit and spells the digit's value back.
pub proof fn lemma_hex_digit(v: u8)
    requires
        v < 16,
    ensures
        is_hex_digit(hex_digit(v)),
        hex_val(hex_digit(v)) == v,
{
}

/// Law: decoding succeeds on exactly the strings of 3, 6 or 8 hex
/// digits; any other length, or any non-hex byte, fails.
pub proof fn lemma_parse_rgba_total(s: Seq<u8>)
    ensures
        spec_parse_rgba(s) is Some <==> ((s.len() == 3 || s.len() == 6 || s.len() == 8) && (
        forall|i: int| 0 <= i < s.len() ==> is_hex_digit(#[trigger] s[i]))),
{
    if spec_parse_rgba(s) is Some {
        assert forall|i: int| 0 <= i < s.len() implies is_hex_digit(#[trigger] s[i]) by {
            if s.len() == 3 {
                assert(i == 0 || i == 1 || i == 2);
            } else if s.len() == 6 {
                assert(i == 0 || i == 1 || i == 2 || i == 3 || i == 4 || i == 5);
            } else {
                assert(i == 0 || i == 1 || i == 2 || i == 3 || i == 4 || i == 5 || i == 6 || i
                    == 7);
            }
        }
    }
}

/// Law: decoding round-trips channel values exactly — the 8-digit hex
/// spelling of any pixel decodes to that very pixel.
pub proof fn lemma_hex_color_round_trip(p: RGBAPixel)
    ensures
        spec_parse_rgba(spec_hex8(p)) == Some(p),
{
    let s = spec_hex8(p);
    lemma_hex_digit(p.r / 16);
    lemma_hex_digit(p.r % 16);
    lemma_hex_digit(p.g / 16);
    lemma_hex_digit(p.g % 16);
    lemma_hex_digit(p.b / 16);
    lemma_hex_digit(p.b % 16);
    lemma_hex_digit(p.a / 16);
    lemma_hex_digit(p.a % 16);
    assert(s.len() == 8);
    assert(s[0] == hex_digit(p.r / 16) && s[1] == hex_digit(p.r % 16));
    assert(s[2] == hex_digit(p.g / 16) && s[3] == hex_digit(p.g % 16));
    assert(s[4] == hex_digit(p.b / 16) && s[5] == hex_digit(p.b % 16));
    assert(s[6] == hex_digit(p.a / 16) && s[7] == hex_digit(p.a % 16));
    assert(spec_hex_pair(s[0], s[1]) == p.r);
    assert(spec_hex_pair(s[2], s[3]) == p.g);
    assert(spec_hex_pair(s[4], s[5]) == p.b);
    assert(spec_hex_pair(s[6], s[7]) == p.a);
}

/// Decode one ASCII hex digit, either case.
pub fn parse_hex1(hx_char: u8) -> (r: Option<u8>)
    ensures
        r == if is_hex_digit(hx_char) {
            Some(hex_val(hx_char))
        } else {
            None::<u8>
        },
{
    if hx_char >= ('0' as u8) && hx_char <= ('9' as u8) {
        Some(hx_char - ('0' as u8))
    } else if hx_char >= ('A' as u8) && hx_char <= ('F' as u8) {
        Some(hx_char - ('A' as u8) + 10u8)
    } else if hx_char >= ('a' as u8) && hx_char <= ('f' as u8) {
        Some(hx_char - ('a' as u8) + 10u8)
    } else {
        None
    }
}

/// Decode a pair of hex digits into one byte, high digit first.
pub fn parse_hex2(hx_hi: u8, hx_lo: u8) -> (r: Option<u8>)
    ensures
        r == if is_hex_digit(hx_hi) && is_hex_digit(hx_lo) {
            Some(spec_hex_pair(hx_hi, hx_lo))
        } else {
            None::<u8>
        },
{
    let hi = match parse_hex1(hx_hi) {
        Some(v) => v,
        None => {
            return None;
        },
    };
    let lo = match parse_hex1(hx_lo) {
        Some(v) => v,
        None => {
            return None;
        },
    };
    proof {
        assert(hi <= 15 && lo <= 15 ==> ((hi << 4) | lo) == (hi * 16 + lo) as u8)
            by (bit_vector);
    }
    Some((hi << 4) | lo)
}

/// Decode a hex color: exactly 3, 6 or 8 hex digits, any other input fails.
pub fn parse_rgba(w_rgba: &[u8]) -> (r: Option<RGBAPixel>)
    ensures
        r == spec_parse_rgba(w_rgba@),
{
    if w_rgba.len() == 6 {
        let r = match parse_hex2(w_rgba[0], w_rgba[1]) {
            Some(v) => v,
            None => {
                return None;
            },
        };
        let g = match parse_hex2(w_rgba[2], w_rgba[3]) {
            Some(v) => v,
            None => {
                return None;
            },
        };
        let b = match parse_hex2(w_rgba[4], w_rgba[5]) {
            Some(v) => v,
            None => {
                return None;
            },
        };
        Some(RGBAPixel::new_rgb(r, g, b))
    } else if w_rgba.len() == 8 {
        let r = match parse_hex2(w_rgba[0], w_rgba[1]) {
            Some(v) => v,
            None => {
                return None;
            },
        };
        let g = match parse_hex2(w_rgba[2], w_rgba[3]) {
            Some(v) => v,
            None => {
                return None;
            },
        };
        let b = match parse_hex2(w_rgba[4], w_rgba[5]) {
            Some(v) => v,
            None => {
                return None;
            },
        };
        let a = match parse_hex2(w_rgba[6], w_rgba[7]) {
            Some(v) => v,
            None => {
                return None;
            },
        };
        Some(RGBAPixel::new_rgba(r, g, b, a))
    } else if w_rgba.len() == 3 {
        let r = match parse_hex1(w_rgba[0]) {
            Some(v) => v,
            None => {
                return None;
            },
        };
        let g = match parse_hex1(w_rgba[1]) {
            Some(v) => v,
            None => {
                return None;
            },
        };
        let b = match parse_hex1(w_rgba[2]) {
            Some(v) => v,
            None => {
                return None;
            },
        };
        Some(RGBAPixel { r, g, b, a: 0xFF })
    } else {
        None
    }
}

} // verus!
