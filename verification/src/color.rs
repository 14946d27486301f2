//! Colour handling: parsing `#rrggbb` theme strings into plain RGB values
//! and rendering the terminal colour-code fragment for the accent colour.

use vstd::prelude::*;
use crate::text::{chars_of, dec_digits, u64_string};

verus! {

/// A colour as plain red, green and blue components.
#[derive(Debug, Clone, Copy, PartialEq, Eq, Structural)]
pub struct Rgb {
    pub r: u8,
    pub g: u8,
    pub b: u8,
}

pub open spec fn is_hex_digit_char(c: char) -> bool {
    ('0' <= c && c <= '9') || ('a' <= c && c <= 'f') || ('A' <= c && c <= 'F')
}

/// The value of a hexadecimal digit.
pub open spec fn hex_val(c: char) -> int {
    if '0' <= c && c <= '9' {
        c as int - '0' as int
    } else if 'a' <= c && c <= 'f' {
        10 + (c as int - 'a' as int)
    } else {
        10 + (c as int - 'A' as int)
    }
}

/// `s` without its leading `#` characters.
pub open spec fn drop_hashes(s: Seq<char>) -> Seq<char>
    decreases s.len(),
{
    if s.len() > 0 && s[0] == '#' {
        drop_hashes(s.drop_first())
    } else {
        s
    }
}

/// The colour a hexadecimal theme string denotes: after dropping leading `#`
/// characters, exactly six hexadecimal digits, two per component.
pub open spec fn color_of_hex(s: Seq<char>) -> Option<Rgb> {
    let t = drop_hashes(s);
    if t.len() == 6 && is_hex_digit_char(t[0]) && is_hex_digit_char(t[1]) && is_hex_digit_char(
        t[2],
    ) && is_hex_digit_char(t[3]) && is_hex_digit_char(t[4]) && is_hex_digit_char(t[5]) {
        Some(
            Rgb {
                r: (16 * hex_val(t[0]) + hex_val(t[1])) as u8,
                g: (16 * hex_val(t[2]) + hex_val(t[3])) as u8,
                b: (16 * hex_val(t[4]) + hex_val(t[5])) as u8,
            },
        )
    } else {
        None
    }
}

/// The value of one hexadecimal digit, or `None` for any other character.
fn hex_digit(c: char) -> (r: Option<u8>)
    ensures
        r is Some <==> is_hex_digit_char(c),
        r is Some ==> r->0 == hex_val(c) && r->0 < 16,
{
    if '0' <= c && c <= '9' {
        Some((c as u32 - '0' as u32) as u8)
    } else if 'a' <= c && c <= 'f' {
        Some((10 + (c as u32 - 'a' as u32)) as u8)
    } else if 'A' <= c && c <= 'F' {
        Some((10 + (c as u32 - 'A' as u32)) as u8)
    } else {
        None
    }
}

/// Parses a `#rrggbb` (or `rrggbb`) string into its colour.
pub fn parse_color(hex: &str) -> (res: Option<Rgb>)
    ensures
        res == color_of_hex(hex@),
{
    let v = chars_of(hex);
    let mut i: usize = 0;
    proof {
        assert(v@.skip(0) =~= v@);
    }
    while i < v.len() && v[i] == '#'
        invariant
            i <= v.len(),
            drop_hashes(v@) == drop_hashes(v@.skip(i as int)),
        decreases v.len() - i,
    {
        proof {
            assert(v@.skip(i as int).drop_first() =~= v@.skip(i + 1));
        }
        i += 1;
    }
    proof {
        assert(drop_hashes(v@.skip(i as int)) == v@.skip(i as int));
    }
    let ghost t = drop_hashes(v@);
    if v.len() - i != 6 {
        return None;
    }
    proof {
        assert(t.len() == 6);
        assert(forall|k: int| 0 <= k < 6 ==> t[k] == v@[i + k]);
    }
    let d0 = hex_digit(v[i]);
    let d1 = hex_digit(v[i + 1]);
    let d2 = hex_digit(v[i + 2]);
    let d3 = hex_digit(v[i + 3]);
    let d4 = hex_digit(v[i + 4]);
    let d5 = hex_digit(v[i + 5]);
    match (d0, d1, d2, d3, d4, d5) {
        (Some(h0), Some(h1), Some(h2), Some(h3), Some(h4), Some(h5)) => Some(
            Rgb { r: 16 * h0 + h1, g: 16 * h2 + h3, b: 16 * h4 + h5 },
        ),
        _ => None,
    }
}

/// The `38;2;r;g;b` colour-code fragment for the accent colour, or the
/// default purple when no accent colour is configured.
pub open spec fn color_code_spec(accent: Option<Rgb>) -> Seq<char> {
    match accent {
        Some(c) => "38;2;"@ + dec_digits(c.r as nat) + ";"@ + dec_digits(c.g as nat) + ";"@
            + dec_digits(c.b as nat),
        None => "38;2;128;0;128"@,
    }
}

/// Renders the colour-code fragment used in styled display lines.
pub fn color_code(accent: Option<Rgb>) -> (r: String)
    ensures
        r@ == color_code_spec(accent),
{
    match accent {
        Some(c) => {
            let mut s = String::from_str("38;2;");
            let rs = u64_string(c.r as u64);
            s.append(rs.as_str());
            s.append(";");
            let gs = u64_string(c.g as u64);
            s.append(gs.as_str());
            s.append(";");
            let bs = u64_string(c.b as u64);
            s.append(bs.as_str());
            proof {
                assert(s@ =~= color_code_spec(accent));
            }
            s
        },
        None => String::from_str("38;2;128;0;128"),
    }
}

} // verus!
