//! Version-independent theming value objects that carry no floats.

use vstd::prelude::*;
use crate::error::DomainError;
use crate::shell_version::string_from_range;
use crate::text::{
    ascii_lower, chars_of, char_ascii_lower, is_ascii_hexdigit, is_whitespace, push_char, trim, trim_bounds, trim_end,
    trim_start,
};

verus! {

/// `#` followed by exactly six ASCII hex digits.
pub open spec fn is_hex_color_text(t: Seq<char>) -> bool {
    t.len() == 7 && t[0] == '#' && forall|i: int| 1 <= i < 7 ==> is_ascii_hexdigit(#[trigger] t[i])
}

/// The stored form of a valid input: ASCII-lowercased.
pub open spec fn lower_text(t: Seq<char>) -> Seq<char> {
    Seq::new(t.len(), |i: int| ascii_lower(t[i]))
}

/// Value of one hex digit.
pub open spec fn hex_digit_value(c: char) -> nat {
    if '0' <= c && c <= '9' {
        (c as nat - '0' as nat) as nat
    } else if 'a' <= c && c <= 'f' {
        (c as nat - 'a' as nat + 10) as nat
    } else if 'A' <= c && c <= 'F' {
        (c as nat - 'A' as nat + 10) as nat
    } else {
        0
    }
}

/// Value of the two-digit hex byte at `t[i]`, `t[i + 1]`.
pub open spec fn hex_byte(t: Seq<char>, i: int) -> nat {
    hex_digit_value(t[i]) * 16 + hex_digit_value(t[i + 1])
}

/// A validated `#rrggbb` hex color, stored lowercased.
#[derive(Debug, PartialEq, Eq)]
pub struct HexColor(String);

impl Clone for HexColor {
    fn clone(&self) -> (r: Self)
        ensures
            r@ == self@,
    {
        proof { use_type_invariant(self); }
        HexColor(self.0.clone())
    }
}

impl View for HexColor {
    type V = Seq<char>;

    closed spec fn view(&self) -> Seq<char> {
        self.0@
    }
}

impl HexColor {
    #[verifier::type_invariant]
    spec fn well_formed(self) -> bool {
        is_hex_color_text(self.0@) && self.0@ == lower_text(self.0@)
    }

    /// Validate a `#rrggbb` string (surrounding whitespace ignored).
    /// Malformed input is an `InvalidColor` error carrying the trimmed
    /// text; valid input is stored lowercased.
    pub fn new(hex: &str) -> (r: Result<Self, DomainError>)
        ensures
            match r {
                Ok(c) => is_hex_color_text(trim(hex@)) && c@ == lower_text(trim(hex@)),
                Err(e) => !is_hex_color_text(trim(hex@))
                    && (e matches DomainError::InvalidColor(m) && m@ == trim(hex@)),
            },
    {
        let v = chars_of(hex);
        let (a, b) = trim_bounds(&v);
        let ghost t = v@.subrange(a as int, b as int);
        assert(t == trim(hex@));
        if b - a != 7 || v[a] != '#' {
            return Err(DomainError::InvalidColor(string_from_range(&v, a, b)));
        }
        let mut i: usize = a + 1;
        while i < b
            invariant
                a + 7 == b <= v@.len(),
                a + 1 <= i <= b,
                t == v@.subrange(a as int, b as int),
                t == trim(hex@),
                forall|j: int| 1 <= j < i - a ==> is_ascii_hexdigit(#[trigger] t[j]),
            decreases b - i,
        {
            let c = v[i];
            if !(('0' <= c && c <= '9') || ('a' <= c && c <= 'f') || ('A' <= c && c <= 'F')) {
                proof {
                    assert(t[i - a] == c);
                    assert(!is_ascii_hexdigit(t[i - a]));
                    assert(!is_hex_color_text(t));
                }
                return Err(DomainError::InvalidColor(string_from_range(&v, a, b)));
            }
            i = i + 1;
        }
        let mut s = String::new();
        let mut k = a;
        while k < b
            invariant
                a + 7 == b <= v@.len(),
                a <= k <= b,
                t == v@.subrange(a as int, b as int),
                t == trim(hex@),
                is_hex_color_text(t),
                s@ == lower_text(t).subrange(0, k - a),
            decreases b - k,
        {
            push_char(&mut s, char_ascii_lower(v[k]));
            proof {
                assert(lower_text(t).subrange(0, k + 1 - a) =~= lower_text(t).subrange(0, k - a).push(ascii_lower(t[k - a])));
            }
            k = k + 1;
        }
        proof {
            assert(lower_text(t).subrange(0, 7) =~= lower_text(t));
            assert(lower_text(lower_text(t)) =~= lower_text(t));
        }
        Ok(HexColor(s))
    }

    /// The stored text: `#` and six lowercase hex digits.
    pub fn as_str(&self) -> (r: &str)
        ensures
            r@ == self@,
            is_hex_color_text(r@),
            r@ == lower_text(r@),
    {
        proof { use_type_invariant(self); }
        self.0.as_str()
    }

    /// The `(r, g, b)` channels the digits denote.
    pub fn to_rgb(&self) -> (r: (u8, u8, u8))
        ensures
            r.0 == hex_byte(self@, 1),
            r.1 == hex_byte(self@, 3),
            r.2 == hex_byte(self@, 5),
    {
        proof { use_type_invariant(self); }
        let v = chars_of(self.0.as_str());
        (hex_pair(v[1], v[2]), hex_pair(v[3], v[4]), hex_pair(v[5], v[6]))
    }
}

/// A stored colour reads back as itself: the stored form of valid input
/// (trimmed, lowercased) is valid input again, and is stored unchanged.
pub proof fn lemma_hex_color_stored_form_is_stable(t: Seq<char>)
    requires
        is_hex_color_text(trim(t)),
    ensures
        is_hex_color_text(trim(lower_text(trim(t)))),
        lower_text(trim(lower_text(trim(t)))) == lower_text(trim(t)),
{
    let s = lower_text(trim(t));
    assert(s[0] == '#');
    assert forall|i: int| 1 <= i < 7 implies is_ascii_hexdigit(#[trigger] s[i]) by {
        assert(is_ascii_hexdigit(trim(t)[i]));
    }
    assert(!is_whitespace(s[0]));
    assert(!is_whitespace(s.last())) by {
        assert(is_ascii_hexdigit(s[6]));
    }
    assert(trim_start(s) == s);
    assert(trim_end(s) == s);
    assert(lower_text(s) =~= s);
}

/// The lowercase hex digit for a value below 16.
pub open spec fn hex_digit_char(d: nat) -> char {
    if d < 10 {
        (('0' as nat) + d) as char
    } else {
        (('a' as nat) + d - 10) as char
    }
}

/// `#rrggbb` in lowercase hex, two digits per channel (what
/// `format!("#{:02x}{:02x}{:02x}", r, g, b)` writes).
pub open spec fn rgb_hex_text(r: u8, g: u8, b: u8) -> Seq<char> {
    seq![
        '#',
        hex_digit_char(r as nat / 16),
        hex_digit_char(r as nat % 16),
        hex_digit_char(g as nat / 16),
        hex_digit_char(g as nat % 16),
        hex_digit_char(b as nat / 16),
        hex_digit_char(b as nat % 16),
    ]
}

proof fn lemma_hex_digit_round_trip(c: char)
    requires
        is_ascii_hexdigit(c),
        ascii_lower(c) == c,
    ensures
        hex_digit_value(c) < 16,
        hex_digit_char(hex_digit_value(c)) == c,
{
}

proof fn lemma_hex_pair_round_trip(hi: char, lo: char)
    requires
        is_ascii_hexdigit(hi),
        ascii_lower(hi) == hi,
        is_ascii_hexdigit(lo),
        ascii_lower(lo) == lo,
    ensures
        hex_digit_value(hi) * 16 + hex_digit_value(lo) < 256,
        hex_digit_char((hex_digit_value(hi) * 16 + hex_digit_value(lo)) / 16) == hi,
        hex_digit_char((hex_digit_value(hi) * 16 + hex_digit_value(lo)) % 16) == lo,
{
    lemma_hex_digit_round_trip(hi);
    lemma_hex_digit_round_trip(lo);
    let h = hex_digit_value(hi);
    let l = hex_digit_value(lo);
    assert((h * 16 + l) / 16 == h && (h * 16 + l) % 16 == l) by (nonlinear_arith)
        requires h < 16, l < 16;
}

/// A colour's channels, written back as lowercase `#rrggbb`, give its
/// stored text: `to_rgb` loses nothing.
pub proof fn lemma_rgb_hex_round_trip(t: Seq<char>)
    requires
        is_hex_color_text(t),
        t == lower_text(t),
    ensures
        hex_byte(t, 1) < 256 && hex_byte(t, 3) < 256 && hex_byte(t, 5) < 256,
        rgb_hex_text(hex_byte(t, 1) as u8, hex_byte(t, 3) as u8, hex_byte(t, 5) as u8) == t,
{
    assert forall|i: int| 1 <= i < 7 implies ascii_lower(#[trigger] t[i]) == t[i] by {
        assert(lower_text(t)[i] == ascii_lower(t[i]));
    }
    assert(is_ascii_hexdigit(t[1]) && is_ascii_hexdigit(t[2]) && is_ascii_hexdigit(t[3]));
    assert(is_ascii_hexdigit(t[4]) && is_ascii_hexdigit(t[5]) && is_ascii_hexdigit(t[6]));
    assert(ascii_lower(t[1]) == t[1] && ascii_lower(t[2]) == t[2] && ascii_lower(t[3]) == t[3]);
    assert(ascii_lower(t[4]) == t[4] && ascii_lower(t[5]) == t[5] && ascii_lower(t[6]) == t[6]);
    lemma_hex_pair_round_trip(t[1], t[2]);
    lemma_hex_pair_round_trip(t[3], t[4]);
    lemma_hex_pair_round_trip(t[5], t[6]);
    assert(rgb_hex_text(hex_byte(t, 1) as u8, hex_byte(t, 3) as u8, hex_byte(t, 5) as u8) =~= t);
}

fn hex_digit(c: char) -> (r: u8)
    ensures
        r == hex_digit_value(c),
        r < 16,
{
    if '0' <= c && c <= '9' {
        ((c as u32) - 48) as u8
    } else if 'a' <= c && c <= 'f' {
        ((c as u32) - 87) as u8
    } else if 'A' <= c && c <= 'F' {
        ((c as u32) - 55) as u8
    } else {
        0
    }
}

fn hex_pair(hi: char, lo: char) -> (r: u8)
    ensures
        r == hex_digit_value(hi) * 16 + hex_digit_value(lo),
{
    let h = hex_digit(hi);
    let l = hex_digit(lo);
    h * 16 + l
}

/// Foreground / text color overrides (`None` = Adwaita defaults).
#[derive(Debug, Clone, PartialEq, Default)]
pub struct ForegroundSpec {
    pub window_fg: Option<HexColor>,
    pub view_fg: Option<HexColor>,
    pub headerbar_fg: Option<HexColor>,
    pub headerbar_border: Option<HexColor>,
}

/// Semantic status color overrides (`None` = Adwaita defaults).
#[derive(Debug, Clone, PartialEq, Default)]
pub struct StatusColorSpec {
    pub destructive: Option<HexColor>,
    pub success: Option<HexColor>,
    pub warning: Option<HexColor>,
    pub error: Option<HexColor>,
}

} // verus!
