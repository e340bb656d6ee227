//! GNOME Shell version value object.

use vstd::prelude::*;
use crate::error::DomainError;
use crate::text::{
    all_digits, chars_of, decimal, first_index_of, is_first_index, is_whitespace, lemma_decimal_round_trip,
    lemma_first_index_unique, parse_u32_range, parse_u32_spec, push_char, trim, trim_bounds, trim_end, trim_start,
    u32_to_text,
};

verus! {

/// A GNOME Shell version (for example, 46 or 47.1).
///
/// Value object — immutable after construction.
#[derive(Debug, Clone, Copy, PartialEq, Eq, Hash, PartialOrd, Ord)]
pub struct ShellVersion {
    pub major: u32,
    pub minor: u32,
}

/// What `ShellVersion::parse` reads from `s`: after trimming, either
/// `MAJOR.MINOR` split at the first `.`, or a bare `MAJOR` with minor 0;
/// each part as `str::parse::<u32>` accepts it.
pub open spec fn parse_version_spec(s: Seq<char>) -> Option<(u32, u32)> {
    let t = trim(s);
    match first_index_of(t, '.') {
        Some(i) => match (parse_u32_spec(t.subrange(0, i)), parse_u32_spec(t.subrange(i + 1, t.len() as int))) {
            (Some(a), Some(b)) => Some((a, b)),
            _ => None,
        },
        None => match parse_u32_spec(t) {
            Some(a) => Some((a, 0u32)),
            None => None,
        },
    }
}

/// The text form: `MAJOR` when the minor is 0, else `MAJOR.MINOR`.
pub open spec fn version_text(major: u32, minor: u32) -> Seq<char> {
    if minor == 0 {
        decimal(major as nat)
    } else {
        decimal(major as nat) + seq!['.'] + decimal(minor as nat)
    }
}

/// A fresh `String` holding `v[a..b]`.
pub fn string_from_range(v: &Vec<char>, a: usize, b: usize) -> (s: String)
    requires
        a <= b <= v@.len(),
    ensures
        s@ == v@.subrange(a as int, b as int),
{
    let mut s = String::new();
    let mut i = a;
    while i < b
        invariant
            a <= i <= b <= v@.len(),
            s@ == v@.subrange(a as int, i as int),
        decreases b - i,
    {
        push_char(&mut s, v[i]);
        proof {
            assert(v@.subrange(a as int, i + 1) =~= v@.subrange(a as int, i as int).push(v@[i as int]));
        }
        i = i + 1;
    }
    s
}

/// The first index `i` in `v[a..b]` holding `c`, relative to `a`.
pub fn find_char_in_range(v: &Vec<char>, a: usize, b: usize, c: char) -> (r: Option<usize>)
    requires
        a <= b <= v@.len(),
    ensures
        match r {
            Some(i) => first_index_of(v@.subrange(a as int, b as int), c) == Some(i as int),
            None => first_index_of(v@.subrange(a as int, b as int), c) is None,
        },
{
    let ghost t = v@.subrange(a as int, b as int);
    let mut i = a;
    while i < b
        invariant
            a <= i <= b <= v@.len(),
            t == v@.subrange(a as int, b as int),
            forall|j: int| 0 <= j < i - a ==> t[j] != c,
        decreases b - i,
    {
        if v[i] == c {
            proof {
                let k = (i - a) as int;
                assert(is_first_index(t, c, k));
                let w = choose|w: int| is_first_index(t, c, w);
                lemma_first_index_unique(t, c, k, w);
            }
            return Some(i - a);
        }
        i = i + 1;
    }
    proof {
        assert(!exists|k: int| is_first_index(t, c, k)) by {
            if exists|k: int| is_first_index(t, c, k) {
                let k = choose|k: int| is_first_index(t, c, k);
                assert(t[k] != c);
            }
        }
    }
    None
}

impl ShellVersion {
    pub fn new(major: u32, minor: u32) -> (v: Self)
        ensures
            v.major == major,
            v.minor == minor,
    {
        ShellVersion { major, minor }
    }

    /// Parse from a version string like `"47"` or `"47.1"`. Surrounding
    /// whitespace is ignored; anything else that is not a version is an
    /// `InvalidShellVersion` error carrying the trimmed input.
    pub fn parse(s: &str) -> (r: Result<Self, DomainError>)
        ensures
            match r {
                Ok(v) => parse_version_spec(s@) == Some((v.major, v.minor)),
                Err(e) => parse_version_spec(s@) is None
                    && (e matches DomainError::InvalidShellVersion(m) && m@ == trim(s@)),
            },
    {
        let v = chars_of(s);
        let (a, b) = trim_bounds(&v);
        let ghost t = v@.subrange(a as int, b as int);
        match find_char_in_range(&v, a, b, '.') {
            Some(i) => {
                proof {
                    assert(v@.subrange(a as int, a + i) =~= t.subrange(0, i as int));
                    assert(v@.subrange(a + i + 1, b as int) =~= t.subrange(i + 1, t.len() as int));
                }
                let major = parse_u32_range(&v, a, a + i);
                let minor = parse_u32_range(&v, a + i + 1, b);
                match (major, minor) {
                    (Some(x), Some(y)) => Ok(ShellVersion { major: x, minor: y }),
                    _ => Err(DomainError::InvalidShellVersion(string_from_range(&v, a, b))),
                }
            },
            None => {
                match parse_u32_range(&v, a, b) {
                    Some(x) => Ok(ShellVersion { major: x, minor: 0 }),
                    None => Err(DomainError::InvalidShellVersion(string_from_range(&v, a, b))),
                }
            },
        }
    }

    /// Extensions built for shell N generally work on N.x but not on N+1.
    pub fn is_compatible_with(&self, target: &ShellVersion) -> (r: bool)
        ensures
            r == (self.major == target.major),
    {
        self.major == target.major
    }

    /// Text form used for display: `47` or `46.3`.
    pub fn to_string(&self) -> (s: String)
        ensures
            s@ == version_text(self.major, self.minor),
    {
        let mut s = u32_to_text(self.major);
        if self.minor != 0 {
            push_char(&mut s, '.');
            let m = u32_to_text(self.minor);
            s.append(m.as_str());
        }
        s
    }
}

proof fn lemma_decimal_parses(n: u32)
    ensures
        parse_u32_spec(decimal(n as nat)) == Some(n),
        all_digits(decimal(n as nat)),
        decimal(n as nat).len() > 0,
{
    lemma_decimal_round_trip(n as nat);
    let d = decimal(n as nat);
    assert(crate::text::is_digit(d[0]));
}

/// A version's text form parses back to the same version.
pub proof fn lemma_version_text_round_trip(major: u32, minor: u32)
    ensures
        parse_version_spec(version_text(major, minor)) == Some((major, minor)),
{
    let a = decimal(major as nat);
    let b = decimal(minor as nat);
    lemma_decimal_parses(major);
    lemma_decimal_parses(minor);
    let t = version_text(major, minor);
    assert(crate::text::is_digit(a[0]));
    assert(t[0] == a[0]);
    assert(crate::text::is_digit(t.last())) by {
        if minor == 0 {
            assert(t.last() == a[a.len() - 1]);
        } else {
            assert(t.last() == b[b.len() - 1]);
        }
    }
    assert(!is_whitespace(t[0]));
    assert(!is_whitespace(t.last()));
    assert(trim_start(t) == t);
    assert(trim_end(t) == t);
    assert(trim(t) == t);
    if minor == 0 {
        assert(t == a);
        assert(!exists|i: int| is_first_index(t, '.', i)) by {
            if exists|i: int| is_first_index(t, '.', i) {
                let i = choose|i: int| is_first_index(t, '.', i);
                assert(crate::text::is_digit(a[i]));
            }
        }
        assert(first_index_of(t, '.') is None);
    } else {
        let k = a.len() as int;
        assert(t == a + seq!['.'] + b);
        assert(is_first_index(t, '.', k)) by {
            assert forall|j: int| 0 <= j < k implies t[j] != '.' by {
                assert(t[j] == a[j]);
                assert(crate::text::is_digit(a[j]));
            }
        }
        let f = choose|i: int| is_first_index(t, '.', i);
        lemma_first_index_unique(t, '.', f, k);
        assert(first_index_of(t, '.') == Some(k));
        assert(t.subrange(0, k) =~= a);
        assert(t.subrange(k + 1, t.len() as int) =~= b);
    }
}

} // verus!
