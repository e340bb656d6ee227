//! `file://` URIs for absolute paths, percent-encoded the way
//! GSettings' URI parser expects.

use vstd::prelude::*;
use vstd::utf8::{encode_scalar, has_width_1_encoding, has_width_2_encoding, has_width_3_encoding, leading_byte_width_1, leading_byte_width_2, leading_byte_width_3, leading_byte_width_4, last_continuation_byte, second_last_continuation_byte, third_last_continuation_byte};
use std::path::Path;
use crate::paths::{lossy_text, path_lossy_text};
use crate::text::{owned, push_char};
use vstd::string::StrSliceExecFns;

verus! {

/// Characters copied verbatim: ASCII letters and digits and `/ - _ . ~`.
pub open spec fn is_uri_safe(c: char) -> bool {
    ('A' <= c && c <= 'Z') || ('a' <= c && c <= 'z') || ('0' <= c && c <= '9') || c == '/' || c == '-'
        || c == '_' || c == '.' || c == '~'
}

/// Uppercase hex digit for `d < 16`.
pub open spec fn hex_upper(d: nat) -> char {
    if d < 10 {
        (('0' as nat) + d) as char
    } else {
        (('A' as nat) + d - 10) as char
    }
}

/// `%XX` for each byte, uppercase hex.
pub open spec fn percent_bytes(bs: Seq<u8>) -> Seq<char>
    decreases bs.len(),
{
    if bs.len() == 0 {
        Seq::empty()
    } else {
        percent_bytes(bs.drop_last()) + seq!['%', hex_upper((bs.last() / 16) as nat), hex_upper((bs.last() % 16) as nat)]
    }
}

/// One character of a path: itself when safe, else its UTF-8 bytes
/// percent-encoded.
pub open spec fn encode_uri_char(c: char) -> Seq<char> {
    if is_uri_safe(c) {
        seq![c]
    } else {
        percent_bytes(encode_scalar(c as u32))
    }
}

pub open spec fn encode_uri_path(s: Seq<char>) -> Seq<char>
    decreases s.len(),
{
    if s.len() == 0 {
        Seq::empty()
    } else {
        encode_uri_path(s.drop_last()) + encode_uri_char(s.last())
    }
}

/// `file://` followed by the percent-encoded path text.
pub open spec fn file_uri_text(path: Seq<char>) -> Seq<char> {
    "file://"@ + encode_uri_path(path)
}

fn hex_digit_upper(d: u8) -> (c: char)
    requires
        d < 16,
    ensures
        c == hex_upper(d as nat),
{
    if d < 10 {
        (d + 48) as char
    } else {
        (d + 55) as char
    }
}

fn utf8_bytes(c: char) -> (r: Vec<u8>)
    ensures
        r@ == encode_scalar(c as u32),
{
    let v = c as u32;
    let mut r: Vec<u8> = Vec::new();
    if v <= 0x7F {
        r.push((v & 0x7F) as u8);
        assert(r@ =~= seq![leading_byte_width_1(v)]);
    } else if v <= 0x7FF {
        r.push(0xC0 | ((v >> 6) & 0x1F) as u8);
        r.push(0x80 | (v & 0x3F) as u8);
        assert(r@ =~= seq![leading_byte_width_2(v), last_continuation_byte(v)]);
    } else if v <= 0xFFFF && !(0xD800 <= v && v <= 0xDFFF) {
        r.push(0xE0 | ((v >> 12) & 0x0F) as u8);
        r.push(0x80 | ((v >> 6) & 0x3F) as u8);
        r.push(0x80 | (v & 0x3F) as u8);
        assert(r@ =~= seq![leading_byte_width_3(v), second_last_continuation_byte(v), last_continuation_byte(v)]);
    } else {
        r.push(0xF0 | ((v >> 18) & 0x7) as u8);
        r.push(0x80 | ((v >> 12) & 0x3F) as u8);
        r.push(0x80 | ((v >> 6) & 0x3F) as u8);
        r.push(0x80 | (v & 0x3F) as u8);
        assert(r@ =~= seq![leading_byte_width_4(v), third_last_continuation_byte(v), second_last_continuation_byte(v), last_continuation_byte(v)]);
    }
    r
}

/// Append `encode_uri_char(c)` to `out`.
fn push_encoded(out: &mut String, c: char)
    ensures
        final(out)@ == old(out)@ + encode_uri_char(c),
{
    if ('A' <= c && c <= 'Z') || ('a' <= c && c <= 'z') || ('0' <= c && c <= '9') || c == '/' || c == '-'
        || c == '_' || c == '.' || c == '~' {
        push_char(out, c);
        return;
    }
    let bytes = utf8_bytes(c);
    let ghost start = out@;
    let mut i: usize = 0;
    while i < bytes.len()
        invariant
            i <= bytes@.len(),
            bytes@ == encode_scalar(c as u32),
            out@ == start + percent_bytes(bytes@.subrange(0, i as int)),
        decreases bytes@.len() - i,
    {
        let b = bytes[i];
        push_char(out, '%');
        push_char(out, hex_digit_upper(b / 16));
        push_char(out, hex_digit_upper(b % 16));
        proof {
            let s = bytes@.subrange(0, i + 1);
            assert(s.drop_last() =~= bytes@.subrange(0, i as int));
            assert(s.last() == b);
        }
        i = i + 1;
    }
    assert(bytes@.subrange(0, i as int) =~= bytes@);
}

/// `file://` plus `path` with every character other than ASCII letters,
/// digits and `/ - _ . ~` replaced by its percent-encoded UTF-8 bytes.
pub fn file_uri_from_text(path: &str) -> (r: String)
    ensures
        r@ == file_uri_text(path@),
{
    let n = path.unicode_len();
    let mut out = owned("file://");
    let mut i: usize = 0;
    while i < n
        invariant
            n == path@.len(),
            i <= n,
            out@ == "file://"@ + encode_uri_path(path@.subrange(0, i as int)),
        decreases n - i,
    {
        let c = path.get_char(i);
        push_encoded(&mut out, c);
        proof {
            let s = path@.subrange(0, i + 1);
            assert(s.drop_last() =~= path@.subrange(0, i as int));
            assert(s.last() == c);
        }
        i = i + 1;
    }
    assert(path@.subrange(0, i as int) =~= path@);
    out
}

/// Convert a path into a `file://` URI (no I/O). Only absolute paths are
/// meant to be passed, so the plain prefix is correct.
pub fn file_uri(p: &Path) -> (r: String)
    ensures
        r@ == file_uri_text(path_lossy_text(p)),
{
    let text = lossy_text(p);
    file_uri_from_text(text.as_str())
}

} // verus!
