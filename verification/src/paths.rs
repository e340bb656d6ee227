//! File-system path values carried through the library.

use vstd::prelude::*;
use std::path::{Path, PathBuf};
use vstd::string::StrSliceExecFns;

verus! {

#[verifier::external_type_specification]
#[verifier::external_body]
pub struct ExPathBuf(PathBuf);

#[verifier::external_type_specification]
#[verifier::external_body]
pub struct ExPath(Path);

/// `PathBuf::clone`: a copy of the same path.
pub assume_specification[ <PathBuf as Clone>::clone ](p: &PathBuf) -> (r: PathBuf)
    ensures
        r == *p,
;

/// The path `PathBuf::from` makes of a string.
pub uninterp spec fn path_from_text(s: Seq<char>) -> PathBuf;

/// Whether `Path::is_absolute` holds of a path.
pub uninterp spec fn path_is_absolute(p: PathBuf) -> bool;

/// The text `Path::to_string_lossy` gives for a path.
pub uninterp spec fn path_lossy_text(p: &Path) -> Seq<char>;

/// `PathBuf::from(String)`: the path spelled by `s`. On Unix, which is
/// what this library targets, such a path is absolute exactly when the
/// text begins with the root `/`.
#[verifier::external_body]
pub(crate) fn path_from_string(s: String) -> (r: PathBuf)
    ensures
        r == path_from_text(s@),
        path_is_absolute(r) == (s@.len() > 0 && s@[0] == '/'),
{
    PathBuf::from(s)
}

/// `Path::is_absolute` of a `PathBuf`.
#[verifier::external_body]
pub(crate) fn is_absolute(p: &PathBuf) -> (r: bool)
    ensures
        r == path_is_absolute(*p),
{
    p.is_absolute()
}

/// `Path::to_string_lossy`, owned.
#[verifier::external_body]
pub(crate) fn lossy_text(p: &Path) -> (r: String)
    ensures
        r@ == path_lossy_text(p),
{
    p.to_string_lossy().into_owned()
}

/// The text of `base.join(part)` on Unix: an absolute `part` replaces
/// `base`; otherwise a `/` separates them unless `base` is empty or
/// already ends in one.
pub open spec fn join_text(base: Seq<char>, part: Seq<char>) -> Seq<char> {
    if part.len() > 0 && part[0] == '/' {
        part
    } else if base.len() > 0 && base.last() != '/' {
        base + seq!['/'] + part
    } else {
        base + part
    }
}

/// `join_text` on strings.
pub fn join_path_text(base: &str, part: &str) -> (r: String)
    ensures
        r@ == join_text(base@, part@),
{
    let n = base.unicode_len();
    let m = part.unicode_len();
    if m > 0 && part.get_char(0) == '/' {
        return part.to_owned();
    }
    let mut s = base.to_owned();
    if n > 0 && base.get_char(n - 1) != '/' {
        crate::text::push_char(&mut s, '/');
    }
    s.append(part);
    s
}

} // verus!
