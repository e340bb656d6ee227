//! Login-screen (GDM) theming rules: validation of what crosses the
//! privilege boundary, where the dconf snippet lives, what it holds,
//! and how our own snippet is recognised.

use vstd::prelude::*;
use std::path::PathBuf;
use crate::color::{nearest_accent_id_rgb, nearest_accent_text};
use crate::error::{AppError, DomainError};
use crate::paths::{join_path_text, join_text, path_from_string, path_from_text};
use crate::text::{contains_text, decimal, is_ascii_alphanumeric, owned, str_contains_str, trim, usize_to_text};
use crate::theme_spec::{hex_byte, is_hex_color_text, lower_text, HexColor};
use vstd::string::StrSliceExecFns;

verus! {

/// File name of the dconf.d snippet; `90-` orders it after distro
/// defaults so our overrides win.
pub const GDM_DCONF_SNIPPET_FILENAME: &'static str = "90-gnome-x";

/// The dconf database directory for GDM.
pub const GDM_DCONF_DB_DIR: &'static str = "/etc/dconf/db/gdm.d";

/// The managed-region marker embedded in every snippet we author.
pub const GDM_MANAGED_MARKER: &'static str = "GNOME X";

/// Maximum length, in bytes, of a theme name.
pub const MAX_THEME_NAME_LEN: usize = 64;

/// `{c:?}`: the `Debug` rendering of a character.
pub uninterp spec fn char_debug_text(c: char) -> Seq<char>;

#[verifier::external_body]
fn char_debug(c: char) -> (r: String)
    ensures
        r@ == char_debug_text(c),
{
    format!("{c:?}")
}

/// Characters allowed in a theme name: `[A-Za-z0-9._-]`.
pub open spec fn theme_name_char_ok(c: char) -> bool {
    is_ascii_alphanumeric(c) || c == '.' || c == '_' || c == '-'
}

/// Index of the first disallowed character.
pub open spec fn is_first_bad_char(name: Seq<char>, i: int) -> bool {
    0 <= i < name.len() && !theme_name_char_ok(name[i])
        && forall|j: int| 0 <= j < i ==> theme_name_char_ok(#[trigger] name[j])
}

/// Why a theme name (of `byte_len` UTF-8 bytes) is refused, checked in
/// order: empty, longer than [`MAX_THEME_NAME_LEN`] bytes, holding `..`, then the first character
/// outside `[A-Za-z0-9._-]`; `None` when it is accepted.
pub open spec fn theme_name_problem(name: Seq<char>, byte_len: usize) -> Option<Seq<char>> {
    if name.len() == 0 {
        Some("gdm theme name is empty"@)
    } else if byte_len > 64 {
        Some("gdm theme name too long ("@ + decimal(byte_len as nat) + " > 64)"@)
    } else if contains_text(name, ".."@) {
        Some("gdm theme name contains path traversal"@)
    } else if exists|i: int| is_first_bad_char(name, i) {
        Some("gdm theme name contains disallowed character: "@
            + char_debug_text(name[choose|i: int| is_first_bad_char(name, i)]))
    } else {
        None
    }
}

/// Validate a shell-theme name before it reaches the elevated helper:
/// no paths, traversal, shell metacharacters or whitespace can pass.
pub fn validate_theme_name(name: &str) -> (r: Result<&str, AppError>)
    ensures
        match theme_name_problem(name@, name.len()) {
            None => r matches Ok(n) && n@ == name@,
            Some(msg) => r matches Err(AppError::Settings(m)) && m@ == msg,
        },
{
    let n = name.unicode_len();
    if n == 0 {
        return Err(AppError::Settings(owned("gdm theme name is empty")));
    }
    let bytes = name.len();
    if bytes > MAX_THEME_NAME_LEN {
        let mut msg = owned("gdm theme name too long (");
        let num = usize_to_text(bytes);
        msg.append(num.as_str());
        msg.append(" > 64)");
        return Err(AppError::Settings(msg));
    }
    if str_contains_str(name, "..") {
        return Err(AppError::Settings(owned("gdm theme name contains path traversal")));
    }
    let mut i: usize = 0;
    while i < n
        invariant
            n == name@.len(),
            n > 0,
            name.len() <= 64,
            !contains_text(name@, ".."@),
            i <= n,
            forall|j: int| 0 <= j < i ==> theme_name_char_ok(#[trigger] name@[j]),
        decreases n - i,
    {
        let ch = name.get_char(i);
        let ok = ('a' <= ch && ch <= 'z') || ('A' <= ch && ch <= 'Z') || ('0' <= ch && ch <= '9')
            || ch == '.' || ch == '_' || ch == '-';
        if !ok {
            proof {
                assert(is_first_bad_char(name@, i as int));
                let k = choose|k: int| is_first_bad_char(name@, k);
                if k < i {
                    assert(theme_name_char_ok(name@[k]));
                } else if k > i {
                    assert(theme_name_char_ok(name@[i as int]));
                }
            }
            let mut msg = owned("gdm theme name contains disallowed character: ");
            let shown = char_debug(ch);
            msg.append(shown.as_str());
            return Err(AppError::Settings(msg));
        }
        i = i + 1;
    }
    proof {
        if exists|k: int| is_first_bad_char(name@, k) {
            let k = choose|k: int| is_first_bad_char(name@, k);
            assert(theme_name_char_ok(name@[k]));
        }
    }
    Ok(name)
}

/// Validate an accent hex (`#rrggbb`); malformed input becomes
/// `AppError::Domain(InvalidColor)`.
pub fn validate_accent_hex(raw: &str) -> (r: Result<HexColor, AppError>)
    ensures
        match r {
            Ok(c) => is_hex_color_text(trim(raw@)) && c@ == lower_text(trim(raw@)),
            Err(e) => !is_hex_color_text(trim(raw@))
                && (e matches AppError::Domain(DomainError::InvalidColor(m)) && m@ == trim(raw@)),
        },
{
    match HexColor::new(raw) {
        Ok(c) => Ok(c),
        Err(e) => Err(AppError::from_domain(e)),
    }
}

/// The snippet path: `<root or /etc/dconf/db/gdm.d>/90-gnome-x`.
pub fn gdm_dconf_snippet_path(root: Option<&str>) -> (r: PathBuf)
    ensures
        r == path_from_text(join_text(
            match root { Some(d) => d@, None => GDM_DCONF_DB_DIR@ },
            GDM_DCONF_SNIPPET_FILENAME@,
        )),
{
    let dir: &str = match root {
        Some(d) => d,
        None => GDM_DCONF_DB_DIR,
    };
    path_from_string(join_path_text(dir, GDM_DCONF_SNIPPET_FILENAME))
}

/// The stock accent name nearest to a hex color.
pub open spec fn accent_name_of(accent: Seq<char>) -> Seq<char> {
    nearest_accent_text((hex_byte(accent, 1) as u8, hex_byte(accent, 3) as u8, hex_byte(accent, 5) as u8))
}

/// The full snippet text for a theme name and an accent name.
pub open spec fn snippet_text(theme_name: Seq<char>, accent_name: Seq<char>) -> Seq<char> {
    "# GNOME X \u{2014} managed GDM overrides. Do not edit by hand.\n"@
        + "# This file is regenerated every time the user applies a theme\n"@
        + "# with \"Also apply to login screen\" enabled. Delete it (and\n"@
        + "# re-run `dconf update`) to revert to the distro default.\n"@
        + "\n[org/gnome/shell]\ntheme-name='"@ + theme_name + "'\n\n[org/gnome/desktop/interface]\naccent-color='"@
        + accent_name + "'\ncolor-scheme='prefer-dark'\n"@
}

/// Render the dconf snippet for the GDM user's database: the shell
/// theme name, the stock accent nearest to `accent` (GDM's shell only
/// accepts stock names), and a dark colour-scheme hint, under a header
/// carrying the managed marker.
pub fn render_gdm_dconf_snippet(theme_name: &str, accent: &HexColor) -> (r: String)
    ensures
        r@ == snippet_text(theme_name@, accent_name_of(accent@)),
{
    let rgb = accent.to_rgb();
    let accent_name = nearest_accent_id_rgb(rgb);
    let mut s = owned("# GNOME X \u{2014} managed GDM overrides. Do not edit by hand.\n");
    s.append("# This file is regenerated every time the user applies a theme\n");
    s.append("# with \"Also apply to login screen\" enabled. Delete it (and\n");
    s.append("# re-run `dconf update`) to revert to the distro default.\n");
    s.append("\n[org/gnome/shell]\ntheme-name='");
    s.append(theme_name);
    s.append("'\n\n[org/gnome/desktop/interface]\naccent-color='");
    s.append(accent_name);
    s.append("'\ncolor-scheme='prefer-dark'\n");
    s
}

/// Is the given file content something we wrote? True when it holds
/// the managed marker.
pub fn looks_like_managed_snippet(content: &str) -> (r: bool)
    ensures
        r == contains_text(content@, GDM_MANAGED_MARKER@),
{
    str_contains_str(content, GDM_MANAGED_MARKER)
}

/// Every rendered snippet is recognised as ours, and it names the
/// theme it was rendered for.
pub proof fn lemma_rendered_snippet_is_managed(theme_name: Seq<char>, accent_name: Seq<char>)
    ensures
        contains_text(snippet_text(theme_name, accent_name), GDM_MANAGED_MARKER@),
        contains_text(snippet_text(theme_name, accent_name), "theme-name='"@ + theme_name + "'"@),
{
    let s = snippet_text(theme_name, accent_name);
    reveal_strlit("GNOME X");
    reveal_strlit("# GNOME X \u{2014} managed GDM overrides. Do not edit by hand.\n");
    assert(s.subrange(2, 9) =~= GDM_MANAGED_MARKER@);
    assert(crate::text::occurs_at(s, GDM_MANAGED_MARKER@, 2));
    let head = "# GNOME X \u{2014} managed GDM overrides. Do not edit by hand.\n"@
        + "# This file is regenerated every time the user applies a theme\n"@
        + "# with \"Also apply to login screen\" enabled. Delete it (and\n"@
        + "# re-run `dconf update`) to revert to the distro default.\n"@
        + "\n[org/gnome/shell]\n"@;
    reveal_strlit("\n[org/gnome/shell]\ntheme-name='");
    reveal_strlit("\n[org/gnome/shell]\n");
    reveal_strlit("theme-name='");
    reveal_strlit("'\n\n[org/gnome/desktop/interface]\naccent-color='");
    reveal_strlit("'");
    let needle = "theme-name='"@ + theme_name + "'"@;
    let at = head.len() as int;
    assert(s =~= head + needle + ("\n\n[org/gnome/desktop/interface]\naccent-color='"@ + accent_name + "'\ncolor-scheme='prefer-dark'\n"@)) by {
        reveal_strlit("\n\n[org/gnome/desktop/interface]\naccent-color='");
        reveal_strlit("'\ncolor-scheme='prefer-dark'\n");
    }
    assert(s.subrange(at, at + needle.len()) =~= needle);
    assert(crate::text::occurs_at(s, needle, at));
}

proof fn lemma_first_bad_char_exists(name: Seq<char>, i: int)
    requires
        0 <= i < name.len(),
        !theme_name_char_ok(name[i]),
    ensures
        exists|k: int| is_first_bad_char(name, k),
    decreases i,
{
    if forall|j: int| 0 <= j < i ==> theme_name_char_ok(#[trigger] name[j]) {
        assert(is_first_bad_char(name, i));
    } else {
        let j = choose|j: int| 0 <= j < i && !theme_name_char_ok(#[trigger] name[j]);
        lemma_first_bad_char_exists(name, j);
    }
}

/// An accepted theme name is non-empty, at most 64 bytes long, holds no
/// `..`, and is made only of ASCII letters, digits, `.`, `_` and `-`: no
/// path separator, shell metacharacter or whitespace gets through.
pub proof fn lemma_accepted_theme_name_is_safe(name: Seq<char>, byte_len: usize)
    requires
        theme_name_problem(name, byte_len) is None,
    ensures
        name.len() > 0,
        byte_len <= MAX_THEME_NAME_LEN,
        !contains_text(name, ".."@),
        forall|i: int| 0 <= i < name.len() ==> theme_name_char_ok(#[trigger] name[i]),
        !name.contains('/') && !name.contains('\\') && !name.contains(' ') && !name.contains(';'),
{
    assert forall|i: int| 0 <= i < name.len() implies theme_name_char_ok(#[trigger] name[i]) by {
        if !theme_name_char_ok(name[i]) {
            lemma_first_bad_char_exists(name, i);
        }
    }
    assert(!name.contains('/') && !name.contains('\\') && !name.contains(' ') && !name.contains(';')) by {
        if name.contains('/') {
            let i = choose|i: int| 0 <= i < name.len() && name[i] == '/';
            assert(theme_name_char_ok(name[i]));
        }
        if name.contains('\\') {
            let i = choose|i: int| 0 <= i < name.len() && name[i] == '\\';
            assert(theme_name_char_ok(name[i]));
        }
        if name.contains(' ') {
            let i = choose|i: int| 0 <= i < name.len() && name[i] == ' ';
            assert(theme_name_char_ok(name[i]));
        }
        if name.contains(';') {
            let i = choose|i: int| 0 <= i < name.len() && name[i] == ';';
            assert(theme_name_char_ok(name[i]));
        }
    }
}

} // verus!
