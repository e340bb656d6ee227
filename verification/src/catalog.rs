//! Cross-referencing remote listings with what is installed locally:
//! extension states, extension metadata, and content search hits.

use vstd::prelude::*;
use crate::error::AppError;
use crate::extension::{Extension, ExtensionState, SearchResult};
use crate::text::{owned, str_eq};
use crate::theme::{ContentCategory, ContentState, ThemeType};

verus! {

/// The state the last installed entry with this UUID reports, if any
/// (a later entry for the same UUID overrides an earlier one).
pub open spec fn installed_state(installed: Seq<Extension>, uuid: Seq<char>) -> Option<ExtensionState>
    decreases installed.len(),
{
    if installed.len() == 0 {
        None
    } else if installed.last().uuid@ == uuid {
        Some(installed.last().state)
    } else {
        installed_state(installed.drop_last(), uuid)
    }
}

/// `e` with the state the installed list reports for it, or unchanged.
pub open spec fn with_installed_state(e: Extension, installed: Seq<Extension>) -> Extension {
    match installed_state(installed, e.uuid@) {
        Some(s) => Extension { state: s, ..e },
        None => e,
    }
}

fn find_installed_state(installed: &[Extension], uuid: &str) -> (r: Option<ExtensionState>)
    ensures
        r == installed_state(installed@, uuid@),
{
    let mut i = installed.len();
    assert(installed@.subrange(0, i as int) =~= installed@);
    while i > 0
        invariant
            i <= installed@.len(),
            installed_state(installed@, uuid@) == installed_state(installed@.subrange(0, i as int), uuid@),
        decreases i,
    {
        let e = &installed[i - 1];
        proof {
            let s = installed@.subrange(0, i as int);
            assert(s.drop_last() =~= installed@.subrange(0, i - 1));
            assert(s.last() == *e);
        }
        if str_eq(e.uuid.as_str(), uuid) {
            return Some(e.state);
        }
        i = i - 1;
    }
    proof {
        assert(installed@.subrange(0, 0) =~= Seq::<Extension>::empty());
    }
    None
}

/// Cross-reference repository results against the locally installed
/// extensions: every item the system knows takes its real on-disk state
/// (the last installed entry with its UUID wins); the others, and the
/// paging fields, are left as they are.
pub fn patch_installed_state(result: &mut SearchResult<Extension>, installed: &[Extension])
    ensures
        final(result).total == old(result).total,
        final(result).page == old(result).page,
        final(result).pages == old(result).pages,
        final(result).items@.len() == old(result).items@.len(),
        forall|i: int| 0 <= i < old(result).items@.len() ==>
            #[trigger] final(result).items@[i] == with_installed_state(old(result).items@[i], installed@),
{
    let ghost before = result.items@;
    let mut i: usize = 0;
    while i < result.items.len()
        invariant
            i <= result.items@.len(),
            result.items@.len() == before.len(),
            result.total == old(result).total,
            result.page == old(result).page,
            result.pages == old(result).pages,
            before == old(result).items@,
            forall|k: int| 0 <= k < i ==> #[trigger] result.items@[k] == with_installed_state(before[k], installed@),
            forall|k: int| i <= k < before.len() ==> #[trigger] result.items@[k] == before[k],
        decreases before.len() - i,
    {
        let found = find_installed_state(installed, result.items[i].uuid.as_str());
        match found {
            Some(s) => {
                result.items[i].state = s;
            },
            None => {},
        }
        i = i + 1;
    }
}

/// Whether an installed extension lacks metadata the repository can
/// supply (a creator or a screenshot).
pub fn lacks_metadata(ext: &Extension) -> (r: bool)
    ensures
        r == (ext.creator@.len() == 0 || ext.screenshot_url is None),
{
    ext.creator.as_str().is_empty() || ext.screenshot_url.is_none()
}

/// Fill in, from the repository's `info`, the creator, screenshot URL
/// and homepage URL that `ext` lacks; everything else stays.
pub fn fill_metadata(ext: &mut Extension, info: Extension)
    ensures
        final(ext).creator == (if old(ext).creator@.len() == 0 { info.creator } else { old(ext).creator }),
        final(ext).screenshot_url == (if old(ext).screenshot_url is None { info.screenshot_url } else { old(ext).screenshot_url }),
        final(ext).homepage_url == (if old(ext).homepage_url is None { info.homepage_url } else { old(ext).homepage_url }),
        final(ext).uuid == old(ext).uuid,
        final(ext).name == old(ext).name,
        final(ext).description == old(ext).description,
        final(ext).shell_versions == old(ext).shell_versions,
        final(ext).version == old(ext).version,
        final(ext).download_url == old(ext).download_url,
        final(ext).pk == old(ext).pk,
        final(ext).state == old(ext).state,
{
    let Extension { creator, screenshot_url, homepage_url, .. } = info;
    if ext.creator.as_str().is_empty() {
        ext.creator = creator;
    }
    if ext.screenshot_url.is_none() {
        ext.screenshot_url = screenshot_url;
    }
    if ext.homepage_url.is_none() {
        ext.homepage_url = homepage_url;
    }
}

/// Which local listing tells whether a search hit is installed.
#[derive(Debug, Clone, Copy, PartialEq, Eq, Structural)]
pub enum ContentListing {
    Themes,
    Icons,
    Cursors,
}

/// The listing to consult for a category: themes for GTK and shell
/// themes, icons, cursors; wallpapers are never installed.
pub fn listing_for(category: ContentCategory) -> (r: Option<ContentListing>)
    ensures
        r == match category {
            ContentCategory::GtkTheme | ContentCategory::ShellTheme => Some(ContentListing::Themes),
            ContentCategory::IconTheme => Some(ContentListing::Icons),
            ContentCategory::CursorTheme => Some(ContentListing::Cursors),
            ContentCategory::Wallpaper => None::<ContentListing>,
        },
{
    match category {
        ContentCategory::GtkTheme | ContentCategory::ShellTheme => Some(ContentListing::Themes),
        ContentCategory::IconTheme => Some(ContentListing::Icons),
        ContentCategory::CursorTheme => Some(ContentListing::Cursors),
        ContentCategory::Wallpaper => None,
    }
}

/// The active setting, with an empty value counted as none.
pub fn active_name(current: Option<String>) -> (r: Option<String>)
    ensures
        r == (match current {
            Some(s) => if s@.len() > 0 { Some(s) } else { None },
            None => None,
        }),
{
    match current {
        Some(s) => if s.as_str().is_empty() {
            None
        } else {
            Some(s)
        },
        None => None,
    }
}

/// The state a search hit called `item_name` takes: `Active` when it is
/// installed and is the active one, `Installed` when it is installed
/// only; `None` (keep the repository's state) when it is not installed.
pub fn hit_state(item_name: &str, installed: &[String], active: &Option<String>) -> (r: Option<ContentState>)
    ensures
        r == (if exists|i: int| 0 <= i < installed@.len() && (#[trigger] installed@[i])@ == item_name@ {
            if active matches Some(a) && a@ == item_name@ {
                Some(ContentState::Active)
            } else {
                Some(ContentState::Installed)
            }
        } else {
            None::<ContentState>
        }),
{
    if !crate::packs::name_listed(installed, item_name) {
        return None;
    }
    match active {
        Some(a) => if str_eq(a.as_str(), item_name) {
            Some(ContentState::Active)
        } else {
            Some(ContentState::Installed)
        },
        None => Some(ContentState::Installed),
    }
}

/// How a downloaded content item is installed.
#[derive(Debug, Clone, Copy, PartialEq, Eq)]
pub enum ContentInstall {
    /// As a theme for this toolkit.
    Theme(ThemeType),
    IconPack,
    Cursor,
}

/// How content of a category is installed: GTK themes as GTK 4 themes,
/// shell themes as shell themes, icon packs, cursors. Wallpapers are not
/// installed but applied directly, which is an `Install` error here.
pub fn install_kind(category: ContentCategory) -> (r: Result<ContentInstall, AppError>)
    ensures
        match category {
            ContentCategory::GtkTheme => r == Ok::<ContentInstall, AppError>(ContentInstall::Theme(ThemeType::Gtk4)),
            ContentCategory::ShellTheme => r == Ok::<ContentInstall, AppError>(ContentInstall::Theme(ThemeType::Shell)),
            ContentCategory::IconTheme => r == Ok::<ContentInstall, AppError>(ContentInstall::IconPack),
            ContentCategory::CursorTheme => r == Ok::<ContentInstall, AppError>(ContentInstall::Cursor),
            ContentCategory::Wallpaper => r matches Err(AppError::Install(m)) && m@ == "use apply_content for wallpapers"@,
        },
{
    match category {
        ContentCategory::GtkTheme => Ok(ContentInstall::Theme(ThemeType::Gtk4)),
        ContentCategory::ShellTheme => Ok(ContentInstall::Theme(ThemeType::Shell)),
        ContentCategory::IconTheme => Ok(ContentInstall::IconPack),
        ContentCategory::CursorTheme => Ok(ContentInstall::Cursor),
        ContentCategory::Wallpaper => Err(AppError::Install(owned("use apply_content for wallpapers"))),
    }
}

} // verus!
