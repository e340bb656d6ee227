//! Shadowed resource reports: the same theme / icon pack / cursor
//! installed in more than one place on the XDG data search path, where
//! the first location in search order wins.

use vstd::prelude::*;
use std::path::PathBuf;

verus! {

/// Which family of resource is being shadow-checked.
#[derive(Debug, Clone, Copy, PartialEq, Eq, Hash, Structural)]
pub enum ResourceKind {
    /// GTK widget themes — `themes/<Name>/gtk-N.N/gtk.css`.
    Theme,
    /// Icon themes — `icons/<Name>/index.theme`.
    Icon,
    /// Cursor themes — `icons/<Name>/cursors/`.
    Cursor,
}

impl ResourceKind {
    pub open spec fn label_text(self) -> Seq<char> {
        match self {
            ResourceKind::Theme => "Theme"@,
            ResourceKind::Icon => "Icon pack"@,
            ResourceKind::Cursor => "Cursor"@,
        }
    }

    pub open spec fn subdir_text(self) -> Seq<char> {
        match self {
            ResourceKind::Theme => "themes"@,
            ResourceKind::Icon => "icons"@,
            ResourceKind::Cursor => "icons"@,
        }
    }

    /// Short, user-facing label.
    pub fn label(&self) -> (r: &'static str)
        ensures
            r@ == self.label_text(),
    {
        match self {
            ResourceKind::Theme => "Theme",
            ResourceKind::Icon => "Icon pack",
            ResourceKind::Cursor => "Cursor",
        }
    }

    /// XDG-style subdirectory name. Cursors share the icons tree.
    pub fn xdg_subdir(&self) -> (r: &'static str)
        ensures
            r@ == self.subdir_text(),
    {
        match self {
            ResourceKind::Theme => "themes",
            ResourceKind::Icon | ResourceKind::Cursor => "icons",
        }
    }
}

/// One place on disk where a resource lives.
#[derive(Debug, Clone, PartialEq, Eq)]
pub struct ShadowedLocation {
    pub path: PathBuf,
    /// True for user-writable locations (`$XDG_DATA_HOME`, `~/.themes`,
    /// `~/.icons`); false for system directories.
    pub user_writable: bool,
}

/// A named resource that appears in more than one search path,
/// `locations` ordered by search precedence (winner first).
#[derive(Debug, Clone, PartialEq, Eq)]
pub struct ShadowedResource {
    pub kind: ResourceKind,
    /// The directory name (e.g. `"Adwaita"`).
    pub name: String,
    /// All matching locations, winning one first.
    pub locations: Vec<ShadowedLocation>,
}

impl ShadowedResource {
    /// The location GTK resolves to: the first entry.
    pub fn winning_location(&self) -> (r: &ShadowedLocation)
        requires
            self.locations@.len() > 0,
        ensures
            *r == self.locations@[0],
    {
        &self.locations[0]
    }

    /// Locations masked by the winner: all entries after the first.
    pub fn masked_locations(&self) -> (r: &[ShadowedLocation])
        requires
            self.locations@.len() > 0,
        ensures
            r@ == self.locations@.subrange(1, self.locations@.len() as int),
    {
        let (_, rest) = self.locations.as_slice().split_at(1);
        rest
    }

    /// The common confusing case: a system-wide copy wins while a
    /// user-writable copy exists further down the search path.
    pub fn user_install_masked(&self) -> (r: bool)
        requires
            self.locations@.len() > 0,
        ensures
            r == (!self.locations@[0].user_writable
                && exists|i: int| 1 <= i < self.locations@.len() && (#[trigger] self.locations@[i]).user_writable),
    {
        if self.winning_location().user_writable {
            return false;
        }
        let masked = self.masked_locations();
        let mut i: usize = 0;
        while i < masked.len()
            invariant
                i <= masked@.len(),
                self.locations@.len() > 0,
                !self.locations@[0].user_writable,
                masked@ == self.locations@.subrange(1, self.locations@.len() as int),
                forall|j: int| 1 <= j < i + 1 ==> !(#[trigger] self.locations@[j]).user_writable,
            decreases masked@.len() - i,
        {
            if masked[i].user_writable {
                proof {
                    assert(self.locations@[i + 1] == masked@[i as int]);
                }
                return true;
            }
            proof {
                assert(self.locations@[i + 1] == masked@[i as int]);
            }
            i = i + 1;
        }
        false
    }
}

} // verus!
