//! GNOME Shell extensions.

use vstd::prelude::*;
use crate::error::DomainError;
use crate::shell_version::ShellVersion;
use crate::text::{owned, str_contains_char};

verus! {

/// Validated GNOME Shell extension UUID: it contains an `@`
/// (for example `dash-to-dock@micxgx.gmail.com`).
#[derive(Debug, PartialEq, Eq, Hash)]
pub struct ExtensionUuid(String);

impl Clone for ExtensionUuid {
    fn clone(&self) -> (r: Self)
        ensures
            r@ == self@,
    {
        proof { use_type_invariant(self); }
        ExtensionUuid(self.0.clone())
    }
}

impl View for ExtensionUuid {
    type V = Seq<char>;

    closed spec fn view(&self) -> Seq<char> {
        self.0@
    }
}

impl ExtensionUuid {
    #[verifier::type_invariant]
    spec fn well_formed(self) -> bool {
        self.0@.contains('@')
    }

    /// Accepts exactly the texts that contain an `@`, keeping the text;
    /// any other text is an `InvalidExtensionUuid` error carrying it.
    pub fn new(uuid: &str) -> (r: Result<Self, DomainError>)
        ensures
            match r {
                Ok(u) => uuid@.contains('@') && u@ == uuid@,
                Err(e) => !uuid@.contains('@') && (e matches DomainError::InvalidExtensionUuid(m) && m@ == uuid@),
            },
    {
        if str_contains_char(uuid, '@') {
            Ok(ExtensionUuid(owned(uuid)))
        } else {
            Err(DomainError::InvalidExtensionUuid(owned(uuid)))
        }
    }

    /// Display text: the UUID itself.
    pub fn to_string(&self) -> (r: String)
        ensures
            r@ == self@,
    {
        owned(self.as_str())
    }

    pub fn as_str(&self) -> (r: &str)
        ensures
            r@ == self@,
            r@.contains('@'),
    {
        proof { use_type_invariant(self); }
        self.0.as_str()
    }
}

/// Lifecycle state of an extension on this system.
#[derive(Debug, Clone, Copy, PartialEq, Eq, Structural)]
pub enum ExtensionState {
    /// Known to exist on extensions.gnome.org but not installed locally.
    Available,
    /// Installed but currently disabled.
    Installed,
    /// Installed and enabled.
    Enabled,
    /// Installed but disabled by the user.
    Disabled,
    /// Installed but in an error state.
    Error,
}

impl ExtensionState {
    pub open spec fn text(self) -> Seq<char> {
        match self {
            ExtensionState::Available => "Available"@,
            ExtensionState::Installed => "Installed"@,
            ExtensionState::Enabled => "Enabled"@,
            ExtensionState::Disabled => "Disabled"@,
            ExtensionState::Error => "Error"@,
        }
    }

    /// Display text: the variant's name.
    pub fn to_string(&self) -> (s: String)
        ensures
            s@ == self.text(),
    {
        match self {
            ExtensionState::Available => owned("Available"),
            ExtensionState::Installed => owned("Installed"),
            ExtensionState::Enabled => owned("Enabled"),
            ExtensionState::Disabled => owned("Disabled"),
            ExtensionState::Error => owned("Error"),
        }
    }
}

/// Compatibility assessment of an extension against the running shell.
#[derive(Debug, Clone, Copy, PartialEq, Eq, Structural)]
pub enum CompatibilityBadge {
    /// Supports the current shell version.
    Compatible,
    /// No version data available.
    Untested,
    /// Unsupported on the current shell.
    Incompatible,
}

/// The badge for an extension listing `versions` on shell `shell`.
pub open spec fn badge_for(versions: Seq<ShellVersion>, shell: ShellVersion) -> CompatibilityBadge {
    if versions.len() == 0 {
        CompatibilityBadge::Untested
    } else if exists|i: int| 0 <= i < versions.len() && #[trigger] versions[i].major == shell.major {
        CompatibilityBadge::Compatible
    } else {
        CompatibilityBadge::Incompatible
    }
}

/// A GNOME Shell extension entity, installed or discovered via search.
#[derive(Debug, Clone)]
pub struct Extension {
    pub uuid: ExtensionUuid,
    pub name: String,
    pub description: String,
    pub creator: String,
    pub shell_versions: Vec<ShellVersion>,
    pub version: u32,
    pub download_url: Option<String>,
    pub screenshot_url: Option<String>,
    pub homepage_url: Option<String>,
    pub pk: Option<u64>,
    pub state: ExtensionState,
}

impl Extension {
    /// Compatible when some listed version shares `shell`'s major;
    /// untested when none are listed; incompatible otherwise.
    pub fn compatibility(&self, shell: &ShellVersion) -> (r: CompatibilityBadge)
        ensures
            r == badge_for(self.shell_versions@, *shell),
    {
        if self.shell_versions.len() == 0 {
            return CompatibilityBadge::Untested;
        }
        let mut i: usize = 0;
        while i < self.shell_versions.len()
            invariant
                i <= self.shell_versions@.len(),
                forall|j: int| 0 <= j < i ==> #[trigger] self.shell_versions@[j].major != shell.major,
            decreases self.shell_versions@.len() - i,
        {
            if self.shell_versions[i].is_compatible_with(shell) {
                return CompatibilityBadge::Compatible;
            }
            i = i + 1;
        }
        CompatibilityBadge::Incompatible
    }

    /// Whether this extension is active on the system.
    pub fn is_active(&self) -> (r: bool)
        ensures
            r == (self.state == ExtensionState::Enabled),
    {
        self.state == ExtensionState::Enabled
    }

    /// Whether this extension is present on disk (any installed state).
    pub fn is_installed(&self) -> (r: bool)
        ensures
            r == (self.state != ExtensionState::Available),
    {
        match self.state {
            ExtensionState::Installed | ExtensionState::Enabled | ExtensionState::Disabled
            | ExtensionState::Error => true,
            ExtensionState::Available => false,
        }
    }
}

/// Paginated search results from a repository.
#[derive(Debug, Clone)]
pub struct SearchResult<T> {
    pub items: Vec<T>,
    pub total: u32,
    pub page: u32,
    pub pages: u32,
}

} // verus!
