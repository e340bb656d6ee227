//! Theming conflict reports: another extension or tool fighting the
//! managed theme output. Advisory, not errors.

use vstd::prelude::*;
use crate::text::owned;

verus! {

/// Classification of a detected conflict.
#[derive(Debug, Clone, Copy, PartialEq, Eq)]
pub enum ConflictKind {
    UserThemes,
    BlurMyShell,
    DashToDock,
    DashToPanel,
    NightThemeSwitcher,
    LegacyGtkTheme,
    UnmanagedGtkCss,
}

impl ConflictKind {
    pub open spec fn source_text(self) -> Seq<char> {
        match self {
            ConflictKind::UserThemes => "User Themes extension"@,
            ConflictKind::BlurMyShell => "Blur My Shell"@,
            ConflictKind::DashToDock => "Dash to Dock"@,
            ConflictKind::DashToPanel => "Dash to Panel"@,
            ConflictKind::NightThemeSwitcher => "Night Theme Switcher"@,
            ConflictKind::LegacyGtkTheme => "GNOME Tweaks (legacy gtk-theme)"@,
            ConflictKind::UnmanagedGtkCss => "Unmanaged ~/.config/gtk-4.0/gtk.css"@,
        }
    }

    /// Canonical, short source label shown in the UI.
    pub fn source_label(&self) -> (r: &'static str)
        ensures
            r@ == self.source_text(),
    {
        match self {
            ConflictKind::UserThemes => "User Themes extension",
            ConflictKind::BlurMyShell => "Blur My Shell",
            ConflictKind::DashToDock => "Dash to Dock",
            ConflictKind::DashToPanel => "Dash to Panel",
            ConflictKind::NightThemeSwitcher => "Night Theme Switcher",
            ConflictKind::LegacyGtkTheme => "GNOME Tweaks (legacy gtk-theme)",
            ConflictKind::UnmanagedGtkCss => "Unmanaged ~/.config/gtk-4.0/gtk.css",
        }
    }
}

/// A single detected conflict.
#[derive(Debug, Clone, PartialEq)]
pub struct ConflictReport {
    pub kind: ConflictKind,
    /// What the conflict does to the applied theme.
    pub description: String,
    /// User-facing suggestion for resolving the conflict.
    pub recommendation: String,
}

impl ConflictReport {
    /// A report of `kind` carrying the given texts.
    pub fn new(kind: ConflictKind, description: &str, recommendation: &str) -> (r: Self)
        ensures
            r.kind == kind,
            r.description@ == description@,
            r.recommendation@ == recommendation@,
    {
        ConflictReport { kind, description: owned(description), recommendation: owned(recommendation) }
    }
}

} // verus!
