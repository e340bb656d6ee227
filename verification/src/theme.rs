//! Installable content (themes, icon packs, cursors, wallpapers).

use vstd::prelude::*;
use crate::text::owned;

verus! {

/// Discriminant for theme technology target.
#[derive(Debug, Clone, Copy, PartialEq, Eq, Hash)]
pub enum ThemeType {
    Gtk3,
    Gtk4,
    Shell,
    Libadwaita,
}

impl ThemeType {
    pub open spec fn text(self) -> Seq<char> {
        match self {
            ThemeType::Gtk3 => "GTK 3"@,
            ThemeType::Gtk4 => "GTK 4"@,
            ThemeType::Shell => "GNOME Shell"@,
            ThemeType::Libadwaita => "Libadwaita"@,
        }
    }

    /// Display text: "GTK 3", "GTK 4", "GNOME Shell", "Libadwaita".
    pub fn to_string(&self) -> (s: String)
        ensures
            s@ == self.text(),
    {
        match self {
            ThemeType::Gtk3 => owned("GTK 3"),
            ThemeType::Gtk4 => owned("GTK 4"),
            ThemeType::Shell => owned("GNOME Shell"),
            ThemeType::Libadwaita => owned("Libadwaita"),
        }
    }
}

/// Lifecycle state of a theme/icon pack on this system.
#[derive(Debug, Clone, Copy, PartialEq, Eq)]
pub enum ContentState {
    Available,
    Installed,
    Active,
}

/// Category of content on gnome-look.org (OCS).
#[derive(Debug, Clone, Copy, PartialEq, Eq, Hash)]
pub enum ContentCategory {
    GtkTheme,
    ShellTheme,
    IconTheme,
    CursorTheme,
    Wallpaper,
}

impl ContentCategory {
    pub open spec fn ocs_id_spec(self) -> u32 {
        match self {
            ContentCategory::GtkTheme => 135,
            ContentCategory::ShellTheme => 134,
            ContentCategory::IconTheme => 132,
            ContentCategory::CursorTheme => 107,
            ContentCategory::Wallpaper => 300,
        }
    }

    /// OCS category ID on gnome-look.org.
    pub fn ocs_id(&self) -> (r: u32)
        ensures
            r == self.ocs_id_spec(),
    {
        match self {
            ContentCategory::GtkTheme => 135,
            ContentCategory::ShellTheme => 134,
            ContentCategory::IconTheme => 132,
            ContentCategory::CursorTheme => 107,
            ContentCategory::Wallpaper => 300,
        }
    }
}

/// Identifier for OCS content items.
#[derive(Debug, Clone, Copy, PartialEq, Eq, Hash)]
pub struct ContentId(pub u64);

} // verus!
