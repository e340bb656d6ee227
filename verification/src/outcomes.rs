//! Values the application layer hands back to its callers: generated
//! stylesheets, stored-pack summaries, icon recolouring and slideshow
//! outcomes.

use vstd::prelude::*;
use std::path::PathBuf;

verus! {

/// How an icon-recolour request turned out, shaped around what the user
/// needs to hear.
#[derive(Debug, Clone, PartialEq, Eq)]
pub enum RecolorOutcome {
    /// Recoloured through the theme's own tool; carries a short label
    /// of it (e.g. "Papirus").
    Applied(String),
    /// Nothing to do: the active icon theme follows `accent-color`
    /// natively; carries the theme's name.
    NativelyTracks(String),
    /// The active icon theme cannot be recoloured; carries its name.
    Unsupported(String),
}

/// Summary of a stored experience pack, for listing without a full load.
#[derive(Debug, Clone)]
pub struct PackSummary {
    pub id: String,
    pub name: String,
    pub author: String,
    pub description: String,
}

/// Generated stylesheets, one per target: GTK 4, GTK 3 and GNOME Shell.
pub struct ThemeCss {
    pub gtk_css: String,
    pub gtk3_css: String,
    pub shell_css: String,
}

/// Outcome of applying a wallpaper slideshow: where its XML was written,
/// the `file://` URI pointed at it, and whether the wallpaper setting
/// could be updated.
#[derive(Debug, Clone, PartialEq, Eq)]
pub struct SlideshowApplied {
    pub xml_path: PathBuf,
    pub uri: String,
    pub gsettings_updated: bool,
}

} // verus!
