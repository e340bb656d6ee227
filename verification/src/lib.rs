//! Pure domain model and rules of the GNOME X customization hub.

pub mod catalog;
pub mod color;
pub mod decoration_report;
pub mod error;
pub mod gdm_theme;
pub mod experience_pack;
pub mod extension;
pub mod external_theme_spec;
pub mod material_palette;
pub mod pack_compatibility;
pub mod outcomes;
pub mod packs;
pub mod paths;
pub mod scaling;
pub mod shadowed_resource;
pub mod shell_tweak;
pub mod shell_version;
pub mod text;
pub mod theme;
pub mod theme_capability;
pub mod theme_spec;
pub mod theming_conflict;
pub mod uri;
pub mod wallpaper_accent;
pub mod wallpaper_slideshow;
