//! The narrow theme projection third-party applications consume.

use vstd::prelude::*;
use crate::text::{eq_ignore_ascii_case, str_eq_ignore_ascii_case};
use crate::theme_spec::HexColor;

verus! {

/// Light or dark appearance (the GNOME `color-scheme` preference).
#[derive(Debug, Clone, Copy, PartialEq, Eq, Structural)]
pub enum ColorScheme {
    Light,
    Dark,
}

impl ColorScheme {
    /// `prefer-dark` (in any ASCII case) is dark; every other value,
    /// including `prefer-light` and `default`, is light.
    pub fn from_gsettings(value: &str) -> (r: Self)
        ensures
            r == (if eq_ignore_ascii_case(value@, "prefer-dark"@) { ColorScheme::Dark } else { ColorScheme::Light }),
    {
        if str_eq_ignore_ascii_case(value, "prefer-dark") {
            ColorScheme::Dark
        } else {
            ColorScheme::Light
        }
    }

    pub fn is_dark(self) -> (r: bool)
        ensures
            r == (self == ColorScheme::Dark),
    {
        match self {
            ColorScheme::Dark => true,
            ColorScheme::Light => false,
        }
    }
}

/// Accent color, a background tint, and the light/dark preference.
#[derive(Debug, Clone)]
pub struct ExternalThemeSpec {
    pub accent: HexColor,
    pub panel_tint: HexColor,
    pub color_scheme: ColorScheme,
}

} // verus!
