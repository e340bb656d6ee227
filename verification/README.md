# gnomex

The domain model and rules of the GNOME X customization hub, as a Verus
library whose functions carry proved contracts.

- `src/` — the verified library: shell versions and extensions, hex
  colours and the stock accent palette, the per-version capability
  profiles for theme controls and shell tweaks, pack compatibility
  reports, experience packs (validation, snapshots, the order in which a
  pack is applied), GDM theme names and dconf snippets, wallpaper
  slideshow rules, the dominant-colour histogram of wallpaper pixels,
  `file://` URIs, Mutter flag reconciliation, and the cross-referencing
  of remote listings with what is installed.
- `tests/` — unit tests run against the compiled library.
- `app/` — the application layer: the ports through which the desktop is
  reached, the use cases that drive them, and the theme values that are
  floating-point amounts (radii, opacities, colour blending, HSV and
  CIELAB conversions).
