use std::collections::HashSet;
use std::path::{Path, PathBuf};

use gnomex::color::{color_distance, gnome_accents, nearest_accent_id, nearest_accent_id_rgb};
use gnomex::error::{AppError, DomainError};
use gnomex::gdm_theme::{
    gdm_dconf_snippet_path, looks_like_managed_snippet, render_gdm_dconf_snippet, validate_accent_hex,
    validate_theme_name, GDM_MANAGED_MARKER, MAX_THEME_NAME_LEN,
};
use gnomex::material_palette::{
    MaterialPaletteSpec, Permutation, ADWAITA_DARK_NEUTRAL, ADWAITA_LIGHT_NEUTRAL,
};
use gnomex::scaling::reconcile_flags;
use gnomex::theme_spec::HexColor;
use gnomex::uri::{file_uri, file_uri_from_text};
use gnomex::wallpaper_accent::{bucket_center, dominant_bucket, pixel_rgbs};

#[test]
fn theme_name_accepts_shell_identifier() {
    assert!(validate_theme_name("Adwaita").is_ok());
    assert!(validate_theme_name("GNOME-X-Custom").is_ok());
    assert!(validate_theme_name("my.theme_2024").is_ok());
}

#[test]
fn theme_name_rejects_slashes_and_traversal() {
    assert!(validate_theme_name("../etc/passwd").is_err());
    assert!(validate_theme_name("themes/Adwaita").is_err());
    assert!(validate_theme_name("..").is_err());
    assert!(validate_theme_name("a/b").is_err());
}

#[test]
fn theme_name_rejects_shell_metacharacters() {
    for bad in ["a;b", "a$b", "a`b", "a\"b", "a'b", "a|b", "a&b", "a>b", "a<b", "a*b", "a?b", "a b"] {
        assert!(validate_theme_name(bad).is_err(), "{bad} should be rejected");
    }
}

#[test]
fn theme_name_rejects_empty_and_oversize() {
    assert!(validate_theme_name("").is_err());
    let oversized = "a".repeat(MAX_THEME_NAME_LEN + 1);
    assert!(validate_theme_name(&oversized).is_err());
}

fn settings_message(r: Result<&str, AppError>) -> String {
    match r {
        Err(AppError::Settings(m)) => m,
        other => panic!("expected a settings error, got {other:?}"),
    }
}

#[test]
fn theme_name_errors_say_what_is_wrong() {
    assert_eq!(validate_theme_name("ok-name").unwrap(), "ok-name");
    assert_eq!(settings_message(validate_theme_name("")), "gdm theme name is empty");
    assert_eq!(settings_message(validate_theme_name(&"a".repeat(65))), "gdm theme name too long (65 > 64)");
    assert!(validate_theme_name(&"a".repeat(64)).is_ok());
    assert_eq!(settings_message(validate_theme_name("x..y")), "gdm theme name contains path traversal");
    assert_eq!(
        settings_message(validate_theme_name("a b")),
        "gdm theme name contains disallowed character: ' '"
    );
    assert_eq!(
        settings_message(validate_theme_name("ab\u{e9}")),
        "gdm theme name contains disallowed character: '\u{e9}'"
    );
    assert_eq!(
        settings_message(validate_theme_name(&"\u{e9}".repeat(33))),
        "gdm theme name too long (66 > 64)"
    );
}

#[test]
fn accent_hex_delegates_to_hex_color() {
    assert!(validate_accent_hex("#3584e4").is_ok());
    assert!(validate_accent_hex("not-a-color").is_err());
    assert!(validate_accent_hex("3584e4").is_err());
}

#[test]
fn accent_hex_wraps_the_domain_error() {
    assert_eq!(validate_accent_hex(" #ABCDEF ").unwrap().as_str(), "#abcdef");
    assert!(matches!(
        validate_accent_hex("3584e4"),
        Err(AppError::Domain(DomainError::InvalidColor(m))) if m == "3584e4"
    ));
}

#[test]
fn snippet_path_defaults_to_etc_dconf_gdm_d() {
    let p = gdm_dconf_snippet_path(None);
    assert_eq!(p, PathBuf::from("/etc/dconf/db/gdm.d/90-gnome-x"));
}

#[test]
fn snippet_path_honours_root_override() {
    let p = gdm_dconf_snippet_path(Some("/tmp/fake-gdm.d"));
    assert_eq!(p, PathBuf::from("/tmp/fake-gdm.d/90-gnome-x"));
}

#[test]
fn snippet_path_joins_like_path_join() {
    assert_eq!(gdm_dconf_snippet_path(Some("/tmp/x/")), PathBuf::from("/tmp/x/90-gnome-x"));
    assert_eq!(gdm_dconf_snippet_path(Some("")), PathBuf::from("90-gnome-x"));
    assert_eq!(gdm_dconf_snippet_path(Some("rel")), PathBuf::from("rel/90-gnome-x"));
}

#[test]
fn snippet_includes_managed_marker() {
    let accent = HexColor::new("#3584e4").unwrap();
    let s = render_gdm_dconf_snippet("GNOME-X-Custom", &accent);
    assert!(s.contains(GDM_MANAGED_MARKER), "missing marker: {s}");
}

#[test]
fn snippet_routes_theme_name_and_accent_name() {
    let accent = HexColor::new("#3584e4").unwrap();
    let s = render_gdm_dconf_snippet("GNOME-X-Custom", &accent);
    assert!(s.contains("theme-name='GNOME-X-Custom'"));
    assert!(s.contains("accent-color='blue'"));
}

#[test]
fn snippet_maps_off_palette_hex_to_nearest_name() {
    let accent = HexColor::new("#ee2233").unwrap();
    let s = render_gdm_dconf_snippet("Adwaita", &accent);
    assert!(s.contains("accent-color='red'"), "{s}");

    let accent = HexColor::new("#708090").unwrap();
    let s = render_gdm_dconf_snippet("Adwaita", &accent);
    assert!(s.contains("accent-color='slate'"), "{s}");
}

#[test]
fn snippet_is_stable_across_calls_with_same_inputs() {
    let a = HexColor::new("#3584e4").unwrap();
    let one = render_gdm_dconf_snippet("GNOME-X-Custom", &a);
    let two = render_gdm_dconf_snippet("GNOME-X-Custom", &a);
    assert_eq!(one, two, "same input must produce byte-identical output");
}

#[test]
fn looks_like_managed_snippet_detects_marker() {
    let accent = HexColor::new("#3584e4").unwrap();
    let ours = render_gdm_dconf_snippet("Adwaita", &accent);
    assert!(looks_like_managed_snippet(&ours));
    assert!(!looks_like_managed_snippet("# written by sysadmin\n[org/gnome/shell]\ntheme-name='Custom'\n"));
}

#[test]
fn snippet_text_is_exact() {
    let accent = HexColor::new("#2190a4").unwrap();
    let s = render_gdm_dconf_snippet("Yaru", &accent);
    assert_eq!(
        s,
        "# GNOME X \u{2014} managed GDM overrides. Do not edit by hand.\n\
         # This file is regenerated every time the user applies a theme\n\
         # with \"Also apply to login screen\" enabled. Delete it (and\n\
         # re-run `dconf update`) to revert to the distro default.\n\
         \n\
         [org/gnome/shell]\n\
         theme-name='Yaru'\n\
         \n\
         [org/gnome/desktop/interface]\n\
         accent-color='teal'\n\
         color-scheme='prefer-dark'\n"
    );
}

#[test]
fn nearest_accent_by_squared_distance() {
    assert_eq!(color_distance((0, 0, 0), (255, 255, 255)), 195075);
    assert_eq!(color_distance((10, 20, 30), (13, 16, 30)), 25);
    assert_eq!(color_distance((13, 16, 30), (10, 20, 30)), 25);
    assert_eq!(nearest_accent_id_rgb((0x35, 0x84, 0xe4)), "blue");
    assert_eq!(nearest_accent_id_rgb((0xee, 0x22, 0x33)), "red");
    assert_eq!(nearest_accent_id_rgb((0x70, 0x80, 0x90)), "slate");
    assert_eq!(gnome_accents().len(), 9);
    for (id, rgb) in gnome_accents() {
        assert_eq!(nearest_accent_id_rgb(*rgb), *id);
    }
}

#[test]
fn stored_accent_values_map_to_stock_ids() {
    assert_eq!(nearest_accent_id("purple"), "purple");
    assert_eq!(nearest_accent_id("#e62d42"), "red");
    assert_eq!(nearest_accent_id(" #EE2233 "), "red");
    assert_eq!(nearest_accent_id("#708090"), "slate");
    assert_eq!(nearest_accent_id("Purple"), "blue");
    assert_eq!(nearest_accent_id("not-a-colour"), "blue");
}

fn sample_palette() -> [HexColor; 3] {
    [
        HexColor::new("#112233").unwrap(),
        HexColor::new("#445566").unwrap(),
        HexColor::new("#778899").unwrap(),
    ]
}

#[test]
fn permutation_index_roundtrip() {
    for p in Permutation::ALL {
        assert_eq!(Permutation::from_index(p.to_index()), p);
    }
}

#[test]
fn permutation_from_index_out_of_range_falls_back() {
    assert_eq!(Permutation::from_index(99), Permutation::Bg0Pri1Sec2);
    assert_eq!(Permutation::from_index(6), Permutation::Bg0Pri1Sec2);
}

#[test]
fn permutation_indices_cover_all_six_mappings_exactly_once() {
    let mut seen: HashSet<(usize, usize, usize)> = HashSet::new();
    for p in Permutation::ALL {
        let triple = p.indices();
        assert!(seen.insert(triple), "duplicate index triple {triple:?}");
        let mut sorted = [triple.0, triple.1, triple.2];
        sorted.sort_unstable();
        assert_eq!(sorted, [0, 1, 2]);
    }
    assert_eq!(seen.len(), 6);
}

#[test]
fn apply_uses_correct_palette_slots_per_permutation() {
    let palette = sample_palette();
    let roles = Permutation::Bg1Pri2Sec0.apply(&palette);
    assert_eq!(roles.background, palette[1]);
    assert_eq!(roles.primary, palette[2]);
    assert_eq!(roles.secondary, palette[0]);
}

#[test]
fn labels_are_distinct_per_permutation() {
    let mut seen: HashSet<&'static str> = HashSet::new();
    for p in Permutation::ALL {
        assert!(seen.insert(p.label()), "duplicate label: {}", p.label());
    }
    assert_eq!(seen.len(), 6);
}

#[test]
fn permutation_indices_follow_the_order_of_all() {
    for (i, p) in Permutation::ALL.iter().enumerate() {
        assert_eq!(p.to_index(), i as u32);
    }
    assert_eq!(Permutation::Bg2Pri1Sec0.indices(), (2, 1, 0));
    let roles = Permutation::Bg0Pri1Sec2.apply(&sample_palette());
    assert_eq!(roles.primary.as_str(), "#445566");
    let spec = MaterialPaletteSpec::default();
    assert!(!spec.enabled);
    assert_eq!(spec.day_permutation, Permutation::Bg0Pri1Sec2);
    assert_eq!(spec.night_permutation, Permutation::Bg0Pri1Sec2);
    assert_eq!(ADWAITA_LIGHT_NEUTRAL, "#fafafb");
    assert_eq!(ADWAITA_DARK_NEUTRAL, "#222226");
}

#[test]
fn file_uri_percent_encodes_spaces_and_unicode() {
    let u = file_uri(Path::new("/home/jo/My Pics/\u{00e9}.jpg"));
    assert_eq!(u, "file:///home/jo/My%20Pics/%C3%A9.jpg");
}

#[test]
fn file_uri_keeps_unreserved_characters() {
    assert_eq!(file_uri_from_text("/a-b_c.d~e/F9"), "file:///a-b_c.d~e/F9");
    assert_eq!(file_uri_from_text("/x#y?z%"), "file:///x%23y%3Fz%25");
    assert_eq!(file_uri_from_text("/\u{1F600}"), "file:///%F0%9F%98%80");
}

fn strings(v: &[&str]) -> Vec<String> {
    v.iter().map(|s| s.to_string()).collect()
}

#[test]
fn reconcile_adds_and_removes_managed_flags() {
    let cur = strings(&["kms-modifiers", "scale-monitor-framebuffer"]);
    assert_eq!(reconcile_flags(&cur, true, false), None);
    assert_eq!(reconcile_flags(&cur, false, false), Some(strings(&["kms-modifiers"])));
    assert_eq!(
        reconcile_flags(&cur, true, true),
        Some(strings(&["kms-modifiers", "scale-monitor-framebuffer", "x11-randr-fractional-scaling"]))
    );
    let dup = strings(&["scale-monitor-framebuffer", "a", "scale-monitor-framebuffer"]);
    assert_eq!(reconcile_flags(&dup, true, false), Some(strings(&["scale-monitor-framebuffer", "a"])));
    assert_eq!(reconcile_flags(&[], false, false), None);
}

#[test]
fn reconciled_flags_need_no_second_pass() {
    let cur = strings(&["x11-randr-fractional-scaling", "b", "x11-randr-fractional-scaling"]);
    for (fb, x11) in [(false, false), (true, false), (false, true), (true, true)] {
        let once = reconcile_flags(&cur, fb, x11).unwrap_or_else(|| cur.clone());
        assert_eq!(reconcile_flags(&once, fb, x11), None);
    }
}

#[test]
fn pixels_are_read_whole_and_binned() {
    assert_eq!(pixel_rgbs(&[1, 2, 3, 255, 4, 5, 6, 255, 7], 4), vec![(1, 2, 3), (4, 5, 6)]);
    assert_eq!(pixel_rgbs(&[1, 2, 3, 4, 5, 6], 3), vec![(1, 2, 3), (4, 5, 6)]);
    assert_eq!(pixel_rgbs(&[1, 2, 3, 4], 2), Vec::<(u8, u8, u8)>::new());
    let hsv = vec![(213, 196, 228), (218, 190, 230), (5, 200, 200), (100, 10, 200), (100, 100, 10)];
    assert_eq!(dominant_bucket(&hsv), Some((210, 2, 2)));
    assert_eq!(dominant_bucket(&[(100, 10, 200), (0, 255, 250)]), None);
    assert_eq!(dominant_bucket(&[]), None);
    assert_eq!(bucket_center((210, 2, 2)), (215, 212, 212));
    assert_eq!(bucket_center((0, 0, 1)), (5, 42, 127));
}
