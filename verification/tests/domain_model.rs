use std::path::PathBuf;

use gnomex::decoration_report::{DecorationMode, DecorationReport, WindowDecorationInfo};
use gnomex::error::{AppError, DomainError};
use gnomex::experience_pack::{ExperiencePack, ExtensionRef};
use gnomex::extension::{CompatibilityBadge, Extension, ExtensionState, ExtensionUuid};
use gnomex::external_theme_spec::ColorScheme;
use gnomex::shadowed_resource::{ResourceKind, ShadowedLocation, ShadowedResource};
use gnomex::shell_version::ShellVersion;
use gnomex::theme::{ContentCategory, ThemeType};
use gnomex::theme_spec::HexColor;
use gnomex::theming_conflict::{ConflictKind, ConflictReport};

fn win(class: &str, mode: DecorationMode) -> WindowDecorationInfo {
    WindowDecorationInfo {
        app_class: class.into(),
        title: None,
        mode,
    }
}

#[test]
fn counts_tally_by_mode() {
    let r = DecorationReport {
        windows: vec![
            win("org.gnome.Nautilus", DecorationMode::Csd),
            win("org.gnome.TextEditor", DecorationMode::Csd),
            win("slack", DecorationMode::Ssd),
            win("steam", DecorationMode::Ssd),
            win("weird", DecorationMode::Unknown),
        ],
    };
    assert_eq!(r.csd_count(), 2);
    assert_eq!(r.ssd_count(), 2);
    assert_eq!(r.unknown_count(), 1);
    assert!(r.has_ssd_windows());
}

#[test]
fn ssd_app_classes_are_sorted_and_deduped() {
    let r = DecorationReport {
        windows: vec![
            win("steam", DecorationMode::Ssd),
            win("slack", DecorationMode::Ssd),
            win("slack", DecorationMode::Ssd),
            win("org.gnome.Files", DecorationMode::Csd),
        ],
    };
    assert_eq!(r.ssd_app_classes(), vec!["slack", "steam"]);
}

#[test]
fn empty_report_reports_no_ssd() {
    let r = DecorationReport::default();
    assert!(!r.has_ssd_windows());
    assert_eq!(r.ssd_count(), 0);
    assert_eq!(r.ssd_app_classes(), Vec::<String>::new());
}

#[test]
fn ssd_classes_order_by_code_point_and_labels() {
    let r = DecorationReport {
        windows: vec![
            win("b", DecorationMode::Ssd),
            win("B", DecorationMode::Ssd),
            win("a", DecorationMode::Ssd),
            win("b", DecorationMode::Ssd),
        ],
    };
    assert_eq!(r.ssd_app_classes(), vec!["B", "a", "b"]);
    assert_eq!(DecorationMode::Csd.label(), "CSD");
    assert_eq!(DecorationMode::Ssd.label(), "SSD");
    assert_eq!(DecorationMode::Unknown.label(), "Unknown");
}

#[test]
fn valid_uuid() {
    let uuid = ExtensionUuid::new("dash-to-dock@micxgx.gmail.com").unwrap();
    assert_eq!(uuid.as_str(), "dash-to-dock@micxgx.gmail.com");
}

#[test]
fn invalid_uuid_missing_at() {
    assert!(ExtensionUuid::new("no-at-sign").is_err());
}

#[test]
fn invalid_uuid_error_carries_the_text() {
    assert_eq!(
        ExtensionUuid::new(String::from("plain").as_str()).unwrap_err(),
        DomainError::InvalidExtensionUuid("plain".into())
    );
    assert_eq!(ExtensionUuid::new("a@b").unwrap().to_string(), "a@b");
}

fn sample_extension(versions: Vec<ShellVersion>, state: ExtensionState) -> Extension {
    Extension {
        uuid: ExtensionUuid::new("test@test.com").unwrap(),
        name: "Test".into(),
        description: String::new(),
        creator: "author".into(),
        shell_versions: versions,
        version: 1,
        download_url: None,
        screenshot_url: None,
        homepage_url: None,
        pk: None,
        state,
    }
}

#[test]
fn compatibility_badge() {
    let ext = sample_extension(
        vec![ShellVersion::new(46, 0), ShellVersion::new(47, 0)],
        ExtensionState::Available,
    );
    assert_eq!(ext.compatibility(&ShellVersion::new(47, 0)), CompatibilityBadge::Compatible);
    assert_eq!(ext.compatibility(&ShellVersion::new(45, 0)), CompatibilityBadge::Incompatible);
}

#[test]
fn no_listed_versions_is_untested() {
    let ext = sample_extension(vec![], ExtensionState::Available);
    assert_eq!(ext.compatibility(&ShellVersion::new(47, 0)), CompatibilityBadge::Untested);
}

#[test]
fn installed_and_active_follow_the_state() {
    for (state, installed, active) in [
        (ExtensionState::Available, false, false),
        (ExtensionState::Installed, true, false),
        (ExtensionState::Enabled, true, true),
        (ExtensionState::Disabled, true, false),
        (ExtensionState::Error, true, false),
    ] {
        let ext = sample_extension(vec![], state);
        assert_eq!(ext.is_installed(), installed);
        assert_eq!(ext.is_active(), active);
    }
    assert_eq!(ExtensionState::Enabled.to_string(), "Enabled");
    assert_eq!(ExtensionState::Error.to_string(), "Error");
}

#[test]
fn color_scheme_parses_gsettings() {
    assert_eq!(ColorScheme::from_gsettings("prefer-dark"), ColorScheme::Dark);
    assert_eq!(ColorScheme::from_gsettings("prefer-light"), ColorScheme::Light);
    assert_eq!(ColorScheme::from_gsettings("default"), ColorScheme::Light);
    assert_eq!(ColorScheme::from_gsettings(""), ColorScheme::Light);
}

#[test]
fn color_scheme_ignores_ascii_case() {
    assert_eq!(ColorScheme::from_gsettings("PREFER-Dark"), ColorScheme::Dark);
    assert!(ColorScheme::Dark.is_dark());
    assert!(!ColorScheme::Light.is_dark());
}

fn sample_pack() -> ExperiencePack {
    ExperiencePack {
        id: "test-pack".into(),
        name: "Test Pack".into(),
        description: "A test experience pack".into(),
        author: "Tester".into(),
        created_at: "2026-04-13T12:00:00Z".into(),
        shell_version: ShellVersion::new(47, 0),
        pack_format: 1,
        gtk_theme: None,
        shell_theme: None,
        icon_pack: None,
        cursor_pack: None,
        extensions: vec![
            ExtensionRef {
                uuid: "required@ext.com".into(),
                name: "Required".into(),
                required: true,
            },
            ExtensionRef {
                uuid: "optional@ext.com".into(),
                name: "Optional".into(),
                required: false,
            },
        ],
        wallpaper: None,
        gsettings_overrides: vec![],
        shell_tweaks: vec![],
    }
}

#[test]
fn validate_valid_pack() {
    assert!(sample_pack().validate().is_ok());
}

#[test]
fn validate_empty_name() {
    let mut pack = sample_pack();
    pack.name = "  ".into();
    assert!(pack.validate().is_err());
}

#[test]
fn validate_bad_format() {
    let mut pack = sample_pack();
    pack.pack_format = 99;
    assert!(pack.validate().is_err());
}

#[test]
fn validate_bad_extension_uuid() {
    let mut pack = sample_pack();
    pack.extensions.push(ExtensionRef {
        uuid: "no-at-sign".into(),
        name: "Bad".into(),
        required: true,
    });
    assert!(pack.validate().is_err());
}

#[test]
fn required_and_optional() {
    let pack = sample_pack();
    assert_eq!(pack.required_extensions().len(), 1);
    assert_eq!(pack.optional_extensions().len(), 1);
}

#[test]
fn validate_reports_each_problem_exactly() {
    let mut pack = sample_pack();
    pack.name = " \t".into();
    assert_eq!(pack.validate().unwrap_err(), DomainError::InvalidPack("pack name must not be empty".into()));

    let mut pack = sample_pack();
    pack.pack_format = 99;
    assert_eq!(pack.validate().unwrap_err(), DomainError::InvalidPack("unsupported pack format: 99".into()));

    let mut pack = sample_pack();
    pack.extensions.push(ExtensionRef { uuid: "first-bad".into(), name: "A".into(), required: false });
    pack.extensions.push(ExtensionRef { uuid: "second-bad".into(), name: "B".into(), required: true });
    assert_eq!(pack.validate().unwrap_err(), DomainError::InvalidExtensionUuid("first-bad".into()));

    let pack = sample_pack();
    let required: Vec<&str> = pack.required_extensions().iter().map(|e| e.uuid.as_str()).collect();
    let optional: Vec<&str> = pack.optional_extensions().iter().map(|e| e.uuid.as_str()).collect();
    assert_eq!(required, vec!["required@ext.com"]);
    assert_eq!(optional, vec!["optional@ext.com"]);
}

#[test]
fn parse_major_only() {
    let v = ShellVersion::parse("47").unwrap();
    assert_eq!(v, ShellVersion::new(47, 0));
    assert_eq!(v.to_string(), "47");
}

#[test]
fn parse_major_minor() {
    let v = ShellVersion::parse("46.3").unwrap();
    assert_eq!(v, ShellVersion::new(46, 3));
    assert_eq!(v.to_string(), "46.3");
}

#[test]
fn parse_invalid() {
    assert!(ShellVersion::parse("abc").is_err());
    assert!(ShellVersion::parse("").is_err());
}

#[test]
fn compatibility() {
    let v46 = ShellVersion::new(46, 0);
    let v46_3 = ShellVersion::new(46, 3);
    let v47 = ShellVersion::new(47, 0);

    assert!(v46.is_compatible_with(&v46_3));
    assert!(!v46.is_compatible_with(&v47));
}

#[test]
fn parse_follows_integer_parsing_rules() {
    assert_eq!(ShellVersion::parse("  47.1 ").unwrap(), ShellVersion::new(47, 1));
    assert_eq!(ShellVersion::parse("+47").unwrap(), ShellVersion::new(47, 0));
    assert_eq!(ShellVersion::parse("4294967295").unwrap(), ShellVersion::new(4294967295, 0));
    assert!(ShellVersion::parse("4294967296").is_err());
    assert!(ShellVersion::parse("47.").is_err());
    assert!(ShellVersion::parse("47.1.2").is_err());
    assert!(ShellVersion::parse("-1").is_err());
    assert_eq!(
        ShellVersion::parse(" x.1 ").unwrap_err(),
        DomainError::InvalidShellVersion("x.1".into())
    );
    assert_eq!(ShellVersion::new(50, 10).to_string(), "50.10");
}

#[test]
fn version_text_parses_back() {
    for (major, minor) in [(45u32, 0u32), (46, 3), (0, 7), (4294967295, 4294967295)] {
        let v = ShellVersion::new(major, minor);
        assert_eq!(ShellVersion::parse(&v.to_string()).unwrap(), v);
    }
}

#[test]
fn hex_color_valid() {
    let c = HexColor::new("#3584e4").unwrap();
    assert_eq!(c.as_str(), "#3584e4");
    assert_eq!(c.to_rgb(), (0x35, 0x84, 0xe4));
}

#[test]
fn hex_color_invalid() {
    assert!(HexColor::new("red").is_err());
    assert!(HexColor::new("#12345").is_err());
    assert!(HexColor::new("#gggggg").is_err());
}

#[test]
fn hex_color_trims_and_lowercases() {
    let c = HexColor::new("  #AbCdEf\n").unwrap();
    assert_eq!(c.as_str(), "#abcdef");
    assert_eq!(c.to_rgb(), (0xab, 0xcd, 0xef));
    assert_eq!(HexColor::new(" bad ").unwrap_err(), DomainError::InvalidColor("bad".into()));
    assert_eq!(c.clone(), c);
}

fn loc(path: &str, writable: bool) -> ShadowedLocation {
    ShadowedLocation {
        path: PathBuf::from(path),
        user_writable: writable,
    }
}

#[test]
fn winning_location_is_first_entry() {
    let r = ShadowedResource {
        kind: ResourceKind::Theme,
        name: "Adwaita".into(),
        locations: vec![
            loc("/home/u/.local/share/themes/Adwaita", true),
            loc("/usr/share/themes/Adwaita", false),
        ],
    };
    assert_eq!(r.winning_location().path, PathBuf::from("/home/u/.local/share/themes/Adwaita"));
    assert_eq!(r.masked_locations().len(), 1);
}

#[test]
fn user_install_masked_flags_the_common_failure_case() {
    let system_wins = ShadowedResource {
        kind: ResourceKind::Theme,
        name: "Yaru".into(),
        locations: vec![
            loc("/usr/share/themes/Yaru", false),
            loc("/home/u/.local/share/themes/Yaru", true),
        ],
    };
    assert!(system_wins.user_install_masked());

    let user_wins = ShadowedResource {
        kind: ResourceKind::Theme,
        name: "Yaru".into(),
        locations: vec![
            loc("/home/u/.local/share/themes/Yaru", true),
            loc("/usr/share/themes/Yaru", false),
        ],
    };
    assert!(!user_wins.user_install_masked());
}

#[test]
fn kind_labels_and_subdirs() {
    assert_eq!(ResourceKind::Theme.xdg_subdir(), "themes");
    assert_eq!(ResourceKind::Icon.xdg_subdir(), "icons");
    assert_eq!(ResourceKind::Cursor.xdg_subdir(), "icons");
    assert_eq!(ResourceKind::Cursor.label(), "Cursor");
}

#[test]
fn masked_locations_are_everything_after_the_winner() {
    let r = ShadowedResource {
        kind: ResourceKind::Icon,
        name: "Papirus".into(),
        locations: vec![
            loc("/home/u/.local/share/icons/Papirus", true),
            loc("/usr/local/share/icons/Papirus", false),
            loc("/usr/share/icons/Papirus", false),
        ],
    };
    let masked: Vec<PathBuf> = r.masked_locations().iter().map(|l| l.path.clone()).collect();
    assert_eq!(
        masked,
        vec![PathBuf::from("/usr/local/share/icons/Papirus"), PathBuf::from("/usr/share/icons/Papirus")]
    );
    assert!(!r.user_install_masked());
    assert_eq!(ResourceKind::Theme.label(), "Theme");
    assert_eq!(ResourceKind::Icon.label(), "Icon pack");
}

#[test]
fn theme_types_and_categories_render() {
    assert_eq!(ThemeType::Gtk3.to_string(), "GTK 3");
    assert_eq!(ThemeType::Gtk4.to_string(), "GTK 4");
    assert_eq!(ThemeType::Shell.to_string(), "GNOME Shell");
    assert_eq!(ThemeType::Libadwaita.to_string(), "Libadwaita");
    assert_eq!(ContentCategory::GtkTheme.ocs_id(), 135);
    assert_eq!(ContentCategory::ShellTheme.ocs_id(), 134);
    assert_eq!(ContentCategory::IconTheme.ocs_id(), 132);
    assert_eq!(ContentCategory::CursorTheme.ocs_id(), 107);
    assert_eq!(ContentCategory::Wallpaper.ocs_id(), 300);
}

#[test]
fn conflict_report_keeps_its_texts() {
    let r = ConflictReport::new(ConflictKind::BlurMyShell, "blurs the panel", "disable it");
    assert_eq!(r.kind, ConflictKind::BlurMyShell);
    assert_eq!(r.description, "blurs the panel");
    assert_eq!(r.recommendation, "disable it");
    assert_eq!(ConflictKind::UserThemes.source_label(), "User Themes extension");
    assert_eq!(ConflictKind::UnmanagedGtkCss.source_label(), "Unmanaged ~/.config/gtk-4.0/gtk.css");
}

#[test]
fn domain_error_messages() {
    assert_eq!(
        DomainError::InvalidExtensionUuid("x".into()).to_string(),
        "invalid extension UUID (must contain '@'): x"
    );
    assert_eq!(DomainError::InvalidShellVersion("abc".into()).to_string(), "invalid shell version: abc");
    assert_eq!(
        DomainError::InvalidContentRating("7".into()).to_string(),
        "content rating out of range 0.0\u{2013}5.0: 7"
    );
    assert_eq!(DomainError::InvalidPack("empty".into()).to_string(), "invalid pack: empty");
    assert_eq!(DomainError::InvalidColor("red".into()).to_string(), "invalid hex color: red");
    assert_eq!(DomainError::InvalidAppId(".x".into()).to_string(), "invalid .desktop app id: .x");
    assert!(matches!(
        AppError::from_domain(DomainError::InvalidPack("p".into())),
        AppError::Domain(DomainError::InvalidPack(_))
    ));
}

#[test]
fn hex_color_stored_form_reads_back() {
    for raw in ["#3584E4", "  #aBc123 ", "#000000"] {
        let stored = HexColor::new(raw).unwrap();
        let again = HexColor::new(stored.as_str()).unwrap();
        assert_eq!(again, stored);
    }
}

#[test]
fn validate_accepts_formats_one_and_two() {
    let mut pack = sample_pack();
    pack.pack_format = 2;
    assert!(pack.validate().is_ok());
    pack.pack_format = 3;
    assert_eq!(pack.validate().unwrap_err(), DomainError::InvalidPack("unsupported pack format: 3".into()));
    pack.pack_format = 0;
    assert!(pack.validate().is_err());
}

#[test]
fn hex_color_channels_format_back_to_the_text() {
    for raw in ["#3584e4", " #ABCDEF", "#000000", "#ffffff", "#0a1B2c"] {
        let c = HexColor::new(raw).unwrap();
        let (r, g, b) = c.to_rgb();
        assert_eq!(format!("#{:02x}{:02x}{:02x}", r, g, b), c.as_str());
    }
}
