use gnomex::catalog::{
    active_name, fill_metadata, hit_state, install_kind, lacks_metadata, listing_for, patch_installed_state,
    ContentInstall, ContentListing,
};
use gnomex::error::AppError;
use gnomex::experience_pack::{CursorPackRef, ExperiencePack, ExtensionRef, GSettingOverride, IconPackRef, ThemeRef};
use gnomex::extension::{Extension, ExtensionState, ExtensionUuid, SearchResult};
use gnomex::packs::{name_listed, plan_pack_apply, slug, snapshot_pack, DesktopSnapshot, PackApplyStep, PackContent};
use gnomex::shell_tweak::{ShellTweak, ShellTweakId, TweakValue};
use gnomex::shell_version::ShellVersion;
use gnomex::theme::{ContentCategory, ContentState, ThemeType};

fn ext(uuid: &str, name: &str, state: ExtensionState) -> Extension {
    Extension {
        uuid: ExtensionUuid::new(uuid).unwrap(),
        name: name.into(),
        description: String::new(),
        creator: String::new(),
        shell_versions: vec![],
        version: 1,
        download_url: None,
        screenshot_url: None,
        homepage_url: None,
        pk: None,
        state,
    }
}

fn enable_animations(v: bool) -> ShellTweak {
    ShellTweak { id: ShellTweakId::EnableAnimations, value: TweakValue::Bool(v) }
}

fn sample_pack(id: &str) -> ExperiencePack {
    ExperiencePack {
        id: id.into(),
        name: "Test Pack".into(),
        description: "For tests".into(),
        author: "tester".into(),
        created_at: "0".into(),
        shell_version: ShellVersion::new(47, 0),
        pack_format: 2,
        gtk_theme: None,
        shell_theme: None,
        icon_pack: None,
        cursor_pack: None,
        extensions: Vec::new(),
        wallpaper: None,
        gsettings_overrides: Vec::new(),
        shell_tweaks: Vec::new(),
    }
}

#[test]
fn slugs_are_lowercase_runs_joined_by_dashes() {
    assert_eq!(slug("Test"), "test");
    assert_eq!(slug("My  Cool -- Pack!"), "my-cool-pack");
    assert_eq!(slug("  --Leading and trailing--  "), "leading-and-trailing");
    assert_eq!(slug("!!!"), "");
    assert_eq!(slug(""), "");
    assert_eq!(slug("Caf\u{c9} 2026"), "caf\u{e9}-2026");
    assert_eq!(slug("a_b.c"), "a-b-c");
}

#[test]
fn slug_shape_holds_on_samples() {
    for name in ["Hello, World", "--x--y--", "ÄÖÜ äöü", "1.2.3", " ", "\u{130}stanbul"] {
        let s = slug(name);
        assert!(!s.starts_with('-') && !s.ends_with('-'), "{s:?}");
        assert!(!s.contains("--"), "{s:?}");
        assert!(s.chars().all(|c| c == '-' || c.is_alphanumeric()), "{s:?}");
    }
}

fn snapshot() -> DesktopSnapshot {
    DesktopSnapshot {
        shell_version: ShellVersion::new(47, 1),
        gtk_theme: Some("Adwaita".into()),
        shell_theme: Some(String::new()),
        icon_theme: Some("Papirus".into()),
        cursor_theme: None,
        wallpaper: Some("file:///w.jpg".into()),
        extensions: vec![
            ext("one@x", "One", ExtensionState::Enabled),
            ext("two@x", "Two", ExtensionState::Disabled),
            ext("three@x", "Three", ExtensionState::Enabled),
        ],
        gsettings_overrides: vec![GSettingOverride { key: "tb-window-radius".into(), value: "25.0".into() }],
        shell_tweaks: vec![enable_animations(true)],
    }
}

#[test]
fn snapshot_captures_shell_tweaks_and_gsettings_overrides() {
    let pack = snapshot_pack("Test".into(), "desc".into(), "me".into(), "0".into(), snapshot());
    assert_eq!(pack.id, "test");
    assert_eq!(pack.pack_format, 2);
    assert!(pack.validate().is_ok());
    assert_eq!(pack.shell_tweaks, vec![enable_animations(true)]);
    assert_eq!(pack.gsettings_overrides.len(), 1);
    assert_eq!(pack.gsettings_overrides[0].key, "tb-window-radius");
}

#[test]
fn snapshot_keeps_local_refs_and_enabled_extensions() {
    let pack = snapshot_pack("My Desk".into(), "d".into(), "a".into(), "1700000000".into(), snapshot());
    assert_eq!(pack.id, "my-desk");
    assert_eq!(pack.name, "My Desk");
    assert_eq!(pack.created_at, "1700000000");
    assert_eq!(pack.shell_version, ShellVersion::new(47, 1));
    let gtk = pack.gtk_theme.as_ref().unwrap();
    assert_eq!((gtk.name.as_str(), gtk.source.as_str(), gtk.content_id, gtk.file_id), ("Adwaita", "local", 0, 0));
    assert!(pack.shell_theme.is_none());
    assert_eq!(pack.icon_pack.as_ref().unwrap().name, "Papirus");
    assert!(pack.cursor_pack.is_none());
    assert_eq!(pack.wallpaper.as_deref(), Some("file:///w.jpg"));
    let refs: Vec<(&str, &str, bool)> =
        pack.extensions.iter().map(|e| (e.uuid.as_str(), e.name.as_str(), e.required)).collect();
    assert_eq!(refs, vec![("one@x", "One", true), ("three@x", "Three", true)]);

    let mut bare = snapshot();
    bare.wallpaper = Some(String::new());
    bare.shell_theme = Some("Custom".into());
    let pack = snapshot_pack("x".into(), "".into(), "".into(), "".into(), bare);
    assert!(pack.wallpaper.is_none());
    assert_eq!(pack.shell_theme.as_ref().unwrap().name, "Custom");
}

fn kinds(steps: &[PackApplyStep<'_>]) -> Vec<String> {
    steps
        .iter()
        .map(|s| match s {
            PackApplyStep::InstallIfMissing { kind, name, content_id, file_id } => {
                format!("install {kind:?} {name} {content_id}/{file_id}")
            }
            PackApplyStep::Activate { kind, name } => format!("activate {kind:?} {name}"),
            PackApplyStep::SetWallpaper(w) => format!("wallpaper {w}"),
            PackApplyStep::EnableExtension(u) => format!("enable {}", u.as_str()),
            PackApplyStep::ApplyOverrides(o) => format!("overrides {}", o.len()),
            PackApplyStep::ApplyShellTweak(t) => format!("tweak {:?}", t.id),
            PackApplyStep::RerenderTheme => "rerender".to_string(),
        })
        .collect()
}

#[test]
fn apply_pack_fans_tweaks_to_customizer_and_overrides_to_app_settings() {
    let mut pack = sample_pack("fan-out");
    pack.gsettings_overrides = vec![
        GSettingOverride { key: "tb-window-radius".into(), value: "30.0".into() },
        GSettingOverride { key: "tb-panel-opacity".into(), value: "85.0".into() },
    ];
    pack.shell_tweaks = vec![
        enable_animations(false),
        ShellTweak { id: ShellTweakId::ShowWeekday, value: TweakValue::Bool(true) },
    ];
    let steps = plan_pack_apply(&pack, false);
    assert_eq!(
        kinds(&steps),
        vec!["overrides 2", "tweak EnableAnimations", "tweak ShowWeekday"]
    );
    match &steps[0] {
        PackApplyStep::ApplyOverrides(o) => {
            assert_eq!(o[0].key, "tb-window-radius");
            assert_eq!(o[1].key, "tb-panel-opacity");
        }
        other => panic!("unexpected {other:?}"),
    }
}

#[test]
fn format_two_sample_pack_is_valid() {
    assert!(sample_pack("x").validate().is_ok());
}

#[test]
fn apply_pack_with_empty_tweaks_does_not_call_customizer() {
    let pack = sample_pack("empty");
    assert!(plan_pack_apply(&pack, false).is_empty());
}

#[test]
fn apply_pack_triggers_theme_rerender_when_wired() {
    let pack = sample_pack("re-render");
    let steps = plan_pack_apply(&pack, true);
    let rerenders = steps.iter().filter(|s| matches!(s, PackApplyStep::RerenderTheme)).count();
    assert_eq!(rerenders, 1, "apply_pack must call rerender() exactly once");
}

#[test]
fn apply_pack_without_trigger_still_succeeds() {
    let pack = sample_pack("no-trigger");
    let steps = plan_pack_apply(&pack, false);
    assert!(!steps.iter().any(|s| matches!(s, PackApplyStep::RerenderTheme)));
}

#[test]
fn apply_pack_swallows_trigger_failure() {
    let pack = sample_pack("trigger-fails");
    let steps = plan_pack_apply(&pack, true);
    let last = steps.last().unwrap();
    assert!(matches!(last, PackApplyStep::RerenderTheme));
    assert!(!last.aborts_on_failure());
}

#[test]
fn apply_plan_orders_every_step() {
    let mut pack = sample_pack("full");
    pack.gtk_theme = Some(ThemeRef { name: "Orchis".into(), source: "ocs".into(), content_id: 5, file_id: 6 });
    pack.shell_theme = Some(ThemeRef { name: "Orchis".into(), source: "local".into(), content_id: 0, file_id: 0 });
    pack.icon_pack = Some(IconPackRef { name: "Papirus".into(), source: "ocs".into(), content_id: 7, file_id: 8 });
    pack.cursor_pack = Some(CursorPackRef { name: "Bibata".into(), source: "local".into(), content_id: 0, file_id: 0 });
    pack.wallpaper = Some("file:///w.jpg".into());
    pack.extensions = vec![
        ExtensionRef { uuid: "dock@x".into(), name: "Dock".into(), required: true },
        ExtensionRef { uuid: "opt@x".into(), name: "Opt".into(), required: false },
        ExtensionRef { uuid: "broken".into(), name: "Broken".into(), required: true },
    ];
    pack.shell_tweaks = vec![enable_animations(true)];
    let steps = plan_pack_apply(&pack, true);
    assert_eq!(
        kinds(&steps),
        vec![
            "install GtkTheme Orchis 5/6",
            "activate GtkTheme Orchis",
            "activate ShellTheme Orchis",
            "install IconPack Papirus 7/8",
            "activate IconPack Papirus",
            "activate Cursor Bibata",
            "wallpaper file:///w.jpg",
            "enable dock@x",
            "tweak EnableAnimations",
            "rerender",
        ]
    );
    let aborts: Vec<bool> = steps.iter().map(|s| s.aborts_on_failure()).collect();
    assert_eq!(aborts, vec![true, true, false, true, true, true, true, false, false, false]);
    assert_eq!(PackContent::Cursor, PackContent::Cursor);
}

#[test]
fn listed_names_match_exactly() {
    let names = vec!["Adwaita".to_string(), "Yaru".to_string()];
    assert!(name_listed(&names, "Yaru"));
    assert!(!name_listed(&names, "yaru"));
    assert!(!name_listed(&[], "Yaru"));
}

#[test]
fn search_results_take_the_installed_state() {
    let mut result = SearchResult {
        items: vec![
            ext("dash@x", "Dash", ExtensionState::Available),
            ext("blur@x", "Blur", ExtensionState::Available),
        ],
        total: 2,
        page: 1,
        pages: 3,
    };
    let installed = vec![
        ext("dash@x", "Dash", ExtensionState::Disabled),
        ext("other@x", "Other", ExtensionState::Enabled),
        ext("dash@x", "Dash", ExtensionState::Enabled),
    ];
    patch_installed_state(&mut result, &installed);
    assert_eq!(result.items[0].state, ExtensionState::Enabled);
    assert_eq!(result.items[1].state, ExtensionState::Available);
    assert_eq!((result.total, result.page, result.pages), (2, 1, 3));
    assert_eq!(result.items[0].name, "Dash");
}

#[test]
fn metadata_fills_only_missing_fields() {
    let mut e = ext("a@b", "A", ExtensionState::Enabled);
    e.homepage_url = Some("https://mine".into());
    assert!(lacks_metadata(&e));
    let mut info = ext("a@b", "Remote", ExtensionState::Available);
    info.creator = "someone".into();
    info.screenshot_url = Some("https://shot".into());
    info.homepage_url = Some("https://theirs".into());
    fill_metadata(&mut e, info);
    assert_eq!(e.creator, "someone");
    assert_eq!(e.screenshot_url.as_deref(), Some("https://shot"));
    assert_eq!(e.homepage_url.as_deref(), Some("https://mine"));
    assert_eq!(e.name, "A");
    assert_eq!(e.state, ExtensionState::Enabled);
    assert!(!lacks_metadata(&e));
}

#[test]
fn content_hits_become_installed_or_active() {
    let installed = vec!["Adwaita".to_string(), "Orchis".to_string()];
    let active = Some("Orchis".to_string());
    assert_eq!(hit_state("Orchis", &installed, &active), Some(ContentState::Active));
    assert_eq!(hit_state("Adwaita", &installed, &active), Some(ContentState::Installed));
    assert_eq!(hit_state("Yaru", &installed, &active), None);
    assert_eq!(hit_state("Adwaita", &installed, &None), Some(ContentState::Installed));
    assert_eq!(active_name(Some(String::new())), None);
    assert_eq!(active_name(Some("x".into())), Some("x".to_string()));
    assert_eq!(active_name(None), None);
    assert_eq!(listing_for(ContentCategory::GtkTheme), Some(ContentListing::Themes));
    assert_eq!(listing_for(ContentCategory::ShellTheme), Some(ContentListing::Themes));
    assert_eq!(listing_for(ContentCategory::IconTheme), Some(ContentListing::Icons));
    assert_eq!(listing_for(ContentCategory::CursorTheme), Some(ContentListing::Cursors));
    assert_eq!(listing_for(ContentCategory::Wallpaper), None);
}

#[test]
fn content_installs_by_category() {
    assert_eq!(install_kind(ContentCategory::GtkTheme).unwrap(), ContentInstall::Theme(ThemeType::Gtk4));
    assert_eq!(install_kind(ContentCategory::ShellTheme).unwrap(), ContentInstall::Theme(ThemeType::Shell));
    assert_eq!(install_kind(ContentCategory::IconTheme).unwrap(), ContentInstall::IconPack);
    assert_eq!(install_kind(ContentCategory::CursorTheme).unwrap(), ContentInstall::Cursor);
    assert!(matches!(
        install_kind(ContentCategory::Wallpaper),
        Err(AppError::Install(m)) if m == "use apply_content for wallpapers"
    ));
}

#[test]
fn applying_a_snapshot_restores_it() {
    let pack = snapshot_pack("Desk".into(), "".into(), "".into(), "0".into(), snapshot());
    let steps = plan_pack_apply(&pack, true);
    assert_eq!(
        kinds(&steps),
        vec![
            "activate GtkTheme Adwaita",
            "activate IconPack Papirus",
            "wallpaper file:///w.jpg",
            "enable one@x",
            "enable three@x",
            "overrides 1",
            "tweak EnableAnimations",
            "rerender",
        ]
    );
}
