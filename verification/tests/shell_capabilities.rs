use gnomex::pack_compatibility::{CompatibilitySeverity, CompatibilityWarning, PackCompatibilityReport};
use gnomex::shell_tweak::{
    PanelPosition, ShellTweak, ShellTweakId, ShellTweakProfile, ShellTweakSurface, TweakKind, TweakValue,
};
use gnomex::shell_version::ShellVersion;
use gnomex::theme_capability::{
    compatibility_report_rounded, ControlSupport, RoundedThemeValues, ThemeControlId, VersionProfile,
};

const ALL_IDS: [ShellTweakId; 23] = [
    ShellTweakId::EnableAnimations,
    ShellTweakId::ReducedMotion,
    ShellTweakId::WindowAnimationSpeed,
    ShellTweakId::TopBarPosition,
    ShellTweakId::ShowClock,
    ShellTweakId::ClockFormat,
    ShellTweakId::ShowWeekday,
    ShellTweakId::ShowBattery,
    ShellTweakId::OverviewHotCorner,
    ShellTweakId::WorkspaceThumbnails,
    ShellTweakId::AppsGridColumns,
    ShellTweakId::WorkspacesOnAllMonitors,
    ShellTweakId::DynamicWorkspaces,
    ShellTweakId::NumWorkspaces,
    ShellTweakId::FocusMode,
    ShellTweakId::AttachModalDialogs,
    ShellTweakId::TitlebarDoubleClickAction,
    ShellTweakId::ButtonLayout,
    ShellTweakId::CursorSize,
    ShellTweakId::FontAntialiasing,
    ShellTweakId::FontHinting,
    ShellTweakId::OverviewBlur,
    ShellTweakId::FloatingDock,
];

#[test]
fn enable_animations_is_full_on_every_version() {
    for major in [45u32, 46, 47, 48, 50] {
        let p = ShellTweakProfile::for_version(&ShellVersion::new(major, 0));
        let hint = p.hint_for(ShellTweakId::EnableAnimations).unwrap();
        assert!(hint.support.is_full(), "version {major}");
    }
}

#[test]
fn apps_grid_columns_unsupported_on_45() {
    let p = ShellTweakProfile::for_version(&ShellVersion::new(45, 0));
    let hint = p.hint_for(ShellTweakId::AppsGridColumns).unwrap();
    assert!(hint.support.is_unsupported());
}

#[test]
fn apps_grid_columns_degraded_on_46_plus() {
    for major in [46u32, 47, 50] {
        let p = ShellTweakProfile::for_version(&ShellVersion::new(major, 0));
        let hint = p.hint_for(ShellTweakId::AppsGridColumns).unwrap();
        assert!(matches!(hint.support, ControlSupport::Degraded { .. }), "version {major}");
    }
}

#[test]
fn reduced_motion_unsupported_until_bundled_extension() {
    for major in [45u32, 46, 47, 50] {
        let p = ShellTweakProfile::for_version(&ShellVersion::new(major, 0));
        assert!(p.hint_for(ShellTweakId::ReducedMotion).unwrap().support.is_unsupported());
    }
}

#[test]
fn top_bar_position_unsupported_until_bundled_extension() {
    for major in [45u32, 46, 47, 50] {
        let p = ShellTweakProfile::for_version(&ShellVersion::new(major, 0));
        assert!(p.hint_for(ShellTweakId::TopBarPosition).unwrap().support.is_unsupported());
    }
}

#[test]
fn supported_ids_excludes_unsupported() {
    let p = ShellTweakProfile::for_version(&ShellVersion::new(47, 0));
    assert!(!p.supported_ids().contains(&ShellTweakId::TopBarPosition));
    assert!(p.supported_ids().contains(&ShellTweakId::EnableAnimations));
}

#[test]
fn every_id_round_trips_through_slug() {
    for id in ALL_IDS {
        assert_eq!(ShellTweakId::from_slug(id.slug()), Some(id), "{id:?}");
    }
}

#[test]
fn from_slug_returns_none_on_unknown() {
    assert_eq!(ShellTweakId::from_slug("not_a_real_tweak"), None);
    assert_eq!(ShellTweakId::from_slug(""), None);
}

#[test]
fn tweak_value_round_trips_for_each_type() {
    let cases = [
        (ShellTweakId::EnableAnimations, TweakValue::Bool(true)),
        (ShellTweakId::EnableAnimations, TweakValue::Bool(false)),
        (ShellTweakId::AppsGridColumns, TweakValue::Int(6)),
        (ShellTweakId::ClockFormat, TweakValue::Enum("24h".to_owned())),
        (ShellTweakId::FocusMode, TweakValue::Enum("sloppy".to_owned())),
        (ShellTweakId::TopBarPosition, TweakValue::Position(PanelPosition::Bottom)),
    ];
    for (id, value) in cases {
        let encoded = value.as_toml_string();
        let decoded = TweakValue::parse_for_id(id, &encoded);
        assert_eq!(decoded, Some(value.clone()), "roundtrip {id:?}");
    }
}

#[test]
fn tweak_value_parse_rejects_malformed() {
    assert_eq!(TweakValue::parse_for_id(ShellTweakId::EnableAnimations, "maybe"), None);
    assert_eq!(TweakValue::parse_for_id(ShellTweakId::AppsGridColumns, "not_a_number"), None);
    assert_eq!(TweakValue::parse_for_id(ShellTweakId::TopBarPosition, "diagonal"), None);
}

#[test]
fn tweak_values_encode_as_documented() {
    assert_eq!(TweakValue::Bool(true).as_toml_string(), "true");
    assert_eq!(TweakValue::Int(-42).as_toml_string(), "-42");
    assert_eq!(TweakValue::Int(i32::MIN).as_toml_string(), "-2147483648");
    assert_eq!(TweakValue::Position(PanelPosition::Top).as_toml_string(), "top");
    assert_eq!(TweakValue::parse_for_id(ShellTweakId::NumWorkspaces, "+7"), Some(TweakValue::Int(7)));
    assert_eq!(
        TweakValue::parse_for_id(ShellTweakId::NumWorkspaces, "-2147483648"),
        Some(TweakValue::Int(i32::MIN))
    );
    assert_eq!(TweakValue::parse_for_id(ShellTweakId::NumWorkspaces, "2147483648"), None);
    assert_eq!(TweakValue::parse_for_id(ShellTweakId::ShowClock, "True"), None);
}

#[test]
fn every_id_has_metadata_on_its_surface() {
    for id in ALL_IDS {
        assert!(!id.label().is_empty());
        assert!(!id.subtitle().is_empty());
        let kind = id.value_kind();
        assert_eq!(!id.enum_options().is_empty(), kind == TweakKind::Enum, "{id:?}");
    }
    assert_eq!(ShellTweakId::TopBarPosition.label(), "Top Bar Position");
    assert_eq!(ShellTweakId::EnableAnimations.slug(), "enable_animations");
    assert_eq!(ShellTweakId::EnableAnimations.surface(), ShellTweakSurface::Motion);
    assert_eq!(ShellTweakSurface::ALL.len(), 6);
}

#[test]
fn every_profile_lists_every_tweak_once() {
    for major in [40u32, 45, 46, 47, 48, 49, 50, 51] {
        let p = ShellTweakProfile::for_version(&ShellVersion::new(major, 0));
        assert_eq!(p.version_major, major);
        assert_eq!(p.hints.len(), ALL_IDS.len());
        for id in ALL_IDS {
            assert_eq!(p.hint_for(id).unwrap().id, id);
        }
        let supported = p.supported_ids();
        for id in ALL_IDS {
            let unsupported = p.hint_for(id).unwrap().support.is_unsupported();
            assert_eq!(supported.contains(&id), !unsupported, "{major} {id:?}");
        }
    }
}

fn tweak(id: ShellTweakId, value: TweakValue) -> ShellTweak {
    ShellTweak { id, value }
}

#[test]
fn same_version_no_tweaks_is_clean() {
    let v = ShellVersion::new(47, 0);
    let r = PackCompatibilityReport::build(&v, &v, &[]);
    assert!(r.is_clean());
    assert_eq!(r.severity, CompatibilitySeverity::Match);
    assert!(r.warnings.is_empty());
}

#[test]
fn same_major_different_minor_is_minor_drift() {
    let a = ShellVersion::new(47, 0);
    let b = ShellVersion::new(47, 3);
    let r = PackCompatibilityReport::build(&a, &b, &[]);
    assert_eq!(r.severity, CompatibilitySeverity::MinorDrift);
}

#[test]
fn different_major_is_major_drift() {
    let a = ShellVersion::new(46, 0);
    let b = ShellVersion::new(50, 0);
    let r = PackCompatibilityReport::build(&a, &b, &[]);
    assert!(r.severity.is_major_drift());
}

#[test]
fn unsupported_tweak_in_pack_surfaces_warning() {
    let pack_version = ShellVersion::new(47, 0);
    let target_version = ShellVersion::new(45, 0);
    let tweaks = vec![tweak(ShellTweakId::AppsGridColumns, TweakValue::Int(6))];
    let r = PackCompatibilityReport::build(&pack_version, &target_version, &tweaks);

    assert_eq!(r.warnings.len(), 1);
    assert!(matches!(
        r.warnings[0],
        CompatibilityWarning::UnsupportedTweak { id: ShellTweakId::AppsGridColumns, .. }
    ));
}

#[test]
fn degraded_tweak_surfaces_warning_with_reason() {
    let target = ShellVersion::new(46, 0);
    let tweaks = vec![tweak(ShellTweakId::AppsGridColumns, TweakValue::Int(6))];
    let r = PackCompatibilityReport::build(&target, &target, &tweaks);

    assert!(r
        .warnings
        .iter()
        .any(|w| matches!(w, CompatibilityWarning::DegradedTweak { id: ShellTweakId::AppsGridColumns, .. })));
}

#[test]
fn fully_supported_tweaks_produce_no_warnings() {
    let pack = ShellVersion::new(45, 0);
    let target = ShellVersion::new(50, 0);
    let tweaks = vec![tweak(ShellTweakId::EnableAnimations, TweakValue::Bool(true))];
    let r = PackCompatibilityReport::build(&pack, &target, &tweaks);
    assert!(r.warnings.is_empty(), "got: {:?}", r.warnings);
}

#[test]
fn summary_strings_are_self_contained() {
    let w = CompatibilityWarning::UnsupportedTweak {
        id: ShellTweakId::TopBarPosition,
        reason: "needs bundled extension",
    };
    let s = w.summary();
    assert!(s.contains("Top Bar Position"));
    assert!(!s.contains("id:"));
    assert!(!s.contains("UnsupportedTweak"));
}

#[test]
fn has_warnings_tracks_only_non_empty_warning_list() {
    let v = ShellVersion::new(47, 0);
    let clean = PackCompatibilityReport::build(&v, &v, &[]);
    assert!(!clean.has_warnings());

    let tweaks = vec![tweak(ShellTweakId::AppsGridColumns, TweakValue::Int(6))];
    let dirty = PackCompatibilityReport::build(&v, &ShellVersion::new(45, 0), &tweaks);
    assert!(dirty.has_warnings());
}

#[test]
fn summaries_name_the_tweak_and_reason() {
    let u = CompatibilityWarning::UnsupportedTweak { id: ShellTweakId::TopBarPosition, reason: "r1" };
    let d = CompatibilityWarning::DegradedTweak { id: ShellTweakId::AppsGridColumns, reason: "r2" };
    assert_eq!(u.summary(), "Top Bar Position is unsupported on the target: r1");
    assert_eq!(d.summary(), format!("{} will be degraded on the target: r2", ShellTweakId::AppsGridColumns.label()));
    assert_eq!(u.tweak_id(), ShellTweakId::TopBarPosition);
    assert_eq!(d.tweak_id(), ShellTweakId::AppsGridColumns);
}

#[test]
fn warnings_follow_the_pack_order_and_keep_versions() {
    let pack = ShellVersion::new(47, 2);
    let target = ShellVersion::new(45, 0);
    let tweaks = vec![
        tweak(ShellTweakId::TopBarPosition, TweakValue::Position(PanelPosition::Top)),
        tweak(ShellTweakId::EnableAnimations, TweakValue::Bool(true)),
        tweak(ShellTweakId::AppsGridColumns, TweakValue::Int(6)),
    ];
    let r = PackCompatibilityReport::build(&pack, &target, &tweaks);
    let ids: Vec<ShellTweakId> = r.warnings.iter().map(|w| w.tweak_id()).collect();
    assert_eq!(ids, vec![ShellTweakId::TopBarPosition, ShellTweakId::AppsGridColumns]);
    assert_eq!(r.pack_version, pack);
    assert_eq!(r.target_version, target);
    assert!(!r.is_clean());
}

#[test]
fn gnome_45_no_accent_color() {
    let profile = VersionProfile::for_version(&ShellVersion::new(45, 0));
    let hint = profile.hint_for(ThemeControlId::AccentColor).unwrap();
    assert!(hint.support.is_unsupported());
}

#[test]
fn gnome_47_has_accent_color() {
    let profile = VersionProfile::for_version(&ShellVersion::new(47, 0));
    let hint = profile.hint_for(ThemeControlId::AccentColor).unwrap();
    assert!(hint.support.is_full());
}

#[test]
fn gnome_45_panel_radius_capped() {
    let profile = VersionProfile::for_version(&ShellVersion::new(45, 0));
    assert!(profile.check_whole_value(ThemeControlId::PanelRadius, 8).is_none());
    assert!(profile.check_whole_value(ThemeControlId::PanelRadius, 16).is_some());
}

#[test]
fn gnome_50_full_blur_support() {
    let profile = VersionProfile::for_version(&ShellVersion::new(50, 0));
    let hint = profile.hint_for(ThemeControlId::OverviewBlur).unwrap();
    assert!(hint.support.is_full());
}

#[test]
fn gnome_46_degraded_blur() {
    let profile = VersionProfile::for_version(&ShellVersion::new(46, 0));
    let hint = profile.hint_for(ThemeControlId::OverviewBlur).unwrap();
    assert!(matches!(hint.support, ControlSupport::Degraded { .. }));
}

#[test]
fn cross_version_report() {
    let values = RoundedThemeValues {
        window_radius: 36,
        element_radius: 6,
        panel_radius: 20,
        panel_opacity: 80,
        tint_intensity: 5,
        dash_opacity: 70,
    };
    let report = compatibility_report_rounded(&values);
    let wr = report.iter().find(|(c, _)| *c == ThemeControlId::WindowRadius);
    assert!(wr.is_some());
    let pr = report.iter().find(|(c, _)| *c == ThemeControlId::PanelRadius);
    assert!(pr.is_some());
}

#[test]
fn cross_version_report_lists_each_warning() {
    let values = RoundedThemeValues {
        window_radius: 36,
        element_radius: 6,
        panel_radius: 20,
        panel_opacity: 80,
        tint_intensity: 5,
        dash_opacity: 70,
    };
    let report = compatibility_report_rounded(&values);
    let controls: Vec<ThemeControlId> = report.iter().map(|(c, _)| *c).collect();
    assert_eq!(
        controls,
        vec![
            ThemeControlId::WindowRadius,
            ThemeControlId::PanelRadius,
            ThemeControlId::OverviewBlur,
            ThemeControlId::AccentColor
        ]
    );
    assert_eq!(report[0].1, vec!["GNOME 45: values above 24 may not render correctly"]);
    assert_eq!(
        report[1].1,
        vec![
            "GNOME 45: values above 12 may not render correctly",
            "GNOME 46: values above 12 may not render correctly"
        ]
    );
    assert_eq!(report[2].1.len(), 5);
    assert_eq!(report[2].1[0], "GNOME 45: No reduced-motion guard before GNOME 50");
    assert_eq!(report[3].1, vec!["GNOME 45: Accent color requires GNOME 46+"]);

    let calm = RoundedThemeValues {
        window_radius: 24,
        element_radius: 24,
        panel_radius: 12,
        panel_opacity: 100,
        tint_intensity: 20,
        dash_opacity: 0,
    };
    let report = compatibility_report_rounded(&calm);
    let controls: Vec<ThemeControlId> = report.iter().map(|(c, _)| *c).collect();
    assert_eq!(controls, vec![ThemeControlId::OverviewBlur, ThemeControlId::AccentColor]);
}

#[test]
fn value_warnings_by_range_and_support() {
    let p45 = VersionProfile::for_version(&ShellVersion::new(45, 0));
    assert_eq!(
        p45.value_warning(ThemeControlId::WindowRadius, false).unwrap(),
        "GNOME 45: values above 24 may not render correctly"
    );
    assert_eq!(p45.value_warning(ThemeControlId::WindowRadius, true), None);
    assert_eq!(
        p45.value_warning(ThemeControlId::AccentColor, true).unwrap(),
        "GNOME 45: Accent color requires GNOME 46+"
    );
    let p44 = VersionProfile::for_version(&ShellVersion::new(44, 0));
    assert_eq!(
        p44.value_warning(ThemeControlId::PanelOpacity, false).unwrap(),
        "GNOME 44: Shell panel theming requires GNOME 45+"
    );
    assert_eq!(p45.check_whole_value(ThemeControlId::PanelRadius, 12), None);
    assert_eq!(
        ControlSupport::Degraded { reason: "slow" }.reason(),
        Some("slow")
    );
    assert_eq!(ControlSupport::Full.reason(), None);
}
