//! Theme capability model: which theming controls each GNOME version
//! supports. Pure policy.

use vstd::prelude::*;
use crate::shell_version::ShellVersion;
use crate::text::{decimal, opt_text_view, owned, u32_to_text};

verus! {

/// Identifies a specific theme builder control.
#[derive(Debug, Clone, Copy, PartialEq, Eq, Hash, Structural)]
pub enum ThemeControlId {
    WindowRadius,
    ElementRadius,
    PanelRadius,
    PanelOpacity,
    PanelTint,
    AccentTint,
    DashOpacity,
    OverviewBlur,
    AccentColor,
}

/// How well a GNOME version supports a given control.
#[derive(Debug, Clone, PartialEq, Eq)]
pub enum ControlSupport {
    /// Fully supported, works as expected.
    Full,
    /// Works but with caveats the user should know about.
    Degraded { reason: &'static str },
    /// Not available on this version at all.
    Unsupported { reason: &'static str },
}

impl ControlSupport {
    pub fn is_full(&self) -> (r: bool)
        ensures
            r == (*self is Full),
    {
        match self {
            ControlSupport::Full => true,
            _ => false,
        }
    }

    pub fn is_unsupported(&self) -> (r: bool)
        ensures
            r == (*self is Unsupported),
    {
        match self {
            ControlSupport::Unsupported { .. } => true,
            _ => false,
        }
    }

    /// The caveat or refusal reason; `None` for full support.
    pub fn reason(&self) -> (r: Option<&'static str>)
        ensures
            match *self {
                ControlSupport::Full => r is None,
                ControlSupport::Degraded { reason } => r == Some(reason),
                ControlSupport::Unsupported { reason } => r == Some(reason),
            },
    {
        match self {
            ControlSupport::Full => None,
            ControlSupport::Degraded { reason } => Some(*reason),
            ControlSupport::Unsupported { reason } => Some(*reason),
        }
    }

    /// A copy of this support level.
    pub fn copied(&self) -> (r: ControlSupport)
        ensures
            r == *self,
    {
        match self {
            ControlSupport::Full => ControlSupport::Full,
            ControlSupport::Degraded { reason } => ControlSupport::Degraded { reason: *reason },
            ControlSupport::Unsupported { reason } => ControlSupport::Unsupported { reason: *reason },
        }
    }
}

/// A control paired with its support level and optional safe range.
/// The bounds are whole pixels (radii) or whole percents (opacity and
/// tint): every bound the policy uses is a whole number.
#[derive(Debug, Clone, PartialEq, Eq)]
pub struct ControlHint {
    pub control: ThemeControlId,
    pub support: ControlSupport,
    /// If set, values outside this range degrade on this version.
    pub safe_range: Option<(u32, u32)>,
}

/// Support for a shell-theming control that needs GNOME 45.
pub open spec fn shell_45(major: u32, reason: &'static str) -> ControlSupport {
    if major >= 45 { ControlSupport::Full } else { ControlSupport::Unsupported { reason } }
}

/// The theming capability table for GNOME major version `major`.
pub open spec fn control_hints(major: u32) -> Seq<ControlHint> {
    seq![
        ControlHint {
            control: ThemeControlId::AccentColor,
            support: if major >= 46 { ControlSupport::Full } else { ControlSupport::Unsupported { reason: "Accent color requires GNOME 46+" } },
            safe_range: None,
        },
        ControlHint {
            control: ThemeControlId::AccentTint,
            support: shell_45(major, "GTK4 CSS theming requires GNOME 45+"),
            safe_range: Some((0u32, 20u32)),
        },
        ControlHint {
            control: ThemeControlId::WindowRadius,
            support: ControlSupport::Full,
            safe_range: if major < 46 { Some((0u32, 24u32)) } else { Some((0u32, 48u32)) },
        },
        ControlHint {
            control: ThemeControlId::ElementRadius,
            support: ControlSupport::Full,
            safe_range: Some((0u32, 24u32)),
        },
        ControlHint {
            control: ThemeControlId::PanelRadius,
            support: shell_45(major, "Shell panel theming requires GNOME 45+"),
            safe_range: if major < 47 { Some((0u32, 12u32)) } else { Some((0u32, 24u32)) },
        },
        ControlHint {
            control: ThemeControlId::PanelOpacity,
            support: shell_45(major, "Shell panel theming requires GNOME 45+"),
            safe_range: None,
        },
        ControlHint {
            control: ThemeControlId::PanelTint,
            support: shell_45(major, "Shell panel theming requires GNOME 45+"),
            safe_range: None,
        },
        ControlHint {
            control: ThemeControlId::DashOpacity,
            support: shell_45(major, "Shell dash theming requires GNOME 45+"),
            safe_range: None,
        },
        ControlHint {
            control: ThemeControlId::OverviewBlur,
            support: if major >= 50 {
                ControlSupport::Full
            } else if major >= 45 {
                ControlSupport::Degraded { reason: "No reduced-motion guard before GNOME 50" }
            } else {
                ControlSupport::Unsupported { reason: "Shell theming requires GNOME 45+" }
            },
            safe_range: None,
        },
    ]
}

/// The first hint for `control` in `hints`.
pub open spec fn find_control(hints: Seq<ControlHint>, control: ThemeControlId) -> Option<ControlHint>
    decreases hints.len(),
{
    if hints.len() == 0 {
        None
    } else if hints[0].control == control {
        Some(hints[0])
    } else {
        find_control(hints.drop_first(), control)
    }
}

/// Capability profile for a specific GNOME version.
#[derive(Debug, Clone)]
pub struct VersionProfile {
    pub version_major: u32,
    pub hints: Vec<ControlHint>,
}

fn shell_45_support(major: u32, reason: &'static str) -> (r: ControlSupport)
    ensures
        r == shell_45(major, reason),
{
    if major >= 45 { ControlSupport::Full } else { ControlSupport::Unsupported { reason } }
}

impl VersionProfile {
    /// The capability profile for `version`: the single source of
    /// truth for theming compatibility.
    pub fn for_version(version: &ShellVersion) -> (r: Self)
        ensures
            r.version_major == version.major,
            r.hints@ == control_hints(version.major),
    {
        let major = version.major;
        let mut hints: Vec<ControlHint> = Vec::new();
        hints.push(ControlHint {
            control: ThemeControlId::AccentColor,
            support: if major >= 46 { ControlSupport::Full } else { ControlSupport::Unsupported { reason: "Accent color requires GNOME 46+" } },
            safe_range: None,
        });
        hints.push(ControlHint {
            control: ThemeControlId::AccentTint,
            support: shell_45_support(major, "GTK4 CSS theming requires GNOME 45+"),
            safe_range: Some((0u32, 20u32)),
        });
        hints.push(ControlHint {
            control: ThemeControlId::WindowRadius,
            support: ControlSupport::Full,
            safe_range: if major < 46 { Some((0u32, 24u32)) } else { Some((0u32, 48u32)) },
        });
        hints.push(ControlHint {
            control: ThemeControlId::ElementRadius,
            support: ControlSupport::Full,
            safe_range: Some((0u32, 24u32)),
        });
        hints.push(ControlHint {
            control: ThemeControlId::PanelRadius,
            support: shell_45_support(major, "Shell panel theming requires GNOME 45+"),
            safe_range: if major < 47 { Some((0u32, 12u32)) } else { Some((0u32, 24u32)) },
        });
        hints.push(ControlHint {
            control: ThemeControlId::PanelOpacity,
            support: shell_45_support(major, "Shell panel theming requires GNOME 45+"),
            safe_range: None,
        });
        hints.push(ControlHint {
            control: ThemeControlId::PanelTint,
            support: shell_45_support(major, "Shell panel theming requires GNOME 45+"),
            safe_range: None,
        });
        hints.push(ControlHint {
            control: ThemeControlId::DashOpacity,
            support: shell_45_support(major, "Shell dash theming requires GNOME 45+"),
            safe_range: None,
        });
        hints.push(ControlHint {
            control: ThemeControlId::OverviewBlur,
            support: if major >= 50 {
                ControlSupport::Full
            } else if major >= 45 {
                ControlSupport::Degraded { reason: "No reduced-motion guard before GNOME 50" }
            } else {
                ControlSupport::Unsupported { reason: "Shell theming requires GNOME 45+" }
            },
            safe_range: None,
        });
        assert(hints@ =~= control_hints(major));
        VersionProfile { version_major: major, hints }
    }

    /// The hint for a specific control.
    pub fn hint_for(&self, control: ThemeControlId) -> (r: Option<&ControlHint>)
        ensures
            match r {
                Some(h) => find_control(self.hints@, control) == Some(*h),
                None => find_control(self.hints@, control) is None,
            },
    {
        let mut i: usize = 0;
        assert(self.hints@.subrange(0, self.hints@.len() as int) =~= self.hints@);
        while i < self.hints.len()
            invariant
                i <= self.hints@.len(),
                find_control(self.hints@, control) == find_control(self.hints@.subrange(i as int, self.hints@.len() as int), control),
            decreases self.hints@.len() - i,
        {
            proof {
                let s = self.hints@.subrange(i as int, self.hints@.len() as int);
                assert(s[0] == self.hints@[i as int]);
                assert(s.drop_first() =~= self.hints@.subrange(i + 1, self.hints@.len() as int));
            }
            if self.hints[i].control == control {
                return Some(&self.hints[i]);
            }
            i = i + 1;
        }
        None
    }
}

/// Every control has a hint in every version's profile; accent color
/// needs GNOME 46, shell-side controls need GNOME 45, and overview blur
/// is full only from GNOME 50.
pub proof fn lemma_control_support_by_version(major: u32, control: ThemeControlId)
    ensures
        find_control(control_hints(major), control) is Some,
        find_control(control_hints(major), control)->0.control == control,
        (find_control(control_hints(major), ThemeControlId::AccentColor)->0.support is Full) <==> major >= 46,
        (find_control(control_hints(major), ThemeControlId::PanelRadius)->0.support is Full) <==> major >= 45,
        (find_control(control_hints(major), ThemeControlId::OverviewBlur)->0.support is Full) <==> major >= 50,
        (find_control(control_hints(major), ThemeControlId::OverviewBlur)->0.support is Degraded) <==> (45 <= major && major < 50),
{
    reveal_with_fuel(find_control, 10);
}

/// The safe range of each control on every GNOME version: accent tint
/// 0 to 20 and element radius 0 to 24 everywhere; window radius 0 to 24
/// before GNOME 46 and 0 to 48 from it; panel radius 0 to 12 before
/// GNOME 47 and 0 to 24 from it; the opacities, tints of the panel,
/// overview blur and accent color have no range.
pub proof fn lemma_safe_ranges_by_version(major: u32)
    ensures
        find_control(control_hints(major), ThemeControlId::AccentTint)->0.safe_range == Some((0u32, 20u32)),
        find_control(control_hints(major), ThemeControlId::ElementRadius)->0.safe_range == Some((0u32, 24u32)),
        find_control(control_hints(major), ThemeControlId::WindowRadius)->0.safe_range
            == (if major < 46 { Some((0u32, 24u32)) } else { Some((0u32, 48u32)) }),
        find_control(control_hints(major), ThemeControlId::PanelRadius)->0.safe_range
            == (if major < 47 { Some((0u32, 12u32)) } else { Some((0u32, 24u32)) }),
        find_control(control_hints(major), ThemeControlId::PanelOpacity)->0.safe_range is None,
        find_control(control_hints(major), ThemeControlId::PanelTint)->0.safe_range is None,
        find_control(control_hints(major), ThemeControlId::DashOpacity)->0.safe_range is None,
        find_control(control_hints(major), ThemeControlId::OverviewBlur)->0.safe_range is None,
        find_control(control_hints(major), ThemeControlId::AccentColor)->0.safe_range is None,
{
    reveal_with_fuel(find_control, 10);
}

/// `GNOME <major>: ` — the prefix of every capability warning.
pub open spec fn gnome_prefix(major: u32) -> Seq<char> {
    "GNOME "@ + decimal(major as nat) + ": "@
}

/// The warning a profile (`hints` for GNOME `major`) raises for a value
/// of `control`, given whether the value lies in the control's safe
/// range: a value outside a declared safe range is reported first, then
/// an unsupported control; an unknown control raises nothing.
pub open spec fn value_warning_text(hints: Seq<ControlHint>, major: u32, control: ThemeControlId, within: bool) -> Option<Seq<char>> {
    match find_control(hints, control) {
        None => None,
        Some(h) => match h.safe_range {
            Some((_lo, hi)) if !within => Some(
                gnome_prefix(major) + "values above "@ + decimal(hi as nat) + " may not render correctly"@,
            ),
            _ => match h.support {
                ControlSupport::Unsupported { reason } => Some(gnome_prefix(major) + reason@),
                _ => None,
            },
        },
    }
}

/// Whether a whole-number value lies in the hint's safe range (a hint
/// without a range accepts every value).
pub open spec fn within_range(h: ControlHint, value: u32) -> bool {
    match h.safe_range {
        Some((lo, hi)) => lo <= value && value <= hi,
        None => true,
    }
}

fn prefixed(major: u32, tail: &str) -> (r: String)
    ensures
        r@ == gnome_prefix(major) + tail@,
{
    let mut out = owned("GNOME ");
    let m = u32_to_text(major);
    out.append(m.as_str());
    out.append(": ");
    out.append(tail);
    out
}

impl VersionProfile {
    /// The warning for a value of `control` on this version, given
    /// whether the value lies inside the control's safe range: outside a
    /// declared range it is "values above <max> may not render
    /// correctly"; otherwise an unsupported control gives its reason.
    pub fn value_warning(&self, control: ThemeControlId, within_safe_range: bool) -> (r: Option<String>)
        ensures
            opt_text_view(r) == value_warning_text(self.hints@, self.version_major, control, within_safe_range),
    {
        let hint = match self.hint_for(control) {
            Some(h) => h,
            None => return None,
        };
        match hint.safe_range {
            Some((_lo, hi)) => if !within_safe_range {
                let mut out = prefixed(self.version_major, "values above ");
                let h = u32_to_text(hi);
                out.append(h.as_str());
                out.append(" may not render correctly");
                return Some(out);
            },
            None => {},
        }
        match hint.support {
            ControlSupport::Unsupported { reason } => Some(prefixed(self.version_major, reason)),
            _ => None,
        }
    }

    /// The warning for a whole-number value of `control` (pixels or
    /// percent) on this version; see [`VersionProfile::value_warning`].
    pub fn check_whole_value(&self, control: ThemeControlId, value: u32) -> (r: Option<String>)
        ensures
            opt_text_view(r) == match find_control(self.hints@, control) {
                None => None,
                Some(h) => value_warning_text(self.hints@, self.version_major, control, within_range(h, value)),
            },
    {
        let within = match self.hint_for(control) {
            Some(h) => match h.safe_range {
                Some((lo, hi)) => lo <= value && value <= hi,
                None => true,
            },
            None => true,
        };
        self.value_warning(control, within)
    }
}

/// The GNOME versions a compatibility report covers.
pub open spec fn supported_majors() -> Seq<u32> {
    seq![45u32, 46u32, 47u32, 48u32, 49u32, 50u32]
}

/// The warning for a whole-number value of `control` on GNOME `major`.
pub open spec fn whole_warning(major: u32, control: ThemeControlId, value: u32) -> Option<Seq<char>> {
    match find_control(control_hints(major), control) {
        None => None,
        Some(h) => value_warning_text(control_hints(major), major, control, within_range(h, value)),
    }
}

/// The warnings a whole-number value raises across `majors`, in order.
pub open spec fn warnings_over(majors: Seq<u32>, control: ThemeControlId, value: u32) -> Seq<Seq<char>>
    decreases majors.len(),
{
    if majors.len() == 0 {
        Seq::empty()
    } else {
        let rest = warnings_over(majors.drop_last(), control, value);
        match whole_warning(majors.last(), control, value) {
            Some(w) => rest.push(w),
            None => rest,
        }
    }
}

/// An accent tint above 20 percent warns on every GNOME version that
/// "values above 20 may not render correctly"; a tint of at most 20
/// warns only before GNOME 45, where GTK4 CSS theming is missing.
pub proof fn lemma_accent_tint_warning(major: u32, value: u32)
    ensures
        whole_warning(major, ThemeControlId::AccentTint, value) == (if value > 20 {
            Some(gnome_prefix(major) + "values above 20 may not render correctly"@)
        } else if major < 45 {
            Some(gnome_prefix(major) + "GTK4 CSS theming requires GNOME 45+"@)
        } else {
            None::<Seq<char>>
        }),
{
    reveal_with_fuel(find_control, 10);
    reveal_with_fuel(decimal, 3);
    reveal_strlit("values above ");
    reveal_strlit(" may not render correctly");
    reveal_strlit("values above 20 may not render correctly");
    assert(decimal(20) =~= seq!['2', '0']);
    assert("values above "@ + decimal(20) + " may not render correctly"@ =~= "values above 20 may not render correctly"@);
}

/// Across GNOME 45 to 50 an accent tint above 20 raises one range
/// warning per version, in version order, and a tint of at most 20
/// raises none.
pub proof fn lemma_accent_tint_warnings_over_versions(value: u32)
    ensures
        warnings_over(supported_majors(), ThemeControlId::AccentTint, value) == (if value > 20 {
            seq![
                gnome_prefix(45) + "values above 20 may not render correctly"@,
                gnome_prefix(46) + "values above 20 may not render correctly"@,
                gnome_prefix(47) + "values above 20 may not render correctly"@,
                gnome_prefix(48) + "values above 20 may not render correctly"@,
                gnome_prefix(49) + "values above 20 may not render correctly"@,
                gnome_prefix(50) + "values above 20 may not render correctly"@,
            ]
        } else {
            Seq::<Seq<char>>::empty()
        }),
{
    lemma_accent_tint_warning(45, value);
    lemma_accent_tint_warning(46, value);
    lemma_accent_tint_warning(47, value);
    lemma_accent_tint_warning(48, value);
    lemma_accent_tint_warning(49, value);
    lemma_accent_tint_warning(50, value);
    reveal_with_fuel(warnings_over, 7);
    let m = supported_majors();
    assert(m.drop_last() =~= seq![45u32, 46u32, 47u32, 48u32, 49u32]);
    assert(m.drop_last().drop_last() =~= seq![45u32, 46u32, 47u32, 48u32]);
    assert(m.drop_last().drop_last().drop_last() =~= seq![45u32, 46u32, 47u32]);
    assert(m.drop_last().drop_last().drop_last().drop_last() =~= seq![45u32, 46u32]);
    assert(m.drop_last().drop_last().drop_last().drop_last().drop_last() =~= seq![45u32]);
    assert(m.drop_last().drop_last().drop_last().drop_last().drop_last().drop_last() =~= Seq::<u32>::empty());
    if value > 20 {
        assert(warnings_over(m, ThemeControlId::AccentTint, value) =~= seq![
            gnome_prefix(45) + "values above 20 may not render correctly"@,
            gnome_prefix(46) + "values above 20 may not render correctly"@,
            gnome_prefix(47) + "values above 20 may not render correctly"@,
            gnome_prefix(48) + "values above 20 may not render correctly"@,
            gnome_prefix(49) + "values above 20 may not render correctly"@,
            gnome_prefix(50) + "values above 20 may not render correctly"@,
        ]);
    } else {
        assert(warnings_over(m, ThemeControlId::AccentTint, value) =~= Seq::<Seq<char>>::empty());
    }
}

/// The warning a control's support level raises on GNOME `major`:
/// its reason when unsupported, and also when degraded if
/// `with_degraded`.
pub open spec fn support_warning(major: u32, control: ThemeControlId, with_degraded: bool) -> Option<Seq<char>> {
    match find_control(control_hints(major), control) {
        None => None,
        Some(h) => match h.support {
            ControlSupport::Unsupported { reason } => Some(gnome_prefix(major) + reason@),
            ControlSupport::Degraded { reason } => if with_degraded {
                Some(gnome_prefix(major) + reason@)
            } else {
                None
            },
            ControlSupport::Full => None,
        },
    }
}

/// The support warnings for `control` across `majors`, in order.
pub open spec fn support_warnings_over(majors: Seq<u32>, control: ThemeControlId, with_degraded: bool) -> Seq<Seq<char>>
    decreases majors.len(),
{
    if majors.len() == 0 {
        Seq::empty()
    } else {
        let rest = support_warnings_over(majors.drop_last(), control, with_degraded);
        match support_warning(majors.last(), control, with_degraded) {
            Some(w) => rest.push(w),
            None => rest,
        }
    }
}

/// The entries of `s` that carry at least one warning, in order.
pub open spec fn with_warnings(s: Seq<(ThemeControlId, Seq<Seq<char>>)>) -> Seq<(ThemeControlId, Seq<Seq<char>>)>
    decreases s.len(),
{
    if s.len() == 0 {
        Seq::empty()
    } else {
        let rest = with_warnings(s.drop_last());
        if s.last().1.len() > 0 {
            rest.push(s.last())
        } else {
            rest
        }
    }
}

/// A theme's radii (pixels) and opacities (percent), each rounded up to
/// a whole number. The safe-range bounds are whole numbers, so a
/// non-negative value exceeds a bound exactly when its rounded-up value
/// does.
#[derive(Debug, Clone, Copy, PartialEq, Eq, Structural)]
pub struct RoundedThemeValues {
    pub window_radius: u32,
    pub element_radius: u32,
    pub panel_radius: u32,
    pub panel_opacity: u32,
    pub tint_intensity: u32,
    pub dash_opacity: u32,
}

/// What a cross-version report holds for `v`, over GNOME 45 to 50:
/// per-value range and support warnings for window, element and panel
/// radius, panel opacity, accent tint and dash opacity; then overview
/// blur (degraded or unsupported) and accent color (unsupported). Only
/// controls with at least one warning appear.
pub open spec fn compatibility_report_spec(v: RoundedThemeValues) -> Seq<(ThemeControlId, Seq<Seq<char>>)> {
    let m = supported_majors();
    with_warnings(seq![
        (ThemeControlId::WindowRadius, warnings_over(m, ThemeControlId::WindowRadius, v.window_radius)),
        (ThemeControlId::ElementRadius, warnings_over(m, ThemeControlId::ElementRadius, v.element_radius)),
        (ThemeControlId::PanelRadius, warnings_over(m, ThemeControlId::PanelRadius, v.panel_radius)),
        (ThemeControlId::PanelOpacity, warnings_over(m, ThemeControlId::PanelOpacity, v.panel_opacity)),
        (ThemeControlId::AccentTint, warnings_over(m, ThemeControlId::AccentTint, v.tint_intensity)),
        (ThemeControlId::DashOpacity, warnings_over(m, ThemeControlId::DashOpacity, v.dash_opacity)),
        (ThemeControlId::OverviewBlur, support_warnings_over(m, ThemeControlId::OverviewBlur, true)),
        (ThemeControlId::AccentColor, support_warnings_over(m, ThemeControlId::AccentColor, false)),
    ])
}

proof fn lemma_with_warnings_keeps(s: Seq<(ThemeControlId, Seq<Seq<char>>)>, k: int)
    requires
        0 <= k < s.len(),
        s[k].1.len() > 0,
    ensures
        with_warnings(s).contains(s[k]),
    decreases s.len(),
{
    if k == s.len() - 1 {
        assert(with_warnings(s).last() == s[k]);
    } else {
        lemma_with_warnings_keeps(s.drop_last(), k);
        let w = with_warnings(s.drop_last());
        let i = choose|i: int| 0 <= i < w.len() && w[i] == s[k];
        if s.last().1.len() > 0 {
            assert(with_warnings(s)[i] == s[k]);
        }
    }
}

/// A theme whose accent tint is above 20 percent gets a report entry for
/// accent tint holding one "values above 20 may not render correctly"
/// warning for each of GNOME 45 to 50.
pub proof fn lemma_report_flags_strong_tint(v: RoundedThemeValues)
    requires
        v.tint_intensity > 20,
    ensures
        compatibility_report_spec(v).contains((ThemeControlId::AccentTint, seq![
            gnome_prefix(45) + "values above 20 may not render correctly"@,
            gnome_prefix(46) + "values above 20 may not render correctly"@,
            gnome_prefix(47) + "values above 20 may not render correctly"@,
            gnome_prefix(48) + "values above 20 may not render correctly"@,
            gnome_prefix(49) + "values above 20 may not render correctly"@,
            gnome_prefix(50) + "values above 20 may not render correctly"@,
        ])),
{
    lemma_accent_tint_warnings_over_versions(v.tint_intensity);
    let m = supported_majors();
    let entries = seq![
        (ThemeControlId::WindowRadius, warnings_over(m, ThemeControlId::WindowRadius, v.window_radius)),
        (ThemeControlId::ElementRadius, warnings_over(m, ThemeControlId::ElementRadius, v.element_radius)),
        (ThemeControlId::PanelRadius, warnings_over(m, ThemeControlId::PanelRadius, v.panel_radius)),
        (ThemeControlId::PanelOpacity, warnings_over(m, ThemeControlId::PanelOpacity, v.panel_opacity)),
        (ThemeControlId::AccentTint, warnings_over(m, ThemeControlId::AccentTint, v.tint_intensity)),
        (ThemeControlId::DashOpacity, warnings_over(m, ThemeControlId::DashOpacity, v.dash_opacity)),
        (ThemeControlId::OverviewBlur, support_warnings_over(m, ThemeControlId::OverviewBlur, true)),
        (ThemeControlId::AccentColor, support_warnings_over(m, ThemeControlId::AccentColor, false)),
    ];
    assert(entries[4].1.len() == 6);
    lemma_with_warnings_keeps(entries, 4);
}

/// The report's entries by view.
pub open spec fn report_view(r: Seq<(ThemeControlId, Vec<String>)>) -> Seq<(ThemeControlId, Seq<Seq<char>>)> {
    r.map_values(|p: (ThemeControlId, Vec<String>)| (p.0, p.1@.map_values(|s: String| s@)))
}

proof fn lemma_report_view_push(r: Seq<(ThemeControlId, Vec<String>)>, p: (ThemeControlId, Vec<String>))
    ensures
        report_view(r.push(p)) == report_view(r).push((p.0, p.1@.map_values(|s: String| s@))),
{
    assert(report_view(r.push(p)) =~= report_view(r).push((p.0, p.1@.map_values(|s: String| s@))));
}

fn push_text(v: &mut Vec<String>, s: String)
    ensures
        final(v)@.map_values(|x: String| x@) == old(v)@.map_values(|x: String| x@).push(s@),
{
    let ghost before = v@;
    v.push(s);
    assert(v@.map_values(|x: String| x@) =~= before.map_values(|x: String| x@).push(s@));
}

fn majors() -> (r: [u32; 6])
    ensures
        r@ == supported_majors(),
{
    let r = [45u32, 46u32, 47u32, 48u32, 49u32, 50u32];
    assert(r@ =~= supported_majors());
    r
}

fn value_warnings(control: ThemeControlId, value: u32) -> (r: Vec<String>)
    ensures
        r@.map_values(|s: String| s@) == warnings_over(supported_majors(), control, value),
{
    let m = majors();
    let mut out: Vec<String> = Vec::new();
    let mut i: usize = 0;
    while i < 6
        invariant
            m@ == supported_majors(),
            i <= 6,
            out@.map_values(|s: String| s@) == warnings_over(supported_majors().subrange(0, i as int), control, value),
        decreases 6 - i,
    {
        let major = m[i];
        proof {
            assert(supported_majors().subrange(0, i + 1).drop_last() =~= supported_majors().subrange(0, i as int));
            assert(supported_majors().subrange(0, i + 1).last() == major);
        }
        let profile = VersionProfile::for_version(&ShellVersion::new(major, 0));
        match profile.check_whole_value(control, value) {
            Some(w) => push_text(&mut out, w),
            None => {},
        }
        i = i + 1;
    }
    assert(supported_majors().subrange(0, 6) =~= supported_majors());
    out
}

fn support_warnings(control: ThemeControlId, with_degraded: bool) -> (r: Vec<String>)
    ensures
        r@.map_values(|s: String| s@) == support_warnings_over(supported_majors(), control, with_degraded),
{
    let m = majors();
    let mut out: Vec<String> = Vec::new();
    let mut i: usize = 0;
    while i < 6
        invariant
            m@ == supported_majors(),
            i <= 6,
            out@.map_values(|s: String| s@) == support_warnings_over(supported_majors().subrange(0, i as int), control, with_degraded),
        decreases 6 - i,
    {
        let major = m[i];
        proof {
            assert(supported_majors().subrange(0, i + 1).drop_last() =~= supported_majors().subrange(0, i as int));
            assert(supported_majors().subrange(0, i + 1).last() == major);
        }
        let profile = VersionProfile::for_version(&ShellVersion::new(major, 0));
        match profile.hint_for(control) {
            Some(h) => match h.support {
                ControlSupport::Unsupported { reason } => push_text(&mut out, prefixed(major, reason)),
                ControlSupport::Degraded { reason } => if with_degraded {
                    push_text(&mut out, prefixed(major, reason));
                },
                ControlSupport::Full => {},
            },
            None => {},
        }
        i = i + 1;
    }
    assert(supported_majors().subrange(0, 6) =~= supported_majors());
    out
}

fn push_entry(report: &mut Vec<(ThemeControlId, Vec<String>)>, control: ThemeControlId, warnings: Vec<String>)
    ensures
        report_view(final(report)@) == if warnings@.len() > 0 {
            report_view(old(report)@).push((control, warnings@.map_values(|s: String| s@)))
        } else {
            report_view(old(report)@)
        },
{
    if warnings.len() > 0 {
        proof { lemma_report_view_push(report@, (control, warnings)); }
        report.push((control, warnings));
    }
}

proof fn lemma_with_warnings_step(entries: Seq<(ThemeControlId, Seq<Seq<char>>)>, k: int)
    requires
        0 <= k < entries.len(),
    ensures
        with_warnings(entries.subrange(0, k + 1)) == if entries[k].1.len() > 0 {
            with_warnings(entries.subrange(0, k)).push(entries[k])
        } else {
            with_warnings(entries.subrange(0, k))
        },
{
    assert(entries.subrange(0, k + 1).drop_last() =~= entries.subrange(0, k));
    assert(entries.subrange(0, k + 1).last() == entries[k]);
}

/// Cross-version compatibility report for a theme's values, over GNOME
/// 45 to 50: for each control with at least one warning, the warnings in
/// version order (see [`compatibility_report_spec`]).
pub fn compatibility_report_rounded(v: &RoundedThemeValues) -> (r: Vec<(ThemeControlId, Vec<String>)>)
    ensures
        report_view(r@) == compatibility_report_spec(*v),
{
    let ghost m = supported_majors();
    let ghost entries = seq![
        (ThemeControlId::WindowRadius, warnings_over(m, ThemeControlId::WindowRadius, v.window_radius)),
        (ThemeControlId::ElementRadius, warnings_over(m, ThemeControlId::ElementRadius, v.element_radius)),
        (ThemeControlId::PanelRadius, warnings_over(m, ThemeControlId::PanelRadius, v.panel_radius)),
        (ThemeControlId::PanelOpacity, warnings_over(m, ThemeControlId::PanelOpacity, v.panel_opacity)),
        (ThemeControlId::AccentTint, warnings_over(m, ThemeControlId::AccentTint, v.tint_intensity)),
        (ThemeControlId::DashOpacity, warnings_over(m, ThemeControlId::DashOpacity, v.dash_opacity)),
        (ThemeControlId::OverviewBlur, support_warnings_over(m, ThemeControlId::OverviewBlur, true)),
        (ThemeControlId::AccentColor, support_warnings_over(m, ThemeControlId::AccentColor, false)),
    ];
    let mut report: Vec<(ThemeControlId, Vec<String>)> = Vec::new();
    assert(report_view(report@) =~= with_warnings(entries.subrange(0, 0)));
    let w = value_warnings(ThemeControlId::WindowRadius, v.window_radius);
    proof {
        lemma_with_warnings_step(entries, 0);
        assert(entries[0] == (ThemeControlId::WindowRadius, w@.map_values(|s: String| s@)));
    }
    push_entry(&mut report, ThemeControlId::WindowRadius, w);
    assert(report_view(report@) == with_warnings(entries.subrange(0, 1)));
    let w = value_warnings(ThemeControlId::ElementRadius, v.element_radius);
    proof {
        lemma_with_warnings_step(entries, 1);
        assert(entries[1] == (ThemeControlId::ElementRadius, w@.map_values(|s: String| s@)));
    }
    push_entry(&mut report, ThemeControlId::ElementRadius, w);
    assert(report_view(report@) == with_warnings(entries.subrange(0, 2)));
    let w = value_warnings(ThemeControlId::PanelRadius, v.panel_radius);
    proof {
        lemma_with_warnings_step(entries, 2);
        assert(entries[2] == (ThemeControlId::PanelRadius, w@.map_values(|s: String| s@)));
    }
    push_entry(&mut report, ThemeControlId::PanelRadius, w);
    assert(report_view(report@) == with_warnings(entries.subrange(0, 3)));
    let w = value_warnings(ThemeControlId::PanelOpacity, v.panel_opacity);
    proof {
        lemma_with_warnings_step(entries, 3);
        assert(entries[3] == (ThemeControlId::PanelOpacity, w@.map_values(|s: String| s@)));
    }
    push_entry(&mut report, ThemeControlId::PanelOpacity, w);
    assert(report_view(report@) == with_warnings(entries.subrange(0, 4)));
    let w = value_warnings(ThemeControlId::AccentTint, v.tint_intensity);
    proof {
        lemma_with_warnings_step(entries, 4);
        assert(entries[4] == (ThemeControlId::AccentTint, w@.map_values(|s: String| s@)));
    }
    push_entry(&mut report, ThemeControlId::AccentTint, w);
    assert(report_view(report@) == with_warnings(entries.subrange(0, 5)));
    let w = value_warnings(ThemeControlId::DashOpacity, v.dash_opacity);
    proof {
        lemma_with_warnings_step(entries, 5);
        assert(entries[5] == (ThemeControlId::DashOpacity, w@.map_values(|s: String| s@)));
    }
    push_entry(&mut report, ThemeControlId::DashOpacity, w);
    assert(report_view(report@) == with_warnings(entries.subrange(0, 6)));
    let w = support_warnings(ThemeControlId::OverviewBlur, true);
    proof {
        lemma_with_warnings_step(entries, 6);
        assert(entries[6] == (ThemeControlId::OverviewBlur, w@.map_values(|s: String| s@)));
    }
    push_entry(&mut report, ThemeControlId::OverviewBlur, w);
    assert(report_view(report@) == with_warnings(entries.subrange(0, 7)));
    let w = support_warnings(ThemeControlId::AccentColor, false);
    proof {
        lemma_with_warnings_step(entries, 7);
        assert(entries[7] == (ThemeControlId::AccentColor, w@.map_values(|s: String| s@)));
    }
    push_entry(&mut report, ThemeControlId::AccentColor, w);
    assert(report_view(report@) == with_warnings(entries.subrange(0, 8)));
    assert(entries.subrange(0, 8) =~= entries);
    report
}

} // verus!
