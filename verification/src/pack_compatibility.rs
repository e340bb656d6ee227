//! Experience Pack version compatibility reports: how a pack built on
//! one shell version will fare when applied on another.

use vstd::prelude::*;
use crate::shell_tweak::{find_hint, lemma_stock_tweaks_always_full, stock_gsettings_tweak, tweak_hints, ShellTweak, ShellTweakId, ShellTweakProfile, TweakHint};
use crate::shell_version::ShellVersion;
use crate::text::owned;
use crate::theme_capability::ControlSupport;

verus! {

/// How far apart the pack's and target's shell versions are.
#[derive(Debug, Clone, Copy, PartialEq, Eq, Structural)]
pub enum CompatibilitySeverity {
    /// Exact version match.
    Match,
    /// Same major version, different minor.
    MinorDrift,
    /// Different major versions.
    MajorDrift,
}

impl CompatibilitySeverity {
    pub fn is_match(self) -> (r: bool)
        ensures
            r == (self == CompatibilitySeverity::Match),
    {
        match self {
            CompatibilitySeverity::Match => true,
            _ => false,
        }
    }

    pub fn is_major_drift(self) -> (r: bool)
        ensures
            r == (self == CompatibilitySeverity::MajorDrift),
    {
        match self {
            CompatibilitySeverity::MajorDrift => true,
            _ => false,
        }
    }
}

/// A single concern raised by the compatibility check.
#[derive(Debug, Clone, PartialEq, Eq)]
pub enum CompatibilityWarning {
    /// The target does not support this tweak; applying it is a no-op.
    UnsupportedTweak { id: ShellTweakId, reason: &'static str },
    /// The target applies this tweak with caveats.
    DegradedTweak { id: ShellTweakId, reason: &'static str },
}

impl CompatibilityWarning {
    pub open spec fn id_spec(self) -> ShellTweakId {
        match self {
            CompatibilityWarning::UnsupportedTweak { id, .. } => id,
            CompatibilityWarning::DegradedTweak { id, .. } => id,
        }
    }

    pub open spec fn summary_text(self) -> Seq<char> {
        match self {
            CompatibilityWarning::UnsupportedTweak { id, reason } =>
                id.label_text() + " is unsupported on the target: "@ + reason@,
            CompatibilityWarning::DegradedTweak { id, reason } =>
                id.label_text() + " will be degraded on the target: "@ + reason@,
        }
    }

    pub fn tweak_id(&self) -> (r: ShellTweakId)
        ensures
            r == self.id_spec(),
    {
        match self {
            CompatibilityWarning::UnsupportedTweak { id, .. } => *id,
            CompatibilityWarning::DegradedTweak { id, .. } => *id,
        }
    }

    /// Short user-facing description, e.g. for a toast.
    pub fn summary(&self) -> (s: String)
        ensures
            s@ == self.summary_text(),
    {
        match self {
            CompatibilityWarning::UnsupportedTweak { id, reason } => {
                let mut s = owned(id.label());
                s.append(" is unsupported on the target: ");
                s.append(*reason);
                s
            },
            CompatibilityWarning::DegradedTweak { id, reason } => {
                let mut s = owned(id.label());
                s.append(" will be degraded on the target: ");
                s.append(*reason);
                s
            },
        }
    }
}

/// The drift between a pack's version and the target's.
pub open spec fn severity_of(pack: ShellVersion, target: ShellVersion) -> CompatibilitySeverity {
    if pack.major == target.major {
        if pack.minor == target.minor {
            CompatibilitySeverity::Match
        } else {
            CompatibilitySeverity::MinorDrift
        }
    } else {
        CompatibilitySeverity::MajorDrift
    }
}

/// The warning a tweak raises against a hint table: none when the
/// table does not know the tweak or fully supports it.
pub open spec fn warning_for(t: ShellTweak, hints: Seq<TweakHint>) -> Option<CompatibilityWarning> {
    match find_hint(hints, t.id) {
        None => None,
        Some(h) => match h.support {
            ControlSupport::Full => None,
            ControlSupport::Degraded { reason } => Some(CompatibilityWarning::DegradedTweak { id: t.id, reason }),
            ControlSupport::Unsupported { reason } => Some(CompatibilityWarning::UnsupportedTweak { id: t.id, reason }),
        },
    }
}

/// The warnings for `tweaks`, in pack order.
pub open spec fn warnings_for(tweaks: Seq<ShellTweak>, hints: Seq<TweakHint>) -> Seq<CompatibilityWarning>
    decreases tweaks.len(),
{
    if tweaks.len() == 0 {
        Seq::empty()
    } else {
        match warning_for(tweaks.last(), hints) {
            Some(w) => warnings_for(tweaks.drop_last(), hints).push(w),
            None => warnings_for(tweaks.drop_last(), hints),
        }
    }
}

/// A pack raises no warnings exactly when every one of its tweaks is
/// fully supported by, or unknown to, the target's hint table.
pub proof fn lemma_no_warnings_iff_all_supported(tweaks: Seq<ShellTweak>, hints: Seq<TweakHint>)
    ensures
        warnings_for(tweaks, hints).len() == 0 <==> forall|i: int| 0 <= i < tweaks.len() ==> warning_for(#[trigger] tweaks[i], hints) is None,
    decreases tweaks.len(),
{
    if tweaks.len() > 0 {
        let init = tweaks.drop_last();
        lemma_no_warnings_iff_all_supported(init, hints);
        assert forall|i: int| 0 <= i < init.len() implies #[trigger] init[i] == tweaks[i] by {}
        if warnings_for(tweaks, hints).len() == 0 {
            assert(warning_for(tweaks.last(), hints) is None);
            assert forall|i: int| 0 <= i < tweaks.len() implies warning_for(#[trigger] tweaks[i], hints) is None by {
                if i < init.len() {
                    assert(init[i] == tweaks[i]);
                }
            }
        } else {
            if warning_for(tweaks.last(), hints) is None {
                let k = choose|k: int| 0 <= k < init.len() && !(warning_for(#[trigger] init[k], hints) is None);
                assert(init[k] == tweaks[k]);
            }
        }
    }
}

/// A report is clean exactly when the versions match and every tweak
/// in the pack is fully supported by, or unknown to, the target.
pub proof fn lemma_clean_report(pack: ShellVersion, target: ShellVersion, tweaks: Seq<ShellTweak>)
    ensures
        (severity_of(pack, target) == CompatibilitySeverity::Match && warnings_for(tweaks, tweak_hints(target.major)).len() == 0)
            <==> (pack == target && forall|i: int| 0 <= i < tweaks.len() ==> warning_for(#[trigger] tweaks[i], tweak_hints(target.major)) is None),
{
    lemma_no_warnings_iff_all_supported(tweaks, tweak_hints(target.major));
}

/// A pack of tweaks that are all backed by stock GSettings keys raises
/// no warning on any target version.
pub proof fn lemma_stock_tweaks_raise_nothing(tweaks: Seq<ShellTweak>, major: u32)
    requires
        forall|i: int| 0 <= i < tweaks.len() ==> stock_gsettings_tweak(#[trigger] tweaks[i].id),
    ensures
        warnings_for(tweaks, tweak_hints(major)) == Seq::<CompatibilityWarning>::empty(),
{
    assert forall|i: int| 0 <= i < tweaks.len() implies warning_for(#[trigger] tweaks[i], tweak_hints(major)) is None by {
        lemma_stock_tweaks_always_full(major, tweaks[i].id);
    }
    lemma_no_warnings_iff_all_supported(tweaks, tweak_hints(major));
    assert(warnings_for(tweaks, tweak_hints(major)) =~= Seq::<CompatibilityWarning>::empty());
}

/// Full report of differences between a pack and a target version.
#[derive(Debug, Clone)]
pub struct PackCompatibilityReport {
    pub pack_version: ShellVersion,
    pub target_version: ShellVersion,
    pub severity: CompatibilitySeverity,
    pub warnings: Vec<CompatibilityWarning>,
}

impl PackCompatibilityReport {
    /// Compare a pack's captured shell tweaks against the target
    /// version's profile. Tweaks the target profile does not know are
    /// skipped; fully supported ones raise nothing.
    pub fn build(pack_version: &ShellVersion, target_version: &ShellVersion, pack_tweaks: &[ShellTweak]) -> (r: Self)
        ensures
            r.pack_version == *pack_version,
            r.target_version == *target_version,
            r.severity == severity_of(*pack_version, *target_version),
            r.warnings@ == warnings_for(pack_tweaks@, tweak_hints(target_version.major)),
    {
        let severity = if pack_version.major == target_version.major {
            if pack_version.minor == target_version.minor {
                CompatibilitySeverity::Match
            } else {
                CompatibilitySeverity::MinorDrift
            }
        } else {
            CompatibilitySeverity::MajorDrift
        };
        let profile = ShellTweakProfile::for_version(target_version);
        let mut warnings: Vec<CompatibilityWarning> = Vec::new();
        let mut i: usize = 0;
        while i < pack_tweaks.len()
            invariant
                i <= pack_tweaks@.len(),
                profile.hints@ == tweak_hints(target_version.major),
                warnings@ == warnings_for(pack_tweaks@.subrange(0, i as int), profile.hints@),
            decreases pack_tweaks@.len() - i,
        {
            proof {
                let s = pack_tweaks@.subrange(0, i + 1);
                assert(s.drop_last() =~= pack_tweaks@.subrange(0, i as int));
                assert(s.last() == pack_tweaks@[i as int]);
            }
            let tweak = &pack_tweaks[i];
            match profile.hint_for(tweak.id) {
                None => {},
                Some(hint) => match &hint.support {
                    ControlSupport::Full => {},
                    ControlSupport::Degraded { reason } => {
                        warnings.push(CompatibilityWarning::DegradedTweak { id: tweak.id, reason: *reason });
                    },
                    ControlSupport::Unsupported { reason } => {
                        warnings.push(CompatibilityWarning::UnsupportedTweak { id: tweak.id, reason: *reason });
                    },
                },
            }
            i = i + 1;
        }
        assert(pack_tweaks@.subrange(0, i as int) =~= pack_tweaks@);
        PackCompatibilityReport {
            pack_version: *pack_version,
            target_version: *target_version,
            severity,
            warnings,
        }
    }

    /// True when applying is a no-surprise operation: same version and
    /// no warnings.
    pub fn is_clean(&self) -> (r: bool)
        ensures
            r == (self.severity == CompatibilitySeverity::Match && self.warnings@.len() == 0),
    {
        self.severity.is_match() && self.warnings.len() == 0
    }

    /// True when at least one captured tweak will degrade or drop.
    pub fn has_warnings(&self) -> (r: bool)
        ensures
            r == (self.warnings@.len() > 0),
    {
        self.warnings.len() != 0
    }
}

} // verus!
