//! Experience Packs: shareable snapshots of a desktop configuration.

use vstd::prelude::*;
use crate::error::DomainError;
use crate::shell_tweak::ShellTweak;
use crate::shell_version::ShellVersion;
use crate::text::{chars_of, decimal, owned, str_contains_char, trim, trim_bounds, u32_to_text};

verus! {

/// Reference to a theme within an experience pack.
#[derive(Debug, Clone)]
pub struct ThemeRef {
    pub name: String,
    pub source: String,
    pub content_id: u64,
    pub file_id: u64,
}

/// Reference to an icon pack within an experience pack.
#[derive(Debug, Clone)]
pub struct IconPackRef {
    pub name: String,
    pub source: String,
    pub content_id: u64,
    pub file_id: u64,
}

/// Reference to a cursor pack within an experience pack.
#[derive(Debug, Clone)]
pub struct CursorPackRef {
    pub name: String,
    pub source: String,
    pub content_id: u64,
    pub file_id: u64,
}

/// Reference to an extension within an experience pack.
#[derive(Debug, Clone)]
pub struct ExtensionRef {
    pub uuid: String,
    pub name: String,
    pub required: bool,
}

/// A GSettings key-value override.
#[derive(Debug, Clone)]
pub struct GSettingOverride {
    pub key: String,
    pub value: String,
}

/// The outcome `ExperiencePack::validate` owes, as a description of the
/// error (or `None` for a valid pack).
pub enum PackProblem {
    /// `InvalidPack` with this message.
    Pack(Seq<char>),
    /// `InvalidExtensionUuid` with this UUID.
    Uuid(Seq<char>),
}

/// Index of the first extension whose UUID lacks an `@`.
pub open spec fn is_first_bad_uuid(exts: Seq<ExtensionRef>, i: int) -> bool {
    0 <= i < exts.len() && !exts[i].uuid@.contains('@')
        && forall|j: int| 0 <= j < i ==> (#[trigger] exts[j]).uuid@.contains('@')
}

/// The pack formats this library reads: 1, and 2 (which adds shell
/// tweaks).
pub open spec fn supported_pack_format(pack_format: u32) -> bool {
    pack_format == 1 || pack_format == 2
}

/// What is wrong with a pack, checked in order: a blank name, a pack
/// format other than 1 or 2, then the first extension UUID without an `@`.
pub open spec fn pack_problem(name: Seq<char>, pack_format: u32, exts: Seq<ExtensionRef>) -> Option<PackProblem> {
    if trim(name).len() == 0 {
        Some(PackProblem::Pack("pack name must not be empty"@))
    } else if !supported_pack_format(pack_format) {
        Some(PackProblem::Pack("unsupported pack format: "@ + decimal(pack_format as nat)))
    } else if exists|i: int| is_first_bad_uuid(exts, i) {
        Some(PackProblem::Uuid(exts[choose|i: int| is_first_bad_uuid(exts, i)].uuid@))
    } else {
        None
    }
}

/// The extensions of `exts` whose `required` flag is `want`, in order.
pub open spec fn with_required(exts: Seq<ExtensionRef>, want: bool) -> Seq<ExtensionRef>
    decreases exts.len(),
{
    if exts.len() == 0 {
        Seq::empty()
    } else if exts.last().required == want {
        with_required(exts.drop_last(), want).push(exts.last())
    } else {
        with_required(exts.drop_last(), want)
    }
}

/// Aggregate root: a complete desktop configuration snapshot.
#[derive(Debug, Clone)]
pub struct ExperiencePack {
    pub id: String,
    pub name: String,
    pub description: String,
    pub author: String,
    pub created_at: String,
    pub shell_version: ShellVersion,
    pub pack_format: u32,
    pub gtk_theme: Option<ThemeRef>,
    pub shell_theme: Option<ThemeRef>,
    pub icon_pack: Option<IconPackRef>,
    pub cursor_pack: Option<CursorPackRef>,
    pub extensions: Vec<ExtensionRef>,
    pub wallpaper: Option<String>,
    pub gsettings_overrides: Vec<GSettingOverride>,
    /// Shell tweaks captured with the pack, replayed through the
    /// version-specific customizer when the pack is applied.
    pub shell_tweaks: Vec<ShellTweak>,
}

impl ExperiencePack {
    /// Validate the pack's structural integrity.
    pub fn validate(&self) -> (r: Result<(), DomainError>)
        ensures
            match pack_problem(self.name@, self.pack_format, self.extensions@) {
                None => r is Ok,
                Some(PackProblem::Pack(msg)) => r matches Err(DomainError::InvalidPack(m)) && m@ == msg,
                Some(PackProblem::Uuid(u)) => r matches Err(DomainError::InvalidExtensionUuid(m)) && m@ == u,
            },
    {
        let v = chars_of(self.name.as_str());
        let (a, b) = trim_bounds(&v);
        if a == b {
            return Err(DomainError::InvalidPack(owned("pack name must not be empty")));
        }
        if self.pack_format != 1 && self.pack_format != 2 {
            let mut msg = owned("unsupported pack format: ");
            let n = u32_to_text(self.pack_format);
            msg.append(n.as_str());
            return Err(DomainError::InvalidPack(msg));
        }
        assert(trim(self.name@).len() > 0);
        let mut i: usize = 0;
        while i < self.extensions.len()
            invariant
                i <= self.extensions@.len(),
                trim(self.name@).len() > 0,
                supported_pack_format(self.pack_format),
                forall|j: int| 0 <= j < i ==> (#[trigger] self.extensions@[j]).uuid@.contains('@'),
            decreases self.extensions@.len() - i,
        {
            if !str_contains_char(self.extensions[i].uuid.as_str(), '@') {
                proof {
                    let exts = self.extensions@;
                    assert(is_first_bad_uuid(exts, i as int));
                    let k = choose|k: int| is_first_bad_uuid(exts, k);
                    if k < i {
                        assert(exts[k].uuid@.contains('@'));
                    } else if k > i {
                        assert(exts[i as int].uuid@.contains('@'));
                    }
                }
                return Err(DomainError::InvalidExtensionUuid(self.extensions[i].uuid.clone()));
            }
            i = i + 1;
        }
        proof {
            assert(!exists|k: int| is_first_bad_uuid(self.extensions@, k)) by {
                if exists|k: int| is_first_bad_uuid(self.extensions@, k) {
                    let k = choose|k: int| is_first_bad_uuid(self.extensions@, k);
                    assert(self.extensions@[k].uuid@.contains('@'));
                }
            }
        }
        Ok(())
    }

    fn filter_required(&self, want: bool) -> (r: Vec<&ExtensionRef>)
        ensures
            r@.map_values(|e: &ExtensionRef| *e) == with_required(self.extensions@, want),
    {
        let mut out: Vec<&ExtensionRef> = Vec::new();
        let mut i: usize = 0;
        while i < self.extensions.len()
            invariant
                i <= self.extensions@.len(),
                out@.map_values(|e: &ExtensionRef| *e) == with_required(self.extensions@.subrange(0, i as int), want),
            decreases self.extensions@.len() - i,
        {
            let ghost before = out@.map_values(|e: &ExtensionRef| *e);
            proof {
                assert(self.extensions@.subrange(0, i + 1).drop_last() =~= self.extensions@.subrange(0, i as int));
            }
            let e = &self.extensions[i];
            if e.required == want {
                out.push(e);
                proof {
                    assert(out@.map_values(|e: &ExtensionRef| *e) =~= before.push(*e));
                }
            }
            i = i + 1;
        }
        assert(self.extensions@.subrange(0, i as int) =~= self.extensions@);
        out
    }

    /// Extensions that are required for this pack, in pack order.
    pub fn required_extensions(&self) -> (r: Vec<&ExtensionRef>)
        ensures
            r@.map_values(|e: &ExtensionRef| *e) == with_required(self.extensions@, true),
    {
        self.filter_required(true)
    }

    /// Extensions that are optional enhancements, in pack order.
    pub fn optional_extensions(&self) -> (r: Vec<&ExtensionRef>)
        ensures
            r@.map_values(|e: &ExtensionRef| *e) == with_required(self.extensions@, false),
    {
        self.filter_required(false)
    }
}

} // verus!
