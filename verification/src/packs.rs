//! Experience-pack workflows: the slug a pack is stored under, the pack
//! a desktop snapshot becomes, and the steps that apply a pack.

use vstd::prelude::*;
use crate::experience_pack::{
    CursorPackRef, ExperiencePack, ExtensionRef, GSettingOverride, IconPackRef, ThemeRef,
};
use crate::extension::{Extension, ExtensionState, ExtensionUuid};
use crate::shell_tweak::ShellTweak;
use crate::shell_version::ShellVersion;
use crate::text::{chars_of, opt_text_view, owned, push_char};

verus! {

/// The text `str::to_lowercase` gives for `s`.
pub uninterp spec fn lowercase_text(s: Seq<char>) -> Seq<char>;

/// Whether `char::is_alphanumeric` holds of `c`.
pub uninterp spec fn alphanumeric_char(c: char) -> bool;

/// `str::to_lowercase`: the Unicode lowercase form of `s`.
#[verifier::external_body]
fn lowercase(s: &str) -> (r: String)
    ensures
        r@ == lowercase_text(s@),
{
    s.to_lowercase()
}

/// `char::is_alphanumeric`: whether `c` is Unicode alphabetic or numeric.
#[verifier::external_body]
fn is_alphanumeric(c: char) -> (r: bool)
    ensures
        r == alphanumeric_char(c),
{
    c.is_alphanumeric()
}

/// The alphanumeric runs of `s`, in order, joined by single `-`.
pub open spec fn slug_chars(s: Seq<char>) -> Seq<char>
    decreases s.len(),
{
    if s.len() == 0 {
        Seq::empty()
    } else {
        let prev = s.drop_last();
        let rest = slug_chars(prev);
        let c = s.last();
        if !alphanumeric_char(c) {
            rest
        } else if rest.len() > 0 && !alphanumeric_char(prev.last()) {
            rest.push('-').push(c)
        } else {
            rest.push(c)
        }
    }
}

/// The slug of a pack name: the alphanumeric runs of its lowercase form
/// joined by `-`.
pub open spec fn slug_text(name: Seq<char>) -> Seq<char> {
    slug_chars(lowercase_text(name))
}

/// URL-safe slug of a pack name: the name is lowercased, cut at every
/// non-alphanumeric character, the empty pieces are dropped and the rest
/// joined by `-`.
pub fn slug(name: &str) -> (r: String)
    ensures
        r@ == slug_text(name@),
{
    let lower = lowercase(name);
    let v = chars_of(lower.as_str());
    let mut out = String::new();
    let mut started = false;
    let mut prev_alnum = false;
    let mut i: usize = 0;
    while i < v.len()
        invariant
            i <= v@.len(),
            out@ == slug_chars(v@.subrange(0, i as int)),
            started == (out@.len() > 0),
            i > 0 ==> prev_alnum == alphanumeric_char(v@[i - 1]),
        decreases v@.len() - i,
    {
        let c = v[i];
        let a = is_alphanumeric(c);
        proof {
            let s = v@.subrange(0, i + 1);
            assert(s.drop_last() =~= v@.subrange(0, i as int));
            assert(s.last() == c);
            if i > 0 {
                assert(s.drop_last().last() == v@[i - 1]);
            }
        }
        if a {
            if started && !prev_alnum {
                push_char(&mut out, '-');
            }
            push_char(&mut out, c);
            started = true;
        }
        prev_alnum = a;
        i = i + 1;
    }
    assert(v@.subrange(0, i as int) =~= v@);
    out
}

/// The shape every slug has: it starts and ends with an alphanumeric
/// character, holds nothing but alphanumeric characters and `-`, and every
/// `-` in it is followed by an alphanumeric character.
pub open spec fn slug_shaped(t: Seq<char>) -> bool {
    &&& t.len() > 0 ==> alphanumeric_char(t[0]) && alphanumeric_char(t.last())
    &&& forall|i: int| 0 <= i < t.len() ==> (#[trigger] t[i] == '-' || alphanumeric_char(t[i]))
    &&& forall|i: int| 0 <= i < t.len() - 1 && #[trigger] t[i] == '-' ==> alphanumeric_char(t[i + 1])
}

/// Every slug is URL-safe in shape: alphanumeric at both ends, made of
/// alphanumeric characters and `-`, with each `-` followed by an
/// alphanumeric character.
pub proof fn lemma_slug_shaped(s: Seq<char>)
    ensures
        slug_shaped(slug_chars(s)),
    decreases s.len(),
{
    if s.len() > 0 {
        let prev = s.drop_last();
        lemma_slug_shaped(prev);
        let rest = slug_chars(prev);
        let c = s.last();
        let t = slug_chars(s);
        if alphanumeric_char(c) {
            if rest.len() > 0 && !alphanumeric_char(prev.last()) {
                assert(t == rest.push('-').push(c));
                assert forall|i: int| 0 <= i < t.len() - 1 && #[trigger] t[i] == '-' implies alphanumeric_char(t[i + 1]) by {
                    if i < rest.len() - 1 {
                        assert(t[i] == rest[i] && t[i + 1] == rest[i + 1]);
                    } else if i == rest.len() - 1 {
                        assert(t[i] == rest.last());
                    }
                }
                assert forall|i: int| 0 <= i < t.len() implies (#[trigger] t[i] == '-' || alphanumeric_char(t[i])) by {
                    if i < rest.len() {
                        assert(t[i] == rest[i]);
                    }
                }
            } else {
                assert(t == rest.push(c));
                assert forall|i: int| 0 <= i < t.len() - 1 && #[trigger] t[i] == '-' implies alphanumeric_char(t[i + 1]) by {
                    if i < rest.len() - 1 {
                        assert(t[i] == rest[i] && t[i + 1] == rest[i + 1]);
                    } else {
                        assert(t[i] == rest.last());
                    }
                }
                assert forall|i: int| 0 <= i < t.len() implies (#[trigger] t[i] == '-' || alphanumeric_char(t[i])) by {
                    if i < rest.len() {
                        assert(t[i] == rest[i]);
                    }
                }
            }
        }
    }
}

/// What the desktop reported when a snapshot was taken: the shell
/// version, the active theme names (where they could be read), the
/// installed extensions, and the captured settings and shell tweaks.
#[derive(Debug, Clone)]
pub struct DesktopSnapshot {
    pub shell_version: ShellVersion,
    pub gtk_theme: Option<String>,
    pub shell_theme: Option<String>,
    pub icon_theme: Option<String>,
    pub cursor_theme: Option<String>,
    pub wallpaper: Option<String>,
    pub extensions: Vec<Extension>,
    pub gsettings_overrides: Vec<GSettingOverride>,
    pub shell_tweaks: Vec<ShellTweak>,
}

/// An optional text, by view, with the empty text counted as absent.
pub open spec fn non_empty_text(o: Option<String>) -> Option<Seq<char>> {
    match o {
        Some(s) => if s@.len() > 0 {
            Some(s@)
        } else {
            None
        },
        None => None,
    }
}

/// (name, source, content id, file id) of an optional theme reference.
pub open spec fn theme_ref_view(o: Option<ThemeRef>) -> Option<(Seq<char>, Seq<char>, u64, u64)> {
    match o {
        Some(r) => Some((r.name@, r.source@, r.content_id, r.file_id)),
        None => None,
    }
}

/// (name, source, content id, file id) of an optional icon-pack reference.
pub open spec fn icon_ref_view(o: Option<IconPackRef>) -> Option<(Seq<char>, Seq<char>, u64, u64)> {
    match o {
        Some(r) => Some((r.name@, r.source@, r.content_id, r.file_id)),
        None => None,
    }
}

/// (name, source, content id, file id) of an optional cursor reference.
pub open spec fn cursor_ref_view(o: Option<CursorPackRef>) -> Option<(Seq<char>, Seq<char>, u64, u64)> {
    match o {
        Some(r) => Some((r.name@, r.source@, r.content_id, r.file_id)),
        None => None,
    }
}

/// A reference to locally installed content called `name`: source
/// `local`, no content or file id.
pub open spec fn local_ref(name: Option<Seq<char>>) -> Option<(Seq<char>, Seq<char>, u64, u64)> {
    match name {
        Some(n) => Some((n, "local"@, 0u64, 0u64)),
        None => None,
    }
}

/// (uuid, name, required) of each extension reference.
pub open spec fn ext_ref_views(refs: Seq<ExtensionRef>) -> Seq<(Seq<char>, Seq<char>, bool)> {
    refs.map_values(|r: ExtensionRef| (r.uuid@, r.name@, r.required))
}

/// The enabled extensions of `exts`, in order, as required references.
pub open spec fn enabled_refs(exts: Seq<Extension>) -> Seq<(Seq<char>, Seq<char>, bool)>
    decreases exts.len(),
{
    if exts.len() == 0 {
        Seq::empty()
    } else {
        let rest = enabled_refs(exts.drop_last());
        let e = exts.last();
        if e.state == ExtensionState::Enabled {
            rest.push((e.uuid@, e.name@, true))
        } else {
            rest
        }
    }
}

/// `p` is the pack a snapshot becomes: its id is the slug of `name`, it
/// keeps the texts and shell version given, it is in pack format 2, its
/// theme, icon and cursor references are local references to the
/// captured names (an empty shell theme counts as none), it refers to
/// every enabled extension as required, keeps a non-empty wallpaper, and
/// carries the captured overrides and shell tweaks.
pub open spec fn is_snapshot_pack(
    p: ExperiencePack,
    name: String,
    description: String,
    author: String,
    created_at: String,
    snapshot: DesktopSnapshot,
) -> bool {
    &&& p.id@ == slug_text(name@)
    &&& p.name == name
    &&& p.description == description
    &&& p.author == author
    &&& p.created_at == created_at
    &&& p.shell_version == snapshot.shell_version
    &&& p.pack_format == 2
    &&& theme_ref_view(p.gtk_theme) == local_ref(opt_text_view(snapshot.gtk_theme))
    &&& theme_ref_view(p.shell_theme) == local_ref(non_empty_text(snapshot.shell_theme))
    &&& icon_ref_view(p.icon_pack) == local_ref(opt_text_view(snapshot.icon_theme))
    &&& cursor_ref_view(p.cursor_pack) == local_ref(opt_text_view(snapshot.cursor_theme))
    &&& ext_ref_views(p.extensions@) == enabled_refs(snapshot.extensions@)
    &&& opt_text_view(p.wallpaper) == non_empty_text(snapshot.wallpaper)
    &&& p.gsettings_overrides == snapshot.gsettings_overrides
    &&& p.shell_tweaks == snapshot.shell_tweaks
}

fn local_theme(name: String) -> (r: ThemeRef)
    ensures
        theme_ref_view(Some(r)) == local_ref(Some(name@)),
{
    ThemeRef { name, source: owned("local"), content_id: 0, file_id: 0 }
}

/// Turn a desktop snapshot into a new experience pack, in the current
/// pack format (2). The pack id is the slug of `name`; an empty shell
/// theme or wallpaper counts as none; every enabled extension becomes a
/// required reference; themes, icons and cursor refer to local content.
pub fn snapshot_pack(
    name: String,
    description: String,
    author: String,
    created_at: String,
    snapshot: DesktopSnapshot,
) -> (r: ExperiencePack)
    ensures
        is_snapshot_pack(r, name, description, author, created_at, snapshot),
{
    let id = slug(name.as_str());
    let DesktopSnapshot {
        shell_version,
        gtk_theme,
        shell_theme,
        icon_theme,
        cursor_theme,
        wallpaper,
        extensions,
        gsettings_overrides,
        shell_tweaks,
    } = snapshot;
    let gtk = match gtk_theme {
        Some(n) => Some(local_theme(n)),
        None => None,
    };
    let shell = match shell_theme {
        Some(n) => if n.as_str().is_empty() {
            None
        } else {
            Some(local_theme(n))
        },
        None => None,
    };
    let icons = match icon_theme {
        Some(n) => Some(IconPackRef { name: n, source: owned("local"), content_id: 0, file_id: 0 }),
        None => None,
    };
    let cursor = match cursor_theme {
        Some(n) => Some(CursorPackRef { name: n, source: owned("local"), content_id: 0, file_id: 0 }),
        None => None,
    };
    let wall = match wallpaper {
        Some(w) => if w.as_str().is_empty() {
            None
        } else {
            Some(w)
        },
        None => None,
    };
    let mut refs: Vec<ExtensionRef> = Vec::new();
    let mut i: usize = 0;
    while i < extensions.len()
        invariant
            i <= extensions@.len(),
            ext_ref_views(refs@) == enabled_refs(extensions@.subrange(0, i as int)),
        decreases extensions@.len() - i,
    {
        let e = &extensions[i];
        proof {
            assert(extensions@.subrange(0, i + 1).drop_last() =~= extensions@.subrange(0, i as int));
        }
        if e.state == ExtensionState::Enabled {
            let r = ExtensionRef { uuid: owned(e.uuid.as_str()), name: e.name.clone(), required: true };
            let ghost before = refs@;
            refs.push(r);
            proof {
                assert(refs@ == before.push(r));
                assert(ext_ref_views(refs@) =~= ext_ref_views(before).push((r.uuid@, r.name@, true)));
            }
        }
        i = i + 1;
    }
    assert(extensions@.subrange(0, i as int) =~= extensions@);
    ExperiencePack {
        id,
        name,
        description,
        author,
        created_at,
        shell_version,
        pack_format: 2,
        gtk_theme: gtk,
        shell_theme: shell,
        icon_pack: icons,
        cursor_pack: cursor,
        extensions: refs,
        wallpaper: wall,
        gsettings_overrides,
        shell_tweaks,
    }
}

/// Installable content a pack refers to.
#[derive(Debug, Clone, Copy, PartialEq, Eq, Structural)]
pub enum PackContent {
    GtkTheme,
    ShellTheme,
    IconPack,
    Cursor,
}

/// One step of applying a pack to the desktop, borrowing from the pack.
#[derive(Debug)]
pub enum PackApplyStep<'a> {
    /// Unless content of this kind called `name` is installed already,
    /// download `content_id`/`file_id` and install it under `name`.
    InstallIfMissing { kind: PackContent, name: &'a str, content_id: u64, file_id: u64 },
    /// Make `name` the active content of this kind.
    Activate { kind: PackContent, name: &'a str },
    /// Set the desktop wallpaper URI.
    SetWallpaper(&'a str),
    /// Enable a required extension.
    EnableExtension(ExtensionUuid),
    /// Restore the captured GSettings overrides.
    ApplyOverrides(&'a [GSettingOverride]),
    /// Replay one shell tweak through the version-specific customizer.
    ApplyShellTweak(&'a ShellTweak),
    /// Regenerate the theme CSS from the restored settings.
    RerenderTheme,
}

/// A pack-apply step with its texts taken by view.
pub enum PackStepView {
    InstallIfMissing { kind: PackContent, name: Seq<char>, content_id: u64, file_id: u64 },
    Activate { kind: PackContent, name: Seq<char> },
    SetWallpaper(Seq<char>),
    EnableExtension(Seq<char>),
    ApplyOverrides(Seq<GSettingOverride>),
    ApplyShellTweak(ShellTweak),
    RerenderTheme,
}

impl<'a> View for PackApplyStep<'a> {
    type V = PackStepView;

    open spec fn view(&self) -> PackStepView {
        match self {
            PackApplyStep::InstallIfMissing { kind, name, content_id, file_id } => PackStepView::InstallIfMissing {
                kind: *kind,
                name: name@,
                content_id: *content_id,
                file_id: *file_id,
            },
            PackApplyStep::Activate { kind, name } => PackStepView::Activate { kind: *kind, name: name@ },
            PackApplyStep::SetWallpaper(w) => PackStepView::SetWallpaper(w@),
            PackApplyStep::EnableExtension(u) => PackStepView::EnableExtension(u@),
            PackApplyStep::ApplyOverrides(o) => PackStepView::ApplyOverrides(o@),
            PackApplyStep::ApplyShellTweak(t) => PackStepView::ApplyShellTweak(**t),
            PackApplyStep::RerenderTheme => PackStepView::RerenderTheme,
        }
    }
}

impl PackStepView {
    /// Whether a failure of this step aborts the whole apply; the other
    /// steps are best-effort (logged and skipped). Activating a shell
    /// theme is best-effort because it needs the User Themes extension.
    pub open spec fn aborts(self) -> bool {
        match self {
            PackStepView::InstallIfMissing { .. } => true,
            PackStepView::Activate { kind, .. } => kind != PackContent::ShellTheme,
            PackStepView::SetWallpaper(_) => true,
            _ => false,
        }
    }
}

impl<'a> PackApplyStep<'a> {
    /// Whether a failure of this step aborts the whole apply (downloads,
    /// installs, and activating a GTK theme, icons, cursor or wallpaper);
    /// every other step is logged and skipped on failure.
    pub fn aborts_on_failure(&self) -> (r: bool)
        ensures
            r == self@.aborts(),
    {
        match self {
            PackApplyStep::InstallIfMissing { .. } => true,
            PackApplyStep::Activate { kind, .. } => match kind {
                PackContent::ShellTheme => false,
                _ => true,
            },
            PackApplyStep::SetWallpaper(_) => true,
            _ => false,
        }
    }
}

/// The steps for one optional content reference: install it when it has
/// a content id, then activate it.
pub open spec fn content_plan(kind: PackContent, r: Option<(Seq<char>, Seq<char>, u64, u64)>) -> Seq<PackStepView> {
    match r {
        None => Seq::empty(),
        Some((name, _source, content_id, file_id)) => {
            let install = if content_id != 0 {
                seq![PackStepView::InstallIfMissing { kind, name, content_id, file_id }]
            } else {
                Seq::empty()
            };
            install.push(PackStepView::Activate { kind, name })
        },
    }
}

/// One enable step for each required extension with a well-formed UUID.
pub open spec fn extension_plan(exts: Seq<ExtensionRef>) -> Seq<PackStepView>
    decreases exts.len(),
{
    if exts.len() == 0 {
        Seq::empty()
    } else {
        let rest = extension_plan(exts.drop_last());
        let e = exts.last();
        if e.required && e.uuid@.contains('@') {
            rest.push(PackStepView::EnableExtension(e.uuid@))
        } else {
            rest
        }
    }
}

/// One replay step per shell tweak, in pack order.
pub open spec fn tweak_plan(tweaks: Seq<ShellTweak>) -> Seq<PackStepView> {
    tweaks.map_values(|t: ShellTweak| PackStepView::ApplyShellTweak(t))
}

/// The steps that apply `p`: GTK theme, shell theme, icons, cursor,
/// wallpaper, required extensions, GSettings overrides (when there are
/// any), shell tweaks, and a theme re-render when a renderer is wired.
pub open spec fn pack_apply_plan(p: ExperiencePack, rerender: bool) -> Seq<PackStepView> {
    content_plan(PackContent::GtkTheme, theme_ref_view(p.gtk_theme))
        + content_plan(PackContent::ShellTheme, theme_ref_view(p.shell_theme))
        + content_plan(PackContent::IconPack, icon_ref_view(p.icon_pack))
        + content_plan(PackContent::Cursor, cursor_ref_view(p.cursor_pack))
        + match p.wallpaper {
            Some(w) => seq![PackStepView::SetWallpaper(w@)],
            None => Seq::empty(),
        }
        + extension_plan(p.extensions@)
        + (if p.gsettings_overrides@.len() > 0 {
            seq![PackStepView::ApplyOverrides(p.gsettings_overrides@)]
        } else {
            Seq::empty()
        })
        + tweak_plan(p.shell_tweaks@)
        + (if rerender {
            seq![PackStepView::RerenderTheme]
        } else {
            Seq::empty()
        })
}

/// The steps' views.
pub open spec fn step_views<'a>(s: Seq<PackApplyStep<'a>>) -> Seq<PackStepView> {
    s.map_values(|x: PackApplyStep<'a>| x@)
}

proof fn lemma_step_views_push<'a>(s: Seq<PackApplyStep<'a>>, x: PackApplyStep<'a>)
    ensures
        step_views(s.push(x)) == step_views(s).push(x@),
{
    assert(step_views(s.push(x)) =~= step_views(s).push(x@));
}

fn push_step<'a>(steps: &mut Vec<PackApplyStep<'a>>, x: PackApplyStep<'a>)
    ensures
        step_views(final(steps)@) == step_views(old(steps)@).push(x@),
{
    proof { lemma_step_views_push(steps@, x); }
    steps.push(x);
}

fn push_content<'a>(
    steps: &mut Vec<PackApplyStep<'a>>,
    kind: PackContent,
    name: &'a String,
    content_id: u64,
    file_id: u64,
)
    ensures
        step_views(final(steps)@) == step_views(old(steps)@)
            + content_plan(kind, Some((name@, Seq::empty(), content_id, file_id))),
{
    let ghost start = step_views(steps@);
    if content_id != 0 {
        push_step(steps, PackApplyStep::InstallIfMissing { kind, name: name.as_str(), content_id, file_id });
    }
    push_step(steps, PackApplyStep::Activate { kind, name: name.as_str() });
    proof {
        let plan = content_plan(kind, Some((name@, Seq::empty(), content_id, file_id)));
        assert(step_views(steps@) =~= start + plan);
    }
}

/// The order in which a pack is applied: each content reference is
/// installed (when it carries a content id and is missing) and then
/// activated, in the order GTK theme, shell theme, icons, cursor; then
/// the wallpaper is set, every required extension with a valid UUID is
/// enabled, the GSettings overrides are restored when there are any,
/// every shell tweak is replayed in order, and the theme is re-rendered
/// when `rerender` says a renderer is wired.
pub fn plan_pack_apply<'a>(pack: &'a ExperiencePack, rerender: bool) -> (r: Vec<PackApplyStep<'a>>)
    ensures
        step_views(r@) == pack_apply_plan(*pack, rerender),
{
    let mut steps: Vec<PackApplyStep<'a>> = Vec::new();
    let ghost p = *pack;
    assert(step_views(steps@) =~= Seq::<PackStepView>::empty());

    let ghost s0 = step_views(steps@);
    match &pack.gtk_theme {
        Some(t) => push_content(&mut steps, PackContent::GtkTheme, &t.name, t.content_id, t.file_id),
        None => {},
    }
    let ghost s1 = step_views(steps@);
    assert(s1 =~= s0 + content_plan(PackContent::GtkTheme, theme_ref_view(p.gtk_theme)));
    match &pack.shell_theme {
        Some(t) => push_content(&mut steps, PackContent::ShellTheme, &t.name, t.content_id, t.file_id),
        None => {},
    }
    let ghost s2 = step_views(steps@);
    assert(s2 =~= s1 + content_plan(PackContent::ShellTheme, theme_ref_view(p.shell_theme)));
    match &pack.icon_pack {
        Some(t) => push_content(&mut steps, PackContent::IconPack, &t.name, t.content_id, t.file_id),
        None => {},
    }
    let ghost s3 = step_views(steps@);
    assert(s3 =~= s2 + content_plan(PackContent::IconPack, icon_ref_view(p.icon_pack)));
    match &pack.cursor_pack {
        Some(t) => push_content(&mut steps, PackContent::Cursor, &t.name, t.content_id, t.file_id),
        None => {},
    }
    let ghost s4 = step_views(steps@);
    assert(s4 =~= s3 + content_plan(PackContent::Cursor, cursor_ref_view(p.cursor_pack)));
    match &pack.wallpaper {
        Some(w) => push_step(&mut steps, PackApplyStep::SetWallpaper(w.as_str())),
        None => {},
    }
    let ghost s5 = step_views(steps@);
    let ghost wall = match p.wallpaper {
        Some(w) => seq![PackStepView::SetWallpaper(w@)],
        None => Seq::<PackStepView>::empty(),
    };
    assert(s5 =~= s4 + wall);

    let mut i: usize = 0;
    while i < pack.extensions.len()
        invariant
            i <= pack.extensions@.len(),
            step_views(steps@) == s5 + extension_plan(pack.extensions@.subrange(0, i as int)),
        decreases pack.extensions@.len() - i,
    {
        let e = &pack.extensions[i];
        proof {
            assert(pack.extensions@.subrange(0, i + 1).drop_last() =~= pack.extensions@.subrange(0, i as int));
        }
        if e.required {
            match ExtensionUuid::new(e.uuid.as_str()) {
                Ok(u) => push_step(&mut steps, PackApplyStep::EnableExtension(u)),
                Err(_) => {},
            }
        }
        proof {
            assert(step_views(steps@) =~= s5 + extension_plan(pack.extensions@.subrange(0, i + 1)));
        }
        i = i + 1;
    }
    assert(pack.extensions@.subrange(0, i as int) =~= pack.extensions@);
    let ghost s6 = step_views(steps@);

    if pack.gsettings_overrides.len() > 0 {
        push_step(&mut steps, PackApplyStep::ApplyOverrides(pack.gsettings_overrides.as_slice()));
    }
    let ghost s7 = step_views(steps@);
    let ghost ov = if p.gsettings_overrides@.len() > 0 {
        seq![PackStepView::ApplyOverrides(p.gsettings_overrides@)]
    } else {
        Seq::<PackStepView>::empty()
    };
    assert(s7 =~= s6 + ov);

    let mut j: usize = 0;
    while j < pack.shell_tweaks.len()
        invariant
            j <= pack.shell_tweaks@.len(),
            step_views(steps@) == s7 + tweak_plan(pack.shell_tweaks@.subrange(0, j as int)),
        decreases pack.shell_tweaks@.len() - j,
    {
        push_step(&mut steps, PackApplyStep::ApplyShellTweak(&pack.shell_tweaks[j]));
        proof {
            assert(step_views(steps@) =~= s7 + tweak_plan(pack.shell_tweaks@.subrange(0, j + 1)));
        }
        j = j + 1;
    }
    assert(pack.shell_tweaks@.subrange(0, j as int) =~= pack.shell_tweaks@);
    let ghost s8 = step_views(steps@);

    if rerender {
        push_step(&mut steps, PackApplyStep::RerenderTheme);
    }
    proof {
        let re = if rerender { seq![PackStepView::RerenderTheme] } else { Seq::<PackStepView>::empty() };
        assert(step_views(steps@) =~= s8 + re);
        assert(pack_apply_plan(p, rerender) =~= s0 + content_plan(PackContent::GtkTheme, theme_ref_view(p.gtk_theme))
            + content_plan(PackContent::ShellTheme, theme_ref_view(p.shell_theme))
            + content_plan(PackContent::IconPack, icon_ref_view(p.icon_pack))
            + content_plan(PackContent::Cursor, cursor_ref_view(p.cursor_pack))
            + wall + extension_plan(p.extensions@) + ov + tweak_plan(p.shell_tweaks@) + re);
    }
    steps
}

/// Whether `name` appears in a listing of installed content.
pub fn name_listed(names: &[String], name: &str) -> (r: bool)
    ensures
        r == exists|i: int| 0 <= i < names@.len() && (#[trigger] names@[i])@ == name@,
{
    let mut i: usize = 0;
    while i < names.len()
        invariant
            i <= names@.len(),
            forall|k: int| 0 <= k < i ==> (#[trigger] names@[k])@ != name@,
        decreases names@.len() - i,
    {
        if crate::text::str_eq(names[i].as_str(), name) {
            return true;
        }
        i = i + 1;
    }
    false
}

/// Neither a tweak replay nor a theme re-render.
pub open spec fn quiet_step(s: PackStepView) -> bool {
    !(s is ApplyShellTweak) && !(s is RerenderTheme)
}

/// Every step of `s` is quiet.
pub open spec fn all_quiet(s: Seq<PackStepView>) -> bool {
    forall|i: int| 0 <= i < s.len() ==> quiet_step(#[trigger] s[i])
}

proof fn lemma_extension_plan_quiet(exts: Seq<ExtensionRef>)
    ensures
        all_quiet(extension_plan(exts)),
    decreases exts.len(),
{
    if exts.len() > 0 {
        lemma_extension_plan_quiet(exts.drop_last());
    }
}

proof fn lemma_concat_quiet(a: Seq<PackStepView>, b: Seq<PackStepView>)
    requires
        all_quiet(a),
        all_quiet(b),
    ensures
        all_quiet(a + b),
{
    assert forall|i: int| 0 <= i < (a + b).len() implies quiet_step(#[trigger] (a + b)[i]) by {
        if i < a.len() {
            assert((a + b)[i] == a[i]);
        } else {
            assert((a + b)[i] == b[i - a.len()]);
        }
    }
}

/// Applying a pack replays the pack's shell tweaks, in order, as one run
/// of steps just before the end and nowhere else; it re-renders the theme
/// exactly once, as the very last step, when a renderer is wired, and
/// never when none is.
pub proof fn lemma_plan_replays_tweaks_then_rerenders(p: ExperiencePack, rerender: bool)
    ensures
        ({
            let plan = pack_apply_plan(p, rerender);
            let n = p.shell_tweaks@.len() as int;
            let k: int = if rerender { 1 } else { 0 };
            &&& plan.len() >= n + k
            &&& plan.subrange(plan.len() - k - n, plan.len() - k) == tweak_plan(p.shell_tweaks@)
            &&& forall|i: int| 0 <= i < plan.len() - k - n ==> quiet_step(#[trigger] plan[i])
            &&& rerender ==> plan.last() is RerenderTheme
        }),
{
    let c1 = content_plan(PackContent::GtkTheme, theme_ref_view(p.gtk_theme));
    let c2 = content_plan(PackContent::ShellTheme, theme_ref_view(p.shell_theme));
    let c3 = content_plan(PackContent::IconPack, icon_ref_view(p.icon_pack));
    let c4 = content_plan(PackContent::Cursor, cursor_ref_view(p.cursor_pack));
    let wall = match p.wallpaper {
        Some(w) => seq![PackStepView::SetWallpaper(w@)],
        None => Seq::<PackStepView>::empty(),
    };
    let ex = extension_plan(p.extensions@);
    let ov = if p.gsettings_overrides@.len() > 0 {
        seq![PackStepView::ApplyOverrides(p.gsettings_overrides@)]
    } else {
        Seq::<PackStepView>::empty()
    };
    let tw = tweak_plan(p.shell_tweaks@);
    let re = if rerender { seq![PackStepView::RerenderTheme] } else { Seq::<PackStepView>::empty() };
    let prefix = c1 + c2 + c3 + c4 + wall + ex + ov;
    let plan = pack_apply_plan(p, rerender);
    assert(plan =~= prefix + tw + re);
    lemma_extension_plan_quiet(p.extensions@);
    lemma_concat_quiet(c1, c2);
    lemma_concat_quiet(c1 + c2, c3);
    lemma_concat_quiet(c1 + c2 + c3, c4);
    lemma_concat_quiet(c1 + c2 + c3 + c4, wall);
    lemma_concat_quiet(c1 + c2 + c3 + c4 + wall, ex);
    lemma_concat_quiet(c1 + c2 + c3 + c4 + wall + ex, ov);
    let k: int = if rerender { 1 } else { 0 };
    assert(re.len() == k);
    assert(plan.subrange(plan.len() - k - tw.len(), plan.len() - k) =~= tw);
    assert forall|i: int| 0 <= i < plan.len() - k - tw.len() implies quiet_step(#[trigger] plan[i]) by {
        assert(plan[i] == prefix[i]);
    }
}

/// Activating `name` when there is one.
pub open spec fn activation(kind: PackContent, name: Option<Seq<char>>) -> Seq<PackStepView> {
    match name {
        Some(n) => seq![PackStepView::Activate { kind, name: n }],
        None => Seq::empty(),
    }
}

/// One enable step for each enabled extension, in order.
pub open spec fn enable_enabled(exts: Seq<Extension>) -> Seq<PackStepView>
    decreases exts.len(),
{
    if exts.len() == 0 {
        Seq::empty()
    } else {
        let rest = enable_enabled(exts.drop_last());
        if exts.last().state == ExtensionState::Enabled {
            rest.push(PackStepView::EnableExtension(exts.last().uuid@))
        } else {
            rest
        }
    }
}

/// What restoring a desktop snapshot takes: activate each captured theme,
/// icon set and cursor, set the wallpaper, enable every extension that
/// was enabled, restore the overrides (when there are any), replay the
/// shell tweaks, and re-render when a renderer is wired.
pub open spec fn restore_plan(snap: DesktopSnapshot, rerender: bool) -> Seq<PackStepView> {
    activation(PackContent::GtkTheme, opt_text_view(snap.gtk_theme))
        + activation(PackContent::ShellTheme, non_empty_text(snap.shell_theme))
        + activation(PackContent::IconPack, opt_text_view(snap.icon_theme))
        + activation(PackContent::Cursor, opt_text_view(snap.cursor_theme))
        + match non_empty_text(snap.wallpaper) {
            Some(w) => seq![PackStepView::SetWallpaper(w)],
            None => Seq::empty(),
        }
        + enable_enabled(snap.extensions@)
        + (if snap.gsettings_overrides@.len() > 0 {
            seq![PackStepView::ApplyOverrides(snap.gsettings_overrides@)]
        } else {
            Seq::empty()
        })
        + tweak_plan(snap.shell_tweaks@)
        + (if rerender {
            seq![PackStepView::RerenderTheme]
        } else {
            Seq::empty()
        })
}

/// The enable steps for extension references, read from their views.
pub open spec fn enables_of_views(v: Seq<(Seq<char>, Seq<char>, bool)>) -> Seq<PackStepView>
    decreases v.len(),
{
    if v.len() == 0 {
        Seq::empty()
    } else {
        let rest = enables_of_views(v.drop_last());
        if v.last().2 && v.last().0.contains('@') {
            rest.push(PackStepView::EnableExtension(v.last().0))
        } else {
            rest
        }
    }
}

proof fn lemma_extension_plan_by_views(refs: Seq<ExtensionRef>)
    ensures
        extension_plan(refs) == enables_of_views(ext_ref_views(refs)),
    decreases refs.len(),
{
    if refs.len() > 0 {
        lemma_extension_plan_by_views(refs.drop_last());
        assert(ext_ref_views(refs).drop_last() =~= ext_ref_views(refs.drop_last()));
    }
}

proof fn lemma_enabled_refs_enable(exts: Seq<Extension>)
    requires
        forall|i: int| 0 <= i < exts.len() ==> (#[trigger] exts[i]).uuid@.contains('@'),
    ensures
        enables_of_views(enabled_refs(exts)) == enable_enabled(exts),
    decreases exts.len(),
{
    if exts.len() > 0 {
        let prev = exts.drop_last();
        assert forall|i: int| 0 <= i < prev.len() implies (#[trigger] prev[i]).uuid@.contains('@') by {
            assert(prev[i] == exts[i]);
        }
        lemma_enabled_refs_enable(prev);
        assert(exts.last() == exts[exts.len() - 1]);
        if exts.last().state == ExtensionState::Enabled {
            let v = enabled_refs(exts);
            assert(v.drop_last() =~= enabled_refs(prev));
        }
    }
}

/// Applying a snapshotted pack restores what the snapshot captured: each
/// captured theme, icon set and cursor is activated with nothing to
/// install, the wallpaper is set, every extension that was enabled is
/// enabled again, and the settings overrides and shell tweaks are
/// replayed.
pub proof fn lemma_applying_a_snapshot_restores_it(
    p: ExperiencePack,
    name: String,
    description: String,
    author: String,
    created_at: String,
    snap: DesktopSnapshot,
    rerender: bool,
)
    requires
        is_snapshot_pack(p, name, description, author, created_at, snap),
        forall|i: int| 0 <= i < snap.extensions@.len() ==> (#[trigger] snap.extensions@[i]).uuid@.contains('@'),
    ensures
        pack_apply_plan(p, rerender) == restore_plan(snap, rerender),
{
    lemma_extension_plan_by_views(p.extensions@);
    lemma_enabled_refs_enable(snap.extensions@);
    assert(content_plan(PackContent::GtkTheme, theme_ref_view(p.gtk_theme))
        =~= activation(PackContent::GtkTheme, opt_text_view(snap.gtk_theme)));
    assert(content_plan(PackContent::ShellTheme, theme_ref_view(p.shell_theme))
        =~= activation(PackContent::ShellTheme, non_empty_text(snap.shell_theme)));
    assert(content_plan(PackContent::IconPack, icon_ref_view(p.icon_pack))
        =~= activation(PackContent::IconPack, opt_text_view(snap.icon_theme)));
    assert(content_plan(PackContent::Cursor, cursor_ref_view(p.cursor_pack))
        =~= activation(PackContent::Cursor, opt_text_view(snap.cursor_theme)));
    let wall_p = match p.wallpaper {
        Some(w) => seq![PackStepView::SetWallpaper(w@)],
        None => Seq::<PackStepView>::empty(),
    };
    let wall_s = match non_empty_text(snap.wallpaper) {
        Some(w) => seq![PackStepView::SetWallpaper(w)],
        None => Seq::<PackStepView>::empty(),
    };
    assert(wall_p =~= wall_s);
}

} // verus!
