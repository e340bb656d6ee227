//! Window decoration probe reports: which open windows draw their own
//! decorations (and so pick up the theme) and which do not.

use vstd::prelude::*;
use crate::text::{lemma_seq_lt_total, owned, seq_lt, str_eq, str_lt};

verus! {

/// How a single window is decorated.
#[derive(Debug, Clone, Copy, PartialEq, Eq, Structural)]
pub enum DecorationMode {
    /// Client-side decorations: the app draws its own titlebar.
    Csd,
    /// Server-side decorations: the compositor draws the titlebar.
    Ssd,
    /// The probe could not classify the window.
    Unknown,
}

impl DecorationMode {
    pub open spec fn label_text(self) -> Seq<char> {
        match self {
            DecorationMode::Csd => "CSD"@,
            DecorationMode::Ssd => "SSD"@,
            DecorationMode::Unknown => "Unknown"@,
        }
    }

    pub fn label(&self) -> (r: &'static str)
        ensures
            r@ == self.label_text(),
    {
        match self {
            DecorationMode::Csd => "CSD",
            DecorationMode::Ssd => "SSD",
            DecorationMode::Unknown => "Unknown",
        }
    }
}

/// One window observed by the probe.
#[derive(Debug, Clone, PartialEq, Eq)]
pub struct WindowDecorationInfo {
    /// Window class / app-id as reported by the windowing system.
    pub app_class: String,
    /// Human-readable window title at probe time, when available.
    pub title: Option<String>,
    pub mode: DecorationMode,
}

/// Number of windows in `ws` decorated with `m`.
pub open spec fn count_mode(ws: Seq<WindowDecorationInfo>, m: DecorationMode) -> nat
    decreases ws.len(),
{
    if ws.len() == 0 {
        0
    } else {
        count_mode(ws.drop_last(), m) + if ws.last().mode == m { 1nat } else { 0nat }
    }
}

/// Adjacent entries strictly increase, so the list is sorted and
/// free of duplicates.
pub open spec fn strictly_sorted(s: Seq<Seq<char>>) -> bool {
    forall|i: int| 0 <= i < s.len() - 1 ==> seq_lt(#[trigger] s[i], s[i + 1])
}

/// The app classes of the SSD windows in `ws`.
pub open spec fn ssd_classes(ws: Seq<WindowDecorationInfo>) -> Set<Seq<char>> {
    Set::new(|c: Seq<char>| exists|i: int| 0 <= i < ws.len() && ws[i].mode == DecorationMode::Ssd && #[trigger] ws[i].app_class@ == c)
}

pub open spec fn string_views(v: Seq<String>) -> Seq<Seq<char>> {
    v.map_values(|s: String| s@)
}

/// Aggregate report. `windows` is unsorted.
#[derive(Debug, Clone, Default, PartialEq, Eq)]
pub struct DecorationReport {
    pub windows: Vec<WindowDecorationInfo>,
}

impl DecorationReport {
    fn count(&self, m: DecorationMode) -> (r: usize)
        ensures
            r == count_mode(self.windows@, m),
    {
        let mut n: usize = 0;
        let mut i: usize = 0;
        while i < self.windows.len()
            invariant
                i <= self.windows@.len(),
                n == count_mode(self.windows@.subrange(0, i as int), m),
                n <= i,
            decreases self.windows@.len() - i,
        {
            proof {
                let s = self.windows@.subrange(0, i + 1);
                assert(s.drop_last() =~= self.windows@.subrange(0, i as int));
            }
            if self.windows[i].mode == m {
                n = n + 1;
            }
            i = i + 1;
        }
        assert(self.windows@.subrange(0, i as int) =~= self.windows@);
        n
    }

    /// How many SSD windows are open. Zero means the theme builder
    /// reaches everything that is open.
    pub fn ssd_count(&self) -> (r: usize)
        ensures
            r == count_mode(self.windows@, DecorationMode::Ssd),
    {
        self.count(DecorationMode::Ssd)
    }

    pub fn csd_count(&self) -> (r: usize)
        ensures
            r == count_mode(self.windows@, DecorationMode::Csd),
    {
        self.count(DecorationMode::Csd)
    }

    pub fn unknown_count(&self) -> (r: usize)
        ensures
            r == count_mode(self.windows@, DecorationMode::Unknown),
    {
        self.count(DecorationMode::Unknown)
    }

    /// Distinct SSD app classes, sorted.
    pub fn ssd_app_classes(&self) -> (r: Vec<String>)
        ensures
            strictly_sorted(string_views(r@)),
            string_views(r@).to_set() == ssd_classes(self.windows@),
    {
        let mut out: Vec<String> = Vec::new();
        let mut i: usize = 0;
        while i < self.windows.len()
            invariant
                i <= self.windows@.len(),
                strictly_sorted(string_views(out@)),
                string_views(out@).to_set() == ssd_classes(self.windows@.subrange(0, i as int)),
            decreases self.windows@.len() - i,
        {
            let ghost before = self.windows@.subrange(0, i as int);
            let ghost after = self.windows@.subrange(0, i + 1);
            let w = &self.windows[i];
            if w.mode == DecorationMode::Ssd {
                insert_sorted(&mut out, w.app_class.as_str());
                proof {
                    assert forall|c: Seq<char>| ssd_classes(after).contains(c) <==> string_views(out@).to_set().contains(c) by {
                        if ssd_classes(after).contains(c) {
                            let k = choose|k: int| 0 <= k < after.len() && after[k].mode == DecorationMode::Ssd && #[trigger] after[k].app_class@ == c;
                            if k < i {
                                assert(before[k] == after[k]);
                                assert(ssd_classes(before).contains(c));
                            }
                        }
                        if ssd_classes(before).contains(c) {
                            let k = choose|k: int| 0 <= k < before.len() && before[k].mode == DecorationMode::Ssd && #[trigger] before[k].app_class@ == c;
                            assert(after[k] == before[k]);
                        }
                        if c == w.app_class@ {
                            assert(after[i as int] == *w);
                        }
                    }
                    assert(string_views(out@).to_set() =~= ssd_classes(after));
                }
            } else {
                proof {
                    assert forall|c: Seq<char>| ssd_classes(after).contains(c) <==> ssd_classes(before).contains(c) by {
                        if ssd_classes(after).contains(c) {
                            let k = choose|k: int| 0 <= k < after.len() && after[k].mode == DecorationMode::Ssd && #[trigger] after[k].app_class@ == c;
                            assert(k < i);
                            assert(before[k] == after[k]);
                        }
                        if ssd_classes(before).contains(c) {
                            let k = choose|k: int| 0 <= k < before.len() && before[k].mode == DecorationMode::Ssd && #[trigger] before[k].app_class@ == c;
                            assert(after[k] == before[k]);
                        }
                    }
                    assert(ssd_classes(after) =~= ssd_classes(before));
                }
            }
            i = i + 1;
        }
        assert(self.windows@.subrange(0, i as int) =~= self.windows@);
        out
    }

    /// True when any SSD window is present.
    pub fn has_ssd_windows(&self) -> (r: bool)
        ensures
            r == (count_mode(self.windows@, DecorationMode::Ssd) > 0),
    {
        self.ssd_count() > 0
    }
}

/// Insert `x` into the strictly sorted `v`, unless already present.
fn insert_sorted(v: &mut Vec<String>, x: &str)
    requires
        strictly_sorted(string_views(old(v)@)),
    ensures
        strictly_sorted(string_views(final(v)@)),
        string_views(final(v)@).to_set() == string_views(old(v)@).to_set().insert(x@),
{
    let ghost old_views = string_views(v@);
    let mut p: usize = 0;
    while p < v.len() && str_lt(v[p].as_str(), x)
        invariant
            p <= v@.len(),
            string_views(v@) == old_views,
            strictly_sorted(old_views),
            forall|j: int| 0 <= j < p ==> seq_lt(#[trigger] old_views[j], x@),
        decreases v@.len() - p,
    {
        p = p + 1;
    }
    if p < v.len() && str_eq(v[p].as_str(), x) {
        proof {
            assert(old_views[p as int] == x@);
            assert(old_views.to_set().insert(x@) =~= old_views.to_set());
        }
        return;
    }
    proof {
        if p < v@.len() {
            lemma_seq_lt_total(old_views[p as int], x@);
        }
    }
    v.insert(p, owned(x));
    proof {
        let nv = string_views(v@);
        assert(nv =~= old_views.insert(p as int, x@));
        assert forall|i: int| 0 <= i < nv.len() - 1 implies seq_lt(#[trigger] nv[i], nv[i + 1]) by {
            if i + 1 < p {
                assert(nv[i] == old_views[i] && nv[i + 1] == old_views[i + 1]);
            } else if i + 1 == p {
                assert(nv[i] == old_views[i]);
            } else if i == p {
                assert(nv[i + 1] == old_views[i]);
            } else {
                assert(nv[i] == old_views[i - 1] && nv[i + 1] == old_views[i]);
            }
        }
        assert forall|c: Seq<char>| nv.to_set().contains(c) <==> old_views.to_set().insert(x@).contains(c) by {
            if nv.to_set().contains(c) {
                let k = choose|k: int| 0 <= k < nv.len() && nv[k] == c;
                if k < p {
                    assert(old_views[k] == c);
                } else if k > p {
                    assert(old_views[k - 1] == c);
                }
            }
            if old_views.to_set().contains(c) {
                let k = choose|k: int| 0 <= k < old_views.len() && old_views[k] == c;
                if k < p {
                    assert(nv[k] == c);
                } else {
                    assert(nv[k + 1] == c);
                }
            }
            if c == x@ {
                assert(nv[p as int] == c);
            }
        }
        assert(nv.to_set() =~= old_views.to_set().insert(x@));
    }
}

} // verus!
