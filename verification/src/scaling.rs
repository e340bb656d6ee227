//! Mutter `experimental-features` reconciliation for fractional
//! scaling: flip the two managed flags, keep every other flag.

use vstd::prelude::*;
use crate::decoration_report::string_views;
use crate::text::{owned, str_eq};

verus! {

pub open spec fn fb_flag() -> Seq<char> {
    "scale-monitor-framebuffer"@
}

pub open spec fn x11_flag() -> Seq<char> {
    "x11-randr-fractional-scaling"@
}

/// One pass over `cur`: each managed flag is kept at its first
/// occurrence when wanted and dropped otherwise; other flags are kept.
/// Also reports whether each managed flag was kept.
pub open spec fn scan_flags(cur: Seq<Seq<char>>, want_fb: bool, want_x11: bool) -> (Seq<Seq<char>>, bool, bool)
    decreases cur.len(),
{
    if cur.len() == 0 {
        (Seq::empty(), false, false)
    } else {
        let (out, have_fb, have_x11) = scan_flags(cur.drop_last(), want_fb, want_x11);
        let f = cur.last();
        if f == fb_flag() {
            if want_fb && !have_fb { (out.push(f), true, have_x11) } else { (out, have_fb, have_x11) }
        } else if f == x11_flag() {
            if want_x11 && !have_x11 { (out.push(f), have_fb, true) } else { (out, have_fb, have_x11) }
        } else {
            (out.push(f), have_fb, have_x11)
        }
    }
}

/// The reconciled list: the scan, then any wanted flag that was not
/// present appended (framebuffer first).
pub open spec fn reconciled(cur: Seq<Seq<char>>, want_fb: bool, want_x11: bool) -> Seq<Seq<char>> {
    let (out, have_fb, have_x11) = scan_flags(cur, want_fb, want_x11);
    let out1 = if want_fb && !have_fb { out.push(fb_flag()) } else { out };
    if want_x11 && !have_x11 { out1.push(x11_flag()) } else { out1 }
}

/// How many times `f` occurs in `s`.
pub open spec fn count_of(s: Seq<Seq<char>>, f: Seq<char>) -> nat
    decreases s.len(),
{
    if s.len() == 0 {
        0
    } else {
        count_of(s.drop_last(), f) + if s.last() == f { 1nat } else { 0nat }
    }
}

/// The flags of `s` other than the two managed ones, in order.
pub open spec fn unmanaged(s: Seq<Seq<char>>) -> Seq<Seq<char>>
    decreases s.len(),
{
    if s.len() == 0 {
        Seq::empty()
    } else if s.last() == fb_flag() || s.last() == x11_flag() {
        unmanaged(s.drop_last())
    } else {
        unmanaged(s.drop_last()).push(s.last())
    }
}

proof fn lemma_flags_differ()
    ensures
        fb_flag() != x11_flag(),
{
    reveal_strlit("scale-monitor-framebuffer");
    reveal_strlit("x11-randr-fractional-scaling");
    assert(fb_flag().len() != x11_flag().len());
}

proof fn lemma_scan_facts(cur: Seq<Seq<char>>, want_fb: bool, want_x11: bool)
    ensures
        ({
            let (out, have_fb, have_x11) = scan_flags(cur, want_fb, want_x11);
            &&& count_of(out, fb_flag()) == if have_fb { 1nat } else { 0nat }
            &&& count_of(out, x11_flag()) == if have_x11 { 1nat } else { 0nat }
            &&& have_fb ==> want_fb
            &&& have_x11 ==> want_x11
            &&& unmanaged(out) == unmanaged(cur)
        }),
    decreases cur.len(),
{
    lemma_flags_differ();
    if cur.len() > 0 {
        lemma_scan_facts(cur.drop_last(), want_fb, want_x11);
        let (out, hf, hx) = scan_flags(cur.drop_last(), want_fb, want_x11);
        let f = cur.last();
        assert(out.push(f).drop_last() =~= out);
    }
}

proof fn lemma_scan_of_clean(s: Seq<Seq<char>>, want_fb: bool, want_x11: bool)
    requires
        count_of(s, fb_flag()) <= if want_fb { 1nat } else { 0nat },
        count_of(s, x11_flag()) <= if want_x11 { 1nat } else { 0nat },
    ensures
        scan_flags(s, want_fb, want_x11) == (s, count_of(s, fb_flag()) > 0, count_of(s, x11_flag()) > 0),
    decreases s.len(),
{
    lemma_flags_differ();
    if s.len() > 0 {
        lemma_scan_of_clean(s.drop_last(), want_fb, want_x11);
        assert(s.drop_last().push(s.last()) =~= s);
    } else {
        assert(s =~= Seq::<Seq<char>>::empty());
    }
}

proof fn lemma_count_push(s: Seq<Seq<char>>, x: Seq<char>, f: Seq<char>)
    ensures
        count_of(s.push(x), f) == count_of(s, f) + if x == f { 1nat } else { 0nat },
        unmanaged(s.push(x)) == if x == fb_flag() || x == x11_flag() { unmanaged(s) } else { unmanaged(s).push(x) },
{
    assert(s.push(x).drop_last() =~= s);
}

/// The reconciled list holds the framebuffer flag exactly once when it
/// is wanted and not at all otherwise (likewise the X11 flag), and
/// keeps every other flag in its original order.
pub proof fn lemma_reconciled_flags(cur: Seq<Seq<char>>, want_fb: bool, want_x11: bool)
    ensures
        count_of(reconciled(cur, want_fb, want_x11), fb_flag()) == if want_fb { 1nat } else { 0nat },
        count_of(reconciled(cur, want_fb, want_x11), x11_flag()) == if want_x11 { 1nat } else { 0nat },
        unmanaged(reconciled(cur, want_fb, want_x11)) == unmanaged(cur),
{
    lemma_flags_differ();
    lemma_scan_facts(cur, want_fb, want_x11);
    let (out, hf, hx) = scan_flags(cur, want_fb, want_x11);
    lemma_count_push(out, fb_flag(), fb_flag());
    lemma_count_push(out, fb_flag(), x11_flag());
    let out1 = if want_fb && !hf { out.push(fb_flag()) } else { out };
    lemma_count_push(out1, x11_flag(), fb_flag());
    lemma_count_push(out1, x11_flag(), x11_flag());
}

/// Reconciling is idempotent: a reconciled list needs no further change.
pub proof fn lemma_reconcile_idempotent(cur: Seq<Seq<char>>, want_fb: bool, want_x11: bool)
    ensures
        reconciled(reconciled(cur, want_fb, want_x11), want_fb, want_x11) == reconciled(cur, want_fb, want_x11),
{
    let s = reconciled(cur, want_fb, want_x11);
    lemma_reconciled_flags(cur, want_fb, want_x11);
    lemma_scan_of_clean(s, want_fb, want_x11);
}

/// Produce the new `experimental-features` list, or `None` when it
/// equals `current` so callers can skip a no-op write.
pub fn reconcile_flags(current: &[String], want_monitor_framebuffer: bool, want_x11_fractional: bool) -> (r: Option<Vec<String>>)
    ensures
        match r {
            Some(v) => string_views(v@) == reconciled(string_views(current@), want_monitor_framebuffer, want_x11_fractional)
                && string_views(v@) != string_views(current@),
            None => reconciled(string_views(current@), want_monitor_framebuffer, want_x11_fractional) == string_views(current@),
        },
{
    let fb = "scale-monitor-framebuffer";
    let x11 = "x11-randr-fractional-scaling";
    let ghost cur = string_views(current@);
    let mut out: Vec<String> = Vec::new();
    let mut have_fb = false;
    let mut have_x11 = false;
    let mut i: usize = 0;
    while i < current.len()
        invariant
            i <= current@.len(),
            cur == string_views(current@),
            fb@ == fb_flag(),
            x11@ == x11_flag(),
            (string_views(out@), have_fb, have_x11) == scan_flags(cur.subrange(0, i as int), want_monitor_framebuffer, want_x11_fractional),
        decreases current@.len() - i,
    {
        proof {
            let s = cur.subrange(0, i + 1);
            assert(s.drop_last() =~= cur.subrange(0, i as int));
            assert(s.last() == current@[i as int]@);
        }
        let ghost before = string_views(out@);
        let flag = &current[i];
        if str_eq(flag.as_str(), fb) {
            if want_monitor_framebuffer && !have_fb {
                out.push(owned(fb));
                have_fb = true;
                assert(string_views(out@) =~= before.push(fb_flag()));
            }
        } else if str_eq(flag.as_str(), x11) {
            if want_x11_fractional && !have_x11 {
                out.push(owned(x11));
                have_x11 = true;
                assert(string_views(out@) =~= before.push(x11_flag()));
            }
        } else {
            out.push(flag.clone());
            assert(string_views(out@) =~= before.push(flag@));
        }
        i = i + 1;
    }
    assert(cur.subrange(0, i as int) =~= cur);
    if want_monitor_framebuffer && !have_fb {
        let ghost before = string_views(out@);
        out.push(owned(fb));
        assert(string_views(out@) =~= before.push(fb_flag()));
    }
    if want_x11_fractional && !have_x11 {
        let ghost before = string_views(out@);
        out.push(owned(x11));
        assert(string_views(out@) =~= before.push(x11_flag()));
    }
    if same_strings(&out, current) {
        None
    } else {
        Some(out)
    }
}

/// Element-wise text equality of two string lists.
fn same_strings(a: &Vec<String>, b: &[String]) -> (r: bool)
    ensures
        r == (string_views(a@) == string_views(b@)),
{
    if a.len() != b.len() {
        proof {
            assert(string_views(a@).len() != string_views(b@).len());
        }
        return false;
    }
    let mut i: usize = 0;
    while i < a.len()
        invariant
            a@.len() == b@.len(),
            i <= a@.len(),
            forall|j: int| 0 <= j < i ==> a@[j]@ == b@[j]@,
        decreases a@.len() - i,
    {
        if !str_eq(a[i].as_str(), b[i].as_str()) {
            proof {
                assert(string_views(a@)[i as int] != string_views(b@)[i as int]);
            }
            return false;
        }
        i = i + 1;
    }
    assert(string_views(a@) =~= string_views(b@));
    true
}

} // verus!
