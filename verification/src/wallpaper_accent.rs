//! Dominant-colour extraction from wallpaper pixels: how raw pixel bytes
//! are read, which pixels count, how they are binned, and which bin wins.

use vstd::prelude::*;
use std::collections::HashMap;
use vstd::std_specs::hash::spec_hash_map_iter;
use vstd::std_specs::iter::IteratorSpec;

verus! {

/// The `(r, g, b)` of each whole pixel in `data`, `channels` bytes per
/// pixel; nothing when pixels have fewer than three channels.
pub open spec fn pixel_triples(data: Seq<u8>, channels: nat) -> Seq<(u8, u8, u8)> {
    if channels < 3 {
        Seq::empty()
    } else {
        Seq::new(data.len() / channels, |i: int| (data[i * channels], data[i * channels + 1], data[i * channels + 2]))
    }
}

/// The colour channels of every whole pixel of `data` (a trailing
/// partial pixel is ignored); pixels with fewer than three channels
/// yield nothing.
pub fn pixel_rgbs(data: &[u8], channels: usize) -> (r: Vec<(u8, u8, u8)>)
    requires
        channels > 0,
    ensures
        r@ == pixel_triples(data@, channels as nat),
{
    let mut out: Vec<(u8, u8, u8)> = Vec::new();
    if channels < 3 {
        return out;
    }
    let n = data.len() / channels;
    let mut i: usize = 0;
    let mut k: usize = 0;
    while i < n
        invariant
            channels >= 3,
            n == data@.len() / (channels as nat),
            i <= n,
            k == i * channels,
            out@ == pixel_triples(data@, channels as nat).subrange(0, i as int),
        decreases n - i,
    {
        assert(k + channels <= data.len()) by (nonlinear_arith)
            requires
                k == i * channels,
                i < n,
                n == data@.len() / (channels as nat),
                channels > 0;
        let px = (data[k], data[k + 1], data[k + 2]);
        out.push(px);
        proof {
            assert(out@ =~= pixel_triples(data@, channels as nat).subrange(0, i + 1));
        }
        assert((i + 1) * channels == k + channels) by (nonlinear_arith)
            requires k == i * channels;
        i = i + 1;
        k = k + channels;
    }
    assert(out@ =~= pixel_triples(data@, channels as nat));
    out
}

/// The histogram bin of an HSV colour, or none for a colour too grey
/// (saturation under 15), too dark (value under 25) or too bright (value
/// over 240) to count: hue in steps of ten, saturation and value in
/// thirds of 85 (capped at 2).
pub open spec fn hsv_bucket(c: (u16, u8, u8)) -> Option<(u16, u8, u8)> {
    if c.1 < 15 || c.2 < 25 || c.2 > 240 {
        None
    } else {
        Some((
            ((c.0 / 10) * 10) as u16,
            if c.1 / 85 < 2 { (c.1 / 85) as u8 } else { 2u8 },
            if c.2 / 85 < 2 { (c.2 / 85) as u8 } else { 2u8 },
        ))
    }
}

/// How many of `pixels` fall into bin `b`.
pub open spec fn bucket_count(pixels: Seq<(u16, u8, u8)>, b: (u16, u8, u8)) -> nat
    decreases pixels.len(),
{
    if pixels.len() == 0 {
        0
    } else {
        bucket_count(pixels.drop_last(), b) + if hsv_bucket(pixels.last()) == Some(b) { 1nat } else { 0nat }
    }
}

/// A pixel counts exactly when it is saturated enough (at least 15) and
/// neither too dark (value at least 25) nor too bright (value at most
/// 240); its bin then holds it: the bin's hue is the multiple of ten at
/// or below the pixel's hue, and the pixel's saturation and value lie in
/// the bin's third of 85 (the top third running on to 255).
pub proof fn lemma_bin_holds_its_pixel(c: (u16, u8, u8))
    ensures
        hsv_bucket(c) is Some <==> (15 <= c.1 && 25 <= c.2 && c.2 <= 240),
        hsv_bucket(c) matches Some(b) ==> {
            &&& b.0 % 10 == 0 && b.0 <= c.0 && c.0 < b.0 + 10
            &&& b.1 <= 2 && 85 * b.1 <= c.1 && (b.1 < 2 ==> c.1 < 85 * b.1 + 85)
            &&& b.2 <= 2 && 85 * b.2 <= c.2 && (b.2 < 2 ==> c.2 < 85 * b.2 + 85)
        },
{
    let h = c.0 as int;
    assert((h / 10) * 10 <= h && h < (h / 10) * 10 + 10 && ((h / 10) * 10) % 10 == 0) by (nonlinear_arith)
        requires h >= 0;
}

/// Pixels that do not count (grey, too dark or too bright) change no
/// bin's size, wherever they are appended.
pub proof fn lemma_filtered_pixels_change_nothing(pixels: Seq<(u16, u8, u8)>, extra: Seq<(u16, u8, u8)>, b: (u16, u8, u8))
    requires
        forall|j: int| 0 <= j < extra.len() ==> (#[trigger] extra[j]).1 < 15 || extra[j].2 < 25 || extra[j].2 > 240,
    ensures
        bucket_count(pixels + extra, b) == bucket_count(pixels, b),
    decreases extra.len(),
{
    if extra.len() == 0 {
        assert(pixels + extra =~= pixels);
    } else {
        let init = extra.drop_last();
        assert forall|j: int| 0 <= j < init.len() implies (#[trigger] init[j]).1 < 15 || init[j].2 < 25 || init[j].2 > 240 by {
            assert(init[j] == extra[j]);
        }
        lemma_filtered_pixels_change_nothing(pixels, init, b);
        assert((pixels + extra).drop_last() =~= pixels + init);
        assert((pixels + extra).last() == extra[extra.len() - 1]);
    }
}

/// Every pixel of a non-empty bin is a counted one: a bin is reached
/// only through a pixel with saturation at least 15 and value between
/// 25 and 240 that falls in it.
pub proof fn lemma_counted_bin_has_a_lit_pixel(pixels: Seq<(u16, u8, u8)>, b: (u16, u8, u8))
    requires
        bucket_count(pixels, b) > 0,
    ensures
        exists|i: int| 0 <= i < pixels.len() && 15 <= (#[trigger] pixels[i]).1 && 25 <= pixels[i].2
            && pixels[i].2 <= 240 && hsv_bucket(pixels[i]) == Some(b),
    decreases pixels.len(),
{
    let n = pixels.len() - 1;
    if hsv_bucket(pixels.last()) == Some(b) {
        assert(pixels[n] == pixels.last());
        assert(15 <= pixels[n].1 && 25 <= pixels[n].2 && pixels[n].2 <= 240 && hsv_bucket(pixels[n]) == Some(b));
    } else {
        lemma_counted_bin_has_a_lit_pixel(pixels.drop_last(), b);
        let i = choose|i: int| 0 <= i < pixels.drop_last().len() && 15 <= (#[trigger] pixels.drop_last()[i]).1
            && 25 <= pixels.drop_last()[i].2 && pixels.drop_last()[i].2 <= 240 && hsv_bucket(pixels.drop_last()[i]) == Some(b);
        assert(pixels.drop_last()[i] == pixels[i]);
    }
}

fn bin_of(c: (u16, u8, u8)) -> (r: Option<(u16, u8, u8)>)
    ensures
        r == hsv_bucket(c),
{
    if c.1 < 15 || c.2 < 25 || c.2 > 240 {
        None
    } else {
        let s = c.1 / 85;
        let v = c.2 / 85;
        Some(((c.0 / 10) * 10, if s < 2 { s } else { 2 }, if v < 2 { v } else { 2 }))
    }
}

proof fn lemma_bucket_count_bound(pixels: Seq<(u16, u8, u8)>, b: (u16, u8, u8))
    ensures
        bucket_count(pixels, b) <= pixels.len(),
    decreases pixels.len(),
{
    if pixels.len() > 0 {
        lemma_bucket_count_bound(pixels.drop_last(), b);
    }
}

/// A bin as `hsv_bucket` makes them: saturation and value thirds of at
/// most 2.
pub open spec fn is_bin(b: (u16, u8, u8)) -> bool {
    b.1 <= 2 && b.2 <= 2
}

/// The integer key of a bin in the histogram.
pub open spec fn bin_key(b: (u16, u8, u8)) -> u32 {
    (b.0 as nat * 9 + b.1 as nat * 3 + b.2 as nat) as u32
}

/// The bin an integer key stands for.
pub open spec fn key_bin(k: u32) -> (u16, u8, u8) {
    ((k / 9) as u16, ((k % 9) / 3) as u8, (k % 3) as u8)
}

proof fn lemma_bin_key_round_trip(b: (u16, u8, u8))
    requires
        is_bin(b),
    ensures
        key_bin(bin_key(b)) == b,
        b.0 as nat * 9 + b.1 as nat * 3 + b.2 as nat <= u32::MAX,
{
    let x = b.0 as nat;
    let y = b.1 as nat;
    let z = b.2 as nat;
    assert((x * 9 + y * 3 + z) / 9 == x && (x * 9 + y * 3 + z) % 9 == y * 3 + z) by (nonlinear_arith)
        requires y <= 2, z <= 2;
    assert((y * 3 + z) / 3 == y && (y * 3 + z) % 3 == z) by (nonlinear_arith)
        requires y <= 2, z <= 2;
    assert((x * 9 + y * 3 + z) % 3 == z) by (nonlinear_arith)
        requires y <= 2, z <= 2;
}

proof fn lemma_counted_bins_are_bins(pixels: Seq<(u16, u8, u8)>, b: (u16, u8, u8))
    requires
        bucket_count(pixels, b) > 0,
    ensures
        is_bin(b),
        b.0 <= 65530,
    decreases pixels.len(),
{
    if bucket_count(pixels.drop_last(), b) > 0 {
        lemma_counted_bins_are_bins(pixels.drop_last(), b);
    }
}

/// `counts` maps the key of each non-empty bin of `pixels` to its size,
/// and holds nothing else.
pub open spec fn is_histogram(counts: Map<u32, u32>, pixels: Seq<(u16, u8, u8)>) -> bool {
    &&& forall|k: u32| #[trigger] counts.contains_key(k) ==> is_bin(key_bin(k)) && bin_key(key_bin(k)) == k
        && counts[k] == bucket_count(pixels, key_bin(k)) && counts[k] > 0
    &&& forall|b: (u16, u8, u8)| bucket_count(pixels, b) > 0 ==> #[trigger] counts.contains_key(bin_key(b))
}

fn key_of(b: (u16, u8, u8)) -> (k: u32)
    requires
        is_bin(b),
    ensures
        k == bin_key(b),
        key_bin(k) == b,
{
    proof { lemma_bin_key_round_trip(b); }
    (b.0 as u32) * 9 + (b.1 as u32) * 3 + (b.2 as u32)
}

fn bin_of_key(k: u32) -> (r: (u16, u8, u8))
    ensures
        r == key_bin(k),
{
    ((k / 9) as u16, ((k % 9) / 3) as u8, (k % 3) as u8)
}

fn histogram(pixels: &[(u16, u8, u8)]) -> (r: HashMap<u32, u32>)
    requires
        pixels@.len() <= u32::MAX,
    ensures
        is_histogram(r@, pixels@),
{
    broadcast use vstd::std_specs::hash::group_hash_axioms;
    let mut counts: HashMap<u32, u32> = HashMap::new();
    let mut i: usize = 0;
    while i < pixels.len()
        invariant
            i <= pixels@.len() <= u32::MAX,
            is_histogram(counts@, pixels@.subrange(0, i as int)),
        decreases pixels@.len() - i,
    {
        let ghost before = pixels@.subrange(0, i as int);
        let ghost after = pixels@.subrange(0, i + 1);
        proof {
            assert(after.drop_last() =~= before);
            assert(after.last() == pixels@[i as int]);
        }
        match bin_of(pixels[i]) {
            None => {
                proof {
                    assert forall|b: (u16, u8, u8)| bucket_count(after, b) == bucket_count(before, b) by {}
                }
            },
            Some(b) => {
                let key = key_of(b);
                let ghost old_counts = counts@;
                proof {
                    lemma_bucket_count_bound(before, b);
                    assert forall|c: (u16, u8, u8)| c != b implies bucket_count(after, c) == bucket_count(before, c) by {}
                    assert(bucket_count(after, b) == bucket_count(before, b) + 1);
                }
                let n: u32 = match counts.get(&key) {
                    Some(c) => *c,
                    None => 0,
                };
                proof {
                    if old_counts.contains_key(key) {
                        assert(n == bucket_count(before, b));
                    } else {
                        assert(bucket_count(before, b) == 0);
                    }
                }
                counts.insert(key, n + 1);
                proof {
                    assert forall|k: u32| #[trigger] counts@.contains_key(k) implies is_bin(key_bin(k)) && bin_key(key_bin(k)) == k
                        && counts@[k] == bucket_count(after, key_bin(k)) && counts@[k] > 0 by {
                        if k != key {
                            assert(old_counts.contains_key(k));
                            assert(key_bin(k) != b);
                        }
                    }
                    assert forall|c: (u16, u8, u8)| bucket_count(after, c) > 0 implies #[trigger] counts@.contains_key(bin_key(c)) by {
                        if c != b {
                            assert(old_counts.contains_key(bin_key(c)));
                        }
                    }
                }
            },
        }
        i = i + 1;
    }
    assert(pixels@.subrange(0, i as int) =~= pixels@);
    counts
}

/// The most common bin of `pixels` (HSV colours): `None` when no pixel
/// counts, otherwise one of the bins no other bin outnumbers (which one,
/// when several tie, depends on the order the histogram is walked in).
pub fn dominant_bucket(pixels: &[(u16, u8, u8)]) -> (r: Option<(u16, u8, u8)>)
    requires
        pixels@.len() <= u32::MAX,
    ensures
        r is None <==> (forall|i: int| 0 <= i < pixels@.len() ==> hsv_bucket(#[trigger] pixels@[i]) is None),
        r matches Some(b) ==> bucket_count(pixels@, b) > 0
            && forall|c: (u16, u8, u8)| bucket_count(pixels@, c) <= bucket_count(pixels@, b),
        r matches Some(b) ==> b.0 <= 65530,
        r matches Some(b) ==> exists|i: int| 0 <= i < pixels@.len() && 15 <= (#[trigger] pixels@[i]).1
            && 25 <= pixels@[i].2 && pixels@[i].2 <= 240 && hsv_bucket(pixels@[i]) == Some(b),
{
    broadcast use vstd::std_specs::hash::group_hash_axioms;
    let counts = histogram(pixels);
    proof { lemma_no_bins(pixels@); }
    let mut best: Option<(u32, u32)> = None;
    for kv in it: counts.iter()
        invariant
            is_histogram(counts@, pixels@),
            it.seq() == spec_hash_map_iter(&counts).remaining(),
            best is None ==> it.index() == 0,
            best matches Some(p) ==> counts@.contains_key(p.0) && counts@[p.0] == p.1
                && forall|j: int| 0 <= j < it.index() ==> *(#[trigger] it.seq()[j]).1 <= p.1,
    {
        let (k, c) = kv;
        let better = match best {
            None => true,
            Some(p) => *c > p.1,
        };
        if better {
            best = Some((*k, *c));
        }
    }
    match best {
        None => {
            proof {
                assert(counts@.dom().len() == 0);
                assert forall|i: int| 0 <= i < pixels@.len() implies hsv_bucket(#[trigger] pixels@[i]) is None by {
                    if hsv_bucket(pixels@[i]) is Some {
                        lemma_bucket_count_positive(pixels@, i);
                        let b = hsv_bucket(pixels@[i])->0;
                        assert(counts@.contains_key(bin_key(b)));
                        assert(counts@.dom().contains(bin_key(b)));
                    }
                }
            }
            None
        },
        Some(p) => {
            proof {
                let b = key_bin(p.0);
                assert forall|c: (u16, u8, u8)| bucket_count(pixels@, c) <= bucket_count(pixels@, b) by {
                    if bucket_count(pixels@, c) > 0 {
                        lemma_counted_bins_are_bins(pixels@, c);
                        lemma_bin_key_round_trip(c);
                        let kc = bin_key(c);
                        assert(counts@.contains_key(kc));
                        let v = spec_hash_map_iter(&counts).remaining();
                        assert(v.contains((&kc, &counts@[kc])));
                        let j = choose|j: int| 0 <= j < v.len() && v[j] == (&kc, &counts@[kc]);
                        assert(*v[j].1 <= p.1);
                    }
                }
                assert(!(forall|i: int| 0 <= i < pixels@.len() ==> hsv_bucket(#[trigger] pixels@[i]) is None));
                lemma_counted_bins_are_bins(pixels@, b);
                lemma_counted_bin_has_a_lit_pixel(pixels@, b);
            }
            Some(bin_of_key(p.0))
        },
    }
}

proof fn lemma_bucket_count_positive(pixels: Seq<(u16, u8, u8)>, i: int)
    requires
        0 <= i < pixels.len(),
        hsv_bucket(pixels[i]) is Some,
    ensures
        bucket_count(pixels, hsv_bucket(pixels[i])->0) > 0,
    decreases pixels.len(),
{
    if i < pixels.len() - 1 {
        assert(pixels.drop_last()[i] == pixels[i]);
        lemma_bucket_count_positive(pixels.drop_last(), i);
    }
}

proof fn lemma_no_bins(pixels: Seq<(u16, u8, u8)>)
    ensures
        (forall|i: int| 0 <= i < pixels.len() ==> hsv_bucket(#[trigger] pixels[i]) is None)
            ==> forall|b: (u16, u8, u8)| bucket_count(pixels, b) == 0,
    decreases pixels.len(),
{
    if pixels.len() > 0 {
        lemma_no_bins(pixels.drop_last());
        if forall|i: int| 0 <= i < pixels.len() ==> hsv_bucket(#[trigger] pixels[i]) is None {
            assert forall|i: int| 0 <= i < pixels.drop_last().len() implies hsv_bucket(#[trigger] pixels.drop_last()[i]) is None by {
                assert(pixels.drop_last()[i] == pixels[i]);
            }
            assert(hsv_bucket(pixels[pixels.len() - 1]) is None);
            assert forall|b: (u16, u8, u8)| bucket_count(pixels, b) == 0 by {
                assert(bucket_count(pixels.drop_last(), b) == 0);
            }
        }
    }
}

/// The HSV colour a bin stands for: its middle (hue plus 5, saturation
/// and value `85 * third + 42`).
pub fn bucket_center(b: (u16, u8, u8)) -> (r: (u16, u8, u8))
    requires
        b.0 <= 65530,
    ensures
        r.0 == b.0 + 5,
        r.1 == if b.1 * 85 + 42 < 255 { b.1 * 85 + 42 } else { 255 },
        r.2 == if b.2 * 85 + 42 < 255 { b.2 * 85 + 42 } else { 255 },
{
    let s: u16 = (b.1 as u16) * 85 + 42;
    let v: u16 = (b.2 as u16) * 85 + 42;
    (b.0 + 5, if s < 255 { s as u8 } else { 255 }, if v < 255 { v as u8 } else { 255 })
}

} // verus!
