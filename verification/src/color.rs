//! Integer color arithmetic and GNOME's stock accent palette.

use vstd::prelude::*;
use crate::text::{owned, str_eq, trim};
use crate::theme_spec::{hex_byte, is_hex_color_text, lower_text, HexColor};

verus! {

/// Squared RGB distance between two colors.
pub open spec fn distance_spec(a: (u8, u8, u8), b: (u8, u8, u8)) -> int {
    (a.0 - b.0) * (a.0 - b.0) + (a.1 - b.1) * (a.1 - b.1) + (a.2 - b.2) * (a.2 - b.2)
}

/// Squared RGB distance between two colors (for nearest-color matching).
pub fn color_distance(a: (u8, u8, u8), b: (u8, u8, u8)) -> (r: u32)
    ensures
        r == distance_spec(a, b),
{
    let dr: u32 = if a.0 >= b.0 { (a.0 - b.0) as u32 } else { (b.0 - a.0) as u32 };
    let dg: u32 = if a.1 >= b.1 { (a.1 - b.1) as u32 } else { (b.1 - a.1) as u32 };
    let db: u32 = if a.2 >= b.2 { (a.2 - b.2) as u32 } else { (b.2 - a.2) as u32 };
    proof {
        assert(dr * dr == (a.0 - b.0) * (a.0 - b.0)) by (nonlinear_arith)
            requires dr == a.0 - b.0 || dr == b.0 - a.0;
        assert(dg * dg == (a.1 - b.1) * (a.1 - b.1)) by (nonlinear_arith)
            requires dg == a.1 - b.1 || dg == b.1 - a.1;
        assert(db * db == (a.2 - b.2) * (a.2 - b.2)) by (nonlinear_arith)
            requires db == a.2 - b.2 || db == b.2 - a.2;
        assert(dr * dr <= 65025 && dg * dg <= 65025 && db * db <= 65025) by (nonlinear_arith)
            requires dr <= 255, dg <= 255, db <= 255;
    }
    dr * dr + dg * dg + db * db
}

/// GNOME's nine stock accents, keyed by their settings enum id, with
/// the RGB Adwaita ships for each.
pub open spec fn accent_palette() -> Seq<(Seq<char>, (u8, u8, u8))> {
    seq![
        ("blue"@, (0x35u8, 0x84u8, 0xe4u8)),
        ("teal"@, (0x21u8, 0x90u8, 0xa4u8)),
        ("green"@, (0x3au8, 0x94u8, 0x4au8)),
        ("yellow"@, (0xc8u8, 0x88u8, 0x00u8)),
        ("orange"@, (0xedu8, 0x5bu8, 0x00u8)),
        ("red"@, (0xe6u8, 0x2du8, 0x42u8)),
        ("pink"@, (0xd5u8, 0x61u8, 0x99u8)),
        ("purple"@, (0x91u8, 0x41u8, 0xacu8)),
        ("slate"@, (0x6fu8, 0x83u8, 0x96u8)),
    ]
}

/// The stock accent table as executable data.
pub fn gnome_accents() -> (r: &'static [(&'static str, (u8, u8, u8))])
    ensures
        r@.map_values(|p: (&'static str, (u8, u8, u8))| (p.0@, p.1)) == accent_palette(),
{
    let r: &'static [(&'static str, (u8, u8, u8))] = &[
        ("blue", (0x35, 0x84, 0xe4)),
        ("teal", (0x21, 0x90, 0xa4)),
        ("green", (0x3a, 0x94, 0x4a)),
        ("yellow", (0xc8, 0x88, 0x00)),
        ("orange", (0xed, 0x5b, 0x00)),
        ("red", (0xe6, 0x2d, 0x42)),
        ("pink", (0xd5, 0x61, 0x99)),
        ("purple", (0x91, 0x41, 0xac)),
        ("slate", (0x6f, 0x83, 0x96)),
    ];
    assert(r@.map_values(|p: (&'static str, (u8, u8, u8))| (p.0@, p.1)) =~= accent_palette());
    r
}

/// `k` is the first palette entry at least as close to `c` as every
/// other entry.
pub open spec fn is_nearest_accent(c: (u8, u8, u8), k: int) -> bool {
    let p = accent_palette();
    &&& 0 <= k < p.len()
    &&& forall|j: int| 0 <= j < k ==> distance_spec(c, #[trigger] p[j].1) > distance_spec(c, p[k].1)
    &&& forall|j: int| k <= j < p.len() ==> distance_spec(c, #[trigger] p[j].1) >= distance_spec(c, p[k].1)
}

/// The id of the stock accent nearest to `c` by squared RGB distance;
/// ties go to the accent listed first.
pub open spec fn nearest_accent_text(c: (u8, u8, u8)) -> Seq<char> {
    accent_palette()[choose|k: int| is_nearest_accent(c, k)].0
}

/// At most one palette entry is the nearest to a colour.
pub proof fn lemma_nearest_unique(c: (u8, u8, u8), k: int, m: int)
    requires
        is_nearest_accent(c, k),
        is_nearest_accent(c, m),
    ensures
        k == m,
{
    let p = accent_palette();
    if k < m {
        assert(distance_spec(c, p[k].1) > distance_spec(c, p[m].1));
    } else if m < k {
        assert(distance_spec(c, p[m].1) > distance_spec(c, p[k].1));
    }
}

/// The stock accent id nearest to `c` (first listed wins a tie).
pub fn nearest_accent_id_rgb(c: (u8, u8, u8)) -> (r: &'static str)
    ensures
        r@ == nearest_accent_text(c),
{
    let table = gnome_accents();
    let ghost p = accent_palette();
    assert(p.len() == 9);
    assert(table@.map_values(|q: (&'static str, (u8, u8, u8))| (q.0@, q.1)).len() == table@.len());
    assert(table@.len() == 9);
    let mut best: usize = 0;
    let mut best_d: u32 = color_distance(c, table[0].1);
    let mut i: usize = 1;
    while i < table.len()
        invariant
            table@.map_values(|q: (&'static str, (u8, u8, u8))| (q.0@, q.1)) == p,
            p == accent_palette(),
            table@.len() == 9,
            1 <= i <= 9,
            best < i,
            best_d == distance_spec(c, p[best as int].1),
            forall|j: int| 0 <= j < best ==> distance_spec(c, #[trigger] p[j].1) > best_d,
            forall|j: int| best <= j < i ==> distance_spec(c, #[trigger] p[j].1) >= best_d,
        decreases 9 - i,
    {
        assert(table@[i as int].1 == p[i as int].1);
        let d = color_distance(c, table[i].1);
        if d < best_d {
            best = i;
            best_d = d;
        }
        i = i + 1;
    }
    proof {
        assert(is_nearest_accent(c, best as int));
        let k = choose|k: int| is_nearest_accent(c, k);
        lemma_nearest_unique(c, k, best as int);
        assert(table@[best as int].0@ == p[best as int].0);
    }
    table[best].0
}

/// Whether `v` is one of the stock accent ids.
pub open spec fn is_accent_id(v: Seq<char>) -> bool {
    exists|k: int| 0 <= k < accent_palette().len() && (#[trigger] accent_palette()[k]).0 == v
}

/// The stock accent id a stored accent value stands for: a stock id
/// stands for itself, a `#rrggbb` colour (surrounding whitespace ignored)
/// for the nearest stock accent, anything else for `blue`.
pub open spec fn accent_id_for(v: Seq<char>) -> Seq<char> {
    if is_accent_id(v) {
        v
    } else if is_hex_color_text(trim(v)) {
        let t = lower_text(trim(v));
        nearest_accent_text((hex_byte(t, 1) as u8, hex_byte(t, 3) as u8, hex_byte(t, 5) as u8))
    } else {
        "blue"@
    }
}

/// Map a value that is either a stock accent id or a hex colour to a
/// stock accent id, as the `accent-color` enum setting requires.
pub fn nearest_accent_id(value: &str) -> (r: String)
    ensures
        r@ == accent_id_for(value@),
{
    let table = gnome_accents();
    let ghost p = accent_palette();
    assert(table@.map_values(|q: (&'static str, (u8, u8, u8))| (q.0@, q.1)).len() == table@.len());
    let mut i: usize = 0;
    while i < table.len()
        invariant
            table@.map_values(|q: (&'static str, (u8, u8, u8))| (q.0@, q.1)) == p,
            p == accent_palette(),
            table@.len() == p.len(),
            i <= table@.len(),
            forall|j: int| 0 <= j < i ==> (#[trigger] p[j]).0 != value@,
        decreases table@.len() - i,
    {
        assert(table@[i as int].0@ == p[i as int].0);
        if str_eq(table[i].0, value) {
            assert(is_accent_id(value@));
            return owned(value);
        }
        i = i + 1;
    }
    assert(!is_accent_id(value@));
    match HexColor::new(value) {
        Ok(c) => owned(nearest_accent_id_rgb(c.to_rgb())),
        Err(_) => owned("blue"),
    }
}

proof fn lemma_distance_zero_iff_equal(a: (u8, u8, u8), b: (u8, u8, u8))
    ensures
        distance_spec(a, b) >= 0,
        distance_spec(a, b) == 0 <==> a == b,
{
    let x: int = a.0 - b.0;
    let y: int = a.1 - b.1;
    let z: int = a.2 - b.2;
    assert(x * x >= 0 && y * y >= 0 && z * z >= 0) by (nonlinear_arith);
    assert(x * x + y * y + z * z == 0 ==> x == 0 && y == 0 && z == 0) by (nonlinear_arith)
        requires x * x >= 0 && y * y >= 0 && z * z >= 0;
    assert(distance_spec(a, b) == x * x + y * y + z * z);
    if a == b {
        assert(x == 0 && y == 0 && z == 0);
        assert(x * x + y * y + z * z == 0) by (nonlinear_arith)
            requires x == 0 && y == 0 && z == 0;
    }
    if distance_spec(a, b) == 0 {
        assert(a.0 == b.0 && a.1 == b.1 && a.2 == b.2);
    }
}

proof fn lemma_palette_colors_distinct(i: int, j: int)
    requires
        0 <= i < 9,
        0 <= j < 9,
        i != j,
    ensures
        accent_palette()[i].1 != accent_palette()[j].1,
{
}

/// Snapping a stock accent's own colour gives back that accent.
pub proof fn lemma_stock_accent_is_its_own_nearest(k: int)
    requires
        0 <= k < accent_palette().len(),
    ensures
        nearest_accent_text(accent_palette()[k].1) == accent_palette()[k].0,
{
    let p = accent_palette();
    let c = p[k].1;
    lemma_distance_zero_iff_equal(c, c);
    assert forall|j: int| 0 <= j < k implies distance_spec(c, #[trigger] p[j].1) > distance_spec(c, p[k].1) by {
        lemma_palette_colors_distinct(j, k);
        lemma_distance_zero_iff_equal(c, p[j].1);
    }
    assert forall|j: int| k <= j < p.len() implies distance_spec(c, #[trigger] p[j].1) >= distance_spec(c, p[k].1) by {
        lemma_distance_zero_iff_equal(c, p[j].1);
    }
    assert(is_nearest_accent(c, k));
    let m = choose|m: int| is_nearest_accent(c, m);
    lemma_nearest_unique(c, m, k);
}

/// The RGB that Adwaita documents for each stock accent id (`#3584e4`
/// blue, `#2190a4` teal, `#3a944a` green, `#c88800` yellow, `#ed5b00`
/// orange, `#e62d42` red, `#d56199` pink, `#9141ac` purple, `#6f8396`
/// slate); none for any other name.
pub open spec fn adwaita_accent_rgb(name: Seq<char>) -> Option<(u8, u8, u8)> {
    if name == "blue"@ {
        Some((0x35u8, 0x84u8, 0xe4u8))
    } else if name == "teal"@ {
        Some((0x21u8, 0x90u8, 0xa4u8))
    } else if name == "green"@ {
        Some((0x3au8, 0x94u8, 0x4au8))
    } else if name == "yellow"@ {
        Some((0xc8u8, 0x88u8, 0x00u8))
    } else if name == "orange"@ {
        Some((0xedu8, 0x5bu8, 0x00u8))
    } else if name == "red"@ {
        Some((0xe6u8, 0x2du8, 0x42u8))
    } else if name == "pink"@ {
        Some((0xd5u8, 0x61u8, 0x99u8))
    } else if name == "purple"@ {
        Some((0x91u8, 0x41u8, 0xacu8))
    } else if name == "slate"@ {
        Some((0x6fu8, 0x83u8, 0x96u8))
    } else {
        None
    }
}

proof fn lemma_accent_names_text()
    ensures
        "blue"@ == seq!['b', 'l', 'u', 'e'],
        "teal"@ == seq!['t', 'e', 'a', 'l'],
        "green"@ == seq!['g', 'r', 'e', 'e', 'n'],
        "yellow"@ == seq!['y', 'e', 'l', 'l', 'o', 'w'],
        "orange"@ == seq!['o', 'r', 'a', 'n', 'g', 'e'],
        "red"@ == seq!['r', 'e', 'd'],
        "pink"@ == seq!['p', 'i', 'n', 'k'],
        "purple"@ == seq!['p', 'u', 'r', 'p', 'l', 'e'],
        "slate"@ == seq!['s', 'l', 'a', 't', 'e'],
{
    reveal_strlit("blue");
    reveal_strlit("teal");
    reveal_strlit("green");
    reveal_strlit("yellow");
    reveal_strlit("orange");
    reveal_strlit("red");
    reveal_strlit("pink");
    reveal_strlit("purple");
    reveal_strlit("slate");
    assert("blue"@ =~= seq!['b', 'l', 'u', 'e']);
    assert("teal"@ =~= seq!['t', 'e', 'a', 'l']);
    assert("green"@ =~= seq!['g', 'r', 'e', 'e', 'n']);
    assert("yellow"@ =~= seq!['y', 'e', 'l', 'l', 'o', 'w']);
    assert("orange"@ =~= seq!['o', 'r', 'a', 'n', 'g', 'e']);
    assert("red"@ =~= seq!['r', 'e', 'd']);
    assert("pink"@ =~= seq!['p', 'i', 'n', 'k']);
    assert("purple"@ =~= seq!['p', 'u', 'r', 'p', 'l', 'e']);
    assert("slate"@ =~= seq!['s', 'l', 'a', 't', 'e']);
}

/// Each stock accent id is paired with the RGB Adwaita documents for it.
pub proof fn lemma_palette_is_adwaita(k: int)
    requires
        0 <= k < accent_palette().len(),
    ensures
        adwaita_accent_rgb(accent_palette()[k].0) == Some(accent_palette()[k].1),
{
    lemma_accent_names_text();
    let n = accent_palette()[k].0;
    if k == 0 {
    } else if k == 1 {
        assert(n[0] != "blue"@[0]);
    } else if k == 2 {
        assert(n[0] != "blue"@[0] && n[0] != "teal"@[0]);
    } else if k == 3 {
        assert(n[0] != "blue"@[0] && n[0] != "teal"@[0] && n[0] != "green"@[0]);
    } else if k == 4 {
        assert(n[0] != "blue"@[0] && n[0] != "teal"@[0] && n[0] != "green"@[0] && n[0] != "yellow"@[0]);
    } else if k == 5 {
        assert(n[0] != "blue"@[0] && n[0] != "teal"@[0] && n[0] != "green"@[0] && n[0] != "yellow"@[0]
            && n[0] != "orange"@[0]);
    } else if k == 6 {
        assert(n[0] != "blue"@[0] && n[0] != "teal"@[0] && n[0] != "green"@[0] && n[0] != "yellow"@[0]
            && n[0] != "orange"@[0] && n[0] != "red"@[0]);
    } else if k == 7 {
        assert(n[0] != "blue"@[0] && n[0] != "teal"@[0] && n[0] != "green"@[0] && n[0] != "yellow"@[0]
            && n[0] != "orange"@[0] && n[0] != "red"@[0] && n[1] != "pink"@[1]);
    } else {
        assert(n[0] != "blue"@[0] && n[0] != "teal"@[0] && n[0] != "green"@[0] && n[0] != "yellow"@[0]
            && n[0] != "orange"@[0] && n[0] != "red"@[0] && n[0] != "pink"@[0] && n[0] != "purple"@[0]);
    }
}

/// The index of the first nearest of the first `i` palette entries.
spec fn nearest_upto(c: (u8, u8, u8), i: nat) -> int
    decreases i,
{
    if i <= 1 {
        0
    } else {
        let b = nearest_upto(c, (i - 1) as nat);
        if distance_spec(c, accent_palette()[i - 1].1) < distance_spec(c, accent_palette()[b].1) { i - 1 } else { b }
    }
}

proof fn lemma_nearest_upto(c: (u8, u8, u8), i: nat)
    requires
        1 <= i <= 9,
    ensures
        0 <= nearest_upto(c, i) < i,
        forall|j: int| 0 <= j < nearest_upto(c, i)
            ==> distance_spec(c, #[trigger] accent_palette()[j].1) > distance_spec(c, accent_palette()[nearest_upto(c, i)].1),
        forall|j: int| nearest_upto(c, i) <= j < i
            ==> distance_spec(c, #[trigger] accent_palette()[j].1) >= distance_spec(c, accent_palette()[nearest_upto(c, i)].1),
    decreases i,
{
    if i > 1 {
        lemma_nearest_upto(c, (i - 1) as nat);
    }
}

/// Every colour has a nearest stock accent.
proof fn lemma_nearest_exists(c: (u8, u8, u8))
    ensures
        exists|k: int| is_nearest_accent(c, k),
{
    lemma_nearest_upto(c, 9);
    assert(is_nearest_accent(c, nearest_upto(c, 9)));
}

/// Snapping a colour gives a stock accent id whose Adwaita RGB is at
/// least as close to the colour as the Adwaita RGB of every other stock
/// accent: purple for `#9141ac` itself, pink for `#d56199` itself, and
/// so on for each stock accent.
pub proof fn lemma_snap_is_nearest_adwaita_accent(c: (u8, u8, u8), other: Seq<char>)
    ensures
        adwaita_accent_rgb(nearest_accent_text(c)) is Some,
        adwaita_accent_rgb(other) matches Some(o)
            ==> distance_spec(c, adwaita_accent_rgb(nearest_accent_text(c))->0) <= distance_spec(c, o),
        adwaita_accent_rgb(other) == Some(c) ==> nearest_accent_text(c) == other,
{
    let p = accent_palette();
    lemma_nearest_exists(c);
    let k = choose|k: int| is_nearest_accent(c, k);
    lemma_palette_is_adwaita(k);
    assert(nearest_accent_text(c) == p[k].0);
    if adwaita_accent_rgb(other) is Some {
        let j: int = if other == "blue"@ { 0 } else if other == "teal"@ { 1 } else if other == "green"@ { 2 }
            else if other == "yellow"@ { 3 } else if other == "orange"@ { 4 } else if other == "red"@ { 5 }
            else if other == "pink"@ { 6 } else if other == "purple"@ { 7 } else { 8 };
        lemma_palette_is_adwaita(j);
        lemma_accent_names_text();
        assert(p[j].0 == other);
        assert(adwaita_accent_rgb(other) == Some(p[j].1));
        if adwaita_accent_rgb(other) == Some(c) {
            lemma_stock_accent_is_its_own_nearest(j);
        }
    }
}

} // verus!
