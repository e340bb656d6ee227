//! Material-Design-3-flavoured wallpaper theming: assigning the three
//! top wallpaper colours to the background / primary / secondary roles.

use vstd::prelude::*;
use crate::text::digit_char;
use crate::theme_spec::HexColor;

verus! {

/// Adwaita's light-mode surface default, the neutral endpoint of the
/// light-scheme blends.
pub const ADWAITA_LIGHT_NEUTRAL: &'static str = "#fafafb";

/// Adwaita's dark-mode surface default.
pub const ADWAITA_DARK_NEUTRAL: &'static str = "#222226";

/// The six assignments of three palette colours to the three roles,
/// named `(background, primary, secondary)`.
#[derive(Debug, Clone, Copy, PartialEq, Eq, Structural)]
pub enum Permutation {
    Bg0Pri1Sec2,
    Bg0Pri2Sec1,
    Bg1Pri0Sec2,
    Bg1Pri2Sec0,
    Bg2Pri0Sec1,
    Bg2Pri1Sec0,
}

impl Permutation {
    /// Ordered list for a UI dropdown ("Bg rotates slowest").
    pub const ALL: [Permutation; 6] = [
        Permutation::Bg0Pri1Sec2,
        Permutation::Bg0Pri2Sec1,
        Permutation::Bg1Pri0Sec2,
        Permutation::Bg1Pri2Sec0,
        Permutation::Bg2Pri0Sec1,
        Permutation::Bg2Pri1Sec0,
    ];

    /// Position in [`Self::ALL`].
    pub open spec fn index_spec(self) -> u32 {
        match self {
            Permutation::Bg0Pri1Sec2 => 0,
            Permutation::Bg0Pri2Sec1 => 1,
            Permutation::Bg1Pri0Sec2 => 2,
            Permutation::Bg1Pri2Sec0 => 3,
            Permutation::Bg2Pri0Sec1 => 4,
            Permutation::Bg2Pri1Sec0 => 5,
        }
    }

    /// The permutation at position `i` of [`Self::ALL`]; any other value
    /// falls back to `Bg0Pri1Sec2`.
    pub open spec fn from_index_spec(i: u32) -> Permutation {
        match i {
            0 => Permutation::Bg0Pri1Sec2,
            1 => Permutation::Bg0Pri2Sec1,
            2 => Permutation::Bg1Pri0Sec2,
            3 => Permutation::Bg1Pri2Sec0,
            4 => Permutation::Bg2Pri0Sec1,
            5 => Permutation::Bg2Pri1Sec0,
            _ => Permutation::Bg0Pri1Sec2,
        }
    }

    pub open spec fn indices_spec(self) -> (usize, usize, usize) {
        match self {
            Permutation::Bg0Pri1Sec2 => (0, 1, 2),
            Permutation::Bg0Pri2Sec1 => (0, 2, 1),
            Permutation::Bg1Pri0Sec2 => (1, 0, 2),
            Permutation::Bg1Pri2Sec0 => (1, 2, 0),
            Permutation::Bg2Pri0Sec1 => (2, 0, 1),
            Permutation::Bg2Pri1Sec0 => (2, 1, 0),
        }
    }

    pub open spec fn label_text(self) -> Seq<char> {
        match self {
            Permutation::Bg0Pri1Sec2 => "Background 1 · Primary 2 · Secondary 3"@,
            Permutation::Bg0Pri2Sec1 => "Background 1 · Primary 3 · Secondary 2"@,
            Permutation::Bg1Pri0Sec2 => "Background 2 · Primary 1 · Secondary 3"@,
            Permutation::Bg1Pri2Sec0 => "Background 2 · Primary 3 · Secondary 1"@,
            Permutation::Bg2Pri0Sec1 => "Background 3 · Primary 1 · Secondary 2"@,
            Permutation::Bg2Pri1Sec0 => "Background 3 · Primary 2 · Secondary 1"@,
        }
    }

    /// Settings round-trip: `0..=5` map 1:1 onto [`Self::ALL`]; any
    /// other value falls back to `Bg0Pri1Sec2`.
    pub fn from_index(i: u32) -> (r: Self)
        ensures
            r == Self::from_index_spec(i),
    {
        match i {
            0 => Permutation::Bg0Pri1Sec2,
            1 => Permutation::Bg0Pri2Sec1,
            2 => Permutation::Bg1Pri0Sec2,
            3 => Permutation::Bg1Pri2Sec0,
            4 => Permutation::Bg2Pri0Sec1,
            5 => Permutation::Bg2Pri1Sec0,
            _ => Permutation::Bg0Pri1Sec2,
        }
    }

    pub fn to_index(self) -> (r: u32)
        ensures
            r == self.index_spec(),
    {
        match self {
            Permutation::Bg0Pri1Sec2 => 0,
            Permutation::Bg0Pri2Sec1 => 1,
            Permutation::Bg1Pri0Sec2 => 2,
            Permutation::Bg1Pri2Sec0 => 3,
            Permutation::Bg2Pri0Sec1 => 4,
            Permutation::Bg2Pri1Sec0 => 5,
        }
    }

    /// Human label for the UI dropdown.
    pub fn label(self) -> (r: &'static str)
        ensures
            r@ == self.label_text(),
    {
        match self {
            Permutation::Bg0Pri1Sec2 => "Background 1 · Primary 2 · Secondary 3",
            Permutation::Bg0Pri2Sec1 => "Background 1 · Primary 3 · Secondary 2",
            Permutation::Bg1Pri0Sec2 => "Background 2 · Primary 1 · Secondary 3",
            Permutation::Bg1Pri2Sec0 => "Background 2 · Primary 3 · Secondary 1",
            Permutation::Bg2Pri0Sec1 => "Background 3 · Primary 1 · Secondary 2",
            Permutation::Bg2Pri1Sec0 => "Background 3 · Primary 2 · Secondary 1",
        }
    }

    /// Zero-indexed palette slots this permutation reads.
    pub fn indices(self) -> (r: (usize, usize, usize))
        ensures
            r == self.indices_spec(),
    {
        match self {
            Permutation::Bg0Pri1Sec2 => (0, 1, 2),
            Permutation::Bg0Pri2Sec1 => (0, 2, 1),
            Permutation::Bg1Pri0Sec2 => (1, 0, 2),
            Permutation::Bg1Pri2Sec0 => (1, 2, 0),
            Permutation::Bg2Pri0Sec1 => (2, 0, 1),
            Permutation::Bg2Pri1Sec0 => (2, 1, 0),
        }
    }

    /// Apply this permutation to a three-colour palette.
    pub fn apply(self, palette: &[HexColor; 3]) -> (r: MaterialRoles)
        ensures
            r.background@ == palette@[self.indices_spec().0 as int]@,
            r.primary@ == palette@[self.indices_spec().1 as int]@,
            r.secondary@ == palette@[self.indices_spec().2 as int]@,
    {
        let (b, p, s) = self.indices();
        MaterialRoles {
            background: palette[b].clone(),
            primary: palette[p].clone(),
            secondary: palette[s].clone(),
        }
    }
}

/// Reading back a permutation's index gives the permutation.
pub proof fn lemma_permutation_index_round_trip(p: Permutation)
    ensures
        p.index_spec() < 6,
        Permutation::from_index_spec(p.index_spec()) == p,
{
}

/// Each permutation reads each of the three slots exactly once, and
/// different permutations read them in different orders.
pub proof fn lemma_permutation_indices(p: Permutation, q: Permutation)
    ensures
        p.indices_spec().0 < 3 && p.indices_spec().1 < 3 && p.indices_spec().2 < 3,
        p.indices_spec().0 != p.indices_spec().1,
        p.indices_spec().0 != p.indices_spec().2,
        p.indices_spec().1 != p.indices_spec().2,
        p != q ==> p.indices_spec() != q.indices_spec(),
{
}

/// Each permutation reads the slots its label names: the label is
/// "Background <b> · Primary <p> · Secondary <s>" where `b`, `p` and `s`
/// are the one-based slots read for the background, primary and
/// secondary roles.
pub proof fn lemma_label_names_slots_read(p: Permutation)
    ensures
        p.label_text() == "Background "@ + seq![digit_char(p.indices_spec().0 as nat + 1)]
            + " · Primary "@ + seq![digit_char(p.indices_spec().1 as nat + 1)]
            + " · Secondary "@ + seq![digit_char(p.indices_spec().2 as nat + 1)],
{
    reveal_strlit("Background ");
    reveal_strlit(" · Primary ");
    reveal_strlit(" · Secondary ");
    reveal_strlit("Background 1 · Primary 2 · Secondary 3");
    reveal_strlit("Background 1 · Primary 3 · Secondary 2");
    reveal_strlit("Background 2 · Primary 1 · Secondary 3");
    reveal_strlit("Background 2 · Primary 3 · Secondary 1");
    reveal_strlit("Background 3 · Primary 1 · Secondary 2");
    reveal_strlit("Background 3 · Primary 2 · Secondary 1");
    assert(p.label_text() =~= "Background "@ + seq![digit_char(p.indices_spec().0 as nat + 1)]
        + " · Primary "@ + seq![digit_char(p.indices_spec().1 as nat + 1)]
        + " · Secondary "@ + seq![digit_char(p.indices_spec().2 as nat + 1)]);
}

/// The dropdown order lists the permutations by the slots they read,
/// background first, then primary, then secondary (the background slot
/// rotates slowest): one permutation comes before another exactly when
/// its slot triple is lexicographically smaller.
pub proof fn lemma_dropdown_order_by_slots(p: Permutation, q: Permutation)
    ensures
        p.index_spec() < q.index_spec() <==> (
            p.indices_spec().0 < q.indices_spec().0
            || (p.indices_spec().0 == q.indices_spec().0 && (p.indices_spec().1 < q.indices_spec().1
                || (p.indices_spec().1 == q.indices_spec().1 && p.indices_spec().2 < q.indices_spec().2)))),
{
}

/// Different permutations carry different labels.
pub proof fn lemma_permutation_labels_distinct(p: Permutation, q: Permutation)
    ensures
        p != q ==> p.label_text() != q.label_text(),
{
    reveal_strlit("Background 1 · Primary 2 · Secondary 3");
    reveal_strlit("Background 1 · Primary 3 · Secondary 2");
    reveal_strlit("Background 2 · Primary 1 · Secondary 3");
    reveal_strlit("Background 2 · Primary 3 · Secondary 1");
    reveal_strlit("Background 3 · Primary 1 · Secondary 2");
    reveal_strlit("Background 3 · Primary 2 · Secondary 1");
    if p != q {
        match (p, q) {
            (Permutation::Bg0Pri1Sec2, Permutation::Bg0Pri2Sec1) => {
                assert(p.label_text()[23] != q.label_text()[23]);
            },
            (Permutation::Bg0Pri1Sec2, Permutation::Bg1Pri0Sec2) => {
                assert(p.label_text()[11] != q.label_text()[11]);
            },
            (Permutation::Bg0Pri1Sec2, Permutation::Bg1Pri2Sec0) => {
                assert(p.label_text()[11] != q.label_text()[11]);
            },
            (Permutation::Bg0Pri1Sec2, Permutation::Bg2Pri0Sec1) => {
                assert(p.label_text()[11] != q.label_text()[11]);
            },
            (Permutation::Bg0Pri1Sec2, Permutation::Bg2Pri1Sec0) => {
                assert(p.label_text()[11] != q.label_text()[11]);
            },
            (Permutation::Bg0Pri2Sec1, Permutation::Bg0Pri1Sec2) => {
                assert(p.label_text()[23] != q.label_text()[23]);
            },
            (Permutation::Bg0Pri2Sec1, Permutation::Bg1Pri0Sec2) => {
                assert(p.label_text()[11] != q.label_text()[11]);
            },
            (Permutation::Bg0Pri2Sec1, Permutation::Bg1Pri2Sec0) => {
                assert(p.label_text()[11] != q.label_text()[11]);
            },
            (Permutation::Bg0Pri2Sec1, Permutation::Bg2Pri0Sec1) => {
                assert(p.label_text()[11] != q.label_text()[11]);
            },
            (Permutation::Bg0Pri2Sec1, Permutation::Bg2Pri1Sec0) => {
                assert(p.label_text()[11] != q.label_text()[11]);
            },
            (Permutation::Bg1Pri0Sec2, Permutation::Bg0Pri1Sec2) => {
                assert(p.label_text()[11] != q.label_text()[11]);
            },
            (Permutation::Bg1Pri0Sec2, Permutation::Bg0Pri2Sec1) => {
                assert(p.label_text()[11] != q.label_text()[11]);
            },
            (Permutation::Bg1Pri0Sec2, Permutation::Bg1Pri2Sec0) => {
                assert(p.label_text()[23] != q.label_text()[23]);
            },
            (Permutation::Bg1Pri0Sec2, Permutation::Bg2Pri0Sec1) => {
                assert(p.label_text()[11] != q.label_text()[11]);
            },
            (Permutation::Bg1Pri0Sec2, Permutation::Bg2Pri1Sec0) => {
                assert(p.label_text()[11] != q.label_text()[11]);
            },
            (Permutation::Bg1Pri2Sec0, Permutation::Bg0Pri1Sec2) => {
                assert(p.label_text()[11] != q.label_text()[11]);
            },
            (Permutation::Bg1Pri2Sec0, Permutation::Bg0Pri2Sec1) => {
                assert(p.label_text()[11] != q.label_text()[11]);
            },
            (Permutation::Bg1Pri2Sec0, Permutation::Bg1Pri0Sec2) => {
                assert(p.label_text()[23] != q.label_text()[23]);
            },
            (Permutation::Bg1Pri2Sec0, Permutation::Bg2Pri0Sec1) => {
                assert(p.label_text()[11] != q.label_text()[11]);
            },
            (Permutation::Bg1Pri2Sec0, Permutation::Bg2Pri1Sec0) => {
                assert(p.label_text()[11] != q.label_text()[11]);
            },
            (Permutation::Bg2Pri0Sec1, Permutation::Bg0Pri1Sec2) => {
                assert(p.label_text()[11] != q.label_text()[11]);
            },
            (Permutation::Bg2Pri0Sec1, Permutation::Bg0Pri2Sec1) => {
                assert(p.label_text()[11] != q.label_text()[11]);
            },
            (Permutation::Bg2Pri0Sec1, Permutation::Bg1Pri0Sec2) => {
                assert(p.label_text()[11] != q.label_text()[11]);
            },
            (Permutation::Bg2Pri0Sec1, Permutation::Bg1Pri2Sec0) => {
                assert(p.label_text()[11] != q.label_text()[11]);
            },
            (Permutation::Bg2Pri0Sec1, Permutation::Bg2Pri1Sec0) => {
                assert(p.label_text()[23] != q.label_text()[23]);
            },
            (Permutation::Bg2Pri1Sec0, Permutation::Bg0Pri1Sec2) => {
                assert(p.label_text()[11] != q.label_text()[11]);
            },
            (Permutation::Bg2Pri1Sec0, Permutation::Bg0Pri2Sec1) => {
                assert(p.label_text()[11] != q.label_text()[11]);
            },
            (Permutation::Bg2Pri1Sec0, Permutation::Bg1Pri0Sec2) => {
                assert(p.label_text()[11] != q.label_text()[11]);
            },
            (Permutation::Bg2Pri1Sec0, Permutation::Bg1Pri2Sec0) => {
                assert(p.label_text()[11] != q.label_text()[11]);
            },
            (Permutation::Bg2Pri1Sec0, Permutation::Bg2Pri0Sec1) => {
                assert(p.label_text()[23] != q.label_text()[23]);
            },
            _ => {},
        }
    }
}

/// A palette colour's role after applying a [`Permutation`].
#[derive(Debug, Clone, PartialEq, Eq)]
pub struct MaterialRoles {
    pub background: HexColor,
    pub primary: HexColor,
    pub secondary: HexColor,
}

/// User-facing Material-palette spec.
#[derive(Debug, Clone, Copy, PartialEq, Eq, Structural)]
pub struct MaterialPaletteSpec {
    pub enabled: bool,
    pub day_permutation: Permutation,
    pub night_permutation: Permutation,
}

impl Default for MaterialPaletteSpec {
    /// Disabled, with `Bg0Pri1Sec2` for both day and night.
    fn default() -> (r: Self)
        ensures
            !r.enabled,
            r.day_permutation == Permutation::Bg0Pri1Sec2,
            r.night_permutation == Permutation::Bg0Pri1Sec2,
    {
        MaterialPaletteSpec {
            enabled: false,
            day_permutation: Permutation::Bg0Pri1Sec2,
            night_permutation: Permutation::Bg0Pri1Sec2,
        }
    }
}

} // verus!
