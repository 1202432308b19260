//! Tile identity: a closed 34-kind space (1-9 in three suits plus 7 honors)
//! with an orthogonal red-five flag. Kind equality ignores the red flag.

use vstd::prelude::*;

verus! {

/// Number of distinct tile kinds.
pub const KINDS: usize = 34;

/// One tile: a kind in `0..34` plus the red-five marker.
///
/// Kinds 0-8 are the character suit 1-9, 9-17 the circle suit, 18-26 the
/// bamboo suit, 27-30 the four winds and 31-33 the three dragons.
#[derive(Clone, Copy, Debug, PartialEq, Eq, Structural)]
pub struct Tile {
    pub kind: u8,
    pub red: bool,
}

impl Tile {
    /// A tile is well formed when its kind is in range and the red flag is
    /// only set on a five of one of the three suits.
    pub open spec fn wf(self) -> bool {
        self.kind < 34 && (self.red ==> (self.kind == 4 || self.kind == 13 || self.kind == 22))
    }

    pub fn new(kind: u8, red: bool) -> (t: Tile)
        requires
            kind < 34,
            red ==> (kind == 4 || kind == 13 || kind == 22),
        ensures
            t.wf(),
            t.kind == kind,
            t.red == red,
    {
        Tile { kind, red }
    }

    /// Plain tile of a kind, never red.
    pub fn of(kind: u8) -> (t: Tile)
        requires
            kind < 34,
        ensures
            t.wf(),
            t.kind == kind,
            !t.red,
    {
        Tile { kind, red: false }
    }

    /// Index of the red flag slot for this kind (0, 1 or 2), if any.
    pub open spec fn spec_red_slot(self) -> Option<int> {
        if self.kind == 4 {
            Some(0int)
        } else if self.kind == 13 {
            Some(1int)
        } else if self.kind == 22 {
            Some(2int)
        } else {
            None
        }
    }
}

/// Exec mirror of `Tile::wf`.
pub fn tile_wf(t: Tile) -> (r: bool)
    ensures
        r == t.wf(),
{
    t.kind < 34 && (!t.red || t.kind == 4 || t.kind == 13 || t.kind == 22)
}

/// True of the terminal and honor kinds (ones, nines, winds, dragons): the
/// thirteen kinds counted by the nine-kinds abortive draw.
pub open spec fn spec_is_orphan(k: int) -> bool {
    k == 0 || k == 8 || k == 9 || k == 17 || k == 18 || k == 26 || (27 <= k < 34)
}

/// Exec mirror of `spec_is_orphan`.
pub fn is_orphan(k: u8) -> (r: bool)
    ensures
        r == spec_is_orphan(k as int),
{
    k == 0 || k == 8 || k == 9 || k == 17 || k == 18 || k == 26 || (27 <= k && k < 34)
}

/// The kind a dora indicator points at: the next kind within its own group
/// (1-9 wrap inside each suit, winds wrap among winds, dragons among dragons).
pub open spec fn spec_dora_kind(k: int) -> int {
    if k < 27 {
        if k % 9 == 8 {
            k - 8
        } else {
            k + 1
        }
    } else if k < 31 {
        if k == 30 {
            27
        } else {
            k + 1
        }
    } else {
        if k == 33 {
            31
        } else {
            k + 1
        }
    }
}

/// Exec mirror of `spec_dora_kind`.
pub fn dora_kind(k: u8) -> (r: u8)
    requires
        k < 34,
    ensures
        r == spec_dora_kind(k as int),
        r < 34,
{
    if k < 27 {
        if k % 9 == 8 {
            k - 8
        } else {
            k + 1
        }
    } else if k < 31 {
        if k == 30 {
            27
        } else {
            k + 1
        }
    } else {
        if k == 33 {
            31
        } else {
            k + 1
        }
    }
}

} // verus!
