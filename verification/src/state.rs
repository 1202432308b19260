//! The aggregate state of one tracked seat: concealed hand, every seat's
//! discards and melds, scoring context and the cross-cutting legality flags.

use vstd::prelude::*;

use crate::action::ActionCandidate;
use crate::eval::tile_total;
use crate::tile::Tile;

verus! {

/// One discard record: the tile, whether it was discarded straight from the
/// draw, and whether a call took it. Its position in the pile is its index.
#[derive(Clone, Copy, Debug, PartialEq, Eq, Structural)]
pub struct KawaItem {
    pub tile: Tile,
    pub tsumogiri: bool,
    pub taken: bool,
}

/// One exposed meld: three tiles for a run or triplet, four for an open quad.
#[derive(Clone, Debug)]
pub struct Meld {
    pub tiles: Vec<Tile>,
}

impl Meld {
    pub open spec fn wf(self) -> bool {
        &&& 3 <= self.tiles@.len() <= 4
        &&& forall|i: int| 0 <= i < self.tiles@.len() ==> self.tiles@[i].wf()
    }

    /// An open quad counts as a meld of four tiles.
    pub open spec fn is_kan(self) -> bool {
        self.tiles@.len() == 4
    }
}

/// Everything tracked per seat, in relative order (index 0 = tracked seat).
#[derive(Clone, Debug)]
pub struct SeatTable {
    /// Discard pile in chronological order, at most 24 entries.
    pub kawa: Vec<KawaItem>,
    /// Tiles-only projection of `kawa`, kept in lockstep.
    pub kawa_tiles: Vec<Tile>,
    /// Exposed melds (runs, triplets, open quads), oldest first.
    pub melds: Vec<Meld>,
    /// Kind representative of each declared concealed quad.
    pub ankans: Vec<Tile>,
    pub riichi_declared: bool,
    pub riichi_accepted: bool,
}

impl SeatTable {
    pub open spec fn wf(self) -> bool {
        &&& self.kawa@.len() <= 24
        &&& self.kawa_tiles@.len() == self.kawa@.len()
        &&& forall|i: int| #![trigger self.kawa@[i]]
            0 <= i < self.kawa@.len() ==> self.kawa@[i].tile.wf() && self.kawa_tiles@[i]
                == self.kawa@[i].tile
        &&& self.melds@.len() + self.ankans@.len() <= 4
        &&& forall|i: int| #![trigger self.melds@[i]] 0 <= i < self.melds@.len() ==> self.melds@[i].wf()
        &&& forall|i: int| #![trigger self.ankans@[i]] 0 <= i < self.ankans@.len() ==> self.ankans@[i].wf()
    }

    /// Number of quads this seat has declared (open or closed).
    pub open spec fn spec_kans(self) -> int {
        self.ankans@.len() as int + kan_count(self.melds@)
    }

    pub fn empty() -> (s: SeatTable)
        ensures
            s.wf(),
            s.kawa@.len() == 0,
            s.kawa_tiles@.len() == 0,
            s.melds@.len() == 0,
            s.ankans@.len() == 0,
            !s.riichi_declared,
            !s.riichi_accepted,
    {
        SeatTable {
            kawa: Vec::new(),
            kawa_tiles: Vec::new(),
            melds: Vec::new(),
            ankans: Vec::new(),
            riichi_declared: false,
            riichi_accepted: false,
        }
    }
}

/// Number of quads among a meld sequence.
pub open spec fn kan_count(ms: Seq<Meld>) -> int
    decreases ms.len(),
{
    if ms.len() == 0 {
        0
    } else {
        kan_count(ms.drop_last()) + (if ms.last().is_kan() {
            1int
        } else {
            0int
        })
    }
}

/// The 34-wide per-kind vectors of the tracked seat's concealed view.
#[derive(Clone, Debug)]
pub struct BigArrayFields {
    /// Concealed hand counts, red fives folded into their kind.
    pub tehai: Vec<u8>,
    /// Current winning-tile kinds.
    pub waits: Vec<bool>,
    /// Dora weight of each kind under the revealed indicators.
    pub dora_factor: Vec<u8>,
    /// Copies of each kind observed anywhere (own hand, discards, melds,
    /// indicators).
    pub tiles_seen: Vec<u8>,
    /// Discards that keep the current tenpai distance.
    pub keep_shanten_discards: Vec<bool>,
    /// Discards that leave the hand at tenpai.
    pub next_shanten_discards: Vec<bool>,
    /// Kinds forbidden to discard while locked into a declared riichi.
    pub forbidden_tiles: Vec<bool>,
    /// Kinds the tracked seat has discarded this hand (furiten source).
    pub discarded_tiles: Vec<bool>,
}

impl BigArrayFields {
    pub open spec fn wf(self) -> bool {
        &&& self.tehai@.len() == 34
        &&& self.waits@.len() == 34
        &&& self.dora_factor@.len() == 34
        &&& self.tiles_seen@.len() == 34
        &&& self.keep_shanten_discards@.len() == 34
        &&& self.next_shanten_discards@.len() == 34
        &&& self.forbidden_tiles@.len() == 34
        &&& self.discarded_tiles@.len() == 34
        &&& forall|k: int| 0 <= k < 34 ==> self.tehai@[k] <= 4
        &&& forall|k: int| 0 <= k < 34 ==> self.tiles_seen@[k] <= 4
        &&& forall|k: int| 0 <= k < 34 ==> self.dora_factor@[k] <= 5
    }

    pub fn empty() -> (a: BigArrayFields)
        ensures
            a.wf(),
            forall|k: int| 0 <= k < 34 ==> a.tehai@[k] == 0,
            forall|k: int| 0 <= k < 34 ==> a.waits@[k] == false,
            forall|k: int| 0 <= k < 34 ==> a.dora_factor@[k] == 0,
            forall|k: int| 0 <= k < 34 ==> a.tiles_seen@[k] == 0,
            forall|k: int| 0 <= k < 34 ==> a.keep_shanten_discards@[k] == false,
            forall|k: int| 0 <= k < 34 ==> a.next_shanten_discards@[k] == false,
            forall|k: int| 0 <= k < 34 ==> a.forbidden_tiles@[k] == false,
            forall|k: int| 0 <= k < 34 ==> a.discarded_tiles@[k] == false,
    {
        BigArrayFields {
            tehai: zero_u8s(),
            waits: false_bools(),
            dora_factor: zero_u8s(),
            tiles_seen: zero_u8s(),
            keep_shanten_discards: false_bools(),
            next_shanten_discards: false_bools(),
            forbidden_tiles: false_bools(),
            discarded_tiles: false_bools(),
        }
    }

    /// Zero every per-kind vector, as a hand boundary does.
    pub fn clear(&mut self)
        ensures
            final(self).wf(),
            forall|k: int| 0 <= k < 34 ==> final(self).tehai@[k] == 0,
            forall|k: int| 0 <= k < 34 ==> final(self).waits@[k] == false,
            forall|k: int| 0 <= k < 34 ==> final(self).dora_factor@[k] == 0,
            forall|k: int| 0 <= k < 34 ==> final(self).tiles_seen@[k] == 0,
            forall|k: int| 0 <= k < 34 ==> final(self).keep_shanten_discards@[k] == false,
            forall|k: int| 0 <= k < 34 ==> final(self).next_shanten_discards@[k] == false,
            forall|k: int| 0 <= k < 34 ==> final(self).forbidden_tiles@[k] == false,
            forall|k: int| 0 <= k < 34 ==> final(self).discarded_tiles@[k] == false,
    {
        self.tehai = zero_u8s();
        self.waits = false_bools();
        self.dora_factor = zero_u8s();
        self.tiles_seen = zero_u8s();
        self.keep_shanten_discards = false_bools();
        self.next_shanten_discards = false_bools();
        self.forbidden_tiles = false_bools();
        self.discarded_tiles = false_bools();
    }
}

/// A fresh 34-wide zero count vector.
pub fn zero_u8s() -> (v: Vec<u8>)
    ensures
        v@.len() == 34,
        forall|k: int| 0 <= k < 34 ==> v@[k] == 0,
{
    let mut v: Vec<u8> = Vec::new();
    let mut i: usize = 0;
    while i < 34
        invariant
            v@.len() == i,
            i <= 34,
            forall|k: int| 0 <= k < i ==> v@[k] == 0,
        decreases 34 - i,
    {
        v.push(0);
        i = i + 1;
    }
    v
}

/// A fresh 34-wide all-false bitset.
pub fn false_bools() -> (v: Vec<bool>)
    ensures
        v@.len() == 34,
        forall|k: int| 0 <= k < 34 ==> v@[k] == false,
{
    let mut v: Vec<bool> = Vec::new();
    let mut i: usize = 0;
    while i < 34
        invariant
            v@.len() == i,
            i <= 34,
            forall|k: int| 0 <= k < i ==> v@[k] == false,
        decreases 34 - i,
    {
        v.push(false);
        i = i + 1;
    }
    v
}

/// Which kind of response the tracked seat may currently give.
#[derive(Clone, Copy, Debug, PartialEq, Eq, Structural)]
pub enum Window {
    /// No action is open to the tracked seat.
    Shut,
    /// The tracked seat holds the drawn (or called) tile and must act.
    OwnTurn,
    /// Another seat discarded; calls and ron may be open. `from` is relative.
    Claim { from: u8 },
    /// Another seat upgraded a triplet to a quad; robbing it may be open.
    Rob { from: u8 },
}

/// Errors surfaced by `apply`.
#[derive(Clone, Copy, Debug, PartialEq, Eq, Structural)]
pub enum ApplyError {
    /// The instance saw a match-end event, or an earlier breach: terminal.
    Halted,
    /// The event contradicts the tracked state (an upstream engine
    /// mismatch, e.g. a fifth copy of a kind or a 25th discard): the
    /// instance stops processing and must be abandoned.
    Inconsistent,
}

/// The aggregate, one instance per tracked seat per match.
#[derive(Clone, Debug)]
pub struct PlayerState {
    /// Absolute id of the tracked seat, fixed at construction.
    pub player_id: u8,
    /// Prevailing wind (a wind-kind tile).
    pub bakaze: Tile,
    /// The seat's own wind.
    pub jikaze: Tile,
    /// Hand number within the round, counted from 1.
    pub kyoku: u8,
    /// Repeat counter.
    pub honba: u8,
    /// Table-stake counter (riichi bets on the table).
    pub kyotaku: u8,
    /// Rotated scores: `scores[0]` is the tracked seat.
    pub scores: Vec<i32>,
    /// Rank of the tracked seat, 0 = first.
    pub rank: u8,
    /// Dealer, relative to the tracked seat.
    pub oya: u8,
    /// Final hand of the match.
    pub is_all_last: bool,
    /// Revealed dora indicators, at most 5.
    pub dora_indicators: Vec<Tile>,
    /// Per-seat tables, relative order, length 4.
    pub seats: Vec<SeatTable>,
    /// Remaining wall tiles.
    pub tiles_left: u8,
    /// Tenpai distance of the concealed hand, saturated: -1 complete,
    /// 0 tenpai (or tenpai reachable by one discard), 1 farther away.
    pub shanten: i8,
    /// The tile just drawn, until it is discarded or melded.
    pub last_self_tsumo: Option<Tile>,
    /// The last tile discarded by anyone.
    pub last_kawa_tile: Option<Tile>,
    /// Cached legal-action set of the last eligibility computation.
    pub last_cans: ActionCandidate,
    /// Kinds of which all four copies sit concealed in hand.
    pub ankan_candidates: Vec<u8>,
    /// Kinds whose own open triplet can be upgraded with a held fourth tile.
    pub kakan_candidates: Vec<u8>,
    /// The response window the tracked seat is in.
    pub window: Window,
    /// No call anywhere and no own discard yet: double riichi and the
    /// nine-terminals draw are still open.
    pub can_w_riichi: bool,
    /// The declared riichi was a double riichi.
    pub is_w_riichi: bool,
    /// The last own draw came from the dead wall after a quad.
    pub at_rinshan: bool,
    /// Ippatsu window: own riichi accepted and no call or own discard since.
    pub at_ippatsu: bool,
    /// Furiten: ron is suppressed (permanent or same-cycle).
    pub at_furiten: bool,
    /// The active furiten is same-cycle only: it clears at the next own
    /// discard.
    pub to_mark_same_cycle_furiten: bool,
    /// The claim window's own tile raised the same-cycle flag this very
    /// event; ron on that tile itself is still legal.
    pub exposure_fresh: bool,
    /// Quads declared on the whole table this hand, capped at 4.
    pub kans_on_board: u8,
    /// The tracked hand is fully concealed.
    pub is_menzen: bool,
    /// Kinds of own run calls (lowest kind of each run).
    pub chis: Vec<u8>,
    /// Kinds of own triplet calls.
    pub pons: Vec<u8>,
    /// Kinds of own open quads.
    pub minkans: Vec<u8>,
    /// Kinds of own concealed quads.
    pub ankans: Vec<u8>,
    /// Dora owned per seat, from visible information.
    pub doras_owned: Vec<u8>,
    /// Dora observed anywhere, red fives included.
    pub doras_seen: u8,
    /// Which red fives sit in the concealed hand (one slot per suit).
    pub akas_in_hand: Vec<bool>,
    /// Concealed-set budget of the evaluator: 4 minus the own meld count.
    pub tehai_len_div3: u8,
    /// Some discard leaves the hand at tenpai.
    pub has_next_shanten_discard: bool,
    /// The 34-wide vectors.
    pub arrs: BigArrayFields,
    /// A hand is open: between a hand start and the next boundary.
    pub in_kyoku: bool,
    /// Terminal: a match end or a breach was seen.
    pub halted: bool,
}

impl PlayerState {
    /// Own meld count (quads count once).
    pub open spec fn spec_melds_self(self) -> int {
        self.chis@.len() as int + self.pons@.len() as int + self.minkans@.len() as int
            + self.ankans@.len() as int
    }

    /// Total concealed tiles.
    pub open spec fn spec_hand_total(self) -> int {
        tile_total(self.arrs.tehai@)
    }

    /// The concealed-count invariant: concealed tiles plus three per meld
    /// (quads counted as three) give 13, or 14 with a just-drawn tile.
    pub open spec fn spec_count_inv(self) -> bool {
        self.spec_hand_total() + 3 * self.spec_melds_self() == 13 || self.spec_hand_total() + 3
            * self.spec_melds_self() == 14
    }

    /// The tracked seat holds a fourteenth tile and must discard.
    pub open spec fn spec_holds_draw(self) -> bool {
        self.spec_hand_total() + 3 * self.spec_melds_self() == 14
    }

    /// The active furiten is permanent: it survives every later event of
    /// the hand.
    pub open spec fn spec_perm_furiten(self) -> bool {
        self.at_furiten && !self.to_mark_same_cycle_furiten
    }

    /// Well-formedness, preserved by every `apply`.
    pub open spec fn wf(self) -> bool {
        &&& self.player_id < 4
        &&& self.bakaze.wf()
        &&& self.jikaze.wf()
        &&& self.scores@.len() == 4
        &&& self.oya < 4
        &&& self.rank < 4
        &&& self.dora_indicators@.len() <= 5
        &&& forall|i: int| 0 <= i < self.dora_indicators@.len() ==> self.dora_indicators@[i].wf()
        &&& self.seats@.len() == 4
        &&& forall|j: int| 0 <= j < 4 ==> self.seats@[j].wf()
        &&& self.ankan_candidates@.len() <= 4
        &&& forall|i: int| 0 <= i < self.ankan_candidates@.len() ==> self.ankan_candidates@[i] < 34
        &&& self.kakan_candidates@.len() <= 34
        &&& forall|i: int| 0 <= i < self.kakan_candidates@.len() ==> self.kakan_candidates@[i] < 34
        &&& self.kans_on_board <= 4
        &&& self.chis@.len() <= 4
        &&& self.pons@.len() <= 4
        &&& self.minkans@.len() <= 4
        &&& self.ankans@.len() <= 4
        &&& self.spec_melds_self() <= 4
        &&& forall|i: int| 0 <= i < self.chis@.len() ==> self.chis@[i] < 34
        &&& forall|i: int| 0 <= i < self.pons@.len() ==> self.pons@[i] < 34
        &&& forall|i: int| 0 <= i < self.minkans@.len() ==> self.minkans@[i] < 34
        &&& forall|i: int| 0 <= i < self.ankans@.len() ==> self.ankans@[i] < 34
        &&& self.doras_owned@.len() == 4
        &&& self.akas_in_hand@.len() == 3
        &&& self.tehai_len_div3 <= 4
        &&& self.arrs.wf()
        &&& (match self.last_self_tsumo {
            Some(t) => t.wf(),
            None => true,
        })
        &&& (match self.last_kawa_tile {
            Some(t) => t.wf(),
            None => true,
        })
        &&& (match self.window {
            Window::Claim { from } => 1 <= from < 4 && self.last_kawa_tile is Some,
            Window::Rob { from } => 1 <= from < 4 && self.last_kawa_tile is Some,
            _ => true,
        })
        &&& (self.in_kyoku ==> self.spec_count_inv())
        &&& (self.in_kyoku ==> self.tehai_len_div3 == 4 - self.spec_melds_self())
        &&& (self.window != Window::Shut ==> self.in_kyoku)
        &&& (self.window == Window::OwnTurn ==> self.spec_holds_draw())
        &&& self.kans_on_board as int == self.seats@[0].spec_kans() + self.seats@[1].spec_kans()
            + self.seats@[2].spec_kans() + self.seats@[3].spec_kans()
        &&& (self.exposure_fresh ==> self.at_furiten && self.to_mark_same_cycle_furiten && (
        self.window is Claim || self.window is Rob))
    }

    /// A fresh instance for one seat; the identity is fixed for the
    /// instance's lifetime and every other field starts zeroed: empty
    /// piles, melds and indicator list, no flags, no wall, no cached
    /// candidates. A hand-start event populates the round context.
    pub fn new(player_id: u8) -> (s: PlayerState)
        requires
            player_id < 4,
        ensures
            s.wf(),
            s.player_id == player_id,
            s.bakaze == (Tile { kind: 0, red: false }),
            s.jikaze == (Tile { kind: 0, red: false }),
            s.kyoku == 0,
            s.honba == 0,
            s.kyotaku == 0,
            s.scores@ =~= seq![0i32, 0i32, 0i32, 0i32],
            s.rank == 0,
            s.oya == 0,
            !s.is_all_last,
            s.dora_indicators@.len() == 0,
            forall|j: int| 0 <= j < 4 ==> s.seats@[j].kawa@.len() == 0,
            forall|j: int| 0 <= j < 4 ==> s.seats@[j].melds@.len() == 0,
            forall|j: int| 0 <= j < 4 ==> s.seats@[j].ankans@.len() == 0,
            forall|j: int|
                0 <= j < 4 ==> !s.seats@[j].riichi_declared && !s.seats@[j].riichi_accepted,
            s.tiles_left == 0,
            s.shanten == 0,
            s.last_self_tsumo is None,
            s.last_kawa_tile is None,
            s.last_cans == ActionCandidate::spec_empty(),
            s.ankan_candidates@.len() == 0,
            s.kakan_candidates@.len() == 0,
            s.window == Window::Shut,
            !s.can_w_riichi,
            !s.is_w_riichi,
            !s.at_rinshan,
            !s.at_ippatsu,
            !s.at_furiten,
            !s.to_mark_same_cycle_furiten,
            !s.exposure_fresh,
            s.kans_on_board == 0,
            s.is_menzen,
            s.chis@.len() == 0 && s.pons@.len() == 0 && s.minkans@.len() == 0 && s.ankans@.len()
                == 0,
            forall|j: int| 0 <= j < 4 ==> s.doras_owned@[j] == 0,
            s.doras_seen == 0,
            forall|j: int| 0 <= j < 3 ==> !s.akas_in_hand@[j],
            s.tehai_len_div3 == 0,
            !s.has_next_shanten_discard,
            forall|k: int| 0 <= k < 34 ==> s.arrs.tehai@[k] == 0,
            forall|k: int| 0 <= k < 34 ==> !s.arrs.waits@[k] && !s.arrs.discarded_tiles@[k],
            !s.in_kyoku,
            !s.halted,
    {
        let mut scores: Vec<i32> = Vec::new();
        scores.push(0);
        scores.push(0);
        scores.push(0);
        scores.push(0);
        let mut seats: Vec<SeatTable> = Vec::new();
        seats.push(SeatTable::empty());
        seats.push(SeatTable::empty());
        seats.push(SeatTable::empty());
        seats.push(SeatTable::empty());
        let mut doras_owned: Vec<u8> = Vec::new();
        doras_owned.push(0);
        doras_owned.push(0);
        doras_owned.push(0);
        doras_owned.push(0);
        let mut akas_in_hand: Vec<bool> = Vec::new();
        akas_in_hand.push(false);
        akas_in_hand.push(false);
        akas_in_hand.push(false);
        PlayerState {
            player_id,
            bakaze: Tile { kind: 0, red: false },
            jikaze: Tile { kind: 0, red: false },
            kyoku: 0,
            honba: 0,
            kyotaku: 0,
            scores,
            rank: 0,
            oya: 0,
            is_all_last: false,
            dora_indicators: Vec::new(),
            seats,
            tiles_left: 0,
            shanten: 0,
            last_self_tsumo: None,
            last_kawa_tile: None,
            last_cans: ActionCandidate::empty(),
            ankan_candidates: Vec::new(),
            kakan_candidates: Vec::new(),
            window: Window::Shut,
            can_w_riichi: false,
            is_w_riichi: false,
            at_rinshan: false,
            at_ippatsu: false,
            at_furiten: false,
            to_mark_same_cycle_furiten: false,
            exposure_fresh: false,
            kans_on_board: 0,
            is_menzen: true,
            chis: Vec::new(),
            pons: Vec::new(),
            minkans: Vec::new(),
            ankans: Vec::new(),
            doras_owned,
            doras_seen: 0,
            akas_in_hand,
            tehai_len_div3: 0,
            has_next_shanten_discard: false,
            arrs: BigArrayFields::empty(),
            in_kyoku: false,
            halted: false,
        }
    }

    /// Relative seat of an absolute one: 0 is the tracked seat.
    pub fn rel(&self, actor: u8) -> (r: u8)
        requires
            actor < 4,
            self.player_id < 4,
        ensures
            r < 4,
            r == (actor + 4 - self.player_id) % 4,
    {
        (actor + 4 - self.player_id) % 4
    }
}

} // verus!
