//! The action candidate resolver: a pure function of the current tracked
//! state that produces the full legal-action capability set. Each flag is
//! specified exactly, and the resolver is independently callable.

use vstd::prelude::*;

use crate::action::ActionCandidate;
use crate::eval::spec_is_agari;
use crate::eval::spec_orphan_kinds;
use crate::eval::is_agari;
use crate::eval::orphan_kinds;
use crate::state::kan_count;
use crate::state::Meld;
use crate::state::PlayerState;
use crate::state::SeatTable;
use crate::state::Window;
use crate::tile::Tile;

verus! {

/// Discarding is open exactly in the own-turn window.
pub open spec fn spec_can_discard(s: PlayerState) -> bool {
    s.window == Window::OwnTurn
}

/// The claimable tile, where a claim or rob window is open.
pub open spec fn spec_claim_tile(s: PlayerState) -> Tile {
    s.last_kawa_tile->Some_0
}

/// Common conditions of every call on a discard: a claim window, a live
/// wall, and no own locked riichi.
pub open spec fn spec_claim_base(s: PlayerState) -> bool {
    &&& s.window is Claim
    &&& s.tiles_left > 0
    &&& !s.seats@[0].riichi_accepted
    &&& !s.seats@[0].riichi_declared
}

/// Chi taking the discard as the low tile of the run (needs the two kinds
/// above it); only from the seat directly upstream.
pub open spec fn spec_can_chi_low(s: PlayerState) -> bool {
    &&& spec_claim_base(s)
    &&& s.window == (Window::Claim { from: 3u8 })
    &&& spec_claim_tile(s).kind < 27
    &&& spec_claim_tile(s).kind as int % 9 <= 6
    &&& s.arrs.tehai@[spec_claim_tile(s).kind + 1] > 0
    &&& s.arrs.tehai@[spec_claim_tile(s).kind + 2] > 0
}

/// Chi taking the discard as the middle tile of the run.
pub open spec fn spec_can_chi_mid(s: PlayerState) -> bool {
    &&& spec_claim_base(s)
    &&& s.window == (Window::Claim { from: 3u8 })
    &&& spec_claim_tile(s).kind < 27
    &&& 1 <= spec_claim_tile(s).kind as int % 9 <= 7
    &&& s.arrs.tehai@[spec_claim_tile(s).kind - 1] > 0
    &&& s.arrs.tehai@[spec_claim_tile(s).kind + 1] > 0
}

/// Chi taking the discard as the high tile of the run.
pub open spec fn spec_can_chi_high(s: PlayerState) -> bool {
    &&& spec_claim_base(s)
    &&& s.window == (Window::Claim { from: 3u8 })
    &&& spec_claim_tile(s).kind < 27
    &&& spec_claim_tile(s).kind as int % 9 >= 2
    &&& s.arrs.tehai@[spec_claim_tile(s).kind - 2] > 0
    &&& s.arrs.tehai@[spec_claim_tile(s).kind - 1] > 0
}

/// Pon: two copies of the discarded kind concealed in hand.
pub open spec fn spec_can_pon(s: PlayerState) -> bool {
    &&& spec_claim_base(s)
    &&& s.arrs.tehai@[spec_claim_tile(s).kind as int] >= 2
}

/// Open kan on a discard: the three remaining copies concealed in hand.
pub open spec fn spec_can_daiminkan(s: PlayerState) -> bool {
    &&& spec_claim_base(s)
    &&& s.arrs.tehai@[spec_claim_tile(s).kind as int] == 3
    &&& s.kans_on_board < 4
}

/// Closed kan: some kind with all four copies concealed (the candidate list
/// is maintained by the tracker; under a locked riichi it is restricted to
/// the freshly drawn kind).
pub open spec fn spec_can_ankan(s: PlayerState) -> bool {
    &&& s.window == Window::OwnTurn
    &&& s.tiles_left > 0
    &&& s.kans_on_board < 4
    &&& s.ankan_candidates@.len() > 0
}

/// Kan upgrade: an own open triplet whose fourth copy is in hand; never
/// under a declared riichi.
pub open spec fn spec_can_kakan(s: PlayerState) -> bool {
    &&& s.window == Window::OwnTurn
    &&& s.tiles_left > 0
    &&& s.kans_on_board < 4
    &&& !s.seats@[0].riichi_declared
    &&& s.kakan_candidates@.len() > 0
}

/// Riichi: fully concealed, not yet declared, some discard leaves tenpai,
/// at least four wall tiles and the minimum stake in points.
pub open spec fn spec_can_riichi(s: PlayerState) -> bool {
    &&& s.window == Window::OwnTurn
    &&& s.is_menzen
    &&& !s.seats@[0].riichi_declared
    &&& s.has_next_shanten_discard
    &&& s.tiles_left >= 4
    &&& s.scores@[0] >= 1000
}

/// Tsumo: the just-drawn hand is complete. Never suppressed by furiten.
pub open spec fn spec_can_tsumo(s: PlayerState) -> bool {
    &&& s.window == Window::OwnTurn
    &&& s.last_self_tsumo is Some
    &&& spec_is_agari(s.arrs.tehai@)
}

/// Ron: the exposed tile is a current wait and furiten is not active
/// against it (the tile that raised the same-cycle flag this very event is
/// still winnable).
pub open spec fn spec_can_ron(s: PlayerState) -> bool {
    &&& (s.window is Claim || s.window is Rob)
    &&& s.arrs.waits@[spec_claim_tile(s).kind as int]
    &&& !(s.at_furiten && !s.exposure_fresh)
}

/// The four-kan abortive draw: four quads on the board, not all by one
/// seat.
pub open spec fn spec_four_kan_abort(s: PlayerState) -> bool {
    &&& s.in_kyoku
    &&& s.kans_on_board == 4
    &&& forall|j: int| 0 <= j < 4 ==> s.seats@[j].spec_kans() < 4
}

/// The nine-terminals abortive draw: first own discard opportunity, no call
/// anywhere yet, nine or more distinct terminal/honor kinds dealt.
pub open spec fn spec_nine_kinds(s: PlayerState) -> bool {
    &&& s.window == Window::OwnTurn
    &&& s.can_w_riichi
    &&& spec_orphan_kinds(s.arrs.tehai@, 0) >= 9
}

/// Abortive-draw declaration: either of the two conditions.
pub open spec fn spec_can_ryukyoku(s: PlayerState) -> bool {
    spec_nine_kinds(s) || spec_four_kan_abort(s)
}

/// Pass is implicitly available whenever some response to another seat's
/// move is offered.
pub open spec fn spec_can_pass(s: PlayerState) -> bool {
    ||| spec_can_chi_low(s)
    ||| spec_can_chi_mid(s)
    ||| spec_can_chi_high(s)
    ||| spec_can_pon(s)
    ||| spec_can_daiminkan(s)
    ||| spec_can_ron(s)
}

/// The seat a claim or rob window points at, 0 otherwise.
pub open spec fn spec_target_actor(s: PlayerState) -> u8 {
    match s.window {
        Window::Claim { from } => from,
        Window::Rob { from } => from,
        _ => 0u8,
    }
}

/// The full capability set of a state, as one specification value.
pub open spec fn spec_resolve(s: PlayerState) -> ActionCandidate {
    ActionCandidate {
        can_discard: spec_can_discard(s),
        can_chi_low: spec_can_chi_low(s),
        can_chi_mid: spec_can_chi_mid(s),
        can_chi_high: spec_can_chi_high(s),
        can_pon: spec_can_pon(s),
        can_daiminkan: spec_can_daiminkan(s),
        can_kakan: spec_can_kakan(s),
        can_ankan: spec_can_ankan(s),
        can_riichi: spec_can_riichi(s),
        can_tsumo_agari: spec_can_tsumo(s),
        can_ron_agari: spec_can_ron(s),
        can_ryukyoku: spec_can_ryukyoku(s),
        can_pass: spec_can_pass(s),
        target_actor: spec_target_actor(s),
    }
}

/// A fresh 34-wide copy of a count vector.
pub fn copy_counts(v: &Vec<u8>) -> (c: Vec<u8>)
    requires
        v@.len() == 34,
    ensures
        c@ == v@,
{
    let mut c: Vec<u8> = Vec::new();
    let mut i: usize = 0;
    while i < 34
        invariant
            v@.len() == 34,
            c@.len() == i,
            i <= 34,
            forall|k: int| 0 <= k < i ==> c@[k] == v@[k],
        decreases 34 - i,
    {
        c.push(v[i]);
        i = i + 1;
    }
    assert(c@ =~= v@);
    c
}

/// Quads declared by one seat.
pub fn seat_kans(st: &SeatTable) -> (n: u8)
    requires
        st.wf(),
    ensures
        n as int == st.spec_kans(),
{
    let mut n: u8 = st.ankans.len() as u8;
    let mut i: usize = 0;
    proof {
        assert(st.melds@.take(0) =~= Seq::<Meld>::empty());
    }
    while i < st.melds.len()
        invariant
            st.wf(),
            i <= st.melds@.len(),
            n as int == st.ankans@.len() + kan_count(st.melds@.take(i as int)),
            n as int <= st.ankans@.len() + i,
        decreases st.melds@.len() - i,
    {
        proof {
            assert(st.melds@.take(i + 1).drop_last() =~= st.melds@.take(i as int));
            assert(st.melds@.take(i + 1).last() == st.melds@[i as int]);
        }
        if st.melds[i].tiles.len() == 4 {
            n = n + 1;
        }
        i = i + 1;
    }
    proof {
        assert(st.melds@.take(st.melds@.len() as int) =~= st.melds@);
    }
    n
}

/// Compute the capability set of the current state. Pure: reads the state
/// only, and its result is pinned flag by flag to the specification
/// predicates above.
pub fn resolve(s: &PlayerState) -> (r: ActionCandidate)
    requires
        s.wf(),
    ensures
        r == spec_resolve(*s),
{
    let mut r = ActionCandidate::empty();
    match s.window {
        Window::Shut => {
        },
        Window::OwnTurn => {
            r.can_discard = true;
            r.can_ankan = s.tiles_left > 0 && s.kans_on_board < 4 && s.ankan_candidates.len() > 0;
            r.can_kakan = s.tiles_left > 0 && s.kans_on_board < 4
                && !s.seats[0].riichi_declared && s.kakan_candidates.len() > 0;
            r.can_riichi = s.is_menzen && !s.seats[0].riichi_declared
                && s.has_next_shanten_discard && s.tiles_left >= 4 && s.scores[0] >= 1000;
            if matches!(s.last_self_tsumo, Some(_)) {
                let mut c = copy_counts(&s.arrs.tehai);
                r.can_tsumo_agari = is_agari(&mut c);
            }
            if s.can_w_riichi {
                r.can_ryukyoku = orphan_kinds(&s.arrs.tehai) >= 9;
            }
        },
        Window::Claim { from } => {
            let t = match s.last_kawa_tile {
                Some(t) => t,
                None => Tile { kind: 0, red: false },
            };
            let k = t.kind;
            let base = s.tiles_left > 0 && !s.seats[0].riichi_accepted
                && !s.seats[0].riichi_declared;
            if base && from == 3 && k < 27 {
                if k % 9 <= 6 {
                    r.can_chi_low = s.arrs.tehai[(k + 1) as usize] > 0 && s.arrs.tehai[(k
                        + 2) as usize] > 0;
                }
                if k % 9 >= 1 && k % 9 <= 7 {
                    r.can_chi_mid = s.arrs.tehai[(k - 1) as usize] > 0 && s.arrs.tehai[(k
                        + 1) as usize] > 0;
                }
                if k % 9 >= 2 {
                    r.can_chi_high = s.arrs.tehai[(k - 2) as usize] > 0 && s.arrs.tehai[(k
                        - 1) as usize] > 0;
                }
            }
            r.can_pon = base && s.arrs.tehai[k as usize] >= 2;
            r.can_daiminkan = base && s.arrs.tehai[k as usize] == 3 && s.kans_on_board < 4;
            r.can_ron_agari = s.arrs.waits[k as usize] && !(s.at_furiten && !s.exposure_fresh);
            r.target_actor = from;
        },
        Window::Rob { from } => {
            let t = match s.last_kawa_tile {
                Some(t) => t,
                None => Tile { kind: 0, red: false },
            };
            r.can_ron_agari = s.arrs.waits[t.kind as usize] && !(s.at_furiten
                && !s.exposure_fresh);
            r.target_actor = from;
        },
    }
    if s.in_kyoku && s.kans_on_board == 4 {
        let a0 = seat_kans(&s.seats[0]);
        let a1 = seat_kans(&s.seats[1]);
        let a2 = seat_kans(&s.seats[2]);
        let a3 = seat_kans(&s.seats[3]);
        if a0 < 4 && a1 < 4 && a2 < 4 && a3 < 4 {
            r.can_ryukyoku = true;
        }
    }
    r.can_pass = r.can_chi_low || r.can_chi_mid || r.can_chi_high || r.can_pon
        || r.can_daiminkan || r.can_ron_agari;
    assert(r =~= spec_resolve(*s));
    r
}

} // verus!
