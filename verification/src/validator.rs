//! The validator: checks one proposed action against the current state
//! without mutating it, by recomputing the same legality predicates the
//! resolver uses. Acceptance is specified as an exact iff.

use vstd::prelude::*;

use crate::action::Action;
use crate::action::RuleViolation;
use crate::resolver::resolve;
use crate::resolver::spec_can_ankan;
use crate::resolver::spec_can_chi_high;
use crate::resolver::spec_can_chi_low;
use crate::resolver::spec_can_chi_mid;
use crate::resolver::spec_can_daiminkan;
use crate::resolver::spec_can_discard;
use crate::resolver::spec_can_kakan;
use crate::resolver::spec_can_pass;
use crate::resolver::spec_can_pon;
use crate::resolver::spec_can_riichi;
use crate::resolver::spec_can_ron;
use crate::resolver::spec_can_ryukyoku;
use crate::resolver::spec_can_tsumo;
use crate::resolver::spec_claim_tile;
use crate::state::PlayerState;
use crate::state::Window;
use crate::tile::tile_wf;
use crate::tile::Tile;

verus! {

/// A discard of this exact tile is legal: the category is open, the tile is
/// held (red copies only when marked in hand), and the riichi lock does not
/// forbid its kind.
pub open spec fn spec_discard_ok(s: PlayerState, t: Tile) -> bool {
    &&& spec_can_discard(s)
    &&& t.wf()
    &&& s.arrs.tehai@[t.kind as int] > 0
    &&& (t.red ==> (match t.spec_red_slot() {
        Some(i) => s.akas_in_hand@[i],
        None => false,
    }))
    &&& !s.arrs.forbidden_tiles@[t.kind as int]
}

/// Membership of one action in the current candidate set: the single
/// predicate both the resolver's flags and the validator answer to.
pub open spec fn spec_allowed(s: PlayerState, a: Action) -> bool {
    match a {
        Action::Dahai { tile, tsumogiri } => spec_discard_ok(s, tile) && (tsumogiri
            ==> s.last_self_tsumo == Some(tile)),
        Action::Chi { tile, own0, own1 } => {
            &&& Some(tile) == s.last_kawa_tile
            &&& own0.wf() && own1.wf()
            &&& s.arrs.tehai@[own0.kind as int] > 0
            &&& s.arrs.tehai@[own1.kind as int] > 0
            &&& ((spec_can_chi_low(s) && own0.kind == tile.kind + 1 && own1.kind == tile.kind + 2)
                || (spec_can_chi_mid(s) && own0.kind + 1 == tile.kind && own1.kind == tile.kind
                    + 1) || (spec_can_chi_high(s) && own0.kind + 2 == tile.kind && own1.kind + 1
                == tile.kind))
        },
        Action::Pon { tile, own0, own1 } => {
            &&& spec_can_pon(s)
            &&& Some(tile) == s.last_kawa_tile
            &&& own0.kind == tile.kind && own1.kind == tile.kind
            &&& own0.wf() && own1.wf()
        },
        Action::Daiminkan { tile, own0, own1, own2 } => {
            &&& spec_can_daiminkan(s)
            &&& Some(tile) == s.last_kawa_tile
            &&& own0.kind == tile.kind && own1.kind == tile.kind && own2.kind == tile.kind
            &&& own0.wf() && own1.wf() && own2.wf()
        },
        Action::Kakan { kind } => spec_can_kakan(s) && s.kakan_candidates@.contains(kind),
        Action::Ankan { kind } => spec_can_ankan(s) && s.ankan_candidates@.contains(kind),
        Action::Reach => spec_can_riichi(s),
        Action::Hora => (s.window == Window::OwnTurn && spec_can_tsumo(s)) || ((s.window is Claim
            || s.window is Rob) && spec_can_ron(s)),
        Action::Ryukyoku => spec_can_ryukyoku(s),
        Action::Pass => spec_can_pass(s),
    }
}

impl PlayerState {
    /// Check one proposed action against the current state, without
    /// mutating it. Accepts exactly the members of the resolver's candidate
    /// set; the violation names the first unmet condition.
    pub fn validate_action(&self, a: &Action) -> (r: Result<(), RuleViolation>)
        requires
            self.wf(),
        ensures
            r is Ok <==> spec_allowed(*self, *a),
            match *a {
                Action::Dahai { tile, tsumogiri } => {
                    &&& (!spec_can_discard(*self) ==> r == Result::<(), RuleViolation>::Err(
                        RuleViolation::NotACandidate,
                    ))
                    &&& (spec_can_discard(*self) && (tile.kind >= 34
                        || self.arrs.tehai@[tile.kind as int] == 0) ==> r == Result::<
                        (),
                        RuleViolation,
                    >::Err(RuleViolation::TileNotInHand))
                    &&& (spec_can_discard(*self) && tile.wf()
                        && self.arrs.tehai@[tile.kind as int] > 0 && (tile.red ==> (
                    match tile.spec_red_slot() {
                        Some(i) => self.akas_in_hand@[i],
                        None => false,
                    })) && self.arrs.forbidden_tiles@[tile.kind as int] ==> r == Result::<
                        (),
                        RuleViolation,
                    >::Err(RuleViolation::ForbiddenDiscard))
                },
                _ => true,
            },
    {
        let cans = resolve(self);
        match *a {
            Action::Dahai { tile, tsumogiri } => {
                if !cans.can_discard {
                    return Err(RuleViolation::NotACandidate);
                }
                if !(tile.kind < 34) {
                    return Err(RuleViolation::TileNotInHand);
                }
                if self.arrs.tehai[tile.kind as usize] == 0 {
                    return Err(RuleViolation::TileNotInHand);
                }
                if tile.red {
                    let slot: usize = if tile.kind == 4 {
                        0
                    } else if tile.kind == 13 {
                        1
                    } else if tile.kind == 22 {
                        2
                    } else {
                        return Err(RuleViolation::TileNotInHand);
                    };
                    if !self.akas_in_hand[slot] {
                        return Err(RuleViolation::TileNotInHand);
                    }
                }
                if self.arrs.forbidden_tiles[tile.kind as usize] {
                    return Err(RuleViolation::ForbiddenDiscard);
                }
                if tsumogiri {
                    let matches_draw = match self.last_self_tsumo {
                        Some(t) => t == tile,
                        None => false,
                    };
                    if !matches_draw {
                        return Err(RuleViolation::WrongTile);
                    }
                }
                Ok(())
            },
            Action::Chi { tile, own0, own1 } => {
                let claimed = match self.last_kawa_tile {
                    Some(t) => t == tile,
                    None => false,
                };
                if !claimed {
                    return Err(RuleViolation::WrongTile);
                }
                if !(tile_wf(own0) && tile_wf(own1)) {
                    return Err(RuleViolation::TileNotInHand);
                }
                if self.arrs.tehai[own0.kind as usize] == 0 || self.arrs.tehai[own1.kind as usize]
                    == 0 {
                    return Err(RuleViolation::TileNotInHand);
                }
                let low = cans.can_chi_low && own0.kind == tile.kind + 1 && own1.kind == tile.kind
                    + 2;
                let mid = cans.can_chi_mid && own0.kind + 1 == tile.kind && own1.kind == tile.kind
                    + 1;
                let high = cans.can_chi_high && own0.kind + 2 == tile.kind && own1.kind + 1
                    == tile.kind;
                if low || mid || high {
                    Ok(())
                } else {
                    Err(RuleViolation::NotACandidate)
                }
            },
            Action::Pon { tile, own0, own1 } => {
                if !cans.can_pon {
                    return Err(RuleViolation::NotACandidate);
                }
                let claimed = match self.last_kawa_tile {
                    Some(t) => t == tile,
                    None => false,
                };
                if !claimed {
                    return Err(RuleViolation::WrongTile);
                }
                if own0.kind == tile.kind && own1.kind == tile.kind && tile_wf(own0) && tile_wf(own1) {
                    Ok(())
                } else {
                    Err(RuleViolation::TileNotInHand)
                }
            },
            Action::Daiminkan { tile, own0, own1, own2 } => {
                if !cans.can_daiminkan {
                    return Err(RuleViolation::NotACandidate);
                }
                let claimed = match self.last_kawa_tile {
                    Some(t) => t == tile,
                    None => false,
                };
                if !claimed {
                    return Err(RuleViolation::WrongTile);
                }
                if own0.kind == tile.kind && own1.kind == tile.kind && own2.kind == tile.kind
                    && tile_wf(own0) && tile_wf(own1) && tile_wf(own2) {
                    Ok(())
                } else {
                    Err(RuleViolation::TileNotInHand)
                }
            },
            Action::Kakan { kind } => {
                if !cans.can_kakan {
                    return Err(RuleViolation::NotACandidate);
                }
                if crate::ops::contains_u8(&self.kakan_candidates, kind) {
                    Ok(())
                } else {
                    Err(RuleViolation::TileNotInHand)
                }
            },
            Action::Ankan { kind } => {
                if !cans.can_ankan {
                    return Err(RuleViolation::NotACandidate);
                }
                if crate::ops::contains_u8(&self.ankan_candidates, kind) {
                    Ok(())
                } else {
                    Err(RuleViolation::TileNotInHand)
                }
            },
            Action::Reach => {
                if cans.can_riichi {
                    Ok(())
                } else {
                    Err(RuleViolation::NotACandidate)
                }
            },
            Action::Hora => {
                if cans.can_tsumo_agari || cans.can_ron_agari {
                    Ok(())
                } else {
                    Err(RuleViolation::NotACandidate)
                }
            },
            Action::Ryukyoku => {
                if cans.can_ryukyoku {
                    Ok(())
                } else {
                    Err(RuleViolation::NotACandidate)
                }
            },
            Action::Pass => {
                if cans.can_pass {
                    Ok(())
                } else {
                    Err(RuleViolation::NotACandidate)
                }
            },
        }
    }
}

} // verus!
