//! Action candidates, proposed actions and rule violations.

use vstd::prelude::*;

use crate::tile::Tile;

verus! {

/// The unordered capability set derived after an event: which action
/// categories the tracked seat may take, and against whom.
#[derive(Clone, Copy, Debug, PartialEq, Eq, Structural)]
pub struct ActionCandidate {
    pub can_discard: bool,
    pub can_chi_low: bool,
    pub can_chi_mid: bool,
    pub can_chi_high: bool,
    pub can_pon: bool,
    pub can_daiminkan: bool,
    pub can_kakan: bool,
    pub can_ankan: bool,
    pub can_riichi: bool,
    pub can_tsumo_agari: bool,
    pub can_ron_agari: bool,
    pub can_ryukyoku: bool,
    pub can_pass: bool,
    /// Relative seat the claimable discard or kan came from, 0 otherwise.
    pub target_actor: u8,
}

impl ActionCandidate {
    /// The empty capability set.
    pub fn empty() -> (r: ActionCandidate)
        ensures
            r == ActionCandidate::spec_empty(),
    {
        ActionCandidate {
            can_discard: false,
            can_chi_low: false,
            can_chi_mid: false,
            can_chi_high: false,
            can_pon: false,
            can_daiminkan: false,
            can_kakan: false,
            can_ankan: false,
            can_riichi: false,
            can_tsumo_agari: false,
            can_ron_agari: false,
            can_ryukyoku: false,
            can_pass: false,
            target_actor: 0,
        }
    }

    pub open spec fn spec_empty() -> ActionCandidate {
        ActionCandidate {
            can_discard: false,
            can_chi_low: false,
            can_chi_mid: false,
            can_chi_high: false,
            can_pon: false,
            can_daiminkan: false,
            can_kakan: false,
            can_ankan: false,
            can_riichi: false,
            can_tsumo_agari: false,
            can_ron_agari: false,
            can_ryukyoku: false,
            can_pass: false,
            target_actor: 0,
        }
    }

    /// Some chi variant is offered.
    pub open spec fn spec_can_chi(self) -> bool {
        self.can_chi_low || self.can_chi_mid || self.can_chi_high
    }

    /// Whether any action at all is offered.
    pub open spec fn spec_can_act(self) -> bool {
        ||| self.can_discard
        ||| self.spec_can_chi()
        ||| self.can_pon
        ||| self.can_daiminkan
        ||| self.can_kakan
        ||| self.can_ankan
        ||| self.can_riichi
        ||| self.can_tsumo_agari
        ||| self.can_ron_agari
        ||| self.can_ryukyoku
    }

    /// Exec mirror of `spec_can_act`.
    pub fn can_act(&self) -> (r: bool)
        ensures
            r == self.spec_can_act(),
    {
        self.can_discard || self.can_chi_low || self.can_chi_mid || self.can_chi_high
            || self.can_pon || self.can_daiminkan || self.can_kakan || self.can_ankan
            || self.can_riichi || self.can_tsumo_agari || self.can_ron_agari || self.can_ryukyoku
    }
}

/// One proposed action of the tracked seat, checked by the validator.
#[derive(Clone, Copy, Debug, PartialEq, Eq, Structural)]
pub enum Action {
    /// Discard a tile from hand.
    Dahai { tile: Tile, tsumogiri: bool },
    /// Call a run on the upstream discard with the two own tiles given.
    Chi { tile: Tile, own0: Tile, own1: Tile },
    /// Call a triplet on the last discard with the two own tiles given.
    Pon { tile: Tile, own0: Tile, own1: Tile },
    /// Call an open quad on the last discard.
    Daiminkan { tile: Tile, own0: Tile, own1: Tile, own2: Tile },
    /// Upgrade an own open triplet of this kind to a quad.
    Kakan { kind: u8 },
    /// Declare a concealed quad of this kind.
    Ankan { kind: u8 },
    /// Declare riichi.
    Reach,
    /// Win, by self-draw in the own-turn window or by ron in a claim window.
    Hora,
    /// Declare the nine-terminals abortive draw (or the four-kan draw).
    Ryukyoku,
    /// Decline to act on a claim window.
    Pass,
}

/// Why a proposed action was rejected: the action is syntactically valid but
/// not in the currently legal set.
#[derive(Clone, Copy, Debug, PartialEq, Eq, Structural)]
pub enum RuleViolation {
    /// The category is not offered in the current window at all.
    NotACandidate,
    /// A discard or call names tiles the concealed hand does not hold.
    TileNotInHand,
    /// The discard is forbidden while locked into a declared riichi.
    ForbiddenDiscard,
    /// The named tile does not match the claimable discard.
    WrongTile,
}

} // verus!
