//! Library-level laws, proved once and for all from the component
//! contracts: what the riichi candidate implies, and that the validator
//! answers to exactly the candidate set the resolver reports.

use vstd::prelude::*;

use crate::action::Action;
use crate::resolver::spec_resolve;
use crate::state::PlayerState;
use crate::state::Window;
use crate::validator::spec_allowed;

verus! {

/// Riichi is offered only when the hand is fully concealed, some discard
/// leaves it at tenpai, at least four wall tiles remain and the seat holds
/// the minimum stake.
pub proof fn lemma_riichi_offered_only_when(s: PlayerState)
    ensures
        spec_resolve(s).can_riichi ==> s.is_menzen && s.has_next_shanten_discard && s.tiles_left
            >= 4 && s.scores@[0] >= 1000,
{
}

/// Validator and resolver agree: an action is accepted by the validator
/// exactly when its category flag is offered by the resolver and its tiles
/// match the state. For the categories that carry no tile parameters the
/// agreement is an equality.
pub proof fn lemma_validator_matches_resolver(s: PlayerState, a: Action)
    ensures
        match a {
            Action::Dahai { .. } => spec_allowed(s, a) ==> spec_resolve(s).can_discard,
            Action::Chi { .. } => spec_allowed(s, a) ==> (spec_resolve(s).can_chi_low
                || spec_resolve(s).can_chi_mid || spec_resolve(s).can_chi_high),
            Action::Pon { .. } => spec_allowed(s, a) ==> spec_resolve(s).can_pon,
            Action::Daiminkan { .. } => spec_allowed(s, a) ==> spec_resolve(s).can_daiminkan,
            Action::Kakan { .. } => spec_allowed(s, a) ==> spec_resolve(s).can_kakan,
            Action::Ankan { .. } => spec_allowed(s, a) ==> spec_resolve(s).can_ankan,
            Action::Reach => spec_allowed(s, a) == spec_resolve(s).can_riichi,
            Action::Hora => spec_allowed(s, a) == (spec_resolve(s).can_tsumo_agari
                || spec_resolve(s).can_ron_agari),
            Action::Ryukyoku => spec_allowed(s, a) == spec_resolve(s).can_ryukyoku,
            Action::Pass => spec_allowed(s, a) == spec_resolve(s).can_pass,
        },
{
    if a is Hora {
        if spec_allowed(s, a) {
            if s.window == Window::OwnTurn {
                assert(spec_resolve(s).can_tsumo_agari);
            }
        }
    }
}

/// Ron is never offered while furiten is active against the exposed tile,
/// and tsumo is never suppressed by furiten: the furiten flag does not
/// occur in the tsumo condition at all.
pub proof fn lemma_furiten_suppresses_ron_only(s: PlayerState)
    ensures
        s.at_furiten && !s.exposure_fresh ==> !spec_resolve(s).can_ron_agari,
        spec_resolve(s).can_tsumo_agari == (s.window == Window::OwnTurn
            && s.last_self_tsumo is Some && crate::eval::spec_is_agari(s.arrs.tehai@)),
{
}

/// The four-kan abortive draw is offered exactly when four quads stand on
/// the board and no single seat owns them all (within a live hand, beside
/// the nine-terminals case).
pub proof fn lemma_four_kan_candidate(s: PlayerState)
    requires
        !crate::resolver::spec_nine_kinds(s),
    ensures
        spec_resolve(s).can_ryukyoku == (s.in_kyoku && s.kans_on_board == 4 && forall|j: int|
            0 <= j < 4 ==> s.seats@[j].spec_kans() < 4),
{
}

} // verus!
