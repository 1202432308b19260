use libriichi::action::Action;
use libriichi::action::RuleViolation;
use libriichi::eval::{count_total, is_agari, is_chiitoi, is_kokushi, is_tenpai, orphan_kinds, tenpai_discard, wins_on};
use libriichi::ops::{compute_ankan_cands, compute_kakan_cands, compute_waits, furiten_scan};
use libriichi::resolver::resolve;
use libriichi::state::{Meld, PlayerState, Window};
use libriichi::tile::{dora_kind, is_orphan, Tile};

fn counts(pairs: &[(usize, u8)]) -> Vec<u8> {
    let mut v = vec![0u8; 34];
    for &(k, n) in pairs {
        v[k] = n;
    }
    v
}

// 123m 456m 789m 111p 55p — a complete standard hand.
fn standard_hand() -> Vec<u8> {
    counts(&[(0, 1), (1, 1), (2, 1), (3, 1), (4, 1), (5, 1), (6, 1), (7, 1), (8, 1), (9, 3), (13, 2)])
}

#[test]
fn standard_hand_is_agari() {
    let mut c = standard_hand();
    assert_eq!(count_total(&c), 14);
    assert!(is_agari(&mut c));
    assert_eq!(c, standard_hand());
}

#[test]
fn seven_pairs_is_agari() {
    let mut c = counts(&[(0, 2), (2, 2), (4, 2), (6, 2), (8, 2), (10, 2), (12, 2)]);
    assert!(is_chiitoi(&c));
    assert!(is_agari(&mut c));
    // four of a kind is not two pairs
    let mut c2 = counts(&[(0, 4), (2, 2), (4, 2), (6, 2), (8, 2), (10, 2)]);
    assert!(!is_chiitoi(&c2));
    assert!(!is_agari(&mut c2));
}

#[test]
fn thirteen_orphans_is_agari() {
    let mut c = counts(&[
        (0, 2), (8, 1), (9, 1), (17, 1), (18, 1), (26, 1), (27, 1), (28, 1), (29, 1), (30, 1),
        (31, 1), (32, 1), (33, 1),
    ]);
    assert!(is_kokushi(&c));
    assert!(is_agari(&mut c));
}

#[test]
fn incomplete_hand_is_not_agari() {
    let mut c = counts(&[(0, 1), (4, 1), (9, 1), (13, 1), (18, 1), (22, 1), (27, 2), (30, 3), (31, 1), (33, 2)]);
    assert!(!is_agari(&mut c));
}

#[test]
fn tenpai_and_waits() {
    // 123m 456m 789m 111p 5p: waits on 5p alone.
    let mut c = counts(&[(0, 1), (1, 1), (2, 1), (3, 1), (4, 1), (5, 1), (6, 1), (7, 1), (8, 1), (9, 3), (13, 1)]);
    assert!(is_tenpai(&mut c));
    assert!(wins_on(&mut c, 13));
    assert!(!wins_on(&mut c, 20));
    let seen = vec![0u8; 34];
    let w = compute_waits(&c, &seen);
    assert!(w[13]);
    assert_eq!(w.iter().filter(|&&b| b).count(), 1);
}

#[test]
fn wait_on_fourth_copy_suppressed_by_seen() {
    let c = counts(&[(0, 1), (1, 1), (2, 1), (3, 1), (4, 1), (5, 1), (6, 1), (7, 1), (8, 1), (9, 3), (13, 1)]);
    let mut seen = vec![0u8; 34];
    seen[13] = 4;
    let w = compute_waits(&c, &seen);
    assert!(!w[13]);
}

#[test]
fn tenpai_discard_finds_the_junk_tile() {
    // standard hand plus an east wind: discarding the wind leaves tenpai.
    let mut c = counts(&[(0, 1), (1, 1), (2, 1), (3, 1), (4, 1), (5, 1), (6, 1), (7, 1), (8, 1), (9, 3), (13, 1), (27, 1)]);
    assert!(tenpai_discard(&mut c, 27));
    assert!(!tenpai_discard(&mut c, 9));
}

#[test]
fn orphan_kind_counting() {
    let c = counts(&[(0, 2), (8, 1), (9, 1), (17, 1), (18, 1), (26, 1), (27, 1), (28, 1), (30, 1), (5, 4)]);
    assert_eq!(orphan_kinds(&c), 9);
    assert!(is_orphan(33));
    assert!(!is_orphan(1));
}

#[test]
fn dora_kind_wraps_within_groups() {
    assert_eq!(dora_kind(0), 1);
    assert_eq!(dora_kind(8), 0);
    assert_eq!(dora_kind(17), 9);
    assert_eq!(dora_kind(30), 27);
    assert_eq!(dora_kind(33), 31);
}

#[test]
fn quad_candidates() {
    let c = counts(&[(5, 4), (9, 4), (13, 2), (20, 4)]);
    let a = compute_ankan_cands(&c, false, None);
    assert_eq!(a, vec![5u8, 9, 20]);
    // under a declared riichi only the drawn kind stays a candidate
    let a2 = compute_ankan_cands(&c, true, Some(Tile { kind: 9, red: false }));
    assert_eq!(a2, vec![9u8]);
    let pons = vec![13u8, 30u8];
    let k = compute_kakan_cands(&c, &pons);
    assert_eq!(k, vec![13u8]);
}

#[test]
fn furiten_scan_hits_discarded_wait() {
    let mut waits = vec![false; 34];
    waits[13] = true;
    let mut disc = vec![false; 34];
    assert!(!furiten_scan(&waits, &disc));
    disc[13] = true;
    assert!(furiten_scan(&waits, &disc));
}

// A live own-turn state with a 14-tile hand one discard away from tenpai.
fn own_turn_state() -> PlayerState {
    let mut s = PlayerState::new(0);
    s.tiles_left = 70;
    s.scores[0] = 25000;
    s.tehai_len_div3 = 4;
    s.arrs.tehai = counts(&[(0, 1), (1, 1), (2, 1), (3, 1), (4, 1), (5, 1), (6, 1), (7, 1), (8, 1), (9, 3), (13, 1), (27, 1)]);
    s.arrs.tiles_seen = s.arrs.tehai.clone();
    s.in_kyoku = true;
    s.window = Window::OwnTurn;
    s.last_self_tsumo = Some(Tile { kind: 27, red: false });
    s.refresh_hand(false);
    s
}

#[test]
fn riichi_offered_only_under_all_conditions() {
    let s = own_turn_state();
    let cans = resolve(&s);
    assert!(cans.can_discard);
    assert!(cans.can_riichi);
    assert!(!cans.can_tsumo_agari);

    let mut poor = own_turn_state();
    poor.scores[0] = 900;
    assert!(!resolve(&poor).can_riichi);

    let mut late = own_turn_state();
    late.tiles_left = 3;
    assert!(!resolve(&late).can_riichi);

    let mut open = own_turn_state();
    open.is_menzen = false;
    assert!(!resolve(&open).can_riichi);

    let mut already = own_turn_state();
    already.seats[0].riichi_declared = true;
    assert!(!resolve(&already).can_riichi);
}

#[test]
fn tsumo_offered_on_complete_hand_even_in_furiten() {
    let mut s = PlayerState::new(0);
    s.tiles_left = 70;
    s.tehai_len_div3 = 4;
    s.arrs.tehai = standard_hand();
    s.arrs.tiles_seen = s.arrs.tehai.clone();
    s.in_kyoku = true;
    s.window = Window::OwnTurn;
    s.last_self_tsumo = Some(Tile { kind: 13, red: false });
    s.at_furiten = true;
    s.refresh_hand(false);
    let cans = resolve(&s);
    assert!(cans.can_tsumo_agari);
    assert!(s.validate_action(&Action::Hora).is_ok());
}

// A claim window where another seat just discarded 5p into our tenpai hand.
fn claim_state(furiten: bool) -> PlayerState {
    let mut s = PlayerState::new(0);
    s.tiles_left = 70;
    s.tehai_len_div3 = 4;
    s.arrs.tehai = counts(&[(0, 1), (1, 1), (2, 1), (3, 1), (4, 1), (5, 1), (6, 1), (7, 1), (8, 1), (9, 3), (13, 1)]);
    s.arrs.tiles_seen = s.arrs.tehai.clone();
    s.in_kyoku = true;
    s.refresh_hand(false);
    s.window = Window::Claim { from: 3 };
    s.last_kawa_tile = Some(Tile { kind: 13, red: false });
    s.at_furiten = furiten;
    s
}

#[test]
fn ron_offered_on_wait_and_suppressed_by_furiten() {
    let s = claim_state(false);
    let cans = resolve(&s);
    assert!(cans.can_ron_agari);
    assert!(cans.can_pass);
    assert!(s.validate_action(&Action::Hora).is_ok());

    let f = claim_state(true);
    let fc = resolve(&f);
    assert!(!fc.can_ron_agari);
    assert_eq!(f.validate_action(&Action::Hora), Err(RuleViolation::NotACandidate));
}

#[test]
fn chi_only_from_upstream_and_matching_shape() {
    let mut s = PlayerState::new(0);
    s.tiles_left = 70;
    s.tehai_len_div3 = 4;
    // hand holds 4p 6p: the discarded 5p completes a run both ways
    s.arrs.tehai = counts(&[(12, 1), (14, 1), (0, 1), (1, 1), (2, 1), (9, 2), (20, 1), (21, 1), (22, 1), (30, 3)]);
    s.arrs.tiles_seen = s.arrs.tehai.clone();
    s.in_kyoku = true;
    s.refresh_hand(false);
    s.window = Window::Claim { from: 3 };
    s.last_kawa_tile = Some(Tile { kind: 13, red: false });
    let cans = resolve(&s);
    assert!(cans.can_chi_mid);
    assert!(!cans.can_chi_low);
    let a = Action::Chi {
        tile: Tile { kind: 13, red: false },
        own0: Tile { kind: 12, red: false },
        own1: Tile { kind: 14, red: false },
    };
    assert!(s.validate_action(&a).is_ok());
    // not from the upstream seat: no chi at all
    let mut other = s.clone();
    other.window = Window::Claim { from: 2 };
    assert!(!resolve(&other).can_chi_mid);
    assert_eq!(other.validate_action(&a), Err(RuleViolation::NotACandidate));
}

#[test]
fn pon_needs_a_concealed_pair() {
    let mut s = claim_state(false);
    s.arrs.tehai[13] = 2;
    let cans = resolve(&s);
    assert!(cans.can_pon);
    s.arrs.tehai[13] = 1;
    assert!(!resolve(&s).can_pon);
}

#[test]
fn discard_validation_checks_hand_and_riichi_lock() {
    let s = own_turn_state();
    let ok = Action::Dahai { tile: Tile { kind: 27, red: false }, tsumogiri: true };
    assert!(s.validate_action(&ok).is_ok());
    let missing = Action::Dahai { tile: Tile { kind: 33, red: false }, tsumogiri: false };
    assert_eq!(s.validate_action(&missing), Err(RuleViolation::TileNotInHand));

    // accepted riichi forces the drawn tile
    let mut locked = own_turn_state();
    locked.seats[0].riichi_declared = true;
    locked.seats[0].riichi_accepted = true;
    locked.refresh_hand(false);
    let forced = Action::Dahai { tile: Tile { kind: 27, red: false }, tsumogiri: true };
    assert!(locked.validate_action(&forced).is_ok());
    let held = Action::Dahai { tile: Tile { kind: 9, red: false }, tsumogiri: false };
    assert_eq!(locked.validate_action(&held), Err(RuleViolation::ForbiddenDiscard));
}

#[test]
fn permanent_furiten_sticks_across_refreshes() {
    let mut s = claim_state(false);
    // the seat once discarded its own wait: the permanent condition
    s.arrs.discarded_tiles[13] = true;
    s.refresh_hand(false);
    assert!(s.at_furiten);
    assert!(!s.to_mark_same_cycle_furiten);
    // later refreshes, own discard included, never clear it
    s.refresh_hand(true);
    assert!(s.at_furiten);
    s.refresh_hand(false);
    assert!(s.at_furiten);
}

#[test]
fn same_cycle_furiten_clears_at_next_own_discard() {
    let mut s = claim_state(false);
    // a wait passed by: same-cycle furiten is active
    s.at_furiten = true;
    s.to_mark_same_cycle_furiten = true;
    s.refresh_hand(false);
    assert!(s.at_furiten);
    // the seat's own next discard consumes the deferred flag
    s.refresh_hand(true);
    assert!(!s.at_furiten);
    assert!(!s.to_mark_same_cycle_furiten);
}

fn kan_meld(kind: u8) -> Meld {
    Meld {
        tiles: vec![
            Tile { kind, red: false },
            Tile { kind, red: false },
            Tile { kind, red: false },
            Tile { kind, red: false },
        ],
    }
}

#[test]
fn four_kan_abort_needs_four_quads_by_several_seats() {
    let mut s = own_turn_state();
    s.seats[0].melds.push(kan_meld(9));
    s.seats[1].melds.push(kan_meld(10));
    s.seats[2].ankans.push(Tile { kind: 11, red: false });
    s.kans_on_board = 3;
    assert!(!resolve(&s).can_ryukyoku);
    s.seats[3].melds.push(kan_meld(12));
    s.kans_on_board = 4;
    assert!(resolve(&s).can_ryukyoku);
    assert!(s.validate_action(&Action::Ryukyoku).is_ok());
    // all four quads by one seat: no abortive draw
    let mut solo = own_turn_state();
    solo.seats[2].melds.push(kan_meld(9));
    solo.seats[2].melds.push(kan_meld(10));
    solo.seats[2].ankans.push(Tile { kind: 11, red: false });
    solo.seats[2].melds.push(kan_meld(12));
    solo.kans_on_board = 4;
    assert!(!resolve(&solo).can_ryukyoku);
}

#[test]
fn nine_kinds_offered_only_before_any_call() {
    let mut s = PlayerState::new(0);
    s.tiles_left = 70;
    s.tehai_len_div3 = 4;
    s.arrs.tehai = counts(&[
        (0, 1), (8, 1), (9, 1), (17, 1), (18, 1), (26, 1), (27, 1), (28, 1), (29, 1), (2, 2),
        (12, 2), (20, 1),
    ]);
    s.arrs.tiles_seen = s.arrs.tehai.clone();
    s.in_kyoku = true;
    s.window = Window::OwnTurn;
    s.last_self_tsumo = Some(Tile { kind: 20, red: false });
    s.can_w_riichi = true;
    s.refresh_hand(false);
    assert_eq!(orphan_kinds(&s.arrs.tehai), 9);
    assert!(resolve(&s).can_ryukyoku);
    assert!(s.validate_action(&Action::Ryukyoku).is_ok());
    // after any call the window is gone
    s.can_w_riichi = false;
    assert!(!resolve(&s).can_ryukyoku);
    assert_eq!(s.validate_action(&Action::Ryukyoku), Err(RuleViolation::NotACandidate));
}

#[test]
fn candidate_set_and_validator_agree_on_every_category() {
    let states = [own_turn_state(), claim_state(false), claim_state(true), PlayerState::new(1)];
    for s in &states {
        let cans = resolve(s);
        assert_eq!(s.validate_action(&Action::Reach).is_ok(), cans.can_riichi);
        assert_eq!(
            s.validate_action(&Action::Hora).is_ok(),
            cans.can_tsumo_agari || cans.can_ron_agari
        );
        assert_eq!(s.validate_action(&Action::Ryukyoku).is_ok(), cans.can_ryukyoku);
        assert_eq!(s.validate_action(&Action::Pass).is_ok(), cans.can_pass);
        let any = cans.can_discard || cans.can_chi_low || cans.can_chi_mid || cans.can_chi_high
            || cans.can_pon || cans.can_daiminkan || cans.can_kakan || cans.can_ankan
            || cans.can_riichi || cans.can_tsumo_agari || cans.can_ron_agari || cans.can_ryukyoku;
        assert_eq!(cans.can_act(), any);
    }
}

#[test]
fn fresh_state_offers_nothing() {
    let s = PlayerState::new(2);
    let cans = resolve(&s);
    assert!(!cans.can_act());
    assert_eq!(s.validate_action(&Action::Pass), Err(RuleViolation::NotACandidate));
}
