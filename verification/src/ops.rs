//! Internal state maintenance: recomputation of the derived concealed-hand
//! fields (waits, tenpai distance, advisory discards, furiten, kan
//! candidates) and small list helpers.

use vstd::prelude::*;

use crate::eval::is_agari;
use crate::eval::is_tenpai;
use crate::eval::lemma_tt_nonneg;
use crate::eval::spec_is_agari;
use crate::eval::spec_tenpai;
use crate::eval::spec_tenpai_discard;
use crate::eval::spec_wins_on;
use crate::eval::tenpai_discard;
use crate::eval::tile_total;
use crate::eval::tt;
use crate::eval::wins_on;
use crate::resolver::copy_counts;
use crate::state::BigArrayFields;
use crate::state::PlayerState;
use crate::tile::Tile;

verus! {

/// Kind `k` is a current winning tile: completing the hand with it is
/// possible and a fourth copy has not been observed.
pub open spec fn spec_wait(arrs: BigArrayFields, k: int) -> bool {
    arrs.tiles_seen@[k] < 4 && spec_wins_on(arrs.tehai@, k)
}

/// Some current wait has been discarded by the tracked seat this hand: the
/// permanent-furiten condition.
pub open spec fn spec_furiten_hit(arrs: BigArrayFields) -> bool {
    exists|k: int| 0 <= k < 34 && arrs.waits@[k] && arrs.discarded_tiles@[k]
}

/// Kind `k` may not be discarded: forced discard under an accepted riichi,
/// or a declaration discard that would not leave tenpai.
pub open spec fn spec_forbidden(s: PlayerState, k: int) -> bool {
    if s.seats@[0].riichi_accepted {
        match s.last_self_tsumo {
            Some(t) => k != t.kind,
            None => true,
        }
    } else if s.seats@[0].riichi_declared {
        !s.arrs.next_shanten_discards@[k]
    } else {
        false
    }
}

/// Kind `k` is a closed-quad candidate: all four copies concealed, and
/// under a declared riichi only the freshly drawn kind.
pub open spec fn spec_ankan_cand(s: PlayerState, k: int) -> bool {
    &&& s.arrs.tehai@[k] == 4
    &&& (s.seats@[0].riichi_declared ==> (match s.last_self_tsumo {
        Some(t) => k == t.kind,
        None => false,
    }))
}

/// Kind `k` is a kan-upgrade candidate: an own open triplet of `k` and a
/// concealed fourth copy.
pub open spec fn spec_kakan_cand(s: PlayerState, k: int) -> bool {
    s.pons@.contains(k as u8) && 0 <= k < 34 && s.arrs.tehai@[k] > 0
}


/// Closed-quad candidacy over the raw inputs.
pub open spec fn spec_ankan_cand_v(tehai: Seq<u8>, riichi: bool, tsumo: Option<Tile>, k: int) -> bool {
    &&& tehai[k] == 4
    &&& (riichi ==> (match tsumo {
        Some(t) => k == t.kind,
        None => false,
    }))
}

/// The computed waits bitset.
pub fn compute_waits(tehai: &Vec<u8>, seen: &Vec<u8>) -> (w: Vec<bool>)
    requires
        tehai@.len() == 34,
        seen@.len() == 34,
        forall|k: int| 0 <= k < 34 ==> tehai@[k] <= 4,
    ensures
        w@.len() == 34,
        forall|k: int| 0 <= k < 34 ==> w@[k] == (seen@[k] < 4 && spec_wins_on(tehai@, k)),
{
    let mut c = copy_counts(tehai);
    let mut w = crate::state::false_bools();
    let mut k: usize = 0;
    while k < 34
        invariant
            tehai@.len() == 34,
            seen@.len() == 34,
            forall|j: int| 0 <= j < 34 ==> tehai@[j] <= 4,
            c@ == tehai@,
            w@.len() == 34,
            k <= 34,
            forall|j: int| 0 <= j < k ==> w@[j] == (seen@[j] < 4 && spec_wins_on(tehai@, j)),
        decreases 34 - k,
    {
        let x = seen[k] < 4 && wins_on(&mut c, k);
        w.set(k, x);
        k = k + 1;
    }
    w
}

/// The tenpai-yielding discards of a fourteen-tile hand, and whether any
/// exists.
pub fn compute_nexts(tehai: &Vec<u8>) -> (r: (Vec<bool>, bool))
    requires
        tehai@.len() == 34,
        forall|k: int| 0 <= k < 34 ==> tehai@[k] <= 4,
    ensures
        r.0@.len() == 34,
        forall|k: int| 0 <= k < 34 ==> r.0@[k] == spec_tenpai_discard(tehai@, k),
        r.1 == exists|k: int| 0 <= k < 34 && spec_tenpai_discard(tehai@, k),
{
    let mut c = copy_counts(tehai);
    let mut n = crate::state::false_bools();
    let mut any = false;
    let mut k: usize = 0;
    while k < 34
        invariant
            tehai@.len() == 34,
            forall|j: int| 0 <= j < 34 ==> tehai@[j] <= 4,
            c@ == tehai@,
            n@.len() == 34,
            k <= 34,
            forall|j: int| 0 <= j < k ==> n@[j] == spec_tenpai_discard(tehai@, j),
            any == exists|j: int| 0 <= j < k && spec_tenpai_discard(tehai@, j),
        decreases 34 - k,
    {
        let x = tenpai_discard(&mut c, k);
        n.set(k, x);
        if x {
            any = true;
        }
        k = k + 1;
    }
    (n, any)
}

/// Some computed wait is among the own discards.
pub fn furiten_scan(waits: &Vec<bool>, discarded: &Vec<bool>) -> (hit: bool)
    requires
        waits@.len() == 34,
        discarded@.len() == 34,
    ensures
        hit == exists|k: int| 0 <= k < 34 && waits@[k] && discarded@[k],
{
    let mut hit = false;
    let mut k: usize = 0;
    while k < 34
        invariant
            waits@.len() == 34,
            discarded@.len() == 34,
            k <= 34,
            hit == exists|j: int| 0 <= j < k && waits@[j] && discarded@[j],
        decreases 34 - k,
    {
        if waits[k] && discarded[k] {
            hit = true;
        }
        k = k + 1;
    }
    hit
}

/// The closed-quad candidate kinds; at most three quads fit in fourteen
/// tiles.
pub fn compute_ankan_cands(tehai: &Vec<u8>, riichi: bool, tsumo: Option<Tile>) -> (c: Vec<u8>)
    requires
        tehai@.len() == 34,
        tile_total(tehai@) <= 14,
    ensures
        c@.len() <= 4,
        forall|i: int| 0 <= i < c@.len() ==> c@[i] < 34,
        forall|k: int| #![trigger c@.contains(k as u8)]
            0 <= k < 34 ==> (c@.contains(k as u8) == spec_ankan_cand_v(tehai@, riichi, tsumo, k)),
{
    broadcast use vstd::seq_lib::lemma_seq_contains_after_push;

    let mut cands: Vec<u8> = Vec::new();
    let mut k: usize = 0;
    while k < 34
        invariant
            tehai@.len() == 34,
            tile_total(tehai@) <= 14,
            k <= 34,
            forall|i: int| 0 <= i < cands@.len() ==> cands@[i] < k,
            forall|j: int| #![trigger cands@.contains(j as u8)]
                0 <= j < k ==> (cands@.contains(j as u8) == spec_ankan_cand_v(
                    tehai@,
                    riichi,
                    tsumo,
                    j,
                )),
            4 * cands@.len() <= tt(tehai@, 0) - tt(tehai@, k as int),
        decreases 34 - k,
    {
        proof {
            lemma_tt_nonneg(tehai@, k + 1);
        }
        let mut cand = tehai[k] == 4;
        if cand && riichi {
            cand = match tsumo {
                Some(t) => t.kind as usize == k,
                None => false,
            };
        }
        let ghost prev = cands@;
        if cand {
            cands.push(k as u8);
        }
        proof {
            assert(tt(tehai@, k as int) == tehai@[k as int] + tt(tehai@, k + 1));
            if cand {
                assert(cands@ == prev.push(k as u8));
                assert forall|j: int| #![trigger cands@.contains(j as u8)]
                    0 <= j < k + 1 implies (cands@.contains(j as u8) == spec_ankan_cand_v(
                    tehai@,
                    riichi,
                    tsumo,
                    j,
                )) by {
                    vstd::seq_lib::lemma_seq_contains_after_push(prev, k as u8, j as u8);
                }
            } else {
                if cands@.contains(k as u8) {
                    let i = choose|i: int| 0 <= i < cands@.len() && cands@[i] == k as u8;
                    assert(cands@[i] < k);
                    assert(false);
                }
            }
        }
        k = k + 1;
    }
    proof {
        lemma_tt_nonneg(tehai@, 34);
    }
    cands
}

/// The kan-upgrade candidate kinds.
pub fn compute_kakan_cands(tehai: &Vec<u8>, pons: &Vec<u8>) -> (c: Vec<u8>)
    requires
        tehai@.len() == 34,
    ensures
        c@.len() <= 34,
        forall|i: int| 0 <= i < c@.len() ==> c@[i] < 34,
        forall|k: int| #![trigger c@.contains(k as u8)]
            0 <= k < 34 ==> (c@.contains(k as u8) == (pons@.contains(k as u8) && tehai@[k] > 0)),
{
    broadcast use vstd::seq_lib::lemma_seq_contains_after_push;

    let mut cands: Vec<u8> = Vec::new();
    let mut k: usize = 0;
    while k < 34
        invariant
            tehai@.len() == 34,
            k <= 34,
            cands@.len() <= k,
            forall|i: int| 0 <= i < cands@.len() ==> cands@[i] < k,
            forall|j: int| #![trigger cands@.contains(j as u8)]
                0 <= j < k ==> (cands@.contains(j as u8) == (pons@.contains(j as u8) && tehai@[j]
                    > 0)),
        decreases 34 - k,
    {
        let cand = contains_u8(pons, k as u8) && tehai[k] > 0;
        let ghost prev = cands@;
        if cand {
            cands.push(k as u8);
        }
        proof {
            if cand {
                assert(cands@ == prev.push(k as u8));
                assert forall|j: int| #![trigger cands@.contains(j as u8)]
                    0 <= j < k + 1 implies (cands@.contains(j as u8) == (pons@.contains(j as u8)
                    && tehai@[j] > 0)) by {
                    vstd::seq_lib::lemma_seq_contains_after_push(prev, k as u8, j as u8);
                }
            } else {
                if cands@.contains(k as u8) {
                    let i = choose|i: int| 0 <= i < cands@.len() && cands@[i] == k as u8;
                    assert(cands@[i] < k);
                    assert(false);
                }
            }
        }
        k = k + 1;
    }
    cands
}

/// The forbidden-discard bitset under the riichi flags.
pub fn compute_forbidden(accepted: bool, declared: bool, tsumo: Option<Tile>, nexts: &Vec<bool>) -> (f: Vec<bool>)
    requires
        nexts@.len() == 34,
    ensures
        f@.len() == 34,
        forall|k: int|
            0 <= k < 34 ==> f@[k] == (if accepted {
                match tsumo {
                    Some(t) => k != t.kind,
                    None => true,
                }
            } else if declared {
                !nexts@[k]
            } else {
                false
            }),
{
    let mut f = crate::state::false_bools();
    let mut k: usize = 0;
    while k < 34
        invariant
            nexts@.len() == 34,
            f@.len() == 34,
            k <= 34,
            forall|j: int|
                0 <= j < k ==> f@[j] == (if accepted {
                    match tsumo {
                        Some(t) => j != t.kind,
                        None => true,
                    }
                } else if declared {
                    !nexts@[j]
                } else {
                    false
                }),
        decreases 34 - k,
    {
        let x = if accepted {
            match tsumo {
                Some(t) => k != t.kind as usize,
                None => true,
            }
        } else if declared {
            !nexts[k]
        } else {
            false
        };
        f.set(k, x);
        k = k + 1;
    }
    f
}

impl PlayerState {
    /// Recompute every derived concealed-hand field after a hand change (or
    /// after the own discard that `own_discard` marks): waits, tenpai
    /// distance, advisory discard sets, quad candidates, the forbidden set
    /// and the furiten flags.
    ///
    /// Permanent furiten, once observed, stays; the same-cycle flag is
    /// consumed exactly by the own discard.
    #[verifier::rlimit(100)]
    #[verifier::spinoff_prover]
    pub fn refresh_hand(&mut self, own_discard: bool)
        requires
            old(self).arrs.wf(),
            old(self).seats@.len() == 4,
            old(self).pons@.len() <= 4,
            old(self).chis@.len() <= 4,
            old(self).minkans@.len() <= 4,
            old(self).ankans@.len() <= 4,
            forall|i: int| 0 <= i < old(self).pons@.len() ==> old(self).pons@[i] < 34,
            tile_total(old(self).arrs.tehai@) <= 14,
        ensures
            *final(self) == (PlayerState {
                shanten: final(self).shanten,
                has_next_shanten_discard: final(self).has_next_shanten_discard,
                ankan_candidates: final(self).ankan_candidates,
                kakan_candidates: final(self).kakan_candidates,
                at_furiten: final(self).at_furiten,
                to_mark_same_cycle_furiten: final(self).to_mark_same_cycle_furiten,
                arrs: final(self).arrs,
                ..*old(self)
            }),
            final(self).arrs.tehai == old(self).arrs.tehai,
            final(self).arrs.dora_factor == old(self).arrs.dora_factor,
            final(self).arrs.tiles_seen == old(self).arrs.tiles_seen,
            final(self).arrs.discarded_tiles == old(self).arrs.discarded_tiles,
            final(self).arrs.wf(),
            forall|k: int|
                0 <= k < 34 ==> final(self).arrs.waits@[k] == spec_wait(old(self).arrs, k),
            forall|k: int|
                0 <= k < 34 ==> final(self).arrs.next_shanten_discards@[k] == (
                old(self).spec_holds_draw() && spec_tenpai_discard(old(self).arrs.tehai@, k)),
            final(self).has_next_shanten_discard == (old(self).spec_holds_draw() && exists|k: int|
                0 <= k < 34 && spec_tenpai_discard(old(self).arrs.tehai@, k)),
            final(self).shanten == (if old(self).spec_holds_draw() {
                if spec_is_agari(old(self).arrs.tehai@) {
                    -1int
                } else if exists|k: int|
                    0 <= k < 34 && spec_tenpai_discard(old(self).arrs.tehai@, k) {
                    0int
                } else {
                    1int
                }
            } else {
                if spec_tenpai(old(self).arrs.tehai@) {
                    0int
                } else {
                    1int
                }
            }),
            final(self).ankan_candidates@.len() <= 4,
            forall|i: int|
                0 <= i < final(self).ankan_candidates@.len() ==> final(self).ankan_candidates@[i] < 34,
            forall|k: int| #![trigger final(self).ankan_candidates@.contains(k as u8)]
                0 <= k < 34 ==> (final(self).ankan_candidates@.contains(k as u8) == spec_ankan_cand(
                    *old(self),
                    k,
                )),
            final(self).kakan_candidates@.len() <= 34,
            forall|i: int|
                0 <= i < final(self).kakan_candidates@.len() ==> final(self).kakan_candidates@[i] < 34,
            forall|k: int| #![trigger final(self).kakan_candidates@.contains(k as u8)]
                0 <= k < 34 ==> (final(self).kakan_candidates@.contains(k as u8) == spec_kakan_cand(
                    *old(self),
                    k,
                )),
            forall|k: int|
                0 <= k < 34 ==> final(self).arrs.forbidden_tiles@[k] == spec_forbidden(
                    *final(self),
                    k,
                ),
            final(self).at_furiten == ((old(self).at_furiten && (own_discard ==> !old(self).to_mark_same_cycle_furiten)) || spec_furiten_hit(final(self).arrs)),
            final(self).to_mark_same_cycle_furiten == (old(self).to_mark_same_cycle_furiten
                && !own_discard && !spec_furiten_hit(final(self).arrs)),
    {
        let ghost pre = *old(self);
        let t = crate::eval::count_total(&self.arrs.tehai);
        let m = self.chis.len() + self.pons.len() + self.minkans.len() + self.ankans.len();
        let holds = t as usize + 3 * m == 14;
        assert(holds == pre.spec_holds_draw());
        let waits = compute_waits(&self.arrs.tehai, &self.arrs.tiles_seen);
        let mut nexts = crate::state::false_bools();
        let mut keeps = crate::state::false_bools();
        let mut has_next = false;
        let mut sh: i8 = 1;
        if holds {
            let r = compute_nexts(&self.arrs.tehai);
            nexts = r.0;
            has_next = r.1;
            let mut c = copy_counts(&self.arrs.tehai);
            if is_agari(&mut c) {
                sh = -1;
            } else if has_next {
                sh = 0;
            } else {
                sh = 1;
            }
            let mut k: usize = 0;
            while k < 34
                invariant
                    nexts@.len() == 34,
                    keeps@.len() == 34,
                    c@.len() == 34,
                    k <= 34,
                decreases 34 - k,
            {
                let keep = if sh <= 0 {
                    nexts[k]
                } else {
                    c[k] > 0 && !nexts[k]
                };
                keeps.set(k, keep);
                k = k + 1;
            }
        } else {
            let mut c = copy_counts(&self.arrs.tehai);
            if is_tenpai(&mut c) {
                sh = 0;
            } else {
                sh = 1;
            }
        }
        let hit = furiten_scan(&waits, &self.arrs.discarded_tiles);
        let cands = compute_ankan_cands(
            &self.arrs.tehai,
            self.seats[0].riichi_declared,
            self.last_self_tsumo,
        );
        let kakans = compute_kakan_cands(&self.arrs.tehai, &self.pons);
        let forb = compute_forbidden(
            self.seats[0].riichi_accepted,
            self.seats[0].riichi_declared,
            self.last_self_tsumo,
            &nexts,
        );
        proof {
            assert forall|k2: int| #![trigger cands@.contains(k2 as u8)]
                0 <= k2 < 34 implies (cands@.contains(k2 as u8) == spec_ankan_cand(pre, k2)) by {
                assert(spec_ankan_cand_v(
                    pre.arrs.tehai@,
                    pre.seats@[0].riichi_declared,
                    pre.last_self_tsumo,
                    k2,
                ) == spec_ankan_cand(pre, k2));
            }
            assert forall|k2: int| #![trigger kakans@.contains(k2 as u8)]
                0 <= k2 < 34 implies (kakans@.contains(k2 as u8) == spec_kakan_cand(pre, k2)) by {
            }
        }
        // commit the recomputation
        self.arrs.waits = waits;
        self.arrs.next_shanten_discards = nexts;
        self.arrs.keep_shanten_discards = keeps;
        self.arrs.forbidden_tiles = forb;
        self.shanten = sh;
        self.has_next_shanten_discard = holds && has_next;
        self.ankan_candidates = cands;
        self.kakan_candidates = kakans;
        proof {
            if hit {
                let j = choose|j: int|
                    0 <= j < 34 && self.arrs.waits@[j] && pre.arrs.discarded_tiles@[j];
                assert(self.arrs.waits@[j] && self.arrs.discarded_tiles@[j]);
            }
            if spec_furiten_hit(self.arrs) {
                let j = choose|j: int|
                    0 <= j < 34 && self.arrs.waits@[j] && self.arrs.discarded_tiles@[j];
                assert(self.arrs.waits@[j] && pre.arrs.discarded_tiles@[j]);
            }
            assert(hit == spec_furiten_hit(self.arrs));
        }
        if own_discard {
            self.at_furiten = (self.at_furiten && !self.to_mark_same_cycle_furiten) || hit;
            self.to_mark_same_cycle_furiten = false;
        } else {
            if hit {
                self.at_furiten = true;
                self.to_mark_same_cycle_furiten = false;
            }
        }
    }
}

/// Whether a byte list contains a value.
pub fn contains_u8(v: &Vec<u8>, x: u8) -> (r: bool)
    ensures
        r == v@.contains(x),
{
    let mut i: usize = 0;
    while i < v.len()
        invariant
            i <= v@.len(),
            forall|j: int| 0 <= j < i ==> v@[j] != x,
        decreases v@.len() - i,
    {
        if v[i] == x {
            return true;
        }
        i = i + 1;
    }
    false
}

} // verus!
