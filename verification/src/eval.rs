//! Hand evaluator: pure combinatorial predicates over a 34-kind concealed
//! tile count vector — complete-hand (win) check, tenpai check and the
//! winning-tile set. Deterministic functions of the tile multiset alone.

use vstd::prelude::*;

use crate::tile::spec_is_orphan;
use crate::tile::is_orphan;

verus! {

/// Sum of the counts from kind `i` on.
pub open spec fn tt(c: Seq<u8>, i: int) -> int
    decreases 34 - i,
{
    if i < 0 || i >= 34 || c.len() != 34 {
        0
    } else {
        c[i] + tt(c, i + 1)
    }
}

/// Total number of tiles in the count vector.
pub open spec fn tile_total(c: Seq<u8>) -> int {
    tt(c, 0)
}

/// How a point update moves a suffix sum.
pub proof fn lemma_tt_update(c: Seq<u8>, i: int, v: u8, j: int)
    requires
        c.len() == 34,
        0 <= i < 34,
        0 <= j <= 34,
    ensures
        tt(c.update(i, v), j) == tt(c, j) + (if i >= j {
            v - c[i]
        } else {
            0
        }),
    decreases 34 - j,
{
    if j < 34 {
        lemma_tt_update(c, i, v, j + 1);
    }
}

/// Suffix sums are never negative.
pub proof fn lemma_tt_nonneg(c: Seq<u8>, j: int)
    ensures
        tt(c, j) >= 0,
    decreases 34 - j,
{
    if 0 <= j < 34 && c.len() == 34 {
        lemma_tt_nonneg(c, j + 1);
    }
}

/// Kinds at which a run (three consecutive kinds of one suit) may start.
pub open spec fn spec_run_start(i: int) -> bool {
    0 <= i < 27 && i % 9 <= 6
}

/// The standard decomposition of the counts from kind `i` on into three-tile
/// groups (triplets and runs) plus at most one pair: `pair` records whether
/// the pair has already been taken. Kinds below `i` must already be empty.
pub open spec fn spec_can_form(c: Seq<u8>, i: int, pair: bool) -> bool
    decreases tile_total(c), 34 - i,
        when c.len() == 34 && 0 <= i <= 34 && (forall|k: int| 0 <= k < 34 ==> c[k] <= 14)
        via spec_can_form_decreases
{
    if i >= 34 {
        pair
    } else if c[i] == 0 {
        spec_can_form(c, i + 1, pair)
    } else {
        ||| (!pair && c[i] >= 2 && spec_can_form(c.update(i, (c[i] - 2) as u8), i, true))
        ||| (c[i] >= 3 && spec_can_form(c.update(i, (c[i] - 3) as u8), i, pair))
        ||| (spec_run_start(i) && c[i + 1] > 0 && c[i + 2] > 0 && spec_can_form(
            c.update(i, (c[i] - 1) as u8).update(i + 1, (c[i + 1] - 1) as u8).update(
                i + 2,
                (c[i + 2] - 1) as u8,
            ),
            i,
            pair,
        ))
    }
}

#[via_fn]
proof fn spec_can_form_decreases(c: Seq<u8>, i: int, pair: bool) {
    lemma_tt_nonneg(c, i);
    if 0 <= i < 34 {
        if c[i] >= 2 {
            lemma_tt_update(c, i, (c[i] - 2) as u8, 0);
            lemma_tt_nonneg(c.update(i, (c[i] - 2) as u8), 0);
        }
        if c[i] >= 3 {
            lemma_tt_update(c, i, (c[i] - 3) as u8, 0);
            lemma_tt_nonneg(c.update(i, (c[i] - 3) as u8), 0);
        }
        if spec_run_start(i) && c[i] >= 1 && c[i + 1] > 0 && c[i + 2] > 0 {
            let c1 = c.update(i, (c[i] - 1) as u8);
            let c2 = c1.update(i + 1, (c[i + 1] - 1) as u8);
            let c3 = c2.update(i + 2, (c[i + 2] - 1) as u8);
            lemma_tt_update(c, i, (c[i] - 1) as u8, 0);
            lemma_tt_update(c1, i + 1, (c[i + 1] - 1) as u8, 0);
            lemma_tt_update(c2, i + 2, (c[i + 2] - 1) as u8, 0);
            lemma_tt_nonneg(c3, 0);
        }
    }
}

/// Seven distinct pairs.
pub open spec fn spec_chiitoi(c: Seq<u8>) -> bool {
    c.len() == 34 && tile_total(c) == 14 && (forall|k: int|
        0 <= k < 34 ==> c[k] == 0 || c[k] == 2)
}

/// Thirteen orphans: every terminal and honor kind present, nothing else.
pub open spec fn spec_kokushi(c: Seq<u8>) -> bool {
    c.len() == 34 && tile_total(c) == 14 && (forall|k: int|
        0 <= k < 34 && !spec_is_orphan(k) ==> c[k] == 0) && (forall|k: int|
        0 <= k < 34 && spec_is_orphan(k) ==> c[k] >= 1)
}

/// A complete winning hand: a regular decomposition into groups and a pair,
/// or seven pairs, or thirteen orphans.
pub open spec fn spec_is_agari(c: Seq<u8>) -> bool {
    c.len() == 34 && (forall|k: int| 0 <= k < 34 ==> c[k] <= 14) && (
    (tile_total(c) % 3 == 2 && spec_can_form(c, 0, false)) || spec_chiitoi(c) || spec_kokushi(c))
}

/// Exec mirror of `spec_can_form`; restores the counts before returning.
pub fn can_form(c: &mut Vec<u8>, i: usize, pair: bool) -> (r: bool)
    requires
        old(c)@.len() == 34,
        i <= 34,
        forall|k: int| 0 <= k < 34 ==> old(c)@[k] <= 14,
    ensures
        final(c)@ == old(c)@,
        r == spec_can_form(old(c)@, i as int, pair),
    decreases tile_total(old(c)@), 34 - i,
{
    proof {
        lemma_tt_nonneg(old(c)@, i as int);
    }
    if i >= 34 {
        return pair;
    }
    let ci = c[i];
    if ci == 0 {
        return can_form(c, i + 1, pair);
    }
    let ghost c0 = c@;
    let mut ok = false;
    if !pair && ci >= 2 {
        c.set(i, ci - 2);
        proof {
            lemma_tt_update(c0, i as int, (ci - 2) as u8, 0);
            lemma_tt_nonneg(c0.update(i as int, (ci - 2) as u8), 0);
        }
        ok = can_form(c, i, true);
        c.set(i, ci);
        assert(c@ =~= c0);
    }
    if !ok && ci >= 3 {
        c.set(i, ci - 3);
        proof {
            lemma_tt_update(c0, i as int, (ci - 3) as u8, 0);
            lemma_tt_nonneg(c0.update(i as int, (ci - 3) as u8), 0);
        }
        ok = can_form(c, i, pair);
        c.set(i, ci);
        assert(c@ =~= c0);
    }
    if !ok && i < 27 && i % 9 <= 6 {
        let c1 = c[i + 1];
        let c2 = c[i + 2];
        if c1 > 0 && c2 > 0 {
            c.set(i, ci - 1);
            c.set(i + 1, c1 - 1);
            c.set(i + 2, c2 - 1);
            proof {
                lemma_tt_update(c0, i as int, (ci - 1) as u8, 0);
                lemma_tt_update(c0.update(i as int, (ci - 1) as u8), i + 1, (c1 - 1) as u8, 0);
                lemma_tt_update(
                    c0.update(i as int, (ci - 1) as u8).update(i + 1, (c1 - 1) as u8),
                    i + 2,
                    (c2 - 1) as u8,
                    0,
                );
                lemma_tt_nonneg(
                    c0.update(i as int, (ci - 1) as u8).update(i + 1, (c1 - 1) as u8).update(
                        i + 2,
                        (c2 - 1) as u8,
                    ),
                    0,
                );
            }
            ok = can_form(c, i, pair);
            c.set(i + 2, c2);
            c.set(i + 1, c1);
            c.set(i, ci);
            assert(c@ =~= c0);
        }
    }
    ok
}

/// Total tile count of the vector.
pub fn count_total(c: &Vec<u8>) -> (t: u32)
    requires
        c@.len() == 34,
    ensures
        t == tile_total(c@),
{
    let mut t: u32 = 0;
    let mut j: usize = 0;
    while j < 34
        invariant
            0 <= j <= 34,
            c@.len() == 34,
            t == tt(c@, 0) - tt(c@, j as int),
            t <= j * 255,
        decreases 34 - j,
    {
        proof {
            lemma_tt_nonneg(c@, j as int);
            lemma_tt_nonneg(c@, j + 1);
        }
        t = t + c[j] as u32;
        j = j + 1;
    }
    t
}

/// Exec mirror of `spec_chiitoi`.
pub fn is_chiitoi(c: &Vec<u8>) -> (r: bool)
    requires
        c@.len() == 34,
    ensures
        r == spec_chiitoi(c@),
{
    if count_total(c) != 14 {
        return false;
    }
    let mut j: usize = 0;
    while j < 34
        invariant
            0 <= j <= 34,
            c@.len() == 34,
            tile_total(c@) == 14,
            forall|k: int| 0 <= k < j ==> c@[k] == 0 || c@[k] == 2,
        decreases 34 - j,
    {
        if c[j] != 0 && c[j] != 2 {
            return false;
        }
        j = j + 1;
    }
    true
}

/// Exec mirror of `spec_kokushi`.
pub fn is_kokushi(c: &Vec<u8>) -> (r: bool)
    requires
        c@.len() == 34,
    ensures
        r == spec_kokushi(c@),
{
    if count_total(c) != 14 {
        return false;
    }
    let mut j: usize = 0;
    while j < 34
        invariant
            0 <= j <= 34,
            c@.len() == 34,
            tile_total(c@) == 14,
            forall|k: int| 0 <= k < j && !spec_is_orphan(k) ==> c@[k] == 0,
            forall|k: int| 0 <= k < j && spec_is_orphan(k) ==> c@[k] >= 1,
        decreases 34 - j,
    {
        if is_orphan(j as u8) {
            if c[j] == 0 {
                return false;
            }
        } else {
            if c[j] != 0 {
                return false;
            }
        }
        j = j + 1;
    }
    true
}

/// Exec mirror of `spec_is_agari`; restores the counts before returning.
pub fn is_agari(c: &mut Vec<u8>) -> (r: bool)
    requires
        old(c)@.len() == 34,
        forall|k: int| 0 <= k < 34 ==> old(c)@[k] <= 14,
    ensures
        final(c)@ == old(c)@,
        r == spec_is_agari(old(c)@),
{
    let t = count_total(c);
    let mut r = false;
    if t % 3 == 2 {
        r = can_form(c, 0, false);
    }
    if !r {
        r = is_chiitoi(c);
    }
    if !r {
        r = is_kokushi(c);
    }
    r
}

/// A 13-tile-shaped hand waits on kind `k` when adding one tile of `k`
/// completes it.
#[verifier::opaque]
pub open spec fn spec_wins_on(c: Seq<u8>, k: int) -> bool {
    c.len() == 34 && 0 <= k < 34 && c[k] < 14 && spec_is_agari(c.update(k, (c[k] + 1) as u8))
}

/// Exec mirror of `spec_wins_on`; restores the counts.
pub fn wins_on(c: &mut Vec<u8>, k: usize) -> (r: bool)
    requires
        old(c)@.len() == 34,
        k < 34,
        forall|j: int| 0 <= j < 34 ==> old(c)@[j] <= 14,
    ensures
        final(c)@ == old(c)@,
        r == spec_wins_on(old(c)@, k as int),
{
    proof {
        reveal(spec_wins_on);
    }
    let ck = c[k];
    if ck >= 14 {
        return false;
    }
    let ghost c0 = c@;
    c.set(k, ck + 1);
    let r = is_agari(c);
    c.set(k, ck);
    assert(c@ =~= c0);
    r
}

/// Tenpai: some single added tile completes the hand.
#[verifier::opaque]
pub open spec fn spec_tenpai(c: Seq<u8>) -> bool {
    exists|k: int| 0 <= k < 34 && spec_wins_on(c, k)
}

/// Exec mirror of `spec_tenpai`; restores the counts.
pub fn is_tenpai(c: &mut Vec<u8>) -> (r: bool)
    requires
        old(c)@.len() == 34,
        forall|j: int| 0 <= j < 34 ==> old(c)@[j] <= 14,
    ensures
        final(c)@ == old(c)@,
        r == spec_tenpai(old(c)@),
{
    proof {
        reveal(spec_tenpai);
    }
    let mut k: usize = 0;
    while k < 34
        invariant
            0 <= k <= 34,
            c@ == old(c)@,
            c@.len() == 34,
            forall|j: int| 0 <= j < 34 ==> c@[j] <= 14,
            forall|j: int| 0 <= j < k ==> !spec_wins_on(c@, j),
        decreases 34 - k,
    {
        if wins_on(c, k) {
            proof {
                reveal(spec_tenpai);
            }
            return true;
        }
        k = k + 1;
    }
    proof {
        reveal(spec_tenpai);
    }
    false
}

/// Discarding kind `k` from a 14-tile-shaped hand leaves it at tenpai.
#[verifier::opaque]
pub open spec fn spec_tenpai_discard(c: Seq<u8>, k: int) -> bool {
    c.len() == 34 && 0 <= k < 34 && c[k] > 0 && spec_tenpai(c.update(k, (c[k] - 1) as u8))
}

/// Exec mirror of `spec_tenpai_discard`; restores the counts.
pub fn tenpai_discard(c: &mut Vec<u8>, k: usize) -> (r: bool)
    requires
        old(c)@.len() == 34,
        k < 34,
        forall|j: int| 0 <= j < 34 ==> old(c)@[j] <= 14,
    ensures
        final(c)@ == old(c)@,
        r == spec_tenpai_discard(old(c)@, k as int),
{
    proof {
        reveal(spec_tenpai_discard);
    }
    let ck = c[k];
    if ck == 0 {
        return false;
    }
    let ghost c0 = c@;
    c.set(k, ck - 1);
    let r = is_tenpai(c);
    c.set(k, ck);
    assert(c@ =~= c0);
    r
}

/// Number of distinct terminal/honor kinds present in the hand.
pub open spec fn spec_orphan_kinds(c: Seq<u8>, j: int) -> int
    decreases 34 - j,
{
    if j < 0 || j >= 34 || c.len() != 34 {
        0
    } else {
        (if spec_is_orphan(j) && c[j] > 0 {
            1int
        } else {
            0int
        }) + spec_orphan_kinds(c, j + 1)
    }
}

/// Exec mirror of `spec_orphan_kinds` from kind 0.
pub fn orphan_kinds(c: &Vec<u8>) -> (n: u8)
    requires
        c@.len() == 34,
    ensures
        n == spec_orphan_kinds(c@, 0),
        n <= 34,
{
    let mut n: u8 = 0;
    let mut j: usize = 0;
    while j < 34
        invariant
            0 <= j <= 34,
            c@.len() == 34,
            n <= j,
            n == spec_orphan_kinds(c@, 0) - spec_orphan_kinds(c@, j as int),
        decreases 34 - j,
    {
        proof {
            lemma_orphan_kinds_nonneg(c@, j as int);
            lemma_orphan_kinds_nonneg(c@, j + 1);
        }
        if is_orphan(j as u8) && c[j] > 0 {
            n = n + 1;
        }
        j = j + 1;
    }
    n
}

proof fn lemma_orphan_kinds_nonneg(c: Seq<u8>, j: int)
    ensures
        spec_orphan_kinds(c, j) >= 0,
    decreases 34 - j,
{
    if 0 <= j < 34 && c.len() == 34 {
        lemma_orphan_kinds_nonneg(c, j + 1);
    }
}

} // verus!
