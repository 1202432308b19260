//! Debug renderer: a human-readable multi-line snapshot of the tracked
//! state. A debugging aid only; the exact text layout is not a
//! compatibility surface, so the contract promises a non-empty report.

use vstd::prelude::*;
use vstd::string::StringExecFns;

use crate::state::PlayerState;
use crate::tile::Tile;

verus! {

/// Append the decimal digits of a number.
fn push_u32(out: &mut String, n: u32)
    ensures
        final(out)@.len() >= old(out)@.len(),
{
    let ghost base = out@;
    let mut digits: Vec<u8> = Vec::new();
    let mut v = n;
    digits.push((v % 10) as u8);
    v = v / 10;
    while v > 0
        invariant
            digits@.len() >= 1,
        decreases v,
    {
        digits.push((v % 10) as u8);
        v = v / 10;
    }
    let mut i = digits.len();
    while i > 0
        invariant
            i <= digits@.len(),
            out@.len() >= base.len(),
        decreases i,
    {
        i = i - 1;
        let d = digits[i];
        let s: &str = if d == 0 {
            "0"
        } else if d == 1 {
            "1"
        } else if d == 2 {
            "2"
        } else if d == 3 {
            "3"
        } else if d == 4 {
            "4"
        } else if d == 5 {
            "5"
        } else if d == 6 {
            "6"
        } else if d == 7 {
            "7"
        } else if d == 8 {
            "8"
        } else {
            "9"
        };
        out.append(s);
    }
}

/// Append a signed score value.
fn push_i32(out: &mut String, v: i32)
    ensures
        final(out)@.len() >= old(out)@.len(),
{
    if v < 0 {
        out.append("-");
        let mag = -(v as i64);
        push_u32(out, mag as u32);
    } else {
        push_u32(out, v as u32);
    }
}

/// Append one tile in suit-and-number notation; honors get letters, red
/// fives a trailing marker.
fn push_tile(out: &mut String, t: Tile)
    requires
        t.wf(),
    ensures
        final(out)@.len() >= old(out)@.len(),
{
    let k = t.kind;
    if k < 27 {
        push_u32(out, (k % 9 + 1) as u32);
        if k < 9 {
            out.append("m");
        } else if k < 18 {
            out.append("p");
        } else {
            out.append("s");
        }
        if t.red {
            out.append("r");
        }
    } else {
        let s: &str = if k == 27 {
            "E"
        } else if k == 28 {
            "S"
        } else if k == 29 {
            "W"
        } else if k == 30 {
            "N"
        } else if k == 31 {
            "P"
        } else if k == 32 {
            "F"
        } else {
            "C"
        };
        out.append(s);
    }
}

/// Append every tile of the concealed hand, kind by kind.
fn push_counts(out: &mut String, counts: &Vec<u8>)
    requires
        counts@.len() == 34,
        forall|k: int| 0 <= k < 34 ==> counts@[k] <= 4,
    ensures
        final(out)@.len() >= old(out)@.len(),
{
    let ghost base = out@;
    let mut k: usize = 0;
    while k < 34
        invariant
            counts@.len() == 34,
            forall|j: int| 0 <= j < 34 ==> counts@[j] <= 4,
            k <= 34,
            out@.len() >= base.len(),
        decreases 34 - k,
    {
        let mut n = counts[k];
        while n > 0
            invariant
                k < 34,
                out@.len() >= base.len(),
            decreases n,
        {
            push_tile(
                out,
                Tile { kind: k as u8, red: false },
            );
            out.append(" ");
            n = n - 1;
        }
        k = k + 1;
    }
}

impl PlayerState {
    /// A human-readable description of the current state, for debugging.
    pub fn brief_info(&self) -> (r: String)
        requires
            self.wf(),
        ensures
            r@.len() > 0,
    {
        proof {
            reveal_strlit("seat (abs): ");
        }
        let mut out = String::new();
        out.append("seat (abs): ");
        assert(out@.len() > 0);
        push_u32(&mut out, self.player_id as u32);
        out.append("\noya (rel): ");
        push_u32(&mut out, self.oya as u32);
        out.append("\nround: ");
        push_tile(&mut out, self.bakaze);
        push_u32(&mut out, self.kyoku as u32);
        out.append("-");
        push_u32(&mut out, self.honba as u32);
        out.append("  stakes: ");
        push_u32(&mut out, self.kyotaku as u32);
        out.append("\nown wind: ");
        push_tile(&mut out, self.jikaze);
        out.append("\nscores (rel): ");
        let mut j: usize = 0;
        while j < 4
            invariant
                self.wf(),
                j <= 4,
                out@.len() > 0,
            decreases 4 - j,
        {
            push_i32(&mut out, self.scores[j]);
            out.append(" ");
            j = j + 1;
        }
        out.append("\nhand: ");
        push_counts(&mut out, &self.arrs.tehai);
        out.append("\ntenpai distance: ");
        if self.shanten < 0 {
            out.append("-1");
        } else {
            push_u32(&mut out, self.shanten as u32);
        }
        out.append("\nfuriten: ");
        out.append(if self.at_furiten {
            "yes"
        } else {
            "no"
        });
        out.append("\nwaits: ");
        let mut k: usize = 0;
        while k < 34
            invariant
                self.wf(),
                k <= 34,
                out@.len() > 0,
            decreases 34 - k,
        {
            if self.arrs.waits[k] {
                push_tile(
                    &mut out,
                    Tile { kind: k as u8, red: false },
                );
                out.append(" ");
            }
            k = k + 1;
        }
        out.append("\ndora indicators: ");
        let mut i: usize = 0;
        while i < self.dora_indicators.len()
            invariant
                self.wf(),
                i <= self.dora_indicators@.len(),
                out@.len() > 0,
            decreases self.dora_indicators@.len() - i,
        {
            push_tile(&mut out, self.dora_indicators[i]);
            out.append(" ");
            i = i + 1;
        }
        out.append("\ndora owned (self): ");
        push_u32(&mut out, self.doras_owned[0] as u32);
        out.append("  dora seen: ");
        push_u32(&mut out, self.doras_seen as u32);
        out.append("\ntiles left: ");
        push_u32(&mut out, self.tiles_left as u32);
        out.append("\ncan act: ");
        out.append(if self.last_cans.can_act() {
            "yes"
        } else {
            "no"
        });
        out.append("\ndiscards:");
        let mut j: usize = 0;
        while j < 4
            invariant
                self.wf(),
                j <= 4,
                out@.len() > 0,
            decreases 4 - j,
        {
            out.append("\n  ");
            let pile_len = self.seats[j].kawa_tiles.len();
            let mut i: usize = 0;
            while i < pile_len
                invariant
                    self.wf(),
                    j < 4,
                    pile_len == self.seats@[j as int].kawa_tiles@.len(),
                    i <= pile_len,
                    out@.len() > 0,
                decreases pile_len - i,
            {
                proof {
                    assert(self.seats@[j as int].kawa@[i as int].tile.wf());
                }
                push_tile(&mut out, self.seats[j].kawa_tiles[i]);
                out.append(" ");
                i = i + 1;
            }
            j = j + 1;
        }
        out
    }
}

} // verus!
