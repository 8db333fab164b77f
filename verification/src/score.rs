//! The score: points earned over play time, and the six-digit score board.

use vstd::prelude::*;

verus! {

/// The number of digits on the score board.
pub const SCORE_DIGITS: u32 = 6;

/// Ten to the power `k`.
pub open spec fn pow10(k: nat) -> nat
    decreases k,
{
    if k == 0 {
        1
    } else {
        10 * pow10((k - 1) as nat)
    }
}

/// The score: whole points, and the milliseconds of play not yet turned into
/// a point.
pub struct PlayScore {
    accum: u32,
    timer: u32,
}

impl PlayScore {
    /// The points earned.
    pub closed spec fn spec_accum(self) -> nat {
        self.accum as nat
    }

    /// The milliseconds of play carried over towards the next point.
    pub closed spec fn spec_timer(self) -> nat {
        self.timer as nat
    }

    /// No points and nothing carried over.
    pub fn new() -> (s: PlayScore)
        ensures
            s.spec_accum() == 0,
            s.spec_timer() == 0,
    {
        PlayScore { accum: 0, timer: 0 }
    }

    /// The points earned.
    pub fn accum(&self) -> (a: u32)
        ensures
            a == self.spec_accum(),
    {
        self.accum
    }

    /// Counts `elapsed_millis` more milliseconds of play. Every full
    /// `cycle_millis` carried over turn into one point (the points saturate
    /// at `u32::MAX`); the remainder is carried over.
    pub fn advance(&mut self, elapsed_millis: u32, cycle_millis: u32)
        requires
            cycle_millis > 0,
        ensures
            ({
                let total = (old(self).spec_timer() + elapsed_millis) as nat;
                if total >= cycle_millis {
                    &&& final(self).spec_accum() == min_nat(
                        old(self).spec_accum() + total / (cycle_millis as nat),
                        u32::MAX as nat,
                    )
                    &&& final(self).spec_timer() == total % (cycle_millis as nat)
                } else {
                    &&& final(self).spec_accum() == old(self).spec_accum()
                    &&& final(self).spec_timer() == total
                }
            }),
    {
        let total: u64 = self.timer as u64 + elapsed_millis as u64;
        if total >= cycle_millis as u64 {
            let points: u64 = total / (cycle_millis as u64);
            let sum: u64 = self.accum as u64 + points;
            self.accum = if sum > u32::MAX as u64 {
                u32::MAX
            } else {
                sum as u32
            };
            self.timer = (total % (cycle_millis as u64)) as u32;
        } else {
            self.timer = total as u32;
        }
    }

    /// The digit shown at position `place` of the score board, counting from
    /// the ones (`place` 0) to the hundred-thousands (`place` 5).
    pub fn digit(&self, place: u32) -> (d: u32)
        requires
            place < SCORE_DIGITS,
        ensures
            d == (self.spec_accum() / pow10(place as nat)) % 10,
            d < 10,
    {
        score_digit(self.accum, place)
    }
}

impl Default for PlayScore {
    fn default() -> (s: PlayScore)
        ensures
            s.spec_accum() == 0,
            s.spec_timer() == 0,
    {
        PlayScore::new()
    }
}

/// The smaller of two naturals.
pub open spec fn min_nat(a: nat, b: nat) -> nat {
    if a <= b {
        a
    } else {
        b
    }
}

/// The digit at position `place` of `score` (ones first).
pub fn score_digit(score: u32, place: u32) -> (d: u32)
    requires
        place < SCORE_DIGITS,
    ensures
        d == (score as nat / pow10(place as nat)) % 10,
        d < 10,
{
    proof {
        reveal_with_fuel(pow10, 7);
    }
    let divisor: u32 = if place == 0 {
        1
    } else if place == 1 {
        10
    } else if place == 2 {
        100
    } else if place == 3 {
        1_000
    } else if place == 4 {
        10_000
    } else {
        100_000
    };
    (score / divisor) % 10
}

/// The points carried plus the milliseconds carried over never lose play
/// time: unless the points saturate, `advance` adds exactly the elapsed time
/// to `accum * cycle + timer`, and the carried milliseconds stay below a cycle.
pub proof fn lemma_advance_keeps_time(
    accum: nat,
    timer: nat,
    elapsed: nat,
    cycle: nat,
)
    requires
        cycle > 0,
        timer < cycle,
        timer + elapsed >= cycle,
        accum + (timer + elapsed) / cycle <= u32::MAX,
    ensures
        ({
            let total = timer + elapsed;
            let new_accum = min_nat(accum + total / cycle, u32::MAX as nat);
            let new_timer = total % cycle;
            &&& new_accum * cycle + new_timer == accum * cycle + timer + elapsed
            &&& new_timer < cycle
        }),
{
    let total = timer + elapsed;
    assert(total == (total / cycle) * cycle + total % cycle) by (nonlinear_arith)
        requires
            cycle > 0,
    ;
    assert((accum + total / cycle) * cycle == accum * cycle + (total / cycle) * cycle) by (nonlinear_arith);
}

/// The six digits of the board spell the score modulo one million.
pub proof fn lemma_board_shows_score(score: nat)
    ensures
        (score / pow10(0)) % 10 + 10 * ((score / pow10(1)) % 10) + 100 * ((score / pow10(2)) % 10)
            + 1_000 * ((score / pow10(3)) % 10) + 10_000 * ((score / pow10(4)) % 10) + 100_000 * ((
        score / pow10(5)) % 10) == score % 1_000_000,
{
    reveal_with_fuel(pow10, 7);
    assert(pow10(0) == 1 && pow10(1) == 10 && pow10(2) == 100 && pow10(3) == 1_000 && pow10(4)
        == 10_000 && pow10(5) == 100_000);
    let s = score as int;
    assert(s % 1_000_000 == s % 10 + 10 * ((s / 10) % 100_000)) by (nonlinear_arith);
    assert((s / 10) % 100_000 == (s / 10) % 10 + 10 * ((s / 100) % 10_000)) by (nonlinear_arith);
    assert((s / 100) % 10_000 == (s / 100) % 10 + 10 * ((s / 1_000) % 1_000)) by (nonlinear_arith);
    assert((s / 1_000) % 1_000 == (s / 1_000) % 10 + 10 * ((s / 10_000) % 100)) by (nonlinear_arith);
    assert((s / 10_000) % 100 == (s / 10_000) % 10 + 10 * ((s / 100_000) % 10)) by (nonlinear_arith);
}

} // verus!
