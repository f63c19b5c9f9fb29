//! The statistics tracker: outcome counters, streaks, and the derived
//! end-of-session summary.
//!
//! Times are plain millisecond counts handed in by the caller; ratios are
//! carried as scaled integers (hundredths) so that every metric is exact
//! and well-defined even with zero attempts or a non-positive elapsed time.

use crate::engine::Outcome;
use vstd::prelude::*;

verus! {

/// Accuracy in hundredths of a percent: `round(correct / total * 10000)`,
/// and `0` when no attempt was recorded at all.
pub open spec fn accuracy_centipercent_of(correct: int, incorrect: int) -> int {
    let total = correct + incorrect;
    if total == 0 {
        0
    } else {
        (correct * 10000 + total / 2) / total
    }
}

/// Elapsed time between the start and the end of a session, clamped to `0`
/// when the clock reads an end not after the start.
pub open spec fn elapsed_ms_of(start_ms: int, now_ms: int) -> int {
    if now_ms > start_ms {
        now_ms - start_ms
    } else {
        0
    }
}

/// Typing speed in hundredths of a character per second:
/// `correct / seconds * 100`, and `0` for a non-positive elapsed time.
pub open spec fn chars_per_second_centi_of(correct: int, elapsed_ms: int) -> int {
    if elapsed_ms <= 0 {
        0
    } else {
        (correct * 100000) / elapsed_ms
    }
}

/// One step of the streak counters: a correct outcome lengthens the current
/// streak and lifts the best streak to it if it is longer; an incorrect
/// outcome resets the current streak to zero and leaves the best alone.
pub open spec fn streak_step(current: int, best: int, outcome: Outcome) -> (int, int) {
    if outcome == Outcome::Correct {
        let lengthened = current + 1;
        (lengthened, if best >= lengthened {
            best
        } else {
            lengthened
        })
    } else {
        (0, best)
    }
}

/// The streak counters after a whole sequence of outcomes, folded from the
/// given starting counters.
pub open spec fn streaks_after(current: int, best: int, outcomes: Seq<Outcome>) -> (int, int)
    decreases outcomes.len(),
{
    if outcomes.len() == 0 {
        (current, best)
    } else {
        let stepped = streak_step(current, best, outcomes[0]);
        streaks_after(stepped.0, stepped.1, outcomes.skip(1))
    }
}

/// The counters of one session, created at session start and fed one
/// classified outcome at a time.
pub struct Score {
    start_time_ms: u64,
    correct_count: u32,
    incorrect_count: u32,
    current_streak: u32,
    best_streak: u32,
}

impl Score {
    /// The session's start instant, in milliseconds.
    pub closed spec fn spec_start_time_ms(self) -> u64 {
        self.start_time_ms
    }

    /// How many keystrokes were judged correct.
    pub closed spec fn spec_correct(self) -> u32 {
        self.correct_count
    }

    /// How many keystrokes were judged incorrect.
    pub closed spec fn spec_incorrect(self) -> u32 {
        self.incorrect_count
    }

    /// The run of consecutive correct outcomes since the last incorrect one.
    pub closed spec fn spec_current_streak(self) -> u32 {
        self.current_streak
    }

    /// The longest run of consecutive correct outcomes seen so far.
    pub closed spec fn spec_best_streak(self) -> u32 {
        self.best_streak
    }

    /// Well-formedness: the current streak never exceeds the best, and no
    /// streak exceeds the number of correct keystrokes.
    pub open spec fn inv(self) -> bool {
        &&& self.spec_current_streak() <= self.spec_best_streak()
        &&& self.spec_best_streak() <= self.spec_correct()
    }

    /// Fresh counters for a session starting at the given instant.
    pub fn new(start_time_ms: u64) -> (r: Score)
        ensures
            r.inv(),
            r.spec_start_time_ms() == start_time_ms,
            r.spec_correct() == 0,
            r.spec_incorrect() == 0,
            r.spec_current_streak() == 0,
            r.spec_best_streak() == 0,
    {
        Score {
            start_time_ms,
            correct_count: 0,
            incorrect_count: 0,
            current_streak: 0,
            best_streak: 0,
        }
    }

    /// Records one correct keystroke: the correct count and the current
    /// streak grow by one, and the best streak is lifted to the current one
    /// if that is now longer.
    pub fn right(&mut self)
        requires
            old(self).inv(),
            old(self).spec_correct() < u32::MAX,
        ensures
            final(self).inv(),
            final(self).spec_start_time_ms() == old(self).spec_start_time_ms(),
            final(self).spec_correct() == old(self).spec_correct() + 1,
            final(self).spec_incorrect() == old(self).spec_incorrect(),
            ({
                let stepped = streak_step(
                    old(self).spec_current_streak() as int,
                    old(self).spec_best_streak() as int,
                    Outcome::Correct,
                );
                &&& final(self).spec_current_streak() == stepped.0
                &&& final(self).spec_best_streak() == stepped.1
            }),
            final(self).spec_best_streak() >= old(self).spec_best_streak(),
    {
        self.correct_count = self.correct_count + 1;
        self.current_streak = self.current_streak + 1;
        if self.current_streak > self.best_streak {
            self.best_streak = self.current_streak;
        }
    }

    /// Records one incorrect keystroke: the incorrect count grows by one and
    /// the current streak resets to exactly zero; the best streak is kept.
    pub fn wrong(&mut self)
        requires
            old(self).inv(),
            old(self).spec_incorrect() < u32::MAX,
        ensures
            final(self).inv(),
            final(self).spec_start_time_ms() == old(self).spec_start_time_ms(),
            final(self).spec_correct() == old(self).spec_correct(),
            final(self).spec_incorrect() == old(self).spec_incorrect() + 1,
            final(self).spec_current_streak() == 0,
            final(self).spec_best_streak() == old(self).spec_best_streak(),
    {
        self.incorrect_count = self.incorrect_count + 1;
        self.current_streak = 0;
    }

    /// Records one classified outcome, dispatching to `right` or `wrong`.
    pub fn record(&mut self, outcome: Outcome)
        requires
            old(self).inv(),
            outcome == Outcome::Correct ==> old(self).spec_correct() < u32::MAX,
            outcome == Outcome::Incorrect ==> old(self).spec_incorrect() < u32::MAX,
        ensures
            final(self).inv(),
            final(self).spec_start_time_ms() == old(self).spec_start_time_ms(),
            outcome == Outcome::Correct ==> final(self).spec_correct() == old(self).spec_correct()
                + 1 && final(self).spec_incorrect() == old(self).spec_incorrect(),
            outcome == Outcome::Incorrect ==> final(self).spec_incorrect() == old(
                self,
            ).spec_incorrect() + 1 && final(self).spec_correct() == old(self).spec_correct(),
            ({
                let stepped = streak_step(
                    old(self).spec_current_streak() as int,
                    old(self).spec_best_streak() as int,
                    outcome,
                );
                &&& final(self).spec_current_streak() == stepped.0
                &&& final(self).spec_best_streak() == stepped.1
            }),
            final(self).spec_best_streak() >= old(self).spec_best_streak(),
    {
        match outcome {
            Outcome::Correct => self.right(),
            Outcome::Incorrect => self.wrong(),
        }
    }
}

/// The end-of-session report.
#[derive(Clone, Copy, PartialEq, Eq, Structural, Debug)]
pub struct Summary {
    pub correct_count: u32,
    pub incorrect_count: u32,
    /// Accuracy in hundredths of a percent, in `0 ..= 10000`.
    pub accuracy_centipercent: u32,
    /// Speed in hundredths of a character per second.
    pub chars_per_second_centi: u64,
    /// Speed in hundredths of a character per minute: exactly sixty times
    /// the per-second figure.
    pub chars_per_minute_centi: u64,
    pub best_streak: u32,
}

impl Summary {
    /// What it means for this report to summarize the given counters at the
    /// given end instant: every field is pinned to a function of the two.
    pub open spec fn is_for(self, score: Score, now_ms: u64) -> bool {
        &&& self.correct_count == score.spec_correct()
        &&& self.incorrect_count == score.spec_incorrect()
        &&& self.best_streak == score.spec_best_streak()
        &&& self.accuracy_centipercent == accuracy_centipercent_of(
            score.spec_correct() as int,
            score.spec_incorrect() as int,
        )
        &&& self.chars_per_second_centi == chars_per_second_centi_of(
            score.spec_correct() as int,
            elapsed_ms_of(score.spec_start_time_ms() as int, now_ms as int),
        )
        &&& self.chars_per_minute_centi == self.chars_per_second_centi * 60
    }
}

impl Score {
    /// Derives the end-of-session report from the counters and the end
    /// instant. Reads the counters only, never changes them, and always
    /// yields a well-formed report: zero attempts give accuracy zero and a
    /// non-positive elapsed time gives speed zero, never an error.
    pub fn finalize(&self, now_ms: u64) -> (r: Summary)
        requires
            self.inv(),
        ensures
            r.is_for(*self, now_ms),
            r.accuracy_centipercent <= 10000,
    {
        proof {
            lemma_accuracy_bounds(self.correct_count as int, self.incorrect_count as int);
        }
        let total: u64 = self.correct_count as u64 + self.incorrect_count as u64;
        let accuracy: u32 = if total == 0 {
            0
        } else {
            (((self.correct_count as u64) * 10000 + total / 2) / total) as u32
        };
        let elapsed_ms: u64 = if now_ms > self.start_time_ms {
            now_ms - self.start_time_ms
        } else {
            0
        };
        let cps_centi: u64 = if elapsed_ms == 0 {
            0
        } else {
            ((self.correct_count as u64) * 100000) / elapsed_ms
        };
        proof {
            lemma_cps_bound(self.correct_count as int, elapsed_ms as int);
        }
        let cpm_centi: u64 = cps_centi * 60;
        Summary {
            correct_count: self.correct_count,
            incorrect_count: self.incorrect_count,
            accuracy_centipercent: accuracy,
            chars_per_second_centi: cps_centi,
            chars_per_minute_centi: cpm_centi,
            best_streak: self.best_streak,
        }
    }
}

/// Accuracy is always between zero and one hundred percent, is exactly zero
/// when no attempt was recorded, and exactly one hundred percent when every
/// recorded attempt was correct.
pub proof fn lemma_accuracy_bounds(correct: int, incorrect: int)
    requires
        0 <= correct,
        0 <= incorrect,
    ensures
        0 <= accuracy_centipercent_of(correct, incorrect) <= 10000,
        correct + incorrect == 0 ==> accuracy_centipercent_of(correct, incorrect) == 0,
        correct > 0 && incorrect == 0 ==> accuracy_centipercent_of(correct, incorrect) == 10000,
{
    let total = correct + incorrect;
    if total > 0 {
        assert(0 <= (correct * 10000 + total / 2) / total <= 10000) by (nonlinear_arith)
            requires
                0 <= correct,
                0 < total,
                correct <= total,
        ;
        if correct > 0 && incorrect == 0 {
            assert((correct * 10000 + total / 2) / total == 10000) by (nonlinear_arith)
                requires
                    0 < correct,
                    total == correct,
            ;
        }
    }
}

/// The per-second speed figure is small enough that scaling it to a
/// per-minute figure cannot overflow a 64-bit count.
proof fn lemma_cps_bound(correct: int, elapsed_ms: int)
    requires
        0 <= correct <= u32::MAX,
    ensures
        chars_per_second_centi_of(correct, elapsed_ms) * 60 <= u64::MAX,
        0 <= chars_per_second_centi_of(correct, elapsed_ms),
{
    if elapsed_ms > 0 {
        assert(0 <= (correct * 100000) / elapsed_ms <= correct * 100000) by (nonlinear_arith)
            requires
                0 <= correct,
                0 < elapsed_ms,
        ;
    }
}

/// Deriving the summary is deterministic: two reports for the same counters
/// and the same end instant agree in every field.
pub proof fn lemma_finalize_deterministic(score: Score, now_ms: u64, s1: Summary, s2: Summary)
    requires
        s1.is_for(score, now_ms),
        s2.is_for(score, now_ms),
    ensures
        s1 == s2,
{
}

/// Over any sequence of outcomes, from any starting counters, the best
/// streak never decreases.
pub proof fn lemma_best_streak_never_decreases(current: int, best: int, outcomes: Seq<Outcome>)
    ensures
        streaks_after(current, best, outcomes).1 >= best,
    decreases outcomes.len(),
{
    if outcomes.len() > 0 {
        let stepped = streak_step(current, best, outcomes[0]);
        lemma_best_streak_never_decreases(stepped.0, stepped.1, outcomes.skip(1));
    }
}

} // verus!
