use vstd::prelude::*;
use crate::beat_clock::StageTrackPlayhead;

verus! {

/// Timing errors below this many microseconds, either way, are great.
pub const GREAT_WINDOW_MICROS: i128 = 32_000;

/// Timing errors below this many microseconds, either way, are good.
pub const GOOD_WINDOW_MICROS: i128 = 64_000;

/// Timing errors below this many microseconds, either way, are bad; larger
/// ones miss.
pub const BAD_WINDOW_MICROS: i128 = 128_000;

/// Grade of one input, from worst to best.
#[derive(PartialEq, Eq, Structural, Clone, Copy, Debug)]
pub enum Score {
    Miss,
    Bad,
    Good,
    Great,
}

/// Absolute value of an integer.
pub open spec fn abs(x: int) -> nat {
    if x >= 0 {
        x as nat
    } else {
        (-x) as nat
    }
}

/// The grade of a timing error of `diff` microseconds.
pub open spec fn score_of(diff: int) -> Score {
    if abs(diff) < GREAT_WINDOW_MICROS {
        Score::Great
    } else if abs(diff) < GOOD_WINDOW_MICROS {
        Score::Good
    } else if abs(diff) < BAD_WINDOW_MICROS {
        Score::Bad
    } else {
        Score::Miss
    }
}

/// Quality of a grade: a better grade has a larger rank.
pub open spec fn rank(s: Score) -> nat {
    match s {
        Score::Miss => 0,
        Score::Bad => 1,
        Score::Good => 2,
        Score::Great => 3,
    }
}

/// Grades a timing error of `diff` microseconds.
pub fn score_diff(diff: i128) -> (r: Score)
    ensures
        r == score_of(diff as int),
{
    if -GREAT_WINDOW_MICROS < diff && diff < GREAT_WINDOW_MICROS {
        Score::Great
    } else if -GOOD_WINDOW_MICROS < diff && diff < GOOD_WINDOW_MICROS {
        Score::Good
    } else if -BAD_WINDOW_MICROS < diff && diff < BAD_WINDOW_MICROS {
        Score::Bad
    } else {
        Score::Miss
    }
}

/// A larger timing error never earns a better grade.
pub proof fn lemma_score_monotonic(d1: int, d2: int)
    requires
        abs(d1) <= abs(d2),
    ensures
        rank(score_of(d2)) <= rank(score_of(d1)),
{
}

/// Signed timing error of an input judged against the cached playhead:
/// current time less the time of the nearest beat, in microseconds.
pub fn timing_error(playhead: &StageTrackPlayhead) -> (r: i128)
    ensures
        r == playhead@.current_time - playhead@.current_note_time,
{
    playhead.current_time() as i128 - playhead.current_note_time() as i128
}

} // verus!
