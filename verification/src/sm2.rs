//! The SuperMemo-2 derived scheduler: a pure function from the current
//! memory state and a quality grade to the next memory state.
//!
//! Quality is graded on a four-point scale (1 = Forgot, 2 = Hard,
//! 3 = Good, 4 = Easy); a grade of 3 or better counts as a successful
//! recall. The ease factor is kept in thousandths, so the classic
//! update `EF' = EF + (0.1 - (5 - q) * (0.08 + (5 - q) * 0.02))`
//! becomes exact integer arithmetic; the formula keeps its constants
//! from the 0..5 grading scale of the classic algorithm, so even an
//! "Easy" grade of 4 never raises the ease factor.

use vstd::prelude::*;

use crate::models::{LearningLog, LearningStatus};

verus! {

/// Floor of the ease factor, in thousandths (1.3).
pub const MIN_E_FACTOR: u32 = 1300;

/// Ease factor a fresh word starts with, in thousandths (2.5).
pub const INITIAL_E_FACTOR: u32 = 2500;

/// A word is mastered once a successful review pushes its interval
/// strictly past this many days.
pub const MASTERY_INTERVAL_DAYS: u64 = 21;

/// Seconds per day, used to turn an interval into a due timestamp.
pub const SECONDS_PER_DAY: i64 = 86400;

/// Change of the ease factor (in thousandths) for a grade, from the
/// classic formula `0.1 - (5 - q) * (0.08 + (5 - q) * 0.02)`.
pub open spec fn spec_ef_delta(quality: int) -> int {
    let missed = 5 - quality;
    100 - missed * (80 + 20 * missed)
}

/// Next ease factor in thousandths: the delta is applied and the
/// result is floored at 1300.
pub open spec fn spec_next_e_factor(e_factor: int, quality: int) -> int {
    let raw = e_factor + spec_ef_delta(quality);
    if raw >= MIN_E_FACTOR {
        raw
    } else {
        MIN_E_FACTOR as int
    }
}

/// Next consecutive-success count: one more success on a passing
/// grade, reset to zero on a lapse.
pub open spec fn spec_next_repetition(repetition: int, quality: int) -> int {
    if quality >= 3 {
        repetition + 1
    } else {
        0
    }
}

/// Next interval in days. On a passing grade: 1 day after the first
/// success, 6 after the second, then the rounded product of the
/// success count and the ease factor. A lapse always resets to 1 day.
pub open spec fn spec_next_interval(repetition: int, e_factor: int, quality: int) -> int {
    if quality >= 3 {
        if repetition == 0 {
            1
        } else if repetition == 1 {
            6
        } else {
            (repetition * e_factor + 500) / 1000
        }
    } else {
        1
    }
}

/// Compute the next memory state from the current one and a grade.
///
/// Returns `(new_repetition, new_interval_days, new_e_factor)`; the
/// ease factor is in thousandths, as everywhere in this crate.
pub fn update_memory_state(current_repetition: u32, current_ef: u32, quality: u8) -> (r: (
    u32,
    u64,
    u32,
))
    requires
        1 <= quality <= 4,
        current_ef >= MIN_E_FACTOR,
        current_repetition < u32::MAX,
    ensures
        r.0 == spec_next_repetition(current_repetition as int, quality as int),
        r.1 == spec_next_interval(current_repetition as int, current_ef as int, quality as int),
        r.2 == spec_next_e_factor(current_ef as int, quality as int),
        r.2 >= MIN_E_FACTOR,
        r.0 > 0 ==> r.1 >= 1,
{
    let next_repetition: u32;
    let next_interval: u64;
    if quality >= 3 {
        if current_repetition == 0 {
            next_interval = 1;
        } else if current_repetition == 1 {
            next_interval = 6;
        } else {
            proof {
                assert((current_repetition as u64) * (current_ef as u64) <= 0xffff_ffff
                    * 0xffff_ffff) by (nonlinear_arith)
                    requires
                        current_repetition as u64 <= 0xffff_ffff,
                        current_ef as u64 <= 0xffff_ffff,
                ;
            }
            let product: u64 = (current_repetition as u64) * (current_ef as u64);
            next_interval = (product + 500) / 1000;
            proof {
                assert((current_repetition as int) * (current_ef as int) >= 2 * 1300)
                    by (nonlinear_arith)
                    requires
                        current_repetition >= 2,
                        current_ef >= 1300,
                ;
            }
        }
        next_repetition = current_repetition + 1;
    } else {
        next_repetition = 0;
        next_interval = 1;
    }

    let ef_drop: u32 = if quality == 4 {
        0
    } else if quality == 3 {
        140
    } else if quality == 2 {
        320
    } else {
        540
    };
    let next_ef: u32 = if current_ef >= MIN_E_FACTOR + ef_drop {
        current_ef - ef_drop
    } else {
        MIN_E_FACTOR
    };

    (next_repetition, next_interval, next_ef)
}

/// Compute the next memory state, rejecting a grade outside the
/// four-point scale: exactly the in-range grades succeed, so a caller
/// passing a bad grade hears about it instead of having it clamped.
pub fn try_update_memory_state(current_repetition: u32, current_ef: u32, quality: u8) -> (r:
    Option<(u32, u64, u32)>)
    requires
        current_ef >= MIN_E_FACTOR,
        current_repetition < u32::MAX,
    ensures
        1 <= quality <= 4 ==> r == Some(
            (
                spec_next_repetition(current_repetition as int, quality as int) as u32,
                spec_next_interval(
                    current_repetition as int,
                    current_ef as int,
                    quality as int,
                ) as u64,
                spec_next_e_factor(current_ef as int, quality as int) as u32,
            ),
        ),
        !(1 <= quality <= 4) ==> r is None,
{
    if 1 <= quality && quality <= 4 {
        Some(update_memory_state(current_repetition, current_ef, quality))
    } else {
        None
    }
}

/// The whole memory state after grading `log` with `quality` at time
/// `now`: scheduler output, the new due timestamp, and the mastery
/// classification.
pub open spec fn spec_process_review(log: LearningLog, quality: int, now: int) -> LearningLog {
    let repetition = spec_next_repetition(log.repetition as int, quality);
    let interval = spec_next_interval(log.repetition as int, log.e_factor as int, quality);
    let e_factor = spec_next_e_factor(log.e_factor as int, quality);
    LearningLog {
        word_id: log.word_id,
        repetition: repetition as u32,
        interval: interval as u64,
        e_factor: e_factor as u32,
        next_review: (now + interval * SECONDS_PER_DAY) as i64,
        status: if quality >= 3 {
            if interval > MASTERY_INTERVAL_DAYS {
                LearningStatus::Mastered
            } else {
                LearningStatus::Learning
            }
        } else {
            LearningStatus::Learning
        },
    }
}

/// Apply one review outcome to a memory state: update the scheduler
/// fields, move the due date `interval` days past `now`, and refresh
/// the mastery classification.
pub fn process_review(log: &mut LearningLog, quality: u8, now: i64)
    requires
        old(log).wf(),
        old(log).repetition < u32::MAX,
        1 <= quality <= 4,
        0 <= now,
        now + SECONDS_PER_DAY * spec_next_interval(
            old(log).repetition as int,
            old(log).e_factor as int,
            quality as int,
        ) <= i64::MAX,
    ensures
        *final(log) == spec_process_review(*old(log), quality as int, now as int),
        final(log).wf(),
        final(log).word_id == old(log).word_id,
{
    let (n, i, ef) = update_memory_state(log.repetition, log.e_factor, quality);
    log.repetition = n;
    log.interval = i;
    log.e_factor = ef;
    log.next_review = now + (i as i64) * SECONDS_PER_DAY;
    if quality >= 3 {
        if i > MASTERY_INTERVAL_DAYS {
            log.status = LearningStatus::Mastered;
        } else {
            log.status = LearningStatus::Learning;
        }
    } else {
        log.status = LearningStatus::Learning;
    }
}

/// The new ease factor never falls below the 1.3 floor, whatever the
/// prior state and whatever in-range grade is given.
pub proof fn lemma_e_factor_floor(repetition: int, e_factor: int, quality: int)
    requires
        repetition >= 0,
        e_factor >= MIN_E_FACTOR,
        1 <= quality <= 4,
    ensures
        spec_next_e_factor(e_factor, quality) >= MIN_E_FACTOR,
{
}

/// A lapse (quality below 3) resets the success count to zero and the
/// interval to one day, regardless of the prior state.
pub proof fn lemma_lapse_resets(repetition: int, e_factor: int, quality: int)
    requires
        repetition >= 0,
        1 <= quality < 3,
    ensures
        spec_next_repetition(repetition, quality) == 0,
        spec_next_interval(repetition, e_factor, quality) == 1,
{
}

/// The first-ever success of a word schedules it one day out and
/// starts the success count at one, for any passing grade.
pub proof fn lemma_first_success(e_factor: int, quality: int)
    requires
        3 <= quality <= 4,
    ensures
        spec_next_repetition(0, quality) == 1,
        spec_next_interval(0, e_factor, quality) == 1,
{
}

/// The second consecutive success schedules a word six days out, for
/// any passing grade and any ease factor.
pub proof fn lemma_second_success(e_factor: int, quality: int)
    requires
        3 <= quality <= 4,
    ensures
        spec_next_interval(1, e_factor, quality) == 6,
{
}

/// Mastery tracks the interval: a passing grade whose new interval
/// exceeds 21 days marks the word mastered, any other passing grade
/// leaves it at learning, and any lapse resets it to learning.
pub proof fn lemma_mastery_transition(log: LearningLog, quality: int, now: int)
    requires
        1 <= quality <= 4,
    ensures
        quality >= 3 && spec_next_interval(log.repetition as int, log.e_factor as int, quality)
            > MASTERY_INTERVAL_DAYS ==> spec_process_review(log, quality, now).status
            == LearningStatus::Mastered,
        quality >= 3 && spec_next_interval(log.repetition as int, log.e_factor as int, quality)
            <= MASTERY_INTERVAL_DAYS ==> spec_process_review(log, quality, now).status
            == LearningStatus::Learning,
        quality < 3 ==> spec_process_review(log, quality, now).status == LearningStatus::Learning,
{
}

} // verus!
