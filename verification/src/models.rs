//! Data model: dictionary words, per-word memory state, and the
//! immutable review-history records.

use vstd::prelude::*;

use crate::sm2::{INITIAL_E_FACTOR, MIN_E_FACTOR};

verus! {

/// A dictionary entry. The scheduler never looks inside a `Word`; the
/// fields are display data carried along with the memory state.
#[derive(Debug, Clone, PartialEq)]
pub struct Word {
    pub id: Option<i64>,
    pub spelling: String,
    pub phonetic: Option<String>,
    pub definition: String,
    pub translation: Option<String>,
    pub pos: Option<String>,
    pub collins: i32,
    pub oxford: bool,
    pub tag: Option<String>,
    pub bnc: Option<i32>,
    pub frq: Option<i32>,
    pub exchange: Option<String>,
}

/// Cached classification of how well a word is known.
#[derive(Debug, Clone, Copy, PartialEq, Eq, Structural)]
pub enum LearningStatus {
    New,
    Learning,
    Mastered,
}

/// The numeric code a `LearningStatus` is stored under.
pub open spec fn spec_status_code(status: LearningStatus) -> i32 {
    match status {
        LearningStatus::New => 0,
        LearningStatus::Learning => 1,
        LearningStatus::Mastered => 2,
    }
}

/// The status a stored numeric code decodes to; unknown codes decode
/// to `New`.
pub open spec fn spec_status_from_code(code: i32) -> LearningStatus {
    if code == 1 {
        LearningStatus::Learning
    } else if code == 2 {
        LearningStatus::Mastered
    } else {
        LearningStatus::New
    }
}

impl LearningStatus {
    /// The numeric code this status is stored under.
    pub fn code(&self) -> (code: i32)
        ensures
            code == spec_status_code(*self),
    {
        match self {
            LearningStatus::New => 0,
            LearningStatus::Learning => 1,
            LearningStatus::Mastered => 2,
        }
    }
}

impl From<i32> for LearningStatus {
    fn from(value: i32) -> (status: Self)
        ensures
            status == spec_status_from_code(value),
    {
        if value == 1 {
            LearningStatus::Learning
        } else if value == 2 {
            LearningStatus::Mastered
        } else {
            LearningStatus::New
        }
    }
}

impl vstd::std_specs::convert::FromSpecImpl<i32> for LearningStatus {
    open spec fn obeys_from_spec() -> bool {
        true
    }

    open spec fn from_spec(v: i32) -> Self {
        spec_status_from_code(v)
    }
}

/// Per-word memory state, one row per word.
///
/// `e_factor` is the SuperMemo-2 ease factor in thousandths (2500
/// stands for 2.5), `interval` is in days, and `next_review` is a unix
/// timestamp in seconds.
#[derive(Debug, Clone, Copy, PartialEq, Eq, Structural)]
pub struct LearningLog {
    pub word_id: i64,
    pub repetition: u32,
    pub interval: u64,
    pub e_factor: u32,
    pub next_review: i64,
    pub status: LearningStatus,
}

impl LearningLog {
    /// Invariant every stored memory state satisfies: the ease factor
    /// never falls below 1.3, and any word with at least one
    /// consecutive success has an interval of at least one day.
    pub open spec fn wf(self) -> bool {
        &&& self.e_factor >= MIN_E_FACTOR
        &&& self.repetition > 0 ==> self.interval >= 1
    }

    /// The memory state a word starts with when first selected for
    /// learning: no successes yet, ease factor 2.5, due immediately.
    pub fn new_for_word(word_id: i64, now: i64) -> (log: LearningLog)
        ensures
            log == (LearningLog {
                word_id,
                repetition: 0,
                interval: 0,
                e_factor: INITIAL_E_FACTOR,
                next_review: now,
                status: LearningStatus::New,
            }),
            log.wf(),
    {
        LearningLog {
            word_id,
            repetition: 0,
            interval: 0,
            e_factor: INITIAL_E_FACTOR,
            next_review: now,
            status: LearningStatus::New,
        }
    }
}

/// One immutable entry of the review audit trail: which word was
/// graded when, with which quality, and a snapshot of the memory state
/// the grading produced.
#[derive(Debug, Clone, Copy, PartialEq, Eq, Structural)]
pub struct HistoryRecord {
    pub word_id: i64,
    pub reviewed_at: i64,
    pub quality: u8,
    pub repetition: u32,
    pub interval: u64,
    pub e_factor: u32,
}

} // verus!
