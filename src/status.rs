//! The spaced-repetition schedule: how long an article waits in each status,
//! and which status follows a review.
use vstd::prelude::*;

use crate::timing::{weeks_to_millis, WEEK_MILLIS};

verus! {

/// The spaced-repetition stage of an article.
#[derive(Clone, Copy, Debug, PartialEq, Eq, Structural)]
pub enum ArticleStatus {
    New,
    Repetition1,
    Repetition2,
    Repetition3,
    Repetition4,
    Archive,
}

impl ArticleStatus {
    /// The status that follows this one on a completed review.
    pub open spec fn spec_next(self) -> ArticleStatus {
        match self {
            ArticleStatus::New => ArticleStatus::Repetition1,
            ArticleStatus::Repetition1 => ArticleStatus::Repetition2,
            ArticleStatus::Repetition2 => ArticleStatus::Repetition3,
            ArticleStatus::Repetition3 => ArticleStatus::Repetition4,
            ArticleStatus::Repetition4 => ArticleStatus::Archive,
            ArticleStatus::Archive => ArticleStatus::Archive,
        }
    }

    /// How many weeks an article in this status waits before its next review.
    pub open spec fn spec_repeat_weeks(self) -> int {
        match self {
            ArticleStatus::New => 1,
            ArticleStatus::Repetition1 => 2,
            ArticleStatus::Repetition2 => 4,
            ArticleStatus::Repetition3 => 12,
            ArticleStatus::Repetition4 => 26,
            ArticleStatus::Archive => 52,
        }
    }

    /// The review interval of this status, in milliseconds.
    pub open spec fn spec_repeat_duration(self) -> int {
        self.spec_repeat_weeks() * WEEK_MILLIS
    }

    /// The review interval of this status, in milliseconds.
    pub fn repeat_duration(&self) -> (r: i64)
        ensures
            r == self.spec_repeat_duration(),
            0 < r <= 52 * WEEK_MILLIS,
    {
        let weeks: i64 = match self {
            ArticleStatus::New => 1,
            ArticleStatus::Repetition1 => 2,
            ArticleStatus::Repetition2 => 4,
            ArticleStatus::Repetition3 => 12,
            ArticleStatus::Repetition4 => 26,
            ArticleStatus::Archive => 52,
        };
        weeks_to_millis(weeks)
    }

    pub fn next_status(&self) -> (r: ArticleStatus)
        ensures
            r == self.spec_next(),
    {
        match self {
            ArticleStatus::New => ArticleStatus::Repetition1,
            ArticleStatus::Repetition1 => ArticleStatus::Repetition2,
            ArticleStatus::Repetition2 => ArticleStatus::Repetition3,
            ArticleStatus::Repetition3 => ArticleStatus::Repetition4,
            ArticleStatus::Repetition4 => ArticleStatus::Archive,
            ArticleStatus::Archive => ArticleStatus::Archive,
        }
    }
}

/// The status reached from `s` after `n` completed reviews.
pub open spec fn advance_times(s: ArticleStatus, n: nat) -> ArticleStatus
    decreases n,
{
    if n == 0 {
        s
    } else {
        advance_times(s.spec_next(), (n - 1) as nat)
    }
}

/// From every status, five reviews or more lead to `Archive`, and `Archive`
/// is left unchanged by a further review.
pub proof fn lemma_reviews_reach_archive(s: ArticleStatus, n: nat)
    requires
        n >= 5,
    ensures
        advance_times(s, n) == ArticleStatus::Archive,
        ArticleStatus::Archive.spec_next() == ArticleStatus::Archive,
    decreases n,
{
    if n == 5 {
        reveal_with_fuel(advance_times, 6);
    } else {
        lemma_reviews_reach_archive(s.spec_next(), (n - 1) as nat);
    }
}

/// Any number of reviews leaves `Archive` where it is.
pub proof fn lemma_archive_absorbs(n: nat)
    ensures
        advance_times(ArticleStatus::Archive, n) == ArticleStatus::Archive,
    decreases n,
{
    if n > 0 {
        lemma_archive_absorbs((n - 1) as nat);
    }
}

/// `Archive` has a review interval of 52 weeks, the longest of all statuses.
pub proof fn lemma_archive_interval_longest(s: ArticleStatus)
    ensures
        ArticleStatus::Archive.spec_repeat_weeks() == 52,
        s.spec_repeat_weeks() <= ArticleStatus::Archive.spec_repeat_weeks(),
        s.spec_repeat_duration() <= ArticleStatus::Archive.spec_repeat_duration(),
{
}

} // verus!
