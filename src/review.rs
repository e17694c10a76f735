//! The review workflow: advancing an article along the schedule, or
//! rescheduling it explicitly.
use vstd::prelude::*;

use crate::record::{ArticleRecord, ArticleUpdateMethod};
use crate::status::ArticleStatus;
use crate::store::{has_id, ids_unique, next_read_date_updated, ArticleStore, StoreError};
use crate::timing::{LATEST_TIMESTAMP, WEEK_MILLIS};

verus! {

/// `r` after a completed review at time `now`: the next status, due after
/// that status's interval.
pub open spec fn advanced_record(r: ArticleRecord, now: int) -> ArticleRecord {
    r.with_status(r.status.spec_next(), now + r.status.spec_next().spec_repeat_duration())
}

/// `s` with the record `id` advanced at time `now`.
pub open spec fn advanced(s: Seq<ArticleRecord>, id: Seq<char>, now: int) -> Seq<ArticleRecord> {
    Seq::new(
        s.len(),
        |i: int|
            if s[i].ulid@ == id {
                advanced_record(s[i], now)
            } else {
                s[i]
            },
    )
}

/// Advances the record `id` to the status after its current one, due `now`
/// plus the interval of that new status.
pub fn advance_status(store: &mut ArticleStore, id: &str, now: i64) -> (r: Result<(), StoreError>)
    requires
        old(store).wf(),
        now <= LATEST_TIMESTAMP,
    ensures
        final(store).wf(),
        r is Err <==> !has_id(old(store)@, id@),
        r is Err ==> r == Err::<(), StoreError>(StoreError::NotFound) && final(store)@ == old(store)@,
        r is Ok ==> final(store)@ == advanced(old(store)@, id@, now as int),
{
    match store.position_of(id) {
        None => Err(StoreError::NotFound),
        Some(i) => {
            let current = store.record_at(i).status;
            let next = current.next_status();
            let ghost before = store@;
            let res = store.update_status(id, next, now);
            assert(store@ =~= advanced(before, id@, now as int)) by {
                assert forall|j: int| 0 <= j < before.len() && (#[trigger] before[j]).ulid@ == id@ implies j
                    == i by {
                    if j != i {
                        assert(before[j].ulid@ != before[i as int].ulid@);
                    }
                }
            }
            res
        },
    }
}

/// Reschedules the record `id` to `date`; its status and every other field
/// stay as they are.
pub fn set_next_read_date(store: &mut ArticleStore, id: &str, date: i64) -> (r: Result<(), StoreError>)
    requires
        old(store).wf(),
    ensures
        final(store).wf(),
        r is Err <==> !has_id(old(store)@, id@),
        r is Err ==> r == Err::<(), StoreError>(StoreError::NotFound) && final(store)@ == old(store)@,
        r is Ok ==> final(store)@ == next_read_date_updated(old(store)@, id@, date),
{
    store.update_next_read_date(id, date)
}

/// The store after the change `method` to the record `id` at time `now`.
pub open spec fn updated(s: Seq<ArticleRecord>, id: Seq<char>, method: ArticleUpdateMethod, now: int) -> Seq<
    ArticleRecord,
> {
    match method {
        ArticleUpdateMethod::Status(_) => advanced(s, id, now),
        ArticleUpdateMethod::NextReadDate(d) => next_read_date_updated(s, id, d),
    }
}

/// Applies a requested change to the record `id`. A status request advances
/// the record from its current persisted status; the status it carries is
/// what the client expected and is not used.
pub fn apply_update(store: &mut ArticleStore, id: &str, method: ArticleUpdateMethod, now: i64) -> (r:
    Result<(), StoreError>)
    requires
        old(store).wf(),
        now <= LATEST_TIMESTAMP,
    ensures
        final(store).wf(),
        r is Err <==> !has_id(old(store)@, id@),
        r is Err ==> r == Err::<(), StoreError>(StoreError::NotFound) && final(store)@ == old(store)@,
        r is Ok ==> final(store)@ == updated(old(store)@, id@, method, now as int),
{
    match method {
        ArticleUpdateMethod::Status(_) => advance_status(store, id, now),
        ArticleUpdateMethod::NextReadDate(d) => set_next_read_date(store, id, d),
    }
}

/// The status and next read date of an article once it has been read at
/// `now`: the status after `current`, or `New` for an article without one.
pub fn requeue_plan(current: Option<ArticleStatus>, now: i64) -> (r: (ArticleStatus, i64))
    requires
        now <= LATEST_TIMESTAMP,
    ensures
        r.0 == (match current {
            Some(s) => s.spec_next(),
            None => ArticleStatus::New,
        }),
        r.1 == now + r.0.spec_repeat_duration(),
{
    let next = match current {
        Some(s) => s.next_status(),
        None => ArticleStatus::New,
    };
    (next, now + next.repeat_duration())
}

/// Rescheduling a record changes its next read date to `date` and nothing
/// else: the status and all other fields of every record are kept.
pub proof fn lemma_reschedule_changes_only_date(s: Seq<ArticleRecord>, id: Seq<char>, date: i64)
    ensures
        next_read_date_updated(s, id, date).len() == s.len(),
        forall|i: int|
            0 <= i < s.len() && s[i].ulid@ == id ==> {
                let n = #[trigger] next_read_date_updated(s, id, date)[i];
                &&& n.next_read_date == date
                &&& n.status == s[i].status
                &&& n.ulid == s[i].ulid
                &&& n.title == s[i].title
                &&& n.author == s[i].author
                &&& n.source_url == s[i].source_url
                &&& n.archive_url == s[i].archive_url
                &&& n.ingest_date == s[i].ingest_date
                &&& n.summary == s[i].summary
                &&& n.s3_archive_arn == s[i].s3_archive_arn
                &&& n.s3_mp3_arn == s[i].s3_mp3_arn
            },
        forall|i: int|
            0 <= i < s.len() && s[i].ulid@ != id ==> #[trigger] next_read_date_updated(s, id, date)[i]
                == s[i],
{
}

/// Advancing a record whose status is `Repetition2` gives it `Repetition3`,
/// due twelve weeks after the time of the review; the other records stay.
pub proof fn lemma_advance_from_repetition2(s: Seq<ArticleRecord>, i: int, now: int)
    requires
        ids_unique(s),
        0 <= i < s.len(),
        s[i].status == ArticleStatus::Repetition2,
        i64::MIN <= now <= LATEST_TIMESTAMP,
    ensures
        advanced(s, s[i].ulid@, now)[i].status == ArticleStatus::Repetition3,
        advanced(s, s[i].ulid@, now)[i].next_read_date == now + 12 * WEEK_MILLIS,
        forall|j: int| 0 <= j < s.len() && j != i ==> #[trigger] advanced(s, s[i].ulid@, now)[j] == s[j],
{
    assert forall|j: int| 0 <= j < s.len() && j != i implies #[trigger] advanced(s, s[i].ulid@, now)[j] == s[j] by {
        assert(s[j].ulid@ != s[i].ulid@);
    }
}

} // verus!
