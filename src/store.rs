//! The article record store: one record per article, keyed by its identifier,
//! with range queries on the next read date.
use vstd::prelude::*;
use vstd::string::StringExecFns;

use crate::record::ArticleRecord;
use crate::status::ArticleStatus;
use crate::timing::LATEST_TIMESTAMP;

verus! {

/// Why a store operation failed.
#[derive(Debug, Clone, Copy, PartialEq, Eq, Structural)]
pub enum StoreError {
    /// No record has the requested identifier.
    NotFound,
    /// A record with the new record's identifier is already stored.
    DuplicateId,
}

/// Whether some record of `s` has the identifier `id`.
pub open spec fn has_id(s: Seq<ArticleRecord>, id: Seq<char>) -> bool {
    exists|i: int| 0 <= i < s.len() && (#[trigger] s[i]).ulid@ == id
}

/// Whether the identifiers of the records of `s` are pairwise distinct.
pub open spec fn ids_unique(s: Seq<ArticleRecord>) -> bool {
    forall|i: int, j: int|
        0 <= i < s.len() && 0 <= j < s.len() && i != j ==> (#[trigger] s[i]).ulid@ != (#[trigger] s[j]).ulid@
}

/// Whether `date` lies within the inclusive window; a missing bound leaves
/// that side open.
pub open spec fn in_window(date: i64, start: Option<i64>, end: Option<i64>) -> bool {
    (start is None || start->0 <= date) && (end is None || date <= end->0)
}

/// Whether a record is due within the window.
pub open spec fn due_within(start: Option<i64>, end: Option<i64>) -> spec_fn(ArticleRecord) -> bool {
    |r: ArticleRecord| in_window(r.next_read_date, start, end)
}

/// The records of `s` whose next read date lies in the window, in store order.
pub open spec fn records_in_window(s: Seq<ArticleRecord>, start: Option<i64>, end: Option<i64>) -> Seq<
    ArticleRecord,
> {
    s.filter(due_within(start, end))
}

/// `s` with the status and next read date of the record `id` replaced.
pub open spec fn status_updated(
    s: Seq<ArticleRecord>,
    id: Seq<char>,
    status: ArticleStatus,
    next_read_date: int,
) -> Seq<ArticleRecord> {
    Seq::new(
        s.len(),
        |i: int|
            if s[i].ulid@ == id {
                s[i].with_status(status, next_read_date)
            } else {
                s[i]
            },
    )
}

/// `s` with the next read date of the record `id` replaced.
pub open spec fn next_read_date_updated(s: Seq<ArticleRecord>, id: Seq<char>, date: i64) -> Seq<
    ArticleRecord,
> {
    Seq::new(
        s.len(),
        |i: int|
            if s[i].ulid@ == id {
                s[i].with_next_read_date(date)
            } else {
                s[i]
            },
    )
}

/// The persisted article records.
pub struct ArticleStore {
    records: Vec<ArticleRecord>,
}

impl View for ArticleStore {
    type V = Seq<ArticleRecord>;

    closed spec fn view(&self) -> Seq<ArticleRecord> {
        self.records@
    }
}

impl ArticleStore {
    /// Well-formed: one record per identifier.
    pub open spec fn wf(&self) -> bool {
        ids_unique(self@)
    }

    /// An empty store.
    pub fn new() -> (r: ArticleStore)
        ensures
            r.wf(),
            r@ == Seq::<ArticleRecord>::empty(),
    {
        ArticleStore { records: Vec::new() }
    }

    /// The number of stored records.
    pub fn len(&self) -> (r: usize)
        ensures
            r == self@.len(),
    {
        self.records.len()
    }

    /// The position of the record with identifier `id`, if there is one.
    pub fn position_of(&self, id: &str) -> (r: Option<usize>)
        ensures
            r is Some ==> r->0 < self@.len() && self@[r->0 as int].ulid@ == id@,
            r is None <==> !has_id(self@, id@),
    {
        let key = String::from_str(id);
        let mut i: usize = 0;
        while i < self.records.len()
            invariant
                i <= self@.len(),
                key@ == id@,
                forall|j: int| 0 <= j < i ==> (#[trigger] self@[j]).ulid@ != id@,
            decreases self@.len() - i,
        {
            if self.records[i].ulid == key {
                return Some(i);
            }
            i = i + 1;
        }
        None
    }

    /// The record at position `i`.
    pub fn record_at(&self, i: usize) -> (r: &ArticleRecord)
        requires
            i < self@.len(),
        ensures
            *r == self@[i as int],
    {
        &self.records[i]
    }

    /// The record with identifier `id`, if there is one.
    pub fn get(&self, id: &str) -> (r: Option<&ArticleRecord>)
        ensures
            r is Some ==> self@.contains(*r->0) && r->0.ulid@ == id@,
            r is None <==> !has_id(self@, id@),
    {
        match self.position_of(id) {
            Some(i) => Some(&self.records[i]),
            None => None,
        }
    }

    /// Persists a new record, unless its identifier is already taken.
    pub fn create(&mut self, record: ArticleRecord) -> (r: Result<(), StoreError>)
        requires
            old(self).wf(),
        ensures
            final(self).wf(),
            r is Err <==> has_id(old(self)@, record.ulid@),
            r is Err ==> r == Err::<(), StoreError>(StoreError::DuplicateId) && final(self)@ == old(self)@,
            r is Ok ==> final(self)@ == old(self)@.push(record),
    {
        if self.position_of(record.ulid.as_str()).is_some() {
            return Err(StoreError::DuplicateId);
        }
        self.records.push(record);
        Ok(())
    }

    /// The records whose next read date lies within the inclusive window
    /// `[start, end]`; a missing bound leaves that side open.
    pub fn list_by_next_read_date(&self, start: Option<i64>, end: Option<i64>) -> (r: Vec<ArticleRecord>)
        ensures
            r@ == records_in_window(self@, start, end),
    {
        let mut out: Vec<ArticleRecord> = Vec::new();
        let mut i: usize = 0;
        proof {
            reveal(Seq::filter);
            assert(self@.take(0) =~= Seq::<ArticleRecord>::empty());
        }
        while i < self.records.len()
            invariant
                i <= self@.len(),
                out@ == records_in_window(self@.take(i as int), start, end),
            decreases self@.len() - i,
        {
            let rec = &self.records[i];
            proof {
                assert(self@.take(i + 1) == self@.take(i as int).push(self@[i as int]));
                self@.take(i as int).lemma_filter_push(self@[i as int], due_within(start, end));
            }
            if (start.is_none() || start.unwrap() <= rec.next_read_date) && (end.is_none()
                || rec.next_read_date <= end.unwrap()) {
                out.push(rec.copy());
            }
            i = i + 1;
        }
        assert(self@.take(self@.len() as int) == self@);
        out
    }

    /// Sets the status of the record `id` and reschedules it to `now` plus the
    /// new status's interval.
    pub fn update_status(&mut self, id: &str, new_status: ArticleStatus, now: i64) -> (r: Result<
        (),
        StoreError,
    >)
        requires
            old(self).wf(),
            now <= LATEST_TIMESTAMP,
        ensures
            final(self).wf(),
            r is Err <==> !has_id(old(self)@, id@),
            r is Err ==> r == Err::<(), StoreError>(StoreError::NotFound) && final(self)@ == old(self)@,
            r is Ok ==> final(self)@ == status_updated(
                old(self)@,
                id@,
                new_status,
                now + new_status.spec_repeat_duration(),
            ),
    {
        match self.position_of(id) {
            None => Err(StoreError::NotFound),
            Some(i) => {
                let date = now + new_status.repeat_duration();
                let mut rec = self.records[i].copy();
                rec.status = new_status;
                rec.next_read_date = date;
                self.records.set(i, rec);
                assert(self@ =~= status_updated(old(self)@, id@, new_status, date as int));
                Ok(())
            },
        }
    }

    /// Reschedules the record `id` to `date`, keeping its status.
    pub fn update_next_read_date(&mut self, id: &str, date: i64) -> (r: Result<(), StoreError>)
        requires
            old(self).wf(),
        ensures
            final(self).wf(),
            r is Err <==> !has_id(old(self)@, id@),
            r is Err ==> r == Err::<(), StoreError>(StoreError::NotFound) && final(self)@ == old(self)@,
            r is Ok ==> final(self)@ == next_read_date_updated(old(self)@, id@, date),
    {
        match self.position_of(id) {
            None => Err(StoreError::NotFound),
            Some(i) => {
                let mut rec = self.records[i].copy();
                rec.next_read_date = date;
                self.records.set(i, rec);
                assert(self@ =~= next_read_date_updated(old(self)@, id@, date));
                Ok(())
            },
        }
    }
}

} // verus!
