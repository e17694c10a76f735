//! The listing workflow: the articles due within a window of next read dates,
//! and the reading of stored rows of an older or sparser shape.
use vstd::prelude::*;
use vstd::string::StringExecFns;

use crate::ingest::{missing_author, missing_title, text_or};
use crate::record::ArticleRecord;
use crate::status::ArticleStatus;
use crate::store::{in_window, records_in_window, ArticleStore};

verus! {

/// The articles whose next read date lies in the inclusive window
/// `[start, end]`; a missing bound leaves that side open. An empty result is
/// no error.
pub fn list_articles(store: &ArticleStore, start: Option<i64>, end: Option<i64>) -> (r: Vec<ArticleRecord>)
    ensures
        r@ == records_in_window(store@, start, end),
        forall|x: ArticleRecord| #[trigger] r@.contains(x) <==> store@.contains(x) && in_window(x.next_read_date, start, end),
{
    let r = store.list_by_next_read_date(start, end);
    proof {
        lemma_window_members(store@, start, end);
    }
    r
}

/// A listing holds exactly the stored records whose next read date lies in
/// the window: with both bounds, those between them inclusive; with only a
/// start, those at or after it.
pub proof fn lemma_window_members(s: Seq<ArticleRecord>, start: Option<i64>, end: Option<i64>)
    ensures
        forall|x: ArticleRecord| #[trigger] records_in_window(s, start, end).contains(x) <==> s.contains(x) && in_window(x.next_read_date, start, end),
        forall|i: int| 0 <= i < records_in_window(s, start, end).len() ==> in_window(
            (#[trigger] records_in_window(s, start, end)[i]).next_read_date,
            start,
            end,
        ),
        records_in_window(s, start, end).len() <= s.len(),
    decreases s.len(),
{
    reveal(Seq::filter);
    if s.len() > 0 {
        lemma_window_members(s.drop_last(), start, end);
        assert forall|x: ArticleRecord| s.contains(x) <==> (s.drop_last().contains(x) || x == s.last()) by {
            if s.contains(x) {
                let i = choose|i: int| 0 <= i < s.len() && s[i] == x;
                if i < s.len() - 1 {
                    assert(s.drop_last()[i] == x);
                }
            }
            if s.drop_last().contains(x) {
                let i = choose|i: int| 0 <= i < s.drop_last().len() && s.drop_last()[i] == x;
                assert(s[i] == x);
            }
            if x == s.last() {
                assert(s[s.len() - 1] == x);
            }
        }
        let rest = records_in_window(s.drop_last(), start, end);
        if in_window(s.last().next_read_date, start, end) {
            assert forall|x: ArticleRecord| rest.push(s.last()).contains(x) <==> (rest.contains(x) || x == s.last()) by {
                if rest.push(s.last()).contains(x) {
                    let i = choose|i: int| 0 <= i < rest.len() + 1 && rest.push(s.last())[i] == x;
                    if i < rest.len() {
                        assert(rest[i] == x);
                    }
                }
                if rest.contains(x) {
                    let i = choose|i: int| 0 <= i < rest.len() && rest[i] == x;
                    assert(rest.push(s.last())[i] == x);
                }
                if x == s.last() {
                    assert(rest.push(s.last())[rest.len() as int] == x);
                }
            }
        }
        assert forall|x: ArticleRecord| #[trigger] records_in_window(s, start, end).contains(x) <==> s.contains(x)
            && in_window(x.next_read_date, start, end) by {
            assert(s.contains(x) <==> (s.drop_last().contains(x) || x == s.last()));
            assert(rest.contains(x) <==> s.drop_last().contains(x) && in_window(x.next_read_date, start, end));
            if in_window(s.last().next_read_date, start, end) {
                assert(records_in_window(s, start, end) == rest.push(s.last()));
                assert(rest.push(s.last()).contains(x) <==> (rest.contains(x) || x == s.last()));
            } else {
                assert(records_in_window(s, start, end) == rest);
            }
        }
    } else {
        assert(records_in_window(s, start, end) =~= Seq::<ArticleRecord>::empty());
    }
}

/// A stored article row as the key-value table holds it; any field but the
/// identifier, the URL and the two dates may be absent from older rows.
pub struct StoredArticle {
    pub ulid: String,
    pub url: String,
    pub title: Option<String>,
    pub author: Option<String>,
    pub content_location: Option<String>,
    pub status: Option<ArticleStatus>,
    pub ingest_date: i64,
    pub next_read_date: i64,
}

/// The record read from a stored row: a missing title or author becomes its
/// placeholder text, and a missing status `New`.
pub fn record_from_stored(row: StoredArticle) -> (r: ArticleRecord)
    ensures
        r.ulid == row.ulid,
        r.source_url == row.url,
        r.title@ == text_or(row.title, missing_title()),
        r.author@ == text_or(row.author, missing_author()),
        r.s3_archive_arn == row.content_location,
        r.archive_url is None,
        r.summary is None,
        r.s3_mp3_arn is None,
        r.status == (match row.status {
            Some(s) => s,
            None => ArticleStatus::New,
        }),
        r.ingest_date == row.ingest_date,
        r.next_read_date == row.next_read_date,
{
    let title = match row.title {
        Some(t) => t,
        None => String::from_str("NO TITLE FOUND"),
    };
    let author = match row.author {
        Some(a) => a,
        None => String::from_str("NO AUTHOR FOUND"),
    };
    let status = match row.status {
        Some(s) => s,
        None => ArticleStatus::New,
    };
    ArticleRecord {
        ulid: row.ulid,
        title,
        author,
        source_url: row.url,
        archive_url: None,
        ingest_date: row.ingest_date,
        summary: None,
        s3_archive_arn: row.content_location,
        s3_mp3_arn: None,
        status,
        next_read_date: row.next_read_date,
    }
}

/// The key condition of the table query for a listing: the partition of all
/// articles, narrowed by the sort key (the next read date) to the bounds given.
pub open spec fn key_condition(has_start: bool, has_end: bool) -> Seq<char> {
    if has_start && has_end {
        "PK = :articles AND SK BETWEEN :start AND :end"@
    } else if has_start {
        "PK = :articles AND SK >= :start"@
    } else if has_end {
        "PK = :articles AND SK <= :end"@
    } else {
        "PK = :articles"@
    }
}

/// The key condition of the table query for a listing with the given bounds.
pub fn key_condition_expression(has_start: bool, has_end: bool) -> (r: String)
    ensures
        r@ == key_condition(has_start, has_end),
{
    let text = if has_start && has_end {
        "PK = :articles AND SK BETWEEN :start AND :end"
    } else if has_start {
        "PK = :articles AND SK >= :start"
    } else if has_end {
        "PK = :articles AND SK <= :end"
    } else {
        "PK = :articles"
    };
    String::from_str(text)
}

/// The query string that asks the listing endpoint for the window between the
/// given bounds, each already written as a timestamp.
pub open spec fn window_query(start: Option<Seq<char>>, end: Option<Seq<char>>) -> Seq<char> {
    match (start, end) {
        (Some(s), Some(e)) => "?start="@ + s + "&end="@ + e,
        (Some(s), None) => "?start="@ + s,
        (None, Some(e)) => "?end="@ + e,
        (None, None) => Seq::empty(),
    }
}

/// The listing endpoint `base` with the query for the given bounds appended.
pub fn articles_url(base: &str, start: Option<&str>, end: Option<&str>) -> (r: String)
    ensures
        r@ == base@ + window_query(
            match start {
                Some(s) => Some(s@),
                None => None,
            },
            match end {
                Some(e) => Some(e@),
                None => None,
            },
        ),
{
    let mut url = String::from_str(base);
    match (start, end) {
        (Some(s), Some(e)) => {
            url.append("?start=");
            url.append(s);
            url.append("&end=");
            url.append(e);
        },
        (Some(s), None) => {
            url.append("?start=");
            url.append(s);
        },
        (None, Some(e)) => {
            url.append("?end=");
            url.append(e);
        },
        (None, None) => {},
    }
    proof {
        assert(base@ + Seq::<char>::empty() =~= base@);
    }
    url
}

} // verus!
