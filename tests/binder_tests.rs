use binder::alerts::{submit_article, AlertDisplay, AlertVariant};
use binder::ingest::{
    article_request, ingest_article, ingest_parsed, prepare_ingest, validate_article_url, IngestError,
    UrlValidationResult,
};
use binder::listing::{articles_url, key_condition_expression, list_articles, record_from_stored, StoredArticle};
use binder::record::{ArticleRecord, ArticleUpdateMethod, ParsedArticle};
use binder::review::{advance_status, apply_update, requeue_plan, set_next_read_date};
use binder::status::ArticleStatus;
use binder::store::{ArticleStore, StoreError};

const WEEK: i64 = 604_800_000;
const NOW: i64 = 1_700_000_000_000;

const ALL: [ArticleStatus; 6] = [
    ArticleStatus::New,
    ArticleStatus::Repetition1,
    ArticleStatus::Repetition2,
    ArticleStatus::Repetition3,
    ArticleStatus::Repetition4,
    ArticleStatus::Archive,
];

fn parsed(title: Option<&str>, byline: Option<&str>, content: Option<&str>) -> ParsedArticle {
    ParsedArticle {
        title: title.map(|s| s.to_string()),
        byline: byline.map(|s| s.to_string()),
        dir: None,
        lang: None,
        content: content.map(|s| s.to_string()),
        text_content: None,
        length: None,
        excerpt: None,
        site_name: None,
    }
}

fn record(id: &str, status: ArticleStatus, next_read_date: i64) -> ArticleRecord {
    ArticleRecord {
        ulid: id.to_string(),
        title: format!("title {id}"),
        author: format!("author {id}"),
        source_url: format!("https://example.com/{id}"),
        archive_url: None,
        ingest_date: NOW - WEEK,
        summary: None,
        s3_archive_arn: Some(format!("binder-content/{id}-content")),
        s3_mp3_arn: None,
        status,
        next_read_date,
    }
}

fn store_with(records: Vec<ArticleRecord>) -> ArticleStore {
    let mut store = ArticleStore::new();
    for r in records {
        store.create(r).unwrap();
    }
    store
}

fn ids(records: &[ArticleRecord]) -> Vec<String> {
    records.iter().map(|r| r.ulid.clone()).collect()
}

#[test]
fn next_status_follows_schedule() {
    let expected = [
        ArticleStatus::Repetition1,
        ArticleStatus::Repetition2,
        ArticleStatus::Repetition3,
        ArticleStatus::Repetition4,
        ArticleStatus::Archive,
        ArticleStatus::Archive,
    ];
    for (s, e) in ALL.iter().zip(expected.iter()) {
        assert_eq!(s.next_status(), *e);
    }
}

#[test]
fn repeat_duration_in_weeks() {
    let weeks = [1, 2, 4, 12, 26, 52];
    for (s, w) in ALL.iter().zip(weeks.iter()) {
        assert_eq!(s.repeat_duration(), w * WEEK);
    }
    assert_eq!(ArticleStatus::New.repeat_duration(), 604_800_000);
}

#[test]
fn every_status_reaches_archive_and_stays() {
    for s in ALL {
        let mut cur = s;
        for _ in 0..5 {
            cur = cur.next_status();
        }
        assert_eq!(cur, ArticleStatus::Archive);
        assert_eq!(cur.next_status(), ArticleStatus::Archive);
    }
}

#[test]
fn archive_interval_is_longest() {
    assert_eq!(ArticleStatus::Archive.repeat_duration(), 52 * WEEK);
    for s in ALL {
        assert!(s.repeat_duration() <= ArticleStatus::Archive.repeat_duration());
    }
}

#[test]
fn ingest_invalid_url_creates_nothing() {
    let mut store = ArticleStore::new();
    let r = ingest_article(&mut store, "not a url", Some(parsed(Some("T"), Some("A"), Some("body"))), NOW);
    assert!(matches!(r, Err(IngestError::InvalidUrl)));
    assert_eq!(store.len(), 0);
    assert!(matches!(article_request("not a url"), Err(IngestError::InvalidUrl)));
}

#[test]
fn ingest_valid_url_builds_new_record() {
    let mut store = ArticleStore::new();
    let url = "https://example.com/post";
    let receipt = ingest_parsed(
        &mut store,
        url,
        "01ARZ3NDEKTSV4RRFFQ69G5FAV".to_string(),
        Some(parsed(Some("T"), Some("A"), Some("body"))),
        NOW,
    )
    .ok()
    .unwrap();
    assert_eq!(store.len(), 1);
    let rec = store.get("01ARZ3NDEKTSV4RRFFQ69G5FAV").unwrap();
    assert_eq!(rec.title, "T");
    assert_eq!(rec.author, "A");
    assert_eq!(rec.source_url, url);
    assert_eq!(rec.status, ArticleStatus::New);
    assert_eq!(rec.ingest_date, NOW);
    assert_eq!(rec.next_read_date, NOW + WEEK);
    assert_eq!(rec.s3_archive_arn.as_deref(), Some("binder-content/01ARZ3NDEKTSV4RRFFQ69G5FAV-content"));
    let blob = receipt.blob.unwrap();
    assert_eq!(blob.bucket, "binder-content");
    assert_eq!(blob.key, "01ARZ3NDEKTSV4RRFFQ69G5FAV-content");
    assert_eq!(blob.content, "body");
    assert!(!blob.content.is_empty());
    assert_eq!(receipt.response.message, "Successfully stored https://example.com/post into DB");
}

#[test]
fn ingest_with_fresh_identifier() {
    let mut store = ArticleStore::new();
    let receipt = ingest_article(&mut store, "https://example.com/a", Some(parsed(None, None, None)), NOW);
    assert!(receipt.is_ok());
    let all = store.list_by_next_read_date(None, None);
    assert_eq!(all.len(), 1);
    assert_eq!(all[0].ulid.len(), 26);
    assert_eq!(all[0].title, "NO TITLE FOUND");
    assert_eq!(all[0].author, "NO AUTHOR FOUND");
    assert!(all[0].s3_archive_arn.is_none());
    assert!(receipt.ok().unwrap().blob.is_none());
}

#[test]
fn ingest_extraction_failure_creates_nothing() {
    let mut store = ArticleStore::new();
    let r = ingest_article(&mut store, "https://example.com/a", None, NOW);
    assert!(matches!(r, Err(IngestError::ExtractionFailed)));
    assert_eq!(store.len(), 0);
}

#[test]
fn ingest_duplicate_identifier_is_store_error() {
    let mut store = store_with(vec![record("X1", ArticleStatus::New, NOW)]);
    let r = ingest_parsed(&mut store, "https://example.com/b", "X1".to_string(), Some(parsed(None, None, None)), NOW);
    assert!(matches!(r, Err(IngestError::Store(StoreError::DuplicateId))));
    assert_eq!(store.len(), 1);
    assert_eq!(store.get("X1").unwrap().source_url, "https://example.com/X1");
}

#[test]
fn create_rejects_duplicate_id() {
    let mut store = store_with(vec![record("A", ArticleStatus::New, NOW)]);
    assert_eq!(store.create(record("A", ArticleStatus::Archive, NOW)), Err(StoreError::DuplicateId));
    assert_eq!(store.len(), 1);
    assert_eq!(store.get("A").unwrap().status, ArticleStatus::New);
}

#[test]
fn prepare_ingest_without_content_has_no_blob() {
    let plan = prepare_ingest("https://example.com/c", "ID".to_string(), parsed(Some("T"), None, None), NOW);
    assert!(plan.blob.is_none());
    assert!(plan.record.s3_archive_arn.is_none());
    assert_eq!(plan.record.author, "NO AUTHOR FOUND");
    assert_eq!(plan.record.title, "T");
}

#[test]
fn advance_repetition2_to_repetition3() {
    let mut store = store_with(vec![record("A", ArticleStatus::Repetition2, NOW), record("B", ArticleStatus::New, NOW)]);
    assert_eq!(advance_status(&mut store, "A", NOW), Ok(()));
    let a = store.get("A").unwrap();
    assert_eq!(a.status, ArticleStatus::Repetition3);
    assert_eq!(a.next_read_date, NOW + 12 * WEEK);
    let b = store.get("B").unwrap();
    assert_eq!(b.status, ArticleStatus::New);
    assert_eq!(b.next_read_date, NOW);
}

#[test]
fn advance_archive_stays_archive() {
    let mut store = store_with(vec![record("A", ArticleStatus::Archive, NOW)]);
    assert_eq!(advance_status(&mut store, "A", NOW), Ok(()));
    let a = store.get("A").unwrap();
    assert_eq!(a.status, ArticleStatus::Archive);
    assert_eq!(a.next_read_date, NOW + 52 * WEEK);
}

#[test]
fn set_next_read_date_changes_only_date() {
    let mut store = store_with(vec![record("A", ArticleStatus::Repetition1, NOW)]);
    let before = store.get("A").unwrap().copy();
    let d = NOW + 3 * WEEK + 17;
    assert_eq!(set_next_read_date(&mut store, "A", d), Ok(()));
    let after = store.get("A").unwrap();
    assert_eq!(after.next_read_date, d);
    assert_eq!(after.status, before.status);
    assert_eq!(after.ulid, before.ulid);
    assert_eq!(after.title, before.title);
    assert_eq!(after.author, before.author);
    assert_eq!(after.source_url, before.source_url);
    assert_eq!(after.archive_url, before.archive_url);
    assert_eq!(after.ingest_date, before.ingest_date);
    assert_eq!(after.summary, before.summary);
    assert_eq!(after.s3_archive_arn, before.s3_archive_arn);
    assert_eq!(after.s3_mp3_arn, before.s3_mp3_arn);
}

#[test]
fn listing_window_inclusive() {
    let store = store_with(vec![
        record("before", ArticleStatus::New, NOW - 1),
        record("start", ArticleStatus::New, NOW),
        record("inside", ArticleStatus::New, NOW + 3),
        record("end", ArticleStatus::New, NOW + WEEK),
        record("after", ArticleStatus::New, NOW + WEEK + 1),
    ]);
    let window = list_articles(&store, Some(NOW), Some(NOW + WEEK));
    assert_eq!(ids(&window), vec!["start", "inside", "end"]);
    let open_end = list_articles(&store, Some(NOW), None);
    assert_eq!(ids(&open_end), vec!["start", "inside", "end", "after"]);
    let open_start = list_articles(&store, None, Some(NOW));
    assert_eq!(ids(&open_start), vec!["before", "start"]);
    assert_eq!(list_articles(&store, None, None).len(), 5);
}

#[test]
fn listing_empty_window_is_empty() {
    let store = store_with(vec![record("A", ArticleStatus::New, NOW)]);
    assert!(list_articles(&store, Some(NOW + 1), Some(NOW + 2)).is_empty());
    assert!(list_articles(&ArticleStore::new(), None, None).is_empty());
}

#[test]
fn update_unknown_id_is_not_found() {
    let mut store = store_with(vec![record("A", ArticleStatus::Repetition2, NOW)]);
    assert_eq!(apply_update(&mut store, "missing", ArticleUpdateMethod::Status(ArticleStatus::Archive), NOW), Err(StoreError::NotFound));
    assert_eq!(apply_update(&mut store, "missing", ArticleUpdateMethod::NextReadDate(NOW), NOW), Err(StoreError::NotFound));
    assert_eq!(store.update_status("missing", ArticleStatus::New, NOW), Err(StoreError::NotFound));
    assert_eq!(store.update_next_read_date("missing", NOW), Err(StoreError::NotFound));
    let a = store.get("A").unwrap();
    assert_eq!(a.status, ArticleStatus::Repetition2);
    assert_eq!(a.next_read_date, NOW);
    assert_eq!(store.len(), 1);
}

#[test]
fn apply_update_dispatches() {
    let mut store = store_with(vec![record("A", ArticleStatus::New, NOW)]);
    assert_eq!(apply_update(&mut store, "A", ArticleUpdateMethod::Status(ArticleStatus::Archive), NOW), Ok(()));
    assert_eq!(store.get("A").unwrap().status, ArticleStatus::Repetition1);
    assert_eq!(store.get("A").unwrap().next_read_date, NOW + 2 * WEEK);
    assert_eq!(apply_update(&mut store, "A", ArticleUpdateMethod::NextReadDate(5), NOW), Ok(()));
    assert_eq!(store.get("A").unwrap().status, ArticleStatus::Repetition1);
    assert_eq!(store.get("A").unwrap().next_read_date, 5);
}

#[test]
fn update_status_sets_given_status() {
    let mut store = store_with(vec![record("A", ArticleStatus::New, NOW)]);
    assert_eq!(store.update_status("A", ArticleStatus::Repetition4, NOW), Ok(()));
    assert_eq!(store.get("A").unwrap().status, ArticleStatus::Repetition4);
    assert_eq!(store.get("A").unwrap().next_read_date, NOW + 26 * WEEK);
}

#[test]
fn requeue_plan_values() {
    assert_eq!(requeue_plan(Some(ArticleStatus::Repetition3), NOW), (ArticleStatus::Repetition4, NOW + 26 * WEEK));
    assert_eq!(requeue_plan(None, NOW), (ArticleStatus::New, NOW + WEEK));
}

#[test]
fn stored_row_defaults() {
    let r = record_from_stored(StoredArticle {
        ulid: "A".to_string(),
        url: "https://example.com".to_string(),
        title: None,
        author: None,
        content_location: None,
        status: None,
        ingest_date: 1,
        next_read_date: 2,
    });
    assert_eq!(r.title, "NO TITLE FOUND");
    assert_eq!(r.author, "NO AUTHOR FOUND");
    assert_eq!(r.status, ArticleStatus::New);
    assert_eq!(r.next_read_date, 2);
    let r = record_from_stored(StoredArticle {
        ulid: "B".to_string(),
        url: "https://example.com".to_string(),
        title: Some("T".to_string()),
        author: Some("A".to_string()),
        content_location: Some("binder-content/B-content".to_string()),
        status: Some(ArticleStatus::Repetition1),
        ingest_date: 1,
        next_read_date: 2,
    });
    assert_eq!(r.title, "T");
    assert_eq!(r.author, "A");
    assert_eq!(r.status, ArticleStatus::Repetition1);
    assert_eq!(r.s3_archive_arn.as_deref(), Some("binder-content/B-content"));
}

#[test]
fn key_conditions() {
    assert_eq!(key_condition_expression(true, true), "PK = :articles AND SK BETWEEN :start AND :end");
    assert_eq!(key_condition_expression(true, false), "PK = :articles AND SK >= :start");
    assert_eq!(key_condition_expression(false, true), "PK = :articles AND SK <= :end");
    assert_eq!(key_condition_expression(false, false), "PK = :articles");
}

#[test]
fn listing_urls() {
    let base = "https://api.example.com/articles";
    assert_eq!(articles_url(base, Some("S"), Some("E")), "https://api.example.com/articles?start=S&end=E");
    assert_eq!(articles_url(base, Some("S"), None), "https://api.example.com/articles?start=S");
    assert_eq!(articles_url(base, None, Some("E")), "https://api.example.com/articles?end=E");
    assert_eq!(articles_url(base, None, None), base);
}

#[test]
fn url_validation() {
    assert_eq!(validate_article_url(""), UrlValidationResult::Empty);
    assert_eq!(validate_article_url("not a url"), UrlValidationResult::Unparsable);
    assert_eq!(validate_article_url("https://example.com/x"), UrlValidationResult::Valid);
    let body = article_request("https://example.com/x").ok().unwrap();
    assert_eq!(body.article_url, "https://example.com/x");
}

#[test]
fn submission_alerts() {
    let (alert, send) = submit_article("");
    assert!(alert.shown && !send);
    assert_eq!(alert.variant, AlertVariant::Warn);
    assert_eq!(alert.text, "Cannot process a blank URL");
    let (alert, send) = submit_article("nope");
    assert!(!send);
    assert_eq!(alert.title, "Warning");
    assert_eq!(alert.text, "Unable to parse URL");
    let (alert, send) = submit_article("https://example.com");
    assert!(send);
    assert_eq!(alert.variant, AlertVariant::Success);
    assert_eq!(alert.title, "Success");
    assert_eq!(alert.text, "Article stored successfully");
    let hidden = AlertDisplay::hidden();
    assert!(!hidden.shown);
    assert_eq!(hidden.variant, AlertVariant::Info);
}
