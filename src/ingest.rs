//! The ingestion workflow: validate a submitted URL, turn what the
//! content-parsing service extracted into a new record, and store it.
use vstd::prelude::*;
use vstd::string::StringExecFns;

use crate::record::{ArticleLambdaResponse, ArticleRecord, ParseArticleBody, ParsedArticle};
use crate::status::ArticleStatus;
use crate::store::{has_id, ArticleStore, StoreError};
use crate::timing::{LATEST_TIMESTAMP, WEEK_MILLIS};

verus! {

/// Whether `s` parses as an absolute URL.
pub uninterp spec fn url_parses(s: Seq<char>) -> bool;

/// Relies on url::Url::parse: it succeeds exactly on the strings that are
/// well-formed absolute URLs.
#[verifier::external_body]
fn is_valid_url(s: &str) -> (r: bool)
    ensures
        r == url_parses(s@),
{
    url::Url::parse(s).is_ok()
}

/// Relies on ulid::Ulid::new and Ulid::to_string: a fresh identifier from the
/// clock and a random source, written as 26 Crockford base32 characters.
#[verifier::external_body]
fn new_article_id() -> (r: String)
    ensures
        r@.len() == 26,
{
    ulid::Ulid::new().to_string()
}

/// The bucket that holds the extracted full texts.
pub open spec fn content_bucket() -> Seq<char> {
    "binder-content"@
}

/// The object key of the full text of the article `ulid`.
pub open spec fn content_key(ulid: Seq<char>) -> Seq<char> {
    ulid + "-content"@
}

/// The location, `bucket/key`, of the full text of the article `ulid`.
pub open spec fn content_location(ulid: Seq<char>) -> Seq<char> {
    content_bucket() + "/"@ + content_key(ulid)
}

/// The title stored when extraction found none.
pub open spec fn missing_title() -> Seq<char> {
    "NO TITLE FOUND"@
}

/// The author stored when extraction found none.
pub open spec fn missing_author() -> Seq<char> {
    "NO AUTHOR FOUND"@
}

/// The extracted text, or `fallback` where there is none.
pub open spec fn text_or(o: Option<String>, fallback: Seq<char>) -> Seq<char> {
    match o {
        Some(t) => t@,
        None => fallback,
    }
}

/// The confirmation message for an ingested URL.
pub open spec fn stored_message(url: Seq<char>) -> Seq<char> {
    "Successfully stored "@ + url + " into DB"@
}

/// How a submitted URL string was judged.
#[derive(Debug, Clone, Copy, PartialEq, Eq, Structural)]
pub enum UrlValidationResult {
    Empty,
    Unparsable,
    Valid,
}

/// Why an ingestion failed.
#[derive(Debug, Clone, Copy, PartialEq, Eq, Structural)]
pub enum IngestError {
    /// The submitted string is not a well-formed absolute URL.
    InvalidUrl,
    /// The content-parsing service did not deliver a result.
    ExtractionFailed,
    /// The store refused the new record.
    Store(StoreError),
}

/// An object to put into the blob store.
pub struct BlobWrite {
    pub bucket: String,
    pub key: String,
    pub content: String,
}

/// A new record together with the blob write of its full text, if any.
pub struct IngestPlan {
    pub record: ArticleRecord,
    pub blob: Option<BlobWrite>,
}

/// What a successful ingestion hands back.
pub struct IngestReceipt {
    pub response: ArticleLambdaResponse,
    pub blob: Option<BlobWrite>,
}

/// Whether `r` is the record that ingesting `url` under the identifier `ulid`
/// at time `now` creates from the extraction `parsed`.
pub open spec fn is_ingested_record(
    r: ArticleRecord,
    ulid: Seq<char>,
    url: Seq<char>,
    parsed: ParsedArticle,
    now: int,
) -> bool {
    &&& r.ulid@ == ulid
    &&& r.title@ == text_or(parsed.title, missing_title())
    &&& r.author@ == text_or(parsed.byline, missing_author())
    &&& r.source_url@ == url
    &&& r.archive_url is None
    &&& r.ingest_date == now
    &&& r.summary is None
    &&& (r.s3_archive_arn is Some <==> parsed.content is Some)
    &&& (r.s3_archive_arn is Some ==> r.s3_archive_arn->0@ == content_location(ulid))
    &&& r.s3_mp3_arn is None
    &&& r.status == ArticleStatus::New
    &&& r.next_read_date == now + ArticleStatus::New.spec_repeat_duration()
}

/// Whether `b` is the blob write for the full text of `parsed`.
pub open spec fn is_content_write(b: Option<BlobWrite>, ulid: Seq<char>, parsed: ParsedArticle) -> bool {
    &&& (b is Some <==> parsed.content is Some)
    &&& (b is Some ==> {
        &&& b->0.bucket@ == content_bucket()
        &&& b->0.key@ == content_key(ulid)
        &&& b->0.content@ == parsed.content->0@
    })
}

/// Judges a submitted URL string: empty, not a URL, or valid.
pub fn validate_article_url(url_string: &str) -> (r: UrlValidationResult)
    ensures
        r == UrlValidationResult::Empty <==> url_string@.len() == 0,
        r == UrlValidationResult::Unparsable <==> url_string@.len() != 0 && !url_parses(url_string@),
        r == UrlValidationResult::Valid <==> url_string@.len() != 0 && url_parses(url_string@),
{
    if url_string.is_empty() {
        return UrlValidationResult::Empty;
    }
    if !is_valid_url(url_string) {
        return UrlValidationResult::Unparsable;
    }
    UrlValidationResult::Valid
}

/// The request to send to the content-parsing service for `article_url`, or
/// `InvalidUrl` where it is not a URL.
pub fn article_request(article_url: &str) -> (r: Result<ParseArticleBody, IngestError>)
    ensures
        r is Ok <==> url_parses(article_url@),
        r is Ok ==> r->Ok_0.article_url@ == article_url@,
        r is Err ==> r == Err::<ParseArticleBody, IngestError>(IngestError::InvalidUrl),
{
    if !is_valid_url(article_url) {
        return Err(IngestError::InvalidUrl);
    }
    Ok(ParseArticleBody { article_url: String::from_str(article_url) })
}

/// The extracted text, or `fallback` where there is none.
fn text_or_default(o: Option<String>, fallback: &str) -> (r: String)
    ensures
        r@ == text_or(o, fallback@),
{
    match o {
        Some(t) => t,
        None => String::from_str(fallback),
    }
}

/// The confirmation returned once the article at `article_url` is stored.
pub fn confirmation(article_url: &str) -> (r: ArticleLambdaResponse)
    ensures
        r.message@ == stored_message(article_url@),
{
    let mut message = String::from_str("Successfully stored ");
    message.append(article_url);
    message.append(" into DB");
    ArticleLambdaResponse { message }
}

/// Builds the record and the full-text write for the article at
/// `article_url`, extracted as `parsed`, under the identifier `ulid` at `now`.
pub fn prepare_ingest(article_url: &str, ulid: String, parsed: ParsedArticle, now: i64) -> (r: IngestPlan)
    requires
        now <= LATEST_TIMESTAMP,
    ensures
        is_ingested_record(r.record, ulid@, article_url@, parsed, now as int),
        is_content_write(r.blob, ulid@, parsed),
{
    let status = ArticleStatus::New;
    let next_read_date = now + status.repeat_duration();
    let mut key = ulid.clone();
    key.append("-content");
    let (blob, location) = match parsed.content {
        Some(content) => {
            let mut location = String::from_str("binder-content");
            location.append("/");
            location.append(key.as_str());
            let bucket = String::from_str("binder-content");
            (Some(BlobWrite { bucket, key, content }), Some(location))
        },
        None => (None, None),
    };
    let record = ArticleRecord {
        ulid,
        title: text_or_default(parsed.title, "NO TITLE FOUND"),
        author: text_or_default(parsed.byline, "NO AUTHOR FOUND"),
        source_url: String::from_str(article_url),
        archive_url: None,
        ingest_date: now,
        summary: None,
        s3_archive_arn: location,
        s3_mp3_arn: None,
        status,
        next_read_date,
    };
    IngestPlan { record, blob }
}

/// Ingests the article at `article_url` under the identifier `ulid` at time
/// `now`, given what the content-parsing service returned (`None` where the
/// extraction failed). Nothing is stored unless the whole ingestion succeeds.
pub fn ingest_parsed(
    store: &mut ArticleStore,
    article_url: &str,
    ulid: String,
    extraction: Option<ParsedArticle>,
    now: i64,
) -> (r: Result<IngestReceipt, IngestError>)
    requires
        old(store).wf(),
        now <= LATEST_TIMESTAMP,
    ensures
        final(store).wf(),
        !url_parses(article_url@) ==> r == Err::<IngestReceipt, IngestError>(IngestError::InvalidUrl),
        url_parses(article_url@) && extraction is None ==> r == Err::<IngestReceipt, IngestError>(
            IngestError::ExtractionFailed,
        ),
        url_parses(article_url@) && extraction is Some && has_id(old(store)@, ulid@) ==> r == Err::<
            IngestReceipt,
            IngestError,
        >(IngestError::Store(StoreError::DuplicateId)),
        r is Ok <==> url_parses(article_url@) && extraction is Some && !has_id(old(store)@, ulid@),
        r is Err ==> final(store)@ == old(store)@,
        r is Ok ==> {
            &&& final(store)@.len() == old(store)@.len() + 1
            &&& final(store)@.drop_last() == old(store)@
            &&& is_ingested_record(final(store)@.last(), ulid@, article_url@, extraction->0, now as int)
            &&& is_content_write(r->Ok_0.blob, ulid@, extraction->0)
            &&& r->Ok_0.response.message@ == stored_message(article_url@)
        },
{
    if !is_valid_url(article_url) {
        return Err(IngestError::InvalidUrl);
    }
    let parsed = match extraction {
        Some(p) => p,
        None => {
            return Err(IngestError::ExtractionFailed);
        },
    };
    let plan = prepare_ingest(article_url, ulid, parsed, now);
    let IngestPlan { record, blob } = plan;
    let ghost before = store@;
    match store.create(record) {
        Err(e) => Err(IngestError::Store(e)),
        Ok(()) => {
            assert(store@.drop_last() == before);
            Ok(IngestReceipt { response: confirmation(article_url), blob })
        },
    }
}

/// Ingests the article at `article_url` under a freshly generated identifier
/// at time `now`, given what the content-parsing service returned.
pub fn ingest_article(
    store: &mut ArticleStore,
    article_url: &str,
    extraction: Option<ParsedArticle>,
    now: i64,
) -> (r: Result<IngestReceipt, IngestError>)
    requires
        old(store).wf(),
        now <= LATEST_TIMESTAMP,
    ensures
        final(store).wf(),
        !url_parses(article_url@) ==> r == Err::<IngestReceipt, IngestError>(IngestError::InvalidUrl),
        url_parses(article_url@) && extraction is None ==> r == Err::<IngestReceipt, IngestError>(
            IngestError::ExtractionFailed,
        ),
        r == Err::<IngestReceipt, IngestError>(IngestError::InvalidUrl) ==> !url_parses(article_url@),
        r == Err::<IngestReceipt, IngestError>(IngestError::ExtractionFailed) ==> url_parses(article_url@)
            && extraction is None,
        r is Err && url_parses(article_url@) && extraction is Some ==> r == Err::<IngestReceipt, IngestError>(
            IngestError::Store(StoreError::DuplicateId),
        ),
        url_parses(article_url@) && extraction is Some && (forall|i: int|
            0 <= i < old(store)@.len() ==> (#[trigger] old(store)@[i]).ulid@.len() != 26) ==> r is Ok,
        r is Err ==> final(store)@ == old(store)@,
        r is Ok ==> url_parses(article_url@) && extraction is Some,
        r is Ok ==> {
            &&& final(store)@.len() == old(store)@.len() + 1
            &&& final(store)@.drop_last() == old(store)@
            &&& !has_id(old(store)@, final(store)@.last().ulid@)
            &&& is_ingested_record(
                final(store)@.last(),
                final(store)@.last().ulid@,
                article_url@,
                extraction->0,
                now as int,
            )
            &&& is_content_write(r->Ok_0.blob, final(store)@.last().ulid@, extraction->0)
            &&& r->Ok_0.response.message@ == stored_message(article_url@)
        },
{
    let ulid = new_article_id();
    ingest_parsed(store, article_url, ulid, extraction, now)
}

/// An ingested record is new, due one week after it was ingested, and keeps
/// the extracted title and author where there are any.
pub proof fn lemma_ingested_record_due_in_a_week(
    r: ArticleRecord,
    ulid: Seq<char>,
    url: Seq<char>,
    parsed: ParsedArticle,
    now: int,
)
    requires
        is_ingested_record(r, ulid, url, parsed, now),
    ensures
        r.status == ArticleStatus::New,
        r.ingest_date == now,
        r.next_read_date == r.ingest_date + WEEK_MILLIS,
        parsed.title is Some ==> r.title@ == parsed.title->0@,
        parsed.byline is Some ==> r.author@ == parsed.byline->0@,
        r.source_url@ == url,
{
}

} // verus!
