//! The article record and the messages exchanged about it.
use vstd::prelude::*;

use crate::status::ArticleStatus;

verus! {

/// One ingested article and its review state. Timestamps are milliseconds
/// since the Unix epoch.
#[derive(Debug)]
pub struct ArticleRecord {
    pub ulid: String,
    pub title: String,
    pub author: String,
    pub source_url: String,
    pub archive_url: Option<String>,
    pub ingest_date: i64,
    pub summary: Option<String>,
    /// Where the extracted full text is stored, as `bucket/key`.
    pub s3_archive_arn: Option<String>,
    pub s3_mp3_arn: Option<String>,
    pub status: ArticleStatus,
    pub next_read_date: i64,
}

/// A copy of an optional string.
pub fn copy_text_option(o: &Option<String>) -> (r: Option<String>)
    ensures
        r == *o,
{
    match o {
        Some(s) => Some(s.clone()),
        None => None,
    }
}

impl ArticleRecord {
    /// A field-by-field copy of this record.
    pub fn copy(&self) -> (r: ArticleRecord)
        ensures
            r == *self,
    {
        ArticleRecord {
            ulid: self.ulid.clone(),
            title: self.title.clone(),
            author: self.author.clone(),
            source_url: self.source_url.clone(),
            archive_url: copy_text_option(&self.archive_url),
            ingest_date: self.ingest_date,
            summary: copy_text_option(&self.summary),
            s3_archive_arn: copy_text_option(&self.s3_archive_arn),
            s3_mp3_arn: copy_text_option(&self.s3_mp3_arn),
            status: self.status,
            next_read_date: self.next_read_date,
        }
    }

    /// This record with a new status and next read date, all else kept.
    pub open spec fn with_status(self, status: ArticleStatus, next_read_date: int) -> ArticleRecord {
        ArticleRecord { status: status, next_read_date: next_read_date as i64, ..self }
    }

    /// This record with a new next read date, all else kept.
    pub open spec fn with_next_read_date(self, next_read_date: i64) -> ArticleRecord {
        ArticleRecord { next_read_date: next_read_date, ..self }
    }
}

/// A change requested for one article.
#[derive(Debug, Clone, Copy, PartialEq, Eq, Structural)]
pub enum ArticleUpdateMethod {
    /// Advance the article to the status that follows its current one.
    Status(ArticleStatus),
    /// Reschedule the article to the given timestamp, keeping its status.
    NextReadDate(i64),
}

/// A request to set the status of the article with the given identifier.
#[derive(Debug)]
pub struct ArticleStatusUpdateLambdaRequest {
    pub ulid: String,
    pub status: ArticleStatus,
}

/// A request to ingest the article at a URL.
#[derive(Debug)]
pub struct ArticleLambdaRequest {
    pub article_url: String,
}

/// The confirmation returned after an ingestion.
pub struct ArticleLambdaResponse {
    pub message: String,
}

/// The body sent to the content-parsing service.
#[derive(Debug)]
pub struct ParseArticleBody {
    pub article_url: String,
}

/// What the content-parsing service extracted from an article.
#[derive(Debug)]
pub struct ParsedArticle {
    pub title: Option<String>,
    pub byline: Option<String>,
    pub dir: Option<String>,
    pub lang: Option<String>,
    pub content: Option<String>,
    pub text_content: Option<String>,
    pub length: Option<i64>,
    pub excerpt: Option<String>,
    pub site_name: Option<String>,
}

} // verus!
