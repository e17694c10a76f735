//! The alert shown after a URL is submitted for ingestion.
use vstd::prelude::*;
use vstd::string::StringExecFns;

use crate::ingest::{validate_article_url, url_parses, UrlValidationResult};

verus! {

/// How prominently an alert is styled.
#[derive(Debug, Clone, Copy, PartialEq, Eq, Structural)]
pub enum AlertVariant {
    Success,
    Info,
    Warn,
    Danger,
}

/// An alert banner: whether it is shown, its style, title and text.
pub struct AlertDisplay {
    pub shown: bool,
    pub variant: AlertVariant,
    pub title: String,
    pub text: String,
}

/// The alert that a submission judged as `result` raises.
pub open spec fn submission_alert(result: UrlValidationResult) -> (bool, AlertVariant, Seq<char>, Seq<char>) {
    match result {
        UrlValidationResult::Empty => (true, AlertVariant::Warn, "Warning"@, "Cannot process a blank URL"@),
        UrlValidationResult::Unparsable => (true, AlertVariant::Warn, "Warning"@, "Unable to parse URL"@),
        UrlValidationResult::Valid => (true, AlertVariant::Success, "Success"@, "Article stored successfully"@),
    }
}

/// Whether `a` shows exactly the alert described by `d`.
pub open spec fn shows(a: AlertDisplay, d: (bool, AlertVariant, Seq<char>, Seq<char>)) -> bool {
    a.shown == d.0 && a.variant == d.1 && a.title@ == d.2 && a.text@ == d.3
}

impl AlertDisplay {
    /// The hidden alert with empty texts that a page starts with.
    pub fn hidden() -> (r: AlertDisplay)
        ensures
            !r.shown,
            r.variant == AlertVariant::Info,
            r.title@.len() == 0,
            r.text@.len() == 0,
    {
        AlertDisplay { shown: false, variant: AlertVariant::Info, title: String::new(), text: String::new() }
    }

    /// The alert for a judged submission.
    pub fn for_result(result: UrlValidationResult) -> (r: AlertDisplay)
        ensures
            shows(r, submission_alert(result)),
    {
        let (variant, title, text) = match result {
            UrlValidationResult::Empty => (AlertVariant::Warn, "Warning", "Cannot process a blank URL"),
            UrlValidationResult::Unparsable => (AlertVariant::Warn, "Warning", "Unable to parse URL"),
            UrlValidationResult::Valid => (AlertVariant::Success, "Success", "Article stored successfully"),
        };
        AlertDisplay { shown: true, variant, title: String::from_str(title), text: String::from_str(text) }
    }
}

/// Judges a submitted URL string and returns the alert to show, and whether
/// the URL is to be sent for ingestion.
pub fn submit_article(article_url: &str) -> (r: (AlertDisplay, bool))
    ensures
        shows(r.0, submission_alert(
            if article_url@.len() == 0 {
                UrlValidationResult::Empty
            } else if !url_parses(article_url@) {
                UrlValidationResult::Unparsable
            } else {
                UrlValidationResult::Valid
            },
        )),
        r.1 <==> article_url@.len() != 0 && url_parses(article_url@),
{
    let result = validate_article_url(article_url);
    (AlertDisplay::for_result(result), result == UrlValidationResult::Valid)
}

} // verus!
