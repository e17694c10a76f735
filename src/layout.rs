//! Presentation state of the reading queue: the library drawer, the alert,
//! which view of the reading list to show, and where an article's full text
//! is fetched from.
use vstd::prelude::*;
use vstd::string::{StrSliceExecFns, StringExecFns};
use vstd::utf8::encode_utf8;

use crate::alerts::{AlertDisplay, AlertVariant};
use crate::record::ArticleRecord;

verus! {

/// The shared state of the page layout: whether the library drawer is closed
/// and which alert is displayed.
pub struct AppLayoutContext {
    pub library_drawer_closed: bool,
    pub alert_display: AlertDisplay,
}

impl AppLayoutContext {
    /// The layout as a page starts: drawer closed, alert hidden.
    pub fn new() -> (r: AppLayoutContext)
        ensures
            r.library_drawer_closed,
            !r.alert_display.shown,
            r.alert_display.variant == AlertVariant::Info,
            r.alert_display.title@.len() == 0,
            r.alert_display.text@.len() == 0,
    {
        AppLayoutContext { library_drawer_closed: true, alert_display: AlertDisplay::hidden() }
    }

    pub fn close_library_drawer(&mut self)
        ensures
            final(self).library_drawer_closed,
            final(self).alert_display == old(self).alert_display,
    {
        self.library_drawer_closed = true;
    }

    pub fn toggle_library_drawer(&mut self)
        ensures
            final(self).library_drawer_closed == !old(self).library_drawer_closed,
            final(self).alert_display == old(self).alert_display,
    {
        self.library_drawer_closed = !self.library_drawer_closed;
    }

    /// Replaces the displayed alert.
    pub fn set_alert_display(&mut self, alert: AlertDisplay)
        ensures
            final(self).alert_display == alert,
            final(self).library_drawer_closed == old(self).library_drawer_closed,
    {
        self.alert_display = alert;
    }
}

/// An article as the reading list describes it.
#[derive(Debug)]
pub struct Article {
    name: String,
    author: String,
    date: String,
    source_url: String,
    summary: Option<String>,
    fulltext_uri: Option<String>,
    archive_url: Option<String>,
    mp3_url: Option<String>,
}

/// How many articles the reading list previews before it is expanded.
pub const PREVIEW_LEN: usize = 3;

/// Which view the reading list shows.
#[derive(Debug, Clone, Copy, PartialEq, Eq, Structural)]
pub enum ReadingListView {
    /// The articles are still loading.
    Loading,
    /// No article is due.
    Empty,
    /// Fewer articles are due than the preview holds.
    Few,
    /// Enough articles are due for a preview that can be expanded.
    Large,
}

/// The view for a reading list of `loaded` articles, `None` while loading.
pub fn reading_list_view(loaded: Option<usize>) -> (r: ReadingListView)
    ensures
        r == (match loaded {
            None => ReadingListView::Loading,
            Some(n) => if n == 0 {
                ReadingListView::Empty
            } else if n < PREVIEW_LEN {
                ReadingListView::Few
            } else {
                ReadingListView::Large
            },
        }),
{
    match loaded {
        None => ReadingListView::Loading,
        Some(n) => if n == 0 {
            ReadingListView::Empty
        } else if n < PREVIEW_LEN {
            ReadingListView::Few
        } else {
            ReadingListView::Large
        },
    }
}

/// The articles the reading list shows: all of them once expanded, else the
/// first few.
pub fn visible_articles(articles: &Vec<ArticleRecord>, show_all: bool) -> (r: Vec<ArticleRecord>)
    ensures
        r@ == (if show_all || articles@.len() <= PREVIEW_LEN {
            articles@
        } else {
            articles@.take(PREVIEW_LEN as int)
        }),
{
    let n = if show_all || articles.len() <= PREVIEW_LEN {
        articles.len()
    } else {
        PREVIEW_LEN
    };
    let mut out: Vec<ArticleRecord> = Vec::new();
    let mut i: usize = 0;
    while i < n
        invariant
            n <= articles@.len(),
            i <= n,
            out@ == articles@.take(i as int),
        decreases n - i,
    {
        out.push(articles[i].copy());
        assert(articles@.take(i + 1) == articles@.take(i as int).push(articles@[i as int]));
        i = i + 1;
    }
    assert(articles@.take(articles@.len() as int) == articles@);
    out
}

/// The part of `s` after its last `/`, or all of `s` where it has none.
pub open spec fn last_segment(s: Seq<char>) -> Seq<char>
    decreases s.len(),
{
    if s.len() == 0 {
        s
    } else if s.last() == '/' {
        Seq::empty()
    } else {
        last_segment(s.drop_last()).push(s.last())
    }
}

/// The part of `s` after its last `/`, or all of `s` where it has none.
pub fn last_path_segment(s: &str) -> (r: String)
    ensures
        r@ == last_segment(s@),
{
    let len = s.unicode_len();
    let mut start: usize = len;
    proof {
        assert(s@.take(len as int) == s@);
        assert(last_segment(s@) + s@.subrange(len as int, len as int) == last_segment(s@));
    }
    while start > 0 && s.get_char(start - 1) != '/'
        invariant
            start <= len,
            len == s@.len(),
            last_segment(s@) == last_segment(s@.take(start as int)) + s@.subrange(start as int, len as int),
        decreases start,
    {
        let ghost t = s@.take(start as int);
        assert(t.drop_last() == s@.take(start - 1));
        assert(s@.subrange(start - 1, len as int) == seq![t.last()] + s@.subrange(start as int, len as int));
        assert(last_segment(t) == last_segment(s@.take(start - 1)).push(t.last()));
        assert(last_segment(s@.take(start - 1)).push(t.last()) + s@.subrange(start as int, len as int)
            == last_segment(s@.take(start - 1)) + s@.subrange(start - 1, len as int));
        start = start - 1;
    }
    proof {
        assert(s@.take(len as int) == s@);
        assert(s@.subrange(len as int, len as int) == Seq::<char>::empty());
        if start > 0 {
            assert(s@.take(start as int).last() == '/');
        }
        assert(last_segment(s@.take(start as int)) == Seq::<char>::empty());
        assert(Seq::<char>::empty() + s@.subrange(start as int, len as int) == s@.subrange(start as int, len as int));
    }
    String::from_str(s.substring_char(start, len))
}

/// The object key of an article's full text, taken from its stored location
/// `bucket/key`; `None` where there is no location or the key is three bytes
/// long or shorter in UTF-8.
pub fn content_key_of(location: &Option<String>) -> (r: Option<String>)
    ensures
        location is None ==> r is None,
        location is Some ==> (r is Some <==> encode_utf8(last_segment(location->0@)).len() > 3),
        r is Some ==> r->0@ == last_segment(location->0@),
{
    match location {
        None => None,
        Some(l) => {
            let key = last_path_segment(l.as_str());
            if key.as_str().as_bytes().len() <= 3 {
                None
            } else {
                Some(key)
            }
        },
    }
}

} // verus!
