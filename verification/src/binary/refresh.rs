//! Renewing the cache: the crawl over the pages of the repository, and the
//! steps of a refresh. The caller fetches the pages and writes the file;
//! what is fetched and written, and in what order, is decided here.

use vstd::prelude::*;
use crate::binary::cache::{cache_document, save_to_file};
use crate::binary::index::{entries_read, IndexView, RepoError, RepositoryIndex};
use crate::binary::repo::{process_bitbucket, processed, PageError, HOST_MARK};
use crate::platform::Platform;
use crate::text::{contains, occurs_in, text_of};

verus! {

/// Whether a cache of the given age is fresh: it is there and younger than
/// the time it stays fresh for. Ages are in seconds; `None` stands for a
/// cache that is not there.
pub open spec fn is_fresh(cache_age: Option<u64>, fresh_for: u64) -> bool {
    match cache_age {
        Some(age) => age < fresh_for,
        None => false,
    }
}

/// Whether a refresh crawls: always when forced, else when the cache is
/// not fresh.
pub open spec fn crawls(forced: bool, cache_age: Option<u64>, fresh_for: u64) -> bool {
    forced || !is_fresh(cache_age, fresh_for)
}

/// A forced refresh always crawls.
pub proof fn lemma_forced_crawls(cache_age: Option<u64>, fresh_for: u64)
    ensures
        crawls(true, cache_age, fresh_for),
{
}

/// Of two refreshes that are not forced, the second coming while the cache
/// that the first left is still fresh, at most one crawls. The first leaves
/// a new cache where it crawls and the old one where it does not; `elapsed`
/// is the time between the two.
pub proof fn lemma_one_crawl_while_fresh(cache_age: Option<u64>, fresh_for: u64, elapsed: u64)
    requires
        elapsed < fresh_for,
        cache_age is Some ==> cache_age->0 + elapsed <= u64::MAX,
    ensures
        !(crawls(false, cache_age, fresh_for) && crawls(
            false,
            if crawls(false, cache_age, fresh_for) {
                Some(elapsed)
            } else {
                Some((cache_age->0 + elapsed) as u64)
            },
            fresh_for,
        )),
{
}

/// Whether to crawl.
pub fn should_crawl(forced: bool, cache_age: Option<u64>, fresh_for: u64) -> (r: bool)
    ensures
        r == crawls(forced, cache_age, fresh_for),
{
    if forced {
        return true;
    }
    match cache_age {
        Some(age) => age >= fresh_for,
        None => true,
    }
}

/// A crawl in progress: the pages still to fetch, the last on top, the
/// index built so far, and the pages that are missing from it.
pub struct Crawl {
    pending: Vec<String>,
    index: RepositoryIndex,
    missing: Vec<(String, PageError)>,
}

/// A crawl, as contracts speak of it.
pub struct CrawlView {
    pub pending: Seq<Seq<char>>,
    pub index: IndexView,
    pub missing: Seq<(Seq<char>, PageError)>,
}

/// The view of the pages that are missing.
pub open spec fn missing_view(missing: Seq<(String, PageError)>) -> Seq<(Seq<char>, PageError)> {
    Seq::new(missing.len(), |i: int| (missing[i].0@, missing[i].1))
}

impl View for Crawl {
    type V = CrawlView;

    closed spec fn view(&self) -> CrawlView {
        CrawlView {
            pending: self.pending.deep_view(),
            index: self.index@,
            missing: missing_view(self.missing@),
        }
    }
}

/// The page to fetch next and the crawl after it is taken off: the top of
/// the pending pages, after those on top of it that are not of the host
/// are dropped. No page where none of the host is left.
pub open spec fn next_request(crawl: CrawlView) -> (CrawlView, Option<Seq<char>>)
    decreases crawl.pending.len(),
{
    if crawl.pending.len() == 0 {
        (crawl, None)
    } else {
        let rest = CrawlView {
            pending: crawl.pending.drop_last(),
            index: crawl.index,
            missing: crawl.missing,
        };
        if occurs_in(crawl.pending.last(), HOST_MARK@) {
            (rest, Some(crawl.pending.last()))
        } else {
            next_request(rest)
        }
    }
}

/// The crawl after the response to a request is taken in: the page's
/// releases are merged into the index, and the page that follows goes on
/// top of the pending ones. A page that is missing changes neither, and
/// goes on record with what is wrong with it.
pub open spec fn absorbed(crawl: CrawlView, url: Seq<char>, body: Option<Seq<char>>) -> CrawlView {
    match processed(crawl.index, url, body) {
        (index, Ok(Some(next))) => CrawlView {
            pending: crawl.pending.push(next),
            index,
            missing: crawl.missing,
        },
        (index, Ok(None)) => CrawlView { pending: crawl.pending, index, missing: crawl.missing },
        (index, Err(e)) => CrawlView {
            pending: crawl.pending,
            index,
            missing: crawl.missing.push((url, e)),
        },
    }
}

impl Crawl {
    /// The index as it will be written down.
    pub closed spec fn listing(&self) -> crate::binary::index::EntriesView {
        self.index.listing()
    }

    /// A crawl that starts from the given pages, the last first.
    pub fn new(seeds: Vec<String>) -> (r: Crawl)
        ensures
            r@ == (CrawlView {
                pending: seeds.deep_view(),
                index: Map::<Seq<u8>, Map<Platform, Seq<char>>>::empty(),
                missing: Seq::empty(),
            }),
    {
        let r = Crawl { pending: seeds, index: RepositoryIndex::new(), missing: Vec::new() };
        assert(missing_view(r.missing@) =~= Seq::empty());
        r
    }

    /// Takes the next page to fetch off the pending ones.
    pub fn next_url(&mut self) -> (r: Option<String>)
        ensures
            (final(self)@, text_of(r)) == next_request(old(self)@),
    {
        loop
            invariant
                next_request(self@) == next_request(old(self)@),
            decreases self.pending@.len(),
        {
            let ghost before = self.pending.deep_view();
            match self.pending.pop() {
                Some(url) => {
                    assert(self.pending.deep_view() =~= before.drop_last());
                    assert(before.last() == url@);
                    if contains(url.as_str(), HOST_MARK) {
                        return Some(url);
                    }
                },
                None => {
                    return None;
                },
            }
        }
    }

    /// Takes in the response to the request for `url`; `None` stands for a
    /// page that could not be fetched.
    pub fn absorb(&mut self, url: &str, body: Option<&str>)
        ensures
            final(self)@ == absorbed(
                old(self)@,
                url@,
                match body {
                    Some(body) => Some(body@),
                    None => None,
                },
            ),
    {
        let ghost before = self.pending.deep_view();
        let ghost missing = missing_view(self.missing@);
        match process_bitbucket(&mut self.index, url, body) {
            Ok(Some(next)) => {
                self.pending.push(next);
                assert(self.pending.deep_view() =~= before.push(next@));
            },
            Ok(None) => {},
            Err(e) => {
                self.missing.push((url.to_owned(), e));
                assert(missing_view(self.missing@) =~= missing.push((url@, e)));
            },
        }
    }

    /// The pages that are missing from the crawl so far, each with what is
    /// wrong with it, in the order in which they were asked for.
    pub fn missing(&self) -> (r: Vec<(String, PageError)>)
        ensures
            missing_view(r@) == self@.missing,
    {
        let mut out: Vec<(String, PageError)> = Vec::new();
        let mut i: usize = 0;
        while i < self.missing.len()
            invariant
                i <= self.missing@.len(),
                missing_view(out@) == missing_view(self.missing@).take(i as int),
            decreases self.missing.len() - i,
        {
            let ghost before = missing_view(out@);
            out.push((self.missing[i].0.clone(), self.missing[i].1));
            assert(missing_view(out@) =~= before.push(missing_view(self.missing@)[i as int]));
            i += 1;
            assert(missing_view(self.missing@).take(i as int) =~= before.push(
                missing_view(self.missing@)[i - 1],
            ));
        }
        assert(missing_view(self.missing@).take(self.missing@.len() as int) == missing_view(
            self.missing@,
        ));
        out
    }

    /// The index that the crawl has built.
    pub fn into_index(self) -> (r: RepositoryIndex)
        ensures
            r@ == self@.index,
    {
        self.index
    }
}

/// Where a refresh stands.
#[derive(Clone, Copy, Debug, PartialEq, Eq)]
pub enum Stage {
    /// Pages are being fetched.
    Crawling,
    /// The cache file is being written.
    Saving,
    /// The refresh is over.
    Done(Result<(), RepoError>),
}

/// What happened since the last step.
pub enum RefreshEvent {
    /// Nothing yet.
    Begin,
    /// The page at `url` was asked for; `body` is what came back, `None`
    /// where nothing did.
    Page { url: String, body: Option<String> },
    /// The cache file was written, or could not be.
    Saved(bool),
}

/// What is to be done next.
#[derive(Debug, PartialEq, Eq)]
pub enum RefreshAction {
    /// Fetch the page at this address.
    Fetch(String),
    /// Replace the cache file with this text.
    Save(String),
    /// Nothing more: the refresh is over.
    Finish(Result<(), RepoError>),
}

/// An event of a refresh, as contracts speak of it.
pub enum EventView {
    Begin,
    Page { url: Seq<char>, body: Option<Seq<char>> },
    Saved(bool),
}

/// An action of a refresh, as contracts speak of it.
pub enum ActionView {
    Fetch(Seq<char>),
    Save(Seq<char>),
    Finish(Result<(), RepoError>),
}

impl View for RefreshEvent {
    type V = EventView;

    open spec fn view(&self) -> EventView {
        match self {
            RefreshEvent::Begin => EventView::Begin,
            RefreshEvent::Page { url, body } => EventView::Page { url: url@, body: text_of(*body) },
            RefreshEvent::Saved(written) => EventView::Saved(*written),
        }
    }
}

impl View for RefreshAction {
    type V = ActionView;

    open spec fn view(&self) -> ActionView {
        match self {
            RefreshAction::Fetch(url) => ActionView::Fetch(url@),
            RefreshAction::Save(text) => ActionView::Save(text@),
            RefreshAction::Finish(outcome) => ActionView::Finish(*outcome),
        }
    }
}

/// A refresh of the cache.
pub struct Refresh {
    stage: Stage,
    crawl: Crawl,
}

/// A refresh, as contracts speak of it.
pub struct RefreshView {
    pub stage: Stage,
    pub crawl: CrawlView,
}

impl View for Refresh {
    type V = RefreshView;

    closed spec fn view(&self) -> RefreshView {
        RefreshView { stage: self.stage, crawl: self.crawl@ }
    }
}

/// The end of a crawl: the index is to be saved as `document`, and where
/// there is no document for it the refresh has failed.
pub open spec fn crawl_ended(crawl: CrawlView, document: Option<Seq<char>>) -> (
    RefreshView,
    ActionView,
) {
    match document {
        Some(text) => (RefreshView { stage: Stage::Saving, crawl }, ActionView::Save(text)),
        None => (
            RefreshView { stage: Stage::Done(Err(RepoError::CacheNotWritten)), crawl },
            ActionView::Finish(Err(RepoError::CacheNotWritten)),
        ),
    }
}

/// One step of a refresh, from where it stands and what happened to where
/// it stands then and what is to be done. `document` is the text that goes
/// into the cache file for the index as it is when the step is over.
///
/// While crawling, a page that came back is taken in; then the next page
/// is asked for, and when none is left the index is saved. While saving,
/// the outcome of the write ends the refresh, and anything else asks for
/// the write again. A refresh that is over stays over.
pub open spec fn refresh_step(state: RefreshView, event: EventView, document: Option<Seq<char>>) -> (
    RefreshView,
    ActionView,
) {
    match state.stage {
        Stage::Done(outcome) => (state, ActionView::Finish(outcome)),
        Stage::Saving => match event {
            EventView::Saved(true) => (
                RefreshView { stage: Stage::Done(Ok(())), crawl: state.crawl },
                ActionView::Finish(Ok(())),
            ),
            EventView::Saved(false) => (
                RefreshView {
                    stage: Stage::Done(Err(RepoError::CacheNotWritten)),
                    crawl: state.crawl,
                },
                ActionView::Finish(Err(RepoError::CacheNotWritten)),
            ),
            _ => crawl_ended(state.crawl, document),
        },
        Stage::Crawling => {
            let taken_in = match event {
                EventView::Page { url, body } => absorbed(state.crawl, url, body),
                _ => state.crawl,
            };
            let (rest, request) = next_request(taken_in);
            match request {
                Some(url) => (RefreshView { stage: Stage::Crawling, crawl: rest }, ActionView::Fetch(url)),
                None => crawl_ended(rest, document),
            }
        },
    }
}

impl Refresh {
    /// The index as it will be written down.
    pub closed spec fn listing(&self) -> crate::binary::index::EntriesView {
        self.crawl.listing()
    }

    fn end_crawl(&mut self) -> (action: RefreshAction)
        requires
            old(self).stage == Stage::Crawling || old(self).stage == Stage::Saving,
        ensures
            final(self).crawl == old(self).crawl,
            (final(self)@, action@) == crawl_ended(
                old(self).crawl@,
                cache_document(old(self).listing()),
            ),
            entries_read(old(self).listing()) == Some(old(self)@.crawl.index),
    {
        match save_to_file(&self.crawl.index) {
            Ok(text) => {
                self.stage = Stage::Saving;
                RefreshAction::Save(text)
            },
            Err(e) => {
                self.stage = Stage::Done(Err(e));
                RefreshAction::Finish(Err(e))
            },
        }
    }

    /// The pages that are missing from the crawl so far: see
    /// `Crawl::missing`.
    pub fn missing(&self) -> (r: Vec<(String, PageError)>)
        ensures
            missing_view(r@) == self@.crawl.missing,
    {
        self.crawl.missing()
    }

    /// What the refresh is over with, once it is over.
    pub fn outcome(&self) -> (r: Option<Result<(), RepoError>>)
        ensures
            r == match self@.stage {
                Stage::Done(outcome) => Some(outcome),
                _ => None,
            },
    {
        match self.stage {
            Stage::Done(outcome) => Some(outcome),
            _ => None,
        }
    }

    /// Takes one step: see `refresh_step`.
    pub fn step(&mut self, event: RefreshEvent) -> (action: RefreshAction)
        ensures
            (final(self)@, action@) == refresh_step(
                old(self)@,
                event@,
                cache_document(final(self).listing()),
            ),
            action is Save ==> entries_read(final(self).listing()) == Some(
                final(self)@.crawl.index,
            ),
    {
        match self.stage {
            Stage::Done(outcome) => {
                RefreshAction::Finish(outcome)
            },
            Stage::Saving => match event {
                RefreshEvent::Saved(written) => {
                    let outcome = if written {
                        Ok(())
                    } else {
                        Err(RepoError::CacheNotWritten)
                    };
                    self.stage = Stage::Done(outcome);
                    RefreshAction::Finish(outcome)
                },
                _ => self.end_crawl(),
            },
            Stage::Crawling => {
                match event {
                    RefreshEvent::Page { url, body } => {
                        let body = match &body {
                            Some(body) => Some(body.as_str()),
                            None => None,
                        };
                        self.crawl.absorb(url.as_str(), body);
                    },
                    _ => {},
                }
                match self.crawl.next_url() {
                    Some(url) => {
                        RefreshAction::Fetch(url)
                    },
                    None => self.end_crawl(),
                }
            },
        }
    }
}

/// A refresh of the cache, not yet begun. It crawls from `seeds`, the last
/// first, where it is forced or the cache is not fresh; else it is over at
/// once. `cache_age` is the time since the cache file was written, in
/// seconds, and `None` where there is no cache file.
pub fn update_repo(forced_update: bool, cache_age: Option<u64>, fresh_for: u64, seeds: Vec<String>) -> (r:
    Refresh)
    ensures
        r@ == (RefreshView {
            stage: if crawls(forced_update, cache_age, fresh_for) {
                Stage::Crawling
            } else {
                Stage::Done(Ok(()))
            },
            crawl: CrawlView {
                pending: seeds.deep_view(),
                index: Map::<Seq<u8>, Map<Platform, Seq<char>>>::empty(),
                missing: Seq::empty(),
            },
        }),
{
    let stage = if should_crawl(forced_update, cache_age, fresh_for) {
        Stage::Crawling
    } else {
        Stage::Done(Ok(()))
    };
    Refresh { stage, crawl: Crawl::new(seeds) }
}

} // verus!
