//! Looking up the link to a download: the cache is renewed if it needs to
//! be, then read, then searched. The caller renews and reads; what a
//! failed renewal means, and what is found, is decided here.

use vstd::prelude::*;
use crate::binary::cache::{cache_index, load_local_repo};
use crate::binary::index::{found_link, link_view, RepoError};
use crate::platform::Platform;
use crate::text::text_of;
use crate::version::Version;

verus! {

/// The link to the download of a version for a platform, as the cache
/// file holds it; `None` for the text stands for a file that could not be
/// read.
pub open spec fn link_in_cache(cache: Option<Seq<char>>, platform: Platform, version: Seq<u8>) -> Result<
    Seq<char>,
    RepoError,
> {
    match cache {
        Some(text) => match cache_index(text) {
            Ok(index) => found_link(index, platform, version),
            Err(e) => Err(e),
        },
        None => Err(RepoError::CacheUnreadable),
    }
}

/// Where a lookup stands.
pub enum LookupStage {
    /// The cache is being renewed.
    Refreshing,
    /// The cache file is being read.
    Reading,
    /// The lookup is over.
    Done(Result<String, RepoError>),
}

/// What happened since the last step.
pub enum LookupEvent {
    /// Nothing yet.
    Begin,
    /// The cache was renewed, or could not be.
    Refreshed(Result<(), RepoError>),
    /// The cache file was read: its text, or `None` where it could not be.
    Cache(Option<String>),
}

/// What is to be done next.
#[derive(Debug, PartialEq, Eq)]
pub enum LookupAction {
    /// Renew the cache, forced or not.
    Refresh { forced_update: bool },
    /// Read the cache file.
    ReadCache,
    /// Nothing more: the link, or why there is none.
    Finish(Result<String, RepoError>),
}

/// The stage of a lookup, as contracts speak of it.
pub enum LookupStageView {
    Refreshing,
    Reading,
    Done(Result<Seq<char>, RepoError>),
}

/// An event of a lookup, as contracts speak of it.
pub enum LookupEventView {
    Begin,
    Refreshed(Result<(), RepoError>),
    Cache(Option<Seq<char>>),
}

/// An action of a lookup, as contracts speak of it.
pub enum LookupActionView {
    Refresh { forced_update: bool },
    ReadCache,
    Finish(Result<Seq<char>, RepoError>),
}

impl View for LookupStage {
    type V = LookupStageView;

    open spec fn view(&self) -> LookupStageView {
        match self {
            LookupStage::Refreshing => LookupStageView::Refreshing,
            LookupStage::Reading => LookupStageView::Reading,
            LookupStage::Done(link) => LookupStageView::Done(link_view(*link)),
        }
    }
}

impl View for LookupEvent {
    type V = LookupEventView;

    open spec fn view(&self) -> LookupEventView {
        match self {
            LookupEvent::Begin => LookupEventView::Begin,
            LookupEvent::Refreshed(outcome) => LookupEventView::Refreshed(*outcome),
            LookupEvent::Cache(text) => LookupEventView::Cache(text_of(*text)),
        }
    }
}

impl View for LookupAction {
    type V = LookupActionView;

    open spec fn view(&self) -> LookupActionView {
        match self {
            LookupAction::Refresh { forced_update } => LookupActionView::Refresh {
                forced_update: *forced_update,
            },
            LookupAction::ReadCache => LookupActionView::ReadCache,
            LookupAction::Finish(link) => LookupActionView::Finish(link_view(*link)),
        }
    }
}

/// A lookup in progress.
pub struct Lookup {
    platform: Platform,
    version: Version,
    stage: LookupStage,
}

/// A lookup, as contracts speak of it.
pub struct LookupView {
    pub platform: Platform,
    pub version: Seq<u8>,
    pub stage: LookupStageView,
}

impl View for Lookup {
    type V = LookupView;

    closed spec fn view(&self) -> LookupView {
        LookupView { platform: self.platform, version: self.version@, stage: self.stage@ }
    }
}

/// The lookup at another stage.
pub open spec fn lookup_at(state: LookupView, stage: LookupStageView) -> LookupView {
    LookupView { platform: state.platform, version: state.version, stage }
}

/// One step of a lookup, from where it stands and what happened to where
/// it stands then and what is to be done.
///
/// First the cache is renewed, not forced. Whatever comes of that, a
/// failure too, the cache file is read next: a cache that is stale still
/// answers. What is found in the file ends the lookup. What does not answer
/// the step that was asked for has it asked for again, and a lookup that
/// is over stays over.
pub open spec fn lookup_step(state: LookupView, event: LookupEventView) -> (
    LookupView,
    LookupActionView,
) {
    match (state.stage, event) {
        (LookupStageView::Refreshing, LookupEventView::Refreshed(_)) => (
            lookup_at(state, LookupStageView::Reading),
            LookupActionView::ReadCache,
        ),
        (LookupStageView::Refreshing, _) => (
            state,
            LookupActionView::Refresh { forced_update: false },
        ),
        (LookupStageView::Reading, LookupEventView::Cache(cache)) => (
            lookup_at(
                state,
                LookupStageView::Done(link_in_cache(cache, state.platform, state.version)),
            ),
            LookupActionView::Finish(link_in_cache(cache, state.platform, state.version)),
        ),
        (LookupStageView::Reading, _) => (state, LookupActionView::ReadCache),
        (LookupStageView::Done(link), _) => (state, LookupActionView::Finish(link)),
    }
}

/// The link to the download of a version for a platform, looked up in the
/// cache file, whose text is given; `None` stands for a file that could not
/// be read.
pub fn find_link(platform: &Platform, version: &Version, cache: Option<&str>) -> (r: Result<
    String,
    RepoError,
>)
    ensures
        link_view(r) == link_in_cache(
            match cache {
                Some(text) => Some(text@),
                None => None,
            },
            *platform,
            version@,
        ),
{
    match load_local_repo(cache) {
        Ok(repo) => repo.get_link(*platform, version),
        Err(e) => Err(e),
    }
}

/// A lookup of the link to the download of a version for a platform, not
/// yet begun.
pub fn get_link_to_version(platform: &Platform, version: &Version) -> (r: Lookup)
    ensures
        r@ == (LookupView {
            platform: *platform,
            version: version@,
            stage: LookupStageView::Refreshing,
        }),
{
    Lookup { platform: *platform, version: version.clone(), stage: LookupStage::Refreshing }
}

fn copy_link(link: &Result<String, RepoError>) -> (r: Result<String, RepoError>)
    ensures
        link_view(r) == link_view(*link),
{
    match link {
        Ok(url) => Ok(url.clone()),
        Err(e) => Err(*e),
    }
}

impl Lookup {
    /// Takes one step: see `lookup_step`.
    pub fn step(&mut self, event: LookupEvent) -> (action: LookupAction)
        ensures
            (final(self)@, action@) == lookup_step(old(self)@, event@),
    {
        match (&self.stage, event) {
            (LookupStage::Refreshing, LookupEvent::Refreshed(_)) => {
                self.stage = LookupStage::Reading;
                LookupAction::ReadCache
            },
            (LookupStage::Refreshing, _) => LookupAction::Refresh { forced_update: false },
            (LookupStage::Reading, LookupEvent::Cache(cache)) => {
                let text = match &cache {
                    Some(text) => Some(text.as_str()),
                    None => None,
                };
                let link = find_link(&self.platform, &self.version, text);
                self.stage = LookupStage::Done(copy_link(&link));
                LookupAction::Finish(link)
            },
            (LookupStage::Reading, _) => LookupAction::ReadCache,
            (LookupStage::Done(link), _) => LookupAction::Finish(copy_link(link)),
        }
    }
}

} // verus!
