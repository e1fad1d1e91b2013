//! The index of releases: for each version, the link to the download for
//! each platform.

use vstd::prelude::*;
use crate::error::ErrorKind;
use crate::platform::{lemma_short_name_found, named_platform, short_name, Platform};
use crate::version::{dotted, dotted_version, lemma_write_then_read, Version};

verus! {

/// The index as contracts speak of it: from a version to the links of its
/// platforms.
pub type IndexView = Map<Seq<u8>, Map<Platform, Seq<char>>>;

/// Why the index could not answer.
#[derive(Clone, Copy, Debug, PartialEq, Eq, Structural)]
pub enum RepoError {
    /// The index holds no release of the version.
    VersionNotFound,
    /// The index holds the version, but not for the platform.
    PlatformNotFound,
    /// The cache file could not be read.
    CacheUnreadable,
    /// The cache file holds something else than an index.
    CacheMalformed,
    /// The index could not be written to the cache file.
    CacheNotWritten,
}

impl RepoError {
    /// The kind of failure.
    pub open spec fn spec_kind(&self) -> ErrorKind {
        match *self {
            RepoError::VersionNotFound => ErrorKind::NotFound,
            RepoError::PlatformNotFound => ErrorKind::NotFound,
            RepoError::CacheUnreadable => ErrorKind::Io,
            RepoError::CacheMalformed => ErrorKind::Parse,
            RepoError::CacheNotWritten => ErrorKind::Io,
        }
    }

    /// The kind of failure.
    pub fn kind(&self) -> (r: ErrorKind)
        ensures
            r == self.spec_kind(),
    {
        match self {
            RepoError::VersionNotFound => ErrorKind::NotFound,
            RepoError::PlatformNotFound => ErrorKind::NotFound,
            RepoError::CacheUnreadable => ErrorKind::Io,
            RepoError::CacheMalformed => ErrorKind::Parse,
            RepoError::CacheNotWritten => ErrorKind::Io,
        }
    }
}

/// The links recorded for a version; none where the version is unknown.
pub open spec fn links_for(index: IndexView, version: Seq<u8>) -> Map<Platform, Seq<char>> {
    if index.contains_key(version) {
        index[version]
    } else {
        Map::empty()
    }
}

/// The index after one release is merged into it: the link is added to
/// those of its version, in place of an earlier link for the same platform.
/// A release for the unknown platform leaves the index as it is.
pub open spec fn recorded(
    index: IndexView,
    version: Seq<u8>,
    platform: Platform,
    url: Seq<char>,
) -> IndexView {
    if platform == Platform::Unknown {
        index
    } else {
        index.insert(version, links_for(index, version).insert(platform, url))
    }
}

/// The link for a platform and a version; which of the two is missing
/// where there is none.
pub open spec fn found_link(index: IndexView, platform: Platform, version: Seq<u8>) -> Result<
    Seq<char>,
    RepoError,
> {
    if !index.contains_key(version) {
        Err(RepoError::VersionNotFound)
    } else if !index[version].contains_key(platform) {
        Err(RepoError::PlatformNotFound)
    } else {
        Ok(index[version][platform])
    }
}

/// The index as it is written down: for each version its dotted form and,
/// for each of its platforms, the short name and the link.
pub type EntriesView = Seq<(Seq<char>, Seq<(Seq<char>, Seq<char>)>)>;

/// The index after the links of one version are read into it, one after
/// the other; `None` where a platform's name is not a short name.
pub open spec fn links_read(
    index: IndexView,
    version: Seq<u8>,
    links: Seq<(Seq<char>, Seq<char>)>,
) -> Option<IndexView>
    decreases links.len(),
{
    if links.len() == 0 {
        Some(index)
    } else {
        match links_read(index, version, links.drop_last()) {
            Some(before) => {
                let platform = named_platform(links.last().0);
                if platform == Platform::Unknown {
                    None
                } else {
                    Some(recorded(before, version, platform, links.last().1))
                }
            },
            None => None,
        }
    }
}

/// The index that a list of entries writes down; `None` where a version
/// is not in dotted form or a platform's name is not a short name.
pub open spec fn entries_read(entries: EntriesView) -> Option<IndexView>
    decreases entries.len(),
{
    if entries.len() == 0 {
        Some(Map::empty())
    } else {
        match entries_read(entries.drop_last()) {
            Some(before) => match dotted_version(entries.last().0) {
                Some(version) => links_read(before, version, entries.last().1),
                None => None,
            },
            None => None,
        }
    }
}

/// The view of a link that may be missing.
pub open spec fn link_view(r: Result<String, RepoError>) -> Result<Seq<char>, RepoError> {
    match r {
        Ok(url) => Ok(url@),
        Err(e) => Err(e),
    }
}

/// Merging a release never drops a link that was recorded before, for
/// whatever version: only the link of the same version and platform is
/// replaced.
pub proof fn lemma_recorded_keeps(
    index: IndexView,
    version: Seq<u8>,
    platform: Platform,
    url: Seq<char>,
    other_version: Seq<u8>,
    other_platform: Platform,
)
    requires
        index.contains_key(other_version),
        index[other_version].contains_key(other_platform),
    ensures
        recorded(index, version, platform, url).contains_key(other_version),
        recorded(index, version, platform, url)[other_version].contains_key(other_platform),
        other_version != version || other_platform != platform ==> recorded(
            index,
            version,
            platform,
            url,
        )[other_version][other_platform] == index[other_version][other_platform],
{
}

/// Whether no version of the index has a link for the unknown platform.
pub open spec fn knows_its_platforms(index: IndexView) -> bool {
    forall|version: Seq<u8>|
        index.contains_key(version) ==> !(#[trigger] index[version]).contains_key(
            Platform::Unknown,
        )
}

/// Merging a release never brings a link for the unknown platform into
/// the index.
pub proof fn lemma_recorded_knows_its_platforms(
    index: IndexView,
    version: Seq<u8>,
    platform: Platform,
    url: Seq<char>,
)
    requires
        knows_its_platforms(index),
    ensures
        knows_its_platforms(recorded(index, version, platform, url)),
{
    let after = recorded(index, version, platform, url);
    assert forall|v: Seq<u8>| after.contains_key(v) implies !(#[trigger] after[v]).contains_key(
        Platform::Unknown,
    ) by {
        if v != version || platform == Platform::Unknown {
            assert(index.contains_key(v));
            assert(!index[v].contains_key(Platform::Unknown));
        } else if index.contains_key(version) {
            assert(!index[version].contains_key(Platform::Unknown));
        }
    }
}

/// Two releases that differ in version or platform can be merged in either
/// order.
pub proof fn lemma_recorded_commutes(
    index: IndexView,
    version_a: Seq<u8>,
    platform_a: Platform,
    url_a: Seq<char>,
    version_b: Seq<u8>,
    platform_b: Platform,
    url_b: Seq<char>,
)
    requires
        version_a != version_b || platform_a != platform_b,
    ensures
        recorded(recorded(index, version_a, platform_a, url_a), version_b, platform_b, url_b) == recorded(
            recorded(index, version_b, platform_b, url_b),
            version_a,
            platform_a,
            url_a,
        ),
{
    let a = recorded(recorded(index, version_a, platform_a, url_a), version_b, platform_b, url_b);
    let b = recorded(recorded(index, version_b, platform_b, url_b), version_a, platform_a, url_a);
    assert(a.dom() =~= b.dom());
    assert forall|v: Seq<u8>| a.contains_key(v) implies a[v] == b[v] by {
        assert(a[v] =~= b[v]);
    }
    assert(a =~= b);
}

/// The index written down, as it goes into the cache file.
pub type CacheEntries = Vec<(String, Vec<(String, String)>)>;

/// The links of one version, a place for each platform.
#[derive(Debug)]
struct Links {
    win32: Option<String>,
    win64: Option<String>,
    nix32: Option<String>,
    nix64: Option<String>,
}

/// One version with its links.
#[derive(Debug)]
struct Release {
    version: Version,
    links: Links,
}

/// The index of releases. Its view maps each version to the links of its
/// platforms.
#[derive(Debug)]
pub struct RepositoryIndex {
    releases: Vec<Release>,
}

spec fn slot(links: Links, platform: Platform) -> Option<String> {
    match platform {
        Platform::Win32 => links.win32,
        Platform::Win64 => links.win64,
        Platform::Nix32 => links.nix32,
        Platform::Nix64 => links.nix64,
        Platform::Unknown => None,
    }
}

spec fn links_view(links: Links) -> Map<Platform, Seq<char>> {
    Map::new(|p: Platform| slot(links, p) is Some, |p: Platform| slot(links, p)->0@)
}

spec fn index_of(releases: Seq<Release>) -> IndexView
    decreases releases.len(),
{
    if releases.len() == 0 {
        Map::empty()
    } else {
        index_of(releases.drop_last()).insert(
            releases.last().version@,
            links_view(releases.last().links),
        )
    }
}

spec fn linked(links: Links) -> bool {
    links.win32 is Some || links.win64 is Some || links.nix32 is Some || links.nix64 is Some
}

spec fn complete(releases: Seq<Release>) -> bool {
    forall|i: int|
        0 <= i < releases.len() ==> linked((#[trigger] releases[i]).links)
            && releases[i].version@.len() > 0
}

spec fn slot_listing(slot: Option<String>, platform: Platform) -> Seq<(Seq<char>, Seq<char>)> {
    match slot {
        Some(url) => seq![(short_name(platform), url@)],
        None => Seq::empty(),
    }
}

spec fn link_listing(links: Links) -> Seq<(Seq<char>, Seq<char>)> {
    slot_listing(links.win32, Platform::Win32) + slot_listing(links.win64, Platform::Win64)
        + slot_listing(links.nix32, Platform::Nix32) + slot_listing(links.nix64, Platform::Nix64)
}

spec fn listing_of(releases: Seq<Release>) -> EntriesView {
    Seq::new(
        releases.len(),
        |i: int| (dotted(releases[i].version@), link_listing(releases[i].links)),
    )
}

proof fn lemma_links_read_concat(
    index: IndexView,
    version: Seq<u8>,
    a: Seq<(Seq<char>, Seq<char>)>,
    b: Seq<(Seq<char>, Seq<char>)>,
)
    ensures
        links_read(index, version, a + b) == match links_read(index, version, a) {
            Some(before) => links_read(before, version, b),
            None => None,
        },
    decreases b.len(),
{
    if b.len() == 0 {
        assert(a + b == a);
    } else {
        assert((a + b).drop_last() == a + b.drop_last());
        assert((a + b).last() == b.last());
        lemma_links_read_concat(index, version, a, b.drop_last());
    }
}

proof fn lemma_links_read_prefix(
    index: IndexView,
    version: Seq<u8>,
    links: Seq<(Seq<char>, Seq<char>)>,
    upto: int,
)
    requires
        0 <= upto <= links.len(),
        links_read(index, version, links.take(upto)) is None,
    ensures
        links_read(index, version, links) is None,
{
    lemma_links_read_concat(index, version, links.take(upto), links.skip(upto));
    assert(links.take(upto) + links.skip(upto) == links);
}

proof fn lemma_entries_read_prefix(entries: EntriesView, upto: int)
    requires
        0 <= upto <= entries.len(),
        entries_read(entries.take(upto)) is None,
    ensures
        entries_read(entries) is None,
    decreases entries.len() - upto,
{
    if upto == entries.len() {
        assert(entries.take(upto) == entries);
    } else {
        assert(entries.take(upto + 1).drop_last() == entries.take(upto));
        lemma_entries_read_prefix(entries, upto + 1);
    }
}

proof fn lemma_slot_read(index: IndexView, version: Seq<u8>, slot: Option<String>, platform: Platform)
    requires
        platform != Platform::Unknown,
    ensures
        links_read(index, version, slot_listing(slot, platform)) == Some(
            match slot {
                Some(url) => recorded(index, version, platform, url@),
                None => index,
            },
        ),
{
    lemma_short_name_found(platform);
    let listing = slot_listing(slot, platform);
    if slot is Some {
        assert(listing.drop_last() == Seq::<(Seq<char>, Seq<char>)>::empty());
        assert(links_read(index, version, listing.drop_last()) == Some(index));
    }
}

proof fn lemma_links_read_listing(index: IndexView, version: Seq<u8>, links: Links)
    requires
        !index.contains_key(version),
        linked(links),
    ensures
        links_read(index, version, link_listing(links)) == Some(
            index.insert(version, links_view(links)),
        ),
{
    let a = slot_listing(links.win32, Platform::Win32);
    let b = slot_listing(links.win64, Platform::Win64);
    let c = slot_listing(links.nix32, Platform::Nix32);
    let d = slot_listing(links.nix64, Platform::Nix64);
    lemma_links_read_concat(index, version, a + b + c, d);
    lemma_links_read_concat(index, version, a + b, c);
    lemma_links_read_concat(index, version, a, b);
    lemma_slot_read(index, version, links.win32, Platform::Win32);
    let m1 = links_read(index, version, a)->0;
    lemma_slot_read(m1, version, links.win64, Platform::Win64);
    let m2 = links_read(m1, version, b)->0;
    lemma_slot_read(m2, version, links.nix32, Platform::Nix32);
    let m3 = links_read(m2, version, c)->0;
    lemma_slot_read(m3, version, links.nix64, Platform::Nix64);
    let m4 = links_read(m3, version, d)->0;
    assert(m4.contains_key(version));
    assert(m4[version] =~= links_view(links));
    assert(m4 =~= index.insert(version, links_view(links)));
}

proof fn lemma_listing_reads(releases: Seq<Release>)
    requires
        distinct(releases),
        complete(releases),
    ensures
        entries_read(listing_of(releases)) == Some(index_of(releases)),
    decreases releases.len(),
{
    if releases.len() > 0 {
        let head = releases.drop_last();
        let last = releases.last();
        assert(distinct(head)) by {
            assert forall|i: int, j: int| 0 <= i < j < head.len() implies (#[trigger] head[i]).version@
                != (#[trigger] head[j]).version@ by {
                assert(releases[i].version@ != releases[j].version@);
            }
        }
        assert(complete(head)) by {
            assert forall|i: int| 0 <= i < head.len() implies linked((#[trigger] head[i]).links)
                && head[i].version@.len() > 0 by {
                assert(linked(releases[i].links));
            }
        }
        lemma_listing_reads(head);
        assert(listing_of(releases).drop_last() == listing_of(head));
        assert(linked(releases[releases.len() - 1].links));
        lemma_write_then_read(last.version@);
        lemma_index_keys(head, last.version@);
        assert(!index_of(head).contains_key(last.version@)) by {
            if index_of(head).contains_key(last.version@) {
                let i = choose|i: int|
                    0 <= i < head.len() && (#[trigger] head[i]).version@ == last.version@;
                assert(releases[i].version@ != releases[releases.len() - 1].version@);
            }
        }
        lemma_links_read_listing(index_of(head), last.version@, last.links);
    }
}

spec fn distinct(releases: Seq<Release>) -> bool {
    forall|i: int, j: int|
        0 <= i < j < releases.len() ==> (#[trigger] releases[i]).version@ != (
        #[trigger] releases[j]).version@
}

proof fn lemma_index_keys(releases: Seq<Release>, version: Seq<u8>)
    ensures
        index_of(releases).contains_key(version) <==> exists|i: int|
            0 <= i < releases.len() && (#[trigger] releases[i]).version@ == version,
    decreases releases.len(),
{
    if releases.len() > 0 {
        let head = releases.drop_last();
        lemma_index_keys(head, version);
        if index_of(releases).contains_key(version) {
            if releases.last().version@ == version {
                assert(releases[releases.len() - 1].version@ == version);
            } else {
                let i = choose|i: int| 0 <= i < head.len() && (#[trigger] head[i]).version@ == version;
                assert(releases[i].version@ == version);
            }
        }
        if exists|i: int| 0 <= i < releases.len() && (#[trigger] releases[i]).version@ == version {
            let i = choose|i: int|
                0 <= i < releases.len() && (#[trigger] releases[i]).version@ == version;
            if i < head.len() {
                assert(head[i].version@ == version);
            }
        }
    }
}

proof fn lemma_index_at(releases: Seq<Release>, at: int)
    requires
        distinct(releases),
        0 <= at < releases.len(),
    ensures
        index_of(releases).contains_key(releases[at].version@),
        index_of(releases)[releases[at].version@] == links_view(releases[at].links),
    decreases releases.len(),
{
    let head = releases.drop_last();
    if at < releases.len() - 1 {
        assert(distinct(head)) by {
            assert forall|i: int, j: int| 0 <= i < j < head.len() implies (#[trigger] head[i]).version@
                != (#[trigger] head[j]).version@ by {
                assert(releases[i].version@ != releases[j].version@);
            }
        }
        lemma_index_at(head, at);
        assert(head[at] == releases[at]);
        assert(releases[at].version@ != releases[releases.len() - 1].version@);
    }
}

proof fn lemma_index_update(releases: Seq<Release>, at: int, release: Release)
    requires
        distinct(releases),
        0 <= at < releases.len(),
        release.version@ == releases[at].version@,
    ensures
        distinct(releases.update(at, release)),
        index_of(releases.update(at, release)) == index_of(releases).insert(
            release.version@,
            links_view(release.links),
        ),
    decreases releases.len(),
{
    let after = releases.update(at, release);
    assert(distinct(after)) by {
        assert forall|i: int, j: int| 0 <= i < j < after.len() implies (#[trigger] after[i]).version@
            != (#[trigger] after[j]).version@ by {
            assert(releases[i].version@ != releases[j].version@);
        }
    }
    let head = releases.drop_last();
    if at == releases.len() - 1 {
        assert(after.drop_last() == head);
        assert(index_of(after) =~= index_of(releases).insert(
            release.version@,
            links_view(release.links),
        ));
    } else {
        assert(distinct(head)) by {
            assert forall|i: int, j: int| 0 <= i < j < head.len() implies (#[trigger] head[i]).version@
                != (#[trigger] head[j]).version@ by {
                assert(releases[i].version@ != releases[j].version@);
            }
        }
        lemma_index_update(head, at, release);
        assert(after.drop_last() == head.update(at, release));
        assert(after.last() == releases.last());
        assert(releases[at].version@ != releases[releases.len() - 1].version@);
        assert(index_of(after) =~= index_of(releases).insert(
            release.version@,
            links_view(release.links),
        ));
    }
}

impl Links {
    fn none() -> (r: Links)
        ensures
            links_view(r) == Map::<Platform, Seq<char>>::empty(),
    {
        let r = Links { win32: None, win64: None, nix32: None, nix64: None };
        assert(links_view(r) =~= Map::<Platform, Seq<char>>::empty());
        r
    }

    fn with(&self, platform: Platform, url: String) -> (r: Links)
        requires
            platform != Platform::Unknown,
        ensures
            links_view(r) == links_view(*self).insert(platform, url@),
            linked(r),
    {
        let r = match platform {
            Platform::Win32 => Links {
                win32: Some(url),
                win64: self.win64.clone(),
                nix32: self.nix32.clone(),
                nix64: self.nix64.clone(),
            },
            Platform::Win64 => Links {
                win32: self.win32.clone(),
                win64: Some(url),
                nix32: self.nix32.clone(),
                nix64: self.nix64.clone(),
            },
            Platform::Nix32 => Links {
                win32: self.win32.clone(),
                win64: self.win64.clone(),
                nix32: Some(url),
                nix64: self.nix64.clone(),
            },
            _ => Links {
                win32: self.win32.clone(),
                win64: self.win64.clone(),
                nix32: self.nix32.clone(),
                nix64: Some(url),
            },
        };
        assert(links_view(r) =~= links_view(*self).insert(platform, url@));
        r
    }

    fn entries(&self) -> (r: Vec<(String, String)>)
        ensures
            r.deep_view() == link_listing(*self),
    {
        let mut out: Vec<(String, String)> = Vec::new();
        if let Some(url) = &self.win32 {
            out.push((Platform::Win32.to_short_string(), url.clone()));
        }
        if let Some(url) = &self.win64 {
            out.push((Platform::Win64.to_short_string(), url.clone()));
        }
        if let Some(url) = &self.nix32 {
            out.push((Platform::Nix32.to_short_string(), url.clone()));
        }
        if let Some(url) = &self.nix64 {
            out.push((Platform::Nix64.to_short_string(), url.clone()));
        }
        assert(out.deep_view() =~= link_listing(*self));
        out
    }

    fn get(&self, platform: Platform) -> (r: &Option<String>)
        ensures
            *r == slot(*self, platform),
    {
        match platform {
            Platform::Win32 => &self.win32,
            Platform::Win64 => &self.win64,
            Platform::Nix32 => &self.nix32,
            Platform::Nix64 => &self.nix64,
            Platform::Unknown => &None,
        }
    }
}

impl View for RepositoryIndex {
    type V = IndexView;

    closed spec fn view(&self) -> IndexView {
        index_of(self.releases@)
    }
}

impl RepositoryIndex {
    #[verifier::type_invariant]
    spec fn well_formed(self) -> bool {
        distinct(self.releases@) && complete(self.releases@)
    }

    /// The index as `to_entries` writes it down.
    pub closed spec fn listing(&self) -> EntriesView {
        listing_of(self.releases@)
    }

    /// The index without a release.
    pub fn new() -> (r: RepositoryIndex)
        ensures
            r@ == Map::<Seq<u8>, Map<Platform, Seq<char>>>::empty(),
    {
        RepositoryIndex { releases: Vec::new() }
    }

    fn position(&self, version: &Version) -> (r: Option<usize>)
        ensures
            match r {
                Some(at) => at < self.releases@.len() && self.releases@[at as int].version@
                    == version@,
                None => forall|i: int|
                    0 <= i < self.releases@.len() ==> (#[trigger] self.releases@[i]).version@
                        != version@,
            },
    {
        let mut i: usize = 0;
        while i < self.releases.len()
            invariant
                i <= self.releases@.len(),
                forall|j: int| 0 <= j < i ==> (#[trigger] self.releases@[j]).version@ != version@,
            decreases self.releases.len() - i,
        {
            if self.releases[i].version == *version {
                return Some(i);
            }
            i += 1;
        }
        None
    }

    /// Merges one release into the index: the link is added to those of
    /// its version, and the links of the other platforms stay.
    pub fn add_to_releases(&mut self, url: String, version: Version, platform: Platform)
        ensures
            final(self)@ == recorded(old(self)@, version@, platform, url@),
    {
        proof {
            use_type_invariant(&*self);
            use_type_invariant(&version);
        }
        if platform == Platform::Unknown {
            return;
        }
        let found = self.position(&version);
        let mut releases: Vec<Release> = Vec::new();
        core::mem::swap(&mut self.releases, &mut releases);
        let ghost before = releases@;
        match found {
            Some(at) => {
                let links = releases[at].links.with(platform, url);
                proof {
                    lemma_index_at(before, at as int);
                    lemma_index_update(before, at as int, Release { version, links });
                }
                releases.set(at, Release { version, links });
            },
            None => {
                proof {
                    lemma_index_keys(before, version@);
                }
                let links = Links::none().with(platform, url);
                releases.push(Release { version, links });
                assert(releases@.drop_last() == before);
            },
        }
        core::mem::swap(&mut self.releases, &mut releases);
    }

    /// The index written down: an entry for each version, with its dotted
    /// form and its links under the platforms' short names. Read again, the
    /// entries give the same index.
    pub fn to_entries(&self) -> (r: CacheEntries)
        ensures
            r.deep_view() == self.listing(),
            entries_read(self.listing()) == Some(self@),
    {
        proof {
            use_type_invariant(self);
            lemma_listing_reads(self.releases@);
        }
        let mut out: CacheEntries = Vec::new();
        let mut i: usize = 0;
        while i < self.releases.len()
            invariant
                i <= self.releases@.len(),
                out.deep_view() == listing_of(self.releases@).take(i as int),
            decreases self.releases.len() - i,
        {
            let release = &self.releases[i];
            let ghost before = out.deep_view();
            out.push((release.version.to_string(), release.links.entries()));
            assert(out.deep_view() =~= before.push(listing_of(self.releases@)[i as int]));
            i += 1;
            assert(listing_of(self.releases@).take(i as int) =~= before.push(
                listing_of(self.releases@)[i - 1],
            ));
        }
        assert(listing_of(self.releases@).take(self.releases@.len() as int) == listing_of(
            self.releases@,
        ));
        out
    }

    /// The index that the entries write down. An entry whose version is not
    /// in dotted form, or with a platform that is not a short name, makes
    /// the whole list malformed.
    pub fn from_entries(entries: &CacheEntries) -> (r: Result<RepositoryIndex, RepoError>)
        ensures
            match r {
                Ok(index) => entries_read(entries.deep_view()) == Some(index@),
                Err(e) => e == RepoError::CacheMalformed && entries_read(entries.deep_view())
                    is None,
            },
    {
        let mut index = RepositoryIndex::new();
        let ghost all = entries.deep_view();
        let mut i: usize = 0;
        while i < entries.len()
            invariant
                i <= entries@.len(),
                all == entries.deep_view(),
                entries_read(all.take(i as int)) == Some(index@),
            decreases entries.len() - i,
        {
            let entry = &entries[i];
            let ghost upto = all.take(i + 1);
            let ghost start = index@;
            assert(upto.drop_last() == all.take(i as int));
            assert(upto.last() == entry.deep_view());
            let version = match Version::from_dotted(entry.0.as_str()) {
                Some(version) => version,
                None => {
                    proof {
                        lemma_entries_read_prefix(all, i + 1);
                    }
                    return Err(RepoError::CacheMalformed);
                },
            };
            let ghost links = entry.1.deep_view();
            let mut k: usize = 0;
            while k < entry.1.len()
                invariant
                    k <= entry.1@.len(),
                    links == entry.1.deep_view(),
                    all == entries.deep_view(),
                    i < entries@.len(),
                    upto == all.take(i + 1),
                    upto.drop_last() == all.take(i as int),
                    upto.last() == (entry.0@, links),
                    entries_read(all.take(i as int)) == Some(start),
                    dotted_version(entry.0@) == Some(version@),
                    links_read(start, version@, links.take(k as int)) == Some(index@),
                decreases entry.1.len() - k,
            {
                let link = &entry.1[k];
                let ghost read = links.take(k + 1);
                assert(read.drop_last() == links.take(k as int));
                assert(read.last() == link.deep_view());
                let platform = Platform::from_short_str(link.0.as_str());
                if platform == Platform::Unknown {
                    proof {
                        lemma_links_read_prefix(start, version@, links, k + 1);
                        lemma_entries_read_prefix(all, i + 1);
                    }
                    return Err(RepoError::CacheMalformed);
                }
                index.add_to_releases(link.1.clone(), version.clone(), platform);
                k += 1;
            }
            assert(links.take(entry.1@.len() as int) == links);
            i += 1;
        }
        assert(all.take(entries@.len() as int) == all);
        Ok(index)
    }

    /// The link to the download for a platform and a version. There is
    /// never one for the unknown platform.
    pub fn get_link(&self, platform: Platform, version: &Version) -> (r: Result<String, RepoError>)
        ensures
            link_view(r) == found_link(self@, platform, version@),
            platform == Platform::Unknown ==> r is Err,
    {
        proof {
            use_type_invariant(self);
            lemma_index_keys(self.releases@, version@);
        }
        match self.position(version) {
            Some(at) => {
                proof {
                    lemma_index_at(self.releases@, at as int);
                }
                match self.releases[at].links.get(platform) {
                    Some(url) => Ok(url.clone()),
                    None => Err(RepoError::PlatformNotFound),
                }
            },
            None => Err(RepoError::VersionNotFound),
        }
    }
}

} // verus!
