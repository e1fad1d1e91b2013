//! The repository of releases: the pages that list them, how a listing is
//! read, the crawl over the pages and the rule that says when the cache is
//! renewed.

use vstd::prelude::*;
use crate::binary::index::{recorded, IndexView, RepositoryIndex};
use crate::error::ErrorKind;
use crate::pattern::{first_group, is_match, pattern_found, regex_first_group};
use crate::platform::Platform;
use crate::text::{contains, occurs_in, text_of};
use crate::version::{version_in_text, view_of, Version};

verus! {

/// The name of the cache file, directly in the settings folder.
pub const REPO_FILE: &'static str = "repo.toml";

/// The page that the crawl starts from.
pub const REPOSITORY: &'static str =
    "https://api.bitbucket.org/2.0/repositories/rude/love/downloads";

/// What the address of a page must hold for it to be fetched.
pub const HOST_MARK: &'static str = "bitbucket";

/// How long the cache stays fresh, in seconds: a day.
pub const FRESH_FOR_SECS: u64 = 86400;

/// What the name of a release for 64-bit Linux looks like.
pub const REGEX_LINUX_64: &'static str = r"(nix64|x86_64).*\.[A|a]pp[I|i]mage";

/// What the name of a release for 32-bit Linux looks like.
pub const REGEX_LINUX_32: &'static str = r"(nix32|i686).*\.[A|a]pp[I|i]mage";

/// What the name of a release for 64-bit Windows looks like.
pub const REGEX_WINDOWS_64: &'static str = r"win64.*\.zip";

/// What the name of a release for 32-bit Windows looks like.
pub const REGEX_WINDOWS_32: &'static str = r"(win32|win-x86).*\.zip";

/// The version in the name of a release: three numbers, as its first
/// group.
pub const REGEX_VERSION_MATCH: &'static str = r"(\d+[-|.|_]\d+[-|.|_]\d+)";

/// The platform that the four patterns point to, tried in this order:
/// 64-bit Windows, 32-bit Windows, 64-bit Linux, 32-bit Linux.
pub open spec fn classified(win64: bool, win32: bool, nix64: bool, nix32: bool) -> Platform {
    if win64 {
        Platform::Win64
    } else if win32 {
        Platform::Win32
    } else if nix64 {
        Platform::Nix64
    } else if nix32 {
        Platform::Nix32
    } else {
        Platform::Unknown
    }
}

/// The platform that a release is for, by its name.
pub open spec fn platform_of_name(name: Seq<char>) -> Platform {
    classified(
        pattern_found(REGEX_WINDOWS_64@, name),
        pattern_found(REGEX_WINDOWS_32@, name),
        pattern_found(REGEX_LINUX_64@, name),
        pattern_found(REGEX_LINUX_32@, name),
    )
}

/// The version of a release, by its name.
pub open spec fn version_of_name(name: Seq<char>) -> Option<Seq<u8>> {
    match regex_first_group(REGEX_VERSION_MATCH@, name) {
        Some(written) => version_in_text(written),
        None => None,
    }
}

/// Every name is for exactly one platform, the first in the order of the
/// checks whose pattern matches: a later pattern counts only where no
/// earlier one matches, and the unknown platform where none does.
pub proof fn lemma_one_platform(name: Seq<char>)
    ensures
        platform_of_name(name) == Platform::Win64 <==> pattern_found(REGEX_WINDOWS_64@, name),
        platform_of_name(name) == Platform::Win32 <==> !pattern_found(REGEX_WINDOWS_64@, name)
            && pattern_found(REGEX_WINDOWS_32@, name),
        platform_of_name(name) == Platform::Nix64 <==> !pattern_found(REGEX_WINDOWS_64@, name)
            && !pattern_found(REGEX_WINDOWS_32@, name) && pattern_found(REGEX_LINUX_64@, name),
        platform_of_name(name) == Platform::Nix32 <==> !pattern_found(REGEX_WINDOWS_64@, name)
            && !pattern_found(REGEX_WINDOWS_32@, name) && !pattern_found(REGEX_LINUX_64@, name) && pattern_found(
            REGEX_LINUX_32@,
            name,
        ),
        platform_of_name(name) == Platform::Unknown <==> !pattern_found(REGEX_WINDOWS_64@, name)
            && !pattern_found(REGEX_WINDOWS_32@, name) && !pattern_found(REGEX_LINUX_64@, name) && !pattern_found(
            REGEX_LINUX_32@,
            name,
        ),
{
}

/// One release as a page lists it.
pub struct Listing {
    pub name: Option<String>,
    pub href: Option<String>,
}

/// One page of the list of releases.
pub struct ReleasePage {
    /// The address of the page that follows.
    pub next: Option<String>,
    /// The releases on this page.
    pub values: Option<Vec<Listing>>,
}

/// A listing, as contracts speak of it.
pub struct ListingView {
    pub name: Option<Seq<char>>,
    pub href: Option<Seq<char>>,
}

/// A page, as contracts speak of it.
pub struct PageView {
    pub next: Option<Seq<char>>,
    pub values: Option<Seq<ListingView>>,
}

impl View for Listing {
    type V = ListingView;

    open spec fn view(&self) -> ListingView {
        ListingView { name: text_of(self.name), href: text_of(self.href) }
    }
}

/// The views of the listings, in order.
pub open spec fn listings_view(listings: Seq<Listing>) -> Seq<ListingView> {
    Seq::new(listings.len(), |i: int| listings[i]@)
}

impl View for ReleasePage {
    type V = PageView;

    open spec fn view(&self) -> PageView {
        PageView {
            next: text_of(self.next),
            values: match self.values {
                Some(values) => Some(listings_view(values@)),
                None => None,
            },
        }
    }
}

/// The page that `serde_json::from_str` reads out of the body of a
/// response: the string under `next`, and for each item of the array under
/// `values` the strings under `name` and under `links`, `self`, `href`. A
/// part is `None` where the document holds no such string or array; the
/// whole is `None` where the body is no JSON.
pub uninterp spec fn json_page(body: Seq<char>) -> Option<PageView>;

/// `serde_json::from_str` on the body, and of the value it gives the parts
/// that make a page, taken with `Value`'s index, `as_str` and `as_array`.
/// The page depends on the body alone.
#[verifier::external_body]
fn read_page(body: &str) -> (r: Option<ReleasePage>)
    ensures
        r is Some <==> json_page(body@) is Some,
        r is Some ==> json_page(body@) == Some(r->0@),
{
    let json: serde_json::Value = serde_json::from_str(body).ok()?;
    let text = |v: &serde_json::Value| v.as_str().map(|s| s.to_string());
    let listing = |v: &serde_json::Value| Listing {
        name: text(&v["name"]),
        href: text(&v["links"]["self"]["href"]),
    };
    let values = json["values"].as_array().map(|all| all.iter().map(listing).collect());
    Some(ReleasePage { next: text(&json["next"]), values })
}

/// The release that a listing stands for: its version and its platform by
/// its name, with its link. A listing without a name or a link, without a
/// version in its name, or for no known platform stands for none.
pub open spec fn listed_release(listing: ListingView) -> Option<(Seq<u8>, Platform, Seq<char>)> {
    match (listing.name, listing.href) {
        (Some(name), Some(href)) => match version_of_name(name) {
            Some(version) => if platform_of_name(name) != Platform::Unknown {
                Some((version, platform_of_name(name), href))
            } else {
                None
            },
            None => None,
        },
        _ => None,
    }
}

/// The index after a listing is merged into it.
pub open spec fn with_listing(index: IndexView, listing: ListingView) -> IndexView {
    match listed_release(listing) {
        Some((version, platform, href)) => recorded(index, version, platform, href),
        None => index,
    }
}

/// The index after the listings are merged into it, one after the other.
pub open spec fn with_listings(index: IndexView, listings: Seq<ListingView>) -> IndexView
    decreases listings.len(),
{
    if listings.len() == 0 {
        index
    } else {
        with_listing(with_listings(index, listings.drop_last()), listings.last())
    }
}

/// The index after a page is merged into it.
pub open spec fn with_page(index: IndexView, page: PageView) -> IndexView {
    match page.values {
        Some(listings) => with_listings(index, listings),
        None => index,
    }
}

/// Why a page of the list is missing from a crawl.
#[derive(Clone, Copy, Debug, PartialEq, Eq, Structural)]
pub enum PageError {
    /// Nothing came back from the address.
    Unreachable,
    /// What came back is no JSON.
    NotJson,
}

/// The page that a response holds: none where the address is not of the
/// host, and an error where nothing came back or what came back is no
/// JSON.
pub open spec fn page_of(url: Seq<char>, body: Option<Seq<char>>) -> Result<
    Option<PageView>,
    PageError,
> {
    if !occurs_in(url, HOST_MARK@) {
        Ok(None)
    } else {
        match body {
            Some(body) => match json_page(body) {
                Some(page) => Ok(Some(page)),
                None => Err(PageError::NotJson),
            },
            None => Err(PageError::Unreachable),
        }
    }
}

/// What a response comes to: the index with the page's releases merged
/// into it, and the address of the page that follows. A page that is
/// missing leaves the index as it is.
pub open spec fn processed(index: IndexView, url: Seq<char>, body: Option<Seq<char>>) -> (
    IndexView,
    Result<Option<Seq<char>>, PageError>,
) {
    match page_of(url, body) {
        Ok(Some(page)) => (with_page(index, page), Ok(page.next)),
        Ok(None) => (index, Ok(None)),
        Err(e) => (index, Err(e)),
    }
}

/// The view of the address of a following page.
pub open spec fn next_view(next: Result<Option<String>, PageError>) -> Result<
    Option<Seq<char>>,
    PageError,
> {
    match next {
        Ok(next) => Ok(text_of(next)),
        Err(e) => Err(e),
    }
}

/// Merging listings never drops a link that was recorded before.
pub proof fn lemma_listings_keep(
    index: IndexView,
    listings: Seq<ListingView>,
    version: Seq<u8>,
    platform: Platform,
)
    requires
        index.contains_key(version),
        index[version].contains_key(platform),
    ensures
        with_listings(index, listings).contains_key(version),
        with_listings(index, listings)[version].contains_key(platform),
    decreases listings.len(),
{
    if listings.len() > 0 {
        lemma_listings_keep(index, listings.drop_last(), version, platform);
    }
}

/// Merging one page after another is merging the two pages' listings as
/// one list: how the listings are cut into pages does not matter.
pub proof fn lemma_listings_concat(index: IndexView, a: Seq<ListingView>, b: Seq<ListingView>)
    ensures
        with_listings(with_listings(index, a), b) == with_listings(index, a + b),
    decreases b.len(),
{
    if b.len() == 0 {
        assert(a + b == a);
    } else {
        assert((a + b).drop_last() == a + b.drop_last());
        assert((a + b).last() == b.last());
        lemma_listings_concat(index, a, b.drop_last());
    }
}

/// The platform that the outcome of the four checks points to.
pub fn classify(win64: bool, win32: bool, nix64: bool, nix32: bool) -> (r: Platform)
    ensures
        r == classified(win64, win32, nix64, nix32),
{
    if win64 {
        Platform::Win64
    } else if win32 {
        Platform::Win32
    } else if nix64 {
        Platform::Nix64
    } else if nix32 {
        Platform::Nix32
    } else {
        Platform::Unknown
    }
}

fn found(outcome: Option<bool>) -> (r: bool)
    ensures
        r == (outcome == Some(true)),
{
    match outcome {
        Some(matched) => matched,
        None => false,
    }
}

/// The platform that a release is for, by its name.
pub fn get_platform(name: &str) -> (r: Platform)
    ensures
        r == platform_of_name(name@),
{
    classify(
        found(is_match(REGEX_WINDOWS_64, name)),
        found(is_match(REGEX_WINDOWS_32, name)),
        found(is_match(REGEX_LINUX_64, name)),
        found(is_match(REGEX_LINUX_32, name)),
    )
}

/// The version of a release, by its name.
pub fn get_version(name: &str) -> (r: Option<Version>)
    ensures
        view_of(r) == version_of_name(name@),
{
    match first_group(REGEX_VERSION_MATCH, name) {
        Some(written) => Version::from_str(written.as_str()),
        None => None,
    }
}

/// Merges the release that a listing stands for into the index.
pub fn absorb_listing(repo: &mut RepositoryIndex, listing: &Listing)
    ensures
        final(repo)@ == with_listing(old(repo)@, listing@),
{
    match (&listing.name, &listing.href) {
        (Some(name), Some(href)) => {
            match get_version(name.as_str()) {
                Some(version) => {
                    let platform = get_platform(name.as_str());
                    if platform != Platform::Unknown {
                        repo.add_to_releases(href.clone(), version, platform);
                    }
                },
                None => {},
            }
        },
        _ => {},
    }
}

/// Merges the releases of a page into the index.
pub fn absorb_page(repo: &mut RepositoryIndex, page: &ReleasePage)
    ensures
        final(repo)@ == with_page(old(repo)@, page@),
{
    match &page.values {
        Some(values) => {
            let ghost all = listings_view(values@);
            let mut i: usize = 0;
            while i < values.len()
                invariant
                    i <= values@.len(),
                    all == listings_view(values@),
                    repo@ == with_listings(old(repo)@, all.take(i as int)),
                decreases values.len() - i,
            {
                assert(all.take(i + 1).drop_last() == all.take(i as int));
                assert(all.take(i + 1).last() == values@[i as int]@);
                absorb_listing(repo, &values[i]);
                i += 1;
            }
            assert(all.take(values@.len() as int) == all);
        },
        None => {},
    }
}

impl PageError {
    /// The kind of failure.
    pub fn kind(&self) -> (r: ErrorKind)
        ensures
            r == ErrorKind::Network,
    {
        ErrorKind::Network
    }
}

/// Merges the page that came back from `url` into the index and gives the
/// address of the page that follows it. `None` for the body stands for a
/// page that could not be fetched. A page that is missing leaves the index
/// as it is and has no follower: the error says why it is missing, and is
/// for the record only. An address that is not of the host is passed over.
pub fn process_bitbucket(repo: &mut RepositoryIndex, url: &str, body: Option<&str>) -> (next:
    Result<Option<String>, PageError>)
    ensures
        (final(repo)@, next_view(next)) == processed(
            old(repo)@,
            url@,
            match body {
                Some(body) => Some(body@),
                None => None,
            },
        ),
{
    if !contains(url, HOST_MARK) {
        return Ok(None);
    }
    let body = match body {
        Some(body) => body,
        None => {
            return Err(PageError::Unreachable);
        },
    };
    match read_page(body) {
        Some(page) => {
            absorb_page(repo, &page);
            Ok(page.next)
        },
        None => Err(PageError::NotJson),
    }
}

/// The place of the cache file: directly in the settings folder `root`.
pub fn get_repo_file(root: &str) -> (r: Vec<String>)
    ensures
        r.deep_view() == seq![root@, REPO_FILE@],
{
    let mut path: Vec<String> = Vec::new();
    path.push(root.to_owned());
    path.push(REPO_FILE.to_owned());
    assert(path.deep_view() =~= seq![root@, REPO_FILE@]);
    path
}

/// The pages to start the crawl from: the built-in one unless it is
/// switched off, then the custom one if there is one.
pub fn repo_links(use_default_repos: bool, custom_repo: Option<String>) -> (links: Vec<String>)
    ensures
        links.deep_view() == (if use_default_repos {
            seq![REPOSITORY@]
        } else {
            Seq::<Seq<char>>::empty()
        }) + (match custom_repo {
            Some(custom) => seq![custom@],
            None => Seq::<Seq<char>>::empty(),
        }),
{
    let mut links: Vec<String> = Vec::new();
    if use_default_repos {
        links.push(REPOSITORY.to_owned());
    }
    match custom_repo {
        Some(custom) => {
            links.push(custom);
        },
        None => {},
    }
    assert(links.deep_view() =~= (if use_default_repos {
        seq![REPOSITORY@]
    } else {
        Seq::<Seq<char>>::empty()
    }) + (match custom_repo {
        Some(custom) => seq![custom@],
        None => Seq::<Seq<char>>::empty(),
    }));
    links
}

} // verus!
