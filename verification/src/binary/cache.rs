//! The cache file: the index of releases as a TOML document, a table for
//! each version that holds the link under each platform's short name. The
//! document is in plain form, and no other text is taken for a cache.

use vstd::prelude::*;
use crate::binary::index::{entries_read, CacheEntries, EntriesView, IndexView, RepoError, RepositoryIndex};
use crate::binary::plain::{is_plain_cache, plain_cache};

verus! {

/// The TOML document that `toml::to_string` writes for a table of tables
/// with the given entries; `None` where it gives an error.
pub uninterp spec fn toml_document(entries: EntriesView) -> Option<Seq<char>>;

/// The entries of the table of tables that `toml::from_str` reads out of a
/// document, in the order of their keys; `None` where the text is no such
/// document.
pub uninterp spec fn toml_entries(text: Seq<char>) -> Option<EntriesView>;

/// The text that goes into the cache file for the given entries: the TOML
/// document for them, where there is one and it is plain.
pub open spec fn cache_document(entries: EntriesView) -> Option<Seq<char>> {
    match toml_document(entries) {
        Some(text) => if plain_cache(text) {
            Some(text)
        } else {
            None
        },
        None => None,
    }
}

/// The index that is read out of entries, if they were read.
pub open spec fn index_of_entries(entries: Option<EntriesView>) -> Result<IndexView, RepoError> {
    match entries {
        Some(entries) => match entries_read(entries) {
            Some(index) => Ok(index),
            None => Err(RepoError::CacheMalformed),
        },
        None => Err(RepoError::CacheMalformed),
    }
}

/// The index that a cache file holds. A text that is not plain holds none.
pub open spec fn cache_index(text: Seq<char>) -> Result<IndexView, RepoError> {
    if plain_cache(text) {
        index_of_entries(toml_entries(text))
    } else {
        Err(RepoError::CacheMalformed)
    }
}

/// The view of an index that may have failed to load.
pub open spec fn index_view(r: Result<RepositoryIndex, RepoError>) -> Result<IndexView, RepoError> {
    match r {
        Ok(index) => Ok(index@),
        Err(e) => Err(e),
    }
}

/// `toml::to_string` on the entries, put into a map of maps. The document
/// depends on the entries alone: the maps are ordered by key.
#[verifier::external_body]
fn write_toml(entries: &CacheEntries) -> (r: Option<String>)
    ensures
        r is Some <==> toml_document(entries.deep_view()) is Some,
        r is Some ==> toml_document(entries.deep_view()) == Some(r->0@),
{
    let tables: std::collections::BTreeMap<&String, std::collections::BTreeMap<&String, &String>> =
        entries.iter().map(|(v, links)| (v, links.iter().map(|(p, u)| (p, u)).collect())).collect();
    toml::to_string(&tables).ok()
}

/// `toml::from_str` into a map of maps of strings, handed out as entries.
/// They depend on the text alone.
///
/// The text must be plain. `from_str` descends once for each array and
/// inline table that is open and for each part of a key with dots, and
/// nothing in it limits how deep, so that a text with enough of them
/// overflows the stack. In a plain text it meets none: it reads each line
/// as a header with one key or as a key with a string, and a bracket, a
/// brace or a dot elsewhere in the line is inside a string, which it reads
/// by the same rule for quotes and backslashes.
#[verifier::external_body]
fn read_toml(text: &str) -> (r: Option<CacheEntries>)
    requires
        plain_cache(text@),
    ensures
        r is Some <==> toml_entries(text@) is Some,
        r is Some ==> toml_entries(text@) == Some(r->0.deep_view()),
{
    let tables: std::collections::BTreeMap<String, std::collections::BTreeMap<String, String>> =
        toml::from_str(text).ok()?;
    Some(tables.into_iter().map(|(v, links)| (v, links.into_iter().collect())).collect())
}

/// What writing the entries comes to: the document, if there is one and
/// it is plain, so that nothing is written that would not be read again.
pub fn document_or_error(document: Option<String>) -> (r: Result<String, RepoError>)
    ensures
        match r {
            Ok(text) => document == Some(text) && plain_cache(text@),
            Err(e) => e == RepoError::CacheNotWritten && (document is None || !plain_cache(
                document->0@,
            )),
        },
{
    match document {
        Some(text) => {
            if is_plain_cache(text.as_str()) {
                Ok(text)
            } else {
                Err(RepoError::CacheNotWritten)
            }
        },
        None => Err(RepoError::CacheNotWritten),
    }
}

/// What reading entries out of a cache file comes to.
pub fn index_or_error(entries: Option<CacheEntries>) -> (r: Result<RepositoryIndex, RepoError>)
    ensures
        index_view(r) == index_of_entries(
            match entries {
                Some(entries) => Some(entries.deep_view()),
                None => None,
            },
        ),
{
    match entries {
        Some(entries) => RepositoryIndex::from_entries(&entries),
        None => Err(RepoError::CacheMalformed),
    }
}

/// The text that goes into the cache file for an index.
pub fn save_to_file(repo: &RepositoryIndex) -> (r: Result<String, RepoError>)
    ensures
        match r {
            Ok(text) => cache_document(repo.listing()) == Some(text@),
            Err(e) => e == RepoError::CacheNotWritten && cache_document(repo.listing()) is None,
        },
        entries_read(repo.listing()) == Some(repo@),
{
    document_or_error(write_toml(&repo.to_entries()))
}

/// The index that the cache file holds, given its text; `None` stands for
/// a file that could not be read. A text that is not plain is malformed,
/// and is not handed to the TOML reader.
pub fn load_local_repo(text: Option<&str>) -> (r: Result<RepositoryIndex, RepoError>)
    ensures
        index_view(r) == match text {
            Some(text) => cache_index(text@),
            None => Err(RepoError::CacheUnreadable),
        },
{
    match text {
        Some(text) => {
            if is_plain_cache(text) {
                index_or_error(read_toml(text))
            } else {
                Err(RepoError::CacheMalformed)
            }
        },
        None => Err(RepoError::CacheUnreadable),
    }
}

} // verus!
