use love::binary::cache::{document_or_error, index_or_error, load_local_repo, save_to_file};
use love::binary::index::{RepoError, RepositoryIndex};
use love::binary::plain::{is_plain_cache, move_on, Place};
use love::platform::Platform;
use love::version::Version;

fn sample() -> RepositoryIndex {
    let mut index = RepositoryIndex::new();
    index.add_to_releases("https://dl/0.10.2-win64.zip".to_string(), Version::new(&[0, 10, 2]), Platform::Win64);
    index.add_to_releases("https://dl/0.10.2-win32.zip".to_string(), Version::new(&[0, 10, 2]), Platform::Win32);
    index.add_to_releases("https://dl/0.9.1-nix64".to_string(), Version::new(&[0, 9, 1]), Platform::Nix64);
    index
}

#[test]
fn the_cache_is_a_table_for_each_version() {
    assert_eq!(
        save_to_file(&sample()),
        Ok("[\"0.10.2\"]\nwin32 = \"https://dl/0.10.2-win32.zip\"\nwin64 = \"https://dl/0.10.2-win64.zip\"\n\n[\"0.9.1\"]\nnix64 = \"https://dl/0.9.1-nix64\"\n".to_string())
    );
    assert_eq!(save_to_file(&RepositoryIndex::new()), Ok(String::new()));
}

#[test]
fn a_saved_index_is_loaded_again() {
    let index = sample();
    let text = save_to_file(&index).unwrap();
    let again = load_local_repo(Some(&text)).unwrap();
    for version in [Version::new(&[0, 10, 2]), Version::new(&[0, 9, 1]), Version::new(&[11, 0])] {
        for platform in [Platform::Win32, Platform::Win64, Platform::Nix32, Platform::Nix64, Platform::Unknown] {
            assert_eq!(again.get_link(platform, &version), index.get_link(platform, &version));
        }
    }
    assert_eq!(save_to_file(&again), Ok(text));
}

#[test]
fn links_with_odd_characters_survive_the_cache() {
    let mut index = RepositoryIndex::new();
    let url = "https://dl/a \"quoted\" \\ name?x=1&y=ü\n#frag".to_string();
    index.add_to_releases(url.clone(), Version::new(&[255, 0, 1]), Platform::Nix32);
    let again = load_local_repo(Some(&save_to_file(&index).unwrap())).unwrap();
    assert_eq!(again.get_link(Platform::Nix32, &Version::new(&[255, 0, 1])), Ok(url));
}

#[test]
fn a_cache_that_is_not_there_or_not_an_index_is_an_error() {
    assert_eq!(load_local_repo(None).err(), Some(RepoError::CacheUnreadable));
    assert_eq!(load_local_repo(Some("this is = not toml [")).err(), Some(RepoError::CacheMalformed));
    assert_eq!(load_local_repo(Some("title = \"flat\"\n")).err(), Some(RepoError::CacheMalformed));
    assert_eq!(load_local_repo(Some("[\"0_10_2\"]\nwin64 = \"u\"\n")).err(), Some(RepoError::CacheMalformed));
    assert_eq!(load_local_repo(Some("[\"0.10.2\"]\nmac64 = \"u\"\n")).err(), Some(RepoError::CacheMalformed));
    assert_eq!(load_local_repo(Some("[\"0.10.2\"]\nwin64 = 64\n")).err(), Some(RepoError::CacheMalformed));
    assert!(load_local_repo(Some("")).is_ok());
}

#[test]
fn what_the_toml_crate_gives_is_turned_into_outcomes() {
    assert_eq!(document_or_error(Some("[a]\n".to_string())), Ok("[a]\n".to_string()));
    assert_eq!(document_or_error(None), Err(RepoError::CacheNotWritten));
    assert_eq!(index_or_error(None).err(), Some(RepoError::CacheMalformed));
    let entries = vec![("1.2.3".to_string(), vec![("nix64".to_string(), "u".to_string())])];
    let index = index_or_error(Some(entries.clone())).unwrap();
    assert_eq!(index.to_entries(), entries);
    assert_eq!(index.get_link(Platform::Nix64, &Version::new(&[1, 2, 3])), Ok("u".to_string()));
}

#[test]
fn what_the_library_writes_is_plain() {
    assert!(is_plain_cache(""));
    assert!(is_plain_cache("\n\n"));
    assert!(is_plain_cache("[\"0.10.2\"]\nwin32 = \"https://dl/a\"\nwin64 = \"https://dl/b\"\n\n[\"0.9.1\"]\nnix64 = \"c\"\n"));
    assert!(is_plain_cache("[\"0.10.2\"]\nwin32 = \"https://dl/a\""));
    assert!(is_plain_cache("[7]\n\"a key\" = \"\"\n[top-level_1]"));
    assert!(is_plain_cache("a = \"[[[{{{ . . . ]]] \\\" \\\\ # ' \\n\"\n"));
    assert!(is_plain_cache(&save_to_file(&sample()).unwrap()));
    let mut index = RepositoryIndex::new();
    let odd = "\"[\\\\]\" {.} \u{1}\u{7f}\r\n\t'''\"\"\"".to_string();
    index.add_to_releases(odd.clone(), Version::new(&[1, 2, 3]), Platform::Win32);
    let text = save_to_file(&index).unwrap();
    assert!(is_plain_cache(&text));
    assert_eq!(load_local_repo(Some(&text)).unwrap().get_link(Platform::Win32, &Version::new(&[1, 2, 3])), Ok(odd));
}

#[test]
fn other_toml_is_not_plain() {
    for text in [
        "a = [1]\n",
        "a = {b = 1}\n",
        "a.b = \"c\"\n",
        "[a.b]\n",
        "[[a]]\n",
        "a = 1\n",
        "a = 'c'\n",
        "a = \"\"\"c\"\"\"\n",
        "a=\"c\"\n",
        "a  = \"c\"\n",
        "a = \"c\" \n",
        " a = \"c\"\n",
        "a = \"c\" # note\n",
        "# note\n",
        "[a] \n",
        "[]\n",
        "[a\n",
        "a = \"c\n",
        "a = \"c\\\"\n",
        "a = \"c\\\n\"\n",
        "a = \"c\"\r\n",
        "\u{e9} = \"c\"\n",
        "a.b",
        "=",
    ] {
        assert!(!is_plain_cache(text), "{:?}", text);
        assert_eq!(load_local_repo(Some(text)).err(), Some(RepoError::CacheMalformed), "{:?}", text);
    }
}

#[test]
fn a_text_that_nests_deeply_is_refused_unread() {
    let arrays = format!("a = {}{}\n", "[".repeat(100_000), "]".repeat(100_000));
    assert_eq!(load_local_repo(Some(&arrays)).err(), Some(RepoError::CacheMalformed));
    let spread = format!("a = {}1{}\n", "[\n".repeat(100_000), "]\n".repeat(100_000));
    assert_eq!(load_local_repo(Some(&spread)).err(), Some(RepoError::CacheMalformed));
    let hidden = format!("b = \"{}\"\na = {}{}\n", "]".repeat(100_000), "[".repeat(100_000), "]".repeat(100_000));
    assert_eq!(load_local_repo(Some(&hidden)).err(), Some(RepoError::CacheMalformed));
    let tables = format!("a = {}1{}\n", "{a=".repeat(100_000), "}".repeat(100_000));
    assert_eq!(load_local_repo(Some(&tables)).err(), Some(RepoError::CacheMalformed));
    let dots = format!("a{} = \"c\"\n", ".a".repeat(100_000));
    assert_eq!(load_local_repo(Some(&dots)).err(), Some(RepoError::CacheMalformed));
    let header = format!("[a{}]\n", ".a".repeat(100_000));
    assert_eq!(load_local_repo(Some(&header)).err(), Some(RepoError::CacheMalformed));
    let inside = format!("[\"1.2.3\"]\nwin64 = \"{}{}\"\n", "[{".repeat(100_000), ".".repeat(100_000));
    assert!(load_local_repo(Some(&inside)).is_ok());
}

#[test]
fn a_document_that_is_not_plain_is_not_written() {
    assert_eq!(document_or_error(Some("a = [1]\n".to_string())), Err(RepoError::CacheNotWritten));
    assert_eq!(document_or_error(Some("text".to_string())), Err(RepoError::CacheNotWritten));
    assert_eq!(document_or_error(Some("[a]\nb = \"c\"\n".to_string())), Ok("[a]\nb = \"c\"\n".to_string()));
}

#[test]
fn the_reading_moves_place_by_place() {
    let mut place = Place::LineStart;
    let mut seen = Vec::new();
    for c in "[\"a\\\"\"]\nb = \"c\"".chars() {
        place = move_on(place, c);
        seen.push(place);
    }
    assert_eq!(
        seen,
        vec![
            Place::HeaderBegun,
            Place::HeaderString,
            Place::HeaderString,
            Place::HeaderEscape,
            Place::HeaderString,
            Place::HeaderKeyed,
            Place::HeaderEnded,
            Place::LineStart,
            Place::KeyBare,
            Place::BeforeEquals,
            Place::AfterEquals,
            Place::BeforeValue,
            Place::ValueString,
            Place::ValueString,
            Place::ValueEnded,
        ]
    );
    assert_eq!(move_on(Place::ValueEnded, 'x'), Place::Astray);
    assert_eq!(move_on(Place::Astray, '\n'), Place::Astray);
    assert_eq!(move_on(Place::LineStart, '"'), Place::KeyString);
    assert_eq!(move_on(Place::KeyString, '\\'), Place::KeyEscape);
    assert_eq!(move_on(Place::KeyEscape, '"'), Place::KeyString);
    assert_eq!(move_on(Place::KeyString, '"'), Place::Keyed);
    assert_eq!(move_on(Place::Keyed, ' '), Place::BeforeEquals);
    assert_eq!(move_on(Place::HeaderBegun, 'Z'), Place::HeaderBare);
    assert_eq!(move_on(Place::HeaderBare, ']'), Place::HeaderEnded);
    assert_eq!(move_on(Place::ValueString, '\\'), Place::ValueEscape);
    assert_eq!(move_on(Place::ValueEscape, 'n'), Place::ValueString);
}
