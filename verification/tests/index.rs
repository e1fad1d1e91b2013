use love::binary::index::{RepoError, RepositoryIndex};
use love::platform::Platform;
use love::version::Version;

fn v(parts: &[u8]) -> Version {
    Version::new(parts)
}

fn sample() -> RepositoryIndex {
    let mut index = RepositoryIndex::new();
    index.add_to_releases("https://dl/0.10.2-win64.zip".to_string(), v(&[0, 10, 2]), Platform::Win64);
    index.add_to_releases("https://dl/0.10.2-win32.zip".to_string(), v(&[0, 10, 2]), Platform::Win32);
    index.add_to_releases("https://dl/0.9.1-nix64".to_string(), v(&[0, 9, 1]), Platform::Nix64);
    index
}

#[test]
fn empty_index_knows_no_version() {
    let index = RepositoryIndex::new();
    assert_eq!(index.get_link(Platform::Win64, &v(&[0, 10, 2])), Err(RepoError::VersionNotFound));
    assert!(index.to_entries().is_empty());
}

#[test]
fn links_are_found_by_platform_and_version() {
    let index = sample();
    assert_eq!(index.get_link(Platform::Win64, &v(&[0, 10, 2])), Ok("https://dl/0.10.2-win64.zip".to_string()));
    assert_eq!(index.get_link(Platform::Win32, &v(&[0, 10, 2])), Ok("https://dl/0.10.2-win32.zip".to_string()));
    assert_eq!(index.get_link(Platform::Nix64, &v(&[0, 9, 1])), Ok("https://dl/0.9.1-nix64".to_string()));
}

#[test]
fn missing_version_and_missing_platform_are_told_apart() {
    let index = sample();
    assert_eq!(index.get_link(Platform::Nix32, &v(&[0, 10, 2])), Err(RepoError::PlatformNotFound));
    assert_eq!(index.get_link(Platform::Win64, &v(&[0, 9, 1])), Err(RepoError::PlatformNotFound));
    assert_eq!(index.get_link(Platform::Win64, &v(&[11, 0])), Err(RepoError::VersionNotFound));
    assert_eq!(index.get_link(Platform::Win64, &v(&[0, 10])), Err(RepoError::VersionNotFound));
    assert_eq!(index.get_link(Platform::Unknown, &v(&[0, 10, 2])), Err(RepoError::PlatformNotFound));
    assert_eq!(index.get_link(Platform::Unknown, &v(&[1])), Err(RepoError::VersionNotFound));
}

#[test]
fn merging_keeps_the_other_platforms() {
    let mut index = sample();
    index.add_to_releases("https://dl/0.10.2-nix32".to_string(), v(&[0, 10, 2]), Platform::Nix32);
    assert_eq!(index.get_link(Platform::Win64, &v(&[0, 10, 2])), Ok("https://dl/0.10.2-win64.zip".to_string()));
    assert_eq!(index.get_link(Platform::Win32, &v(&[0, 10, 2])), Ok("https://dl/0.10.2-win32.zip".to_string()));
    assert_eq!(index.get_link(Platform::Nix32, &v(&[0, 10, 2])), Ok("https://dl/0.10.2-nix32".to_string()));
    assert_eq!(index.get_link(Platform::Nix64, &v(&[0, 9, 1])), Ok("https://dl/0.9.1-nix64".to_string()));
}

#[test]
fn a_later_link_replaces_the_one_for_the_same_platform() {
    let mut index = sample();
    index.add_to_releases("https://mirror/0.10.2-win64.zip".to_string(), v(&[0, 10, 2]), Platform::Win64);
    assert_eq!(index.get_link(Platform::Win64, &v(&[0, 10, 2])), Ok("https://mirror/0.10.2-win64.zip".to_string()));
    assert_eq!(index.get_link(Platform::Win32, &v(&[0, 10, 2])), Ok("https://dl/0.10.2-win32.zip".to_string()));
}

#[test]
fn the_unknown_platform_is_never_recorded() {
    let mut index = RepositoryIndex::new();
    index.add_to_releases("https://dl/x".to_string(), v(&[1, 2, 3]), Platform::Unknown);
    assert_eq!(index.get_link(Platform::Unknown, &v(&[1, 2, 3])), Err(RepoError::VersionNotFound));
    assert!(index.to_entries().is_empty());
}

#[test]
fn merging_in_another_order_gives_the_same_links() {
    let mut one = RepositoryIndex::new();
    one.add_to_releases("a".to_string(), v(&[1, 0, 0]), Platform::Win64);
    one.add_to_releases("b".to_string(), v(&[1, 0, 0]), Platform::Nix64);
    one.add_to_releases("c".to_string(), v(&[2, 0, 0]), Platform::Win64);
    let mut other = RepositoryIndex::new();
    other.add_to_releases("c".to_string(), v(&[2, 0, 0]), Platform::Win64);
    other.add_to_releases("b".to_string(), v(&[1, 0, 0]), Platform::Nix64);
    other.add_to_releases("a".to_string(), v(&[1, 0, 0]), Platform::Win64);
    for version in [v(&[1, 0, 0]), v(&[2, 0, 0]), v(&[3, 0, 0])] {
        for platform in [Platform::Win32, Platform::Win64, Platform::Nix32, Platform::Nix64] {
            assert_eq!(one.get_link(platform, &version), other.get_link(platform, &version));
        }
    }
}

#[test]
fn the_index_is_written_down_version_by_version() {
    let entries = sample().to_entries();
    assert_eq!(
        entries,
        vec![
            (
                "0.10.2".to_string(),
                vec![
                    ("win32".to_string(), "https://dl/0.10.2-win32.zip".to_string()),
                    ("win64".to_string(), "https://dl/0.10.2-win64.zip".to_string()),
                ]
            ),
            ("0.9.1".to_string(), vec![("nix64".to_string(), "https://dl/0.9.1-nix64".to_string())]),
        ]
    );
}

#[test]
fn entries_read_back_give_the_same_index() {
    let index = sample();
    let again = RepositoryIndex::from_entries(&index.to_entries()).unwrap();
    for version in [v(&[0, 10, 2]), v(&[0, 9, 1]), v(&[11, 0])] {
        for platform in [Platform::Win32, Platform::Win64, Platform::Nix32, Platform::Nix64, Platform::Unknown] {
            assert_eq!(again.get_link(platform, &version), index.get_link(platform, &version));
        }
    }
    assert_eq!(again.to_entries(), index.to_entries());
}

#[test]
fn malformed_entries_are_refused() {
    let bad_version = vec![("0_10_2".to_string(), vec![("win64".to_string(), "u".to_string())])];
    assert_eq!(RepositoryIndex::from_entries(&bad_version).err(), Some(RepoError::CacheMalformed));
    let bad_platform = vec![("0.10.2".to_string(), vec![("mac64".to_string(), "u".to_string())])];
    assert_eq!(RepositoryIndex::from_entries(&bad_platform).err(), Some(RepoError::CacheMalformed));
    let unknown_platform = vec![("0.10.2".to_string(), vec![("None".to_string(), "u".to_string())])];
    assert_eq!(RepositoryIndex::from_entries(&unknown_platform).err(), Some(RepoError::CacheMalformed));
    let late = vec![
        ("0.10.2".to_string(), vec![("win64".to_string(), "u".to_string())]),
        ("0.9.1".to_string(), vec![("nix64".to_string(), "u".to_string()), ("".to_string(), "u".to_string())]),
    ];
    assert_eq!(RepositoryIndex::from_entries(&late).err(), Some(RepoError::CacheMalformed));
}

#[test]
fn an_entry_without_links_adds_nothing() {
    let entries = vec![("0.10.2".to_string(), Vec::new())];
    let index = RepositoryIndex::from_entries(&entries).unwrap();
    assert_eq!(index.get_link(Platform::Win64, &v(&[0, 10, 2])), Err(RepoError::VersionNotFound));
}
