use love::binary::binary::{build_path, launched, Binary, BinaryEvent, InstallStep, Launch, RunError, RunStep};
use love::binary::index::RepoError;
use love::binary::install::InstallError;
use love::error::ErrorKind;
use love::platform::Platform;
use love::version::Version;

fn names(parts: &[&str]) -> Vec<String> {
    parts.iter().map(|s| s.to_string()).collect()
}

fn unresolved(platform: Platform) -> Binary {
    Binary::new(&platform, &Version::new(&[0, 10, 2]), None, "root", "bin", false)
}

#[test]
fn the_binary_is_expected_under_platform_and_version() {
    let version = Version::new(&[0, 10, 2]);
    assert_eq!(build_path("root", "bin", &Platform::Win64, &version), names(&["root", "bin", "win64", "0.10.2", "love.exe"]));
    assert_eq!(build_path("root", "bin", &Platform::Win32, &version), names(&["root", "bin", "win32", "0.10.2", "love.exe"]));
    assert_eq!(build_path("/s", "runtimes", &Platform::Nix64, &Version::new(&[11, 0])), names(&["/s", "runtimes", "nix64", "11.0", "love"]));
    assert_eq!(build_path("root", "bin", &Platform::Unknown, &version), names(&["root", "bin", "None"]));
}

#[test]
fn a_given_place_is_taken_as_it_is() {
    let binary = Binary::new(&Platform::Nix64, &Version::new(&[11, 0]), Some("/opt/love/love".to_string()), "root", "bin", false);
    assert!(binary.is_resolved());
    assert_eq!(binary.path(), Some(names(&["/opt/love/love"])));
    assert_eq!(binary.platform(), Platform::Nix64);
    assert_eq!(binary.version(), Version::new(&[11, 0]));
    assert_eq!(binary.failure(), None);
}

#[test]
fn the_expected_place_is_taken_only_if_it_is_there() {
    let there = Binary::new(&Platform::Win64, &Version::new(&[0, 10, 2]), None, "root", "bin", true);
    assert_eq!(there.path(), Some(names(&["root", "bin", "win64", "0.10.2", "love.exe"])));
    let missing = unresolved(Platform::Win64);
    assert!(!missing.is_resolved());
    assert_eq!(missing.path(), None);
}

#[test]
fn an_install_that_went_well_resolves_the_binary() {
    let mut binary = unresolved(Platform::Nix64);
    assert_eq!(binary.installed(Ok(names(&["root", "bin", "nix64", "0.10.2"]))), Ok(()));
    assert_eq!(binary.path(), Some(names(&["root", "bin", "nix64", "0.10.2", "love"])));
    let mut binary = unresolved(Platform::Win32);
    assert_eq!(binary.installed(Ok(names(&["d"]))), Ok(()));
    assert_eq!(binary.path(), Some(names(&["d", "love.exe"])));
}

#[test]
fn an_install_that_failed_leaves_the_binary_unresolved() {
    let mut binary = unresolved(Platform::Nix64);
    assert_eq!(binary.installed(Err(InstallError::Download)), Err(InstallError::Download));
    assert!(!binary.is_resolved());
    assert_eq!(binary.failure(), Some(InstallError::Download));
    assert_eq!(binary.installed(Ok(names(&["d"]))), Ok(()));
    assert_eq!(binary.failure(), None);
    assert_eq!(binary.path(), Some(names(&["d", "love"])));
}

#[test]
fn a_resolved_binary_never_goes_back() {
    let mut binary = Binary::new(&Platform::Nix64, &Version::new(&[11, 0]), Some("/opt/love".to_string()), "root", "bin", false);
    assert_eq!(binary.installed(Err(InstallError::Extraction)), Ok(()));
    assert_eq!(binary.path(), Some(names(&["/opt/love"])));
    assert_eq!(binary.failure(), None);
    assert_eq!(binary.installed(Ok(names(&["elsewhere"]))), Ok(()));
    assert_eq!(binary.path(), Some(names(&["/opt/love"])));
}

#[test]
fn a_resolved_binary_is_started_with_the_project() {
    let binary = Binary::new(&Platform::Nix64, &Version::new(&[11, 0]), Some("/opt/love".to_string()), "root", "bin", false);
    assert_eq!(
        binary.launch(Some("game.love".to_string())),
        Ok(Launch { program: names(&["/opt/love"]), argument: Some("game.love".to_string()) })
    );
    assert_eq!(binary.launch(None), Ok(Launch { program: names(&["/opt/love"]), argument: None }));
}

#[test]
fn cannot_run_is_another_failure_than_a_failed_start() {
    let mut binary = unresolved(Platform::Nix64);
    let _ = binary.installed(Err(InstallError::Link(RepoError::VersionNotFound)));
    let not_installed = binary.launch(Some("game.love".to_string()));
    assert_eq!(not_installed, Err(RunError::CannotRun(Some(InstallError::Link(RepoError::VersionNotFound)))));

    let resolved = Binary::new(&Platform::Nix64, &Version::new(&[11, 0]), Some("/opt/love".to_string()), "root", "bin", false);
    assert!(resolved.launch(None).is_ok());
    let not_started = launched(false);
    assert_eq!(not_started, Err(RunError::SpawnFailed));
    assert_ne!(not_installed.err(), not_started.err());
    assert_eq!(launched(true), Ok(()));

    assert_eq!(unresolved(Platform::Win64).launch(None), Err(RunError::CannotRun(None)));
    assert_eq!(RunError::CannotRun(None).kind(), ErrorKind::NotFound);
    assert_eq!(RunError::SpawnFailed.kind(), ErrorKind::Io);
}

#[test]
fn installing_asks_for_an_install_only_when_unresolved() {
    let mut binary = unresolved(Platform::Nix64);
    assert_eq!(binary.install(BinaryEvent::Begin), InstallStep::Install);
    assert_eq!(binary.install(BinaryEvent::Spawned(true)), InstallStep::Install);
    assert_eq!(binary.install(BinaryEvent::Installed(Err(InstallError::Extraction))), InstallStep::Finish(Err(InstallError::Extraction)));
    assert_eq!(binary.install(BinaryEvent::Begin), InstallStep::Install);
    assert_eq!(binary.install(BinaryEvent::Installed(Ok(names(&["d"])))), InstallStep::Finish(Ok(())));
    assert_eq!(binary.path(), Some(names(&["d", "love"])));
    assert_eq!(binary.install(BinaryEvent::Begin), InstallStep::Finish(Ok(())));
    assert_eq!(binary.install(BinaryEvent::Installed(Err(InstallError::Download))), InstallStep::Finish(Ok(())));
    assert_eq!(binary.path(), Some(names(&["d", "love"])));
}

#[test]
fn running_installs_first_when_unresolved() {
    let mut binary = unresolved(Platform::Win64);
    let project = Some("game.love".to_string());
    assert_eq!(binary.run(project.clone(), BinaryEvent::Begin), RunStep::Install);
    assert_eq!(
        binary.run(project.clone(), BinaryEvent::Installed(Ok(names(&["d"])))),
        RunStep::Spawn(Launch { program: names(&["d", "love.exe"]), argument: project.clone() })
    );
    assert_eq!(binary.run(project.clone(), BinaryEvent::Spawned(true)), RunStep::Finish(Ok(())));
    assert_eq!(
        binary.run(None, BinaryEvent::Begin),
        RunStep::Spawn(Launch { program: names(&["d", "love.exe"]), argument: None })
    );
}

#[test]
fn running_fails_apart_for_install_and_for_start() {
    let mut binary = unresolved(Platform::Nix64);
    assert_eq!(binary.run(None, BinaryEvent::Begin), RunStep::Install);
    let cannot_run = binary.run(None, BinaryEvent::Installed(Err(InstallError::Download)));
    assert_eq!(cannot_run, RunStep::Finish(Err(RunError::CannotRun(Some(InstallError::Download)))));
    assert!(!binary.is_resolved());

    let mut resolved = Binary::new(&Platform::Nix64, &Version::new(&[11, 0]), Some("/opt/love".to_string()), "root", "bin", false);
    assert_eq!(
        resolved.run(None, BinaryEvent::Begin),
        RunStep::Spawn(Launch { program: names(&["/opt/love"]), argument: None })
    );
    let not_started = resolved.run(None, BinaryEvent::Spawned(false));
    assert_eq!(not_started, RunStep::Finish(Err(RunError::SpawnFailed)));
    assert_ne!(cannot_run, not_started);
    assert!(resolved.is_resolved());
}
