use love::project::{
    check_entry, check_text, get_file_contents, get_file_contents_from_archive, get_required_version, get_type,
    get_version, get_version_from_file, is_love_package, is_love_project_folder, version_of_declaration,
    ArchiveFault, PathProbe, Project, ProjectError,
};
use love::version::Version;
use std::io::Write;

fn conf_with(line: &str) -> String {
    format!("function love.conf(t)\n    t.identity = \"game\"\n    {}\n    t.console = false\nend\n", line)
}

fn package_of(files: &[(&str, &str)]) -> Vec<u8> {
    let mut writer = zip::ZipWriter::new(std::io::Cursor::new(Vec::new()));
    for (name, text) in files {
        writer.start_file(*name, zip::write::FileOptions::default()).unwrap();
        writer.write_all(text.as_bytes()).unwrap();
    }
    writer.finish().unwrap().into_inner()
}

fn package_probe(conf: &str) -> PathProbe {
    PathProbe {
        file: Some(package_of(&[("main.lua", "function love.draw() end\n"), ("conf.lua", conf)])),
        entries: Vec::new(),
        conf: None,
    }
}

fn folder_probe(conf: &str) -> PathProbe {
    PathProbe {
        file: None,
        entries: vec!["conf.lua".to_string(), "main.lua".to_string()],
        conf: Some(conf.to_string()),
    }
}

fn stray_folder_probe() -> PathProbe {
    PathProbe { file: None, entries: vec!["notes.txt".to_string()], conf: None }
}

#[test]
fn project_check_if_love_projects() {
    assert_eq!(
        get_type("tests/files/11.0.love", &package_probe(&conf_with("t.version = \"11.0\"")))
            .unwrap()
            .unwrap(),
        Project::FileWith(Version::new(&[11, 0]))
    );

    assert_eq!(
        get_type("tests/files/0.10.2.love", &package_probe(&conf_with("t.version = \"0.10.2\"")))
            .unwrap()
            .unwrap(),
        Project::FileWith(Version::new(&[0, 10, 2]))
    );

    assert_eq!(
        get_type("tests/files/love_folder_0.10.2", &folder_probe(&conf_with("t.version = '0.10.2'")))
            .unwrap()
            .unwrap(),
        Project::FolderWith(Version::new(&[0, 10, 2]))
    );

    assert_eq!(get_type("tests/files/not_a_love", &stray_folder_probe()).unwrap(), None);

    assert_eq!(
        get_type("tests/files/love_folder_no_ver", &folder_probe(&conf_with("t.window.width = 800")))
            .unwrap()
            .unwrap(),
        Project::Folder
    );

    assert_eq!(
        get_type("tests/files/love_no_ver.love", &package_probe(&conf_with("t.window.width = 800")))
            .unwrap()
            .unwrap(),
        Project::File
    );
}

#[test]
fn project_get_required_version_folder() {
    match get_version("tests/files/love_folder_0.10.2", &folder_probe(&conf_with("t.version = '0.10.2'"))) {
        Err(error) => {
            println!("ERROR : {:?}", error);
            assert!(false);
        }
        Ok(Some(version)) => {
            assert_eq!(version, Version::new(&[0, 10, 2]));
        }
        _ => {
            assert!(false);
        }
    }

    // this one is not a love project so it should error.
    assert!(get_version("tests/files/not_a_love", &stray_folder_probe()).is_err());
}

#[test]
fn project_get_required_version_file() {
    match get_version("tests/files/0.10.2.love", &package_probe(&conf_with("t.version = \"0.10.2\""))) {
        Err(error) => {
            println!("ERROR(0.10.2) : {:?}", error);
            assert!(false);
        }
        Ok(Some(version)) => {
            assert_eq!(version, Version::new(&[0, 10, 2]));
        }
        _ => {
            assert!(false);
        }
    }

    match get_version("tests/files/11.0.love", &package_probe(&conf_with("t.version = \"11.0\""))) {
        Err(error) => {
            println!("ERROR(11.0) : {:?}", error);
            assert!(false);
        }
        Ok(Some(version)) => {
            assert_eq!(version, Version::new(&[11, 0]));
        }
        _ => {
            assert!(false);
        }
    }
}

#[test]
fn test_check_if_love_projects() {
    assert_eq!(
        get_type("tests/files/11.0.love", &package_probe(&conf_with("t.version = \"11.0\""))).unwrap(),
        Some(Project::FileWith(Version::new(&[11, 0])))
    );

    assert_eq!(
        get_type("tests/files/0.10.2.love", &package_probe(&conf_with("t.version = \"0.10.2\""))).unwrap(),
        Some(Project::FileWith(Version::new(&[0, 10, 2])))
    );

    assert_eq!(
        get_type("tests/files/love_folder_0.10.2", &folder_probe(&conf_with("t.version = '0.10.2'"))).unwrap(),
        Some(Project::FolderWith(Version::new(&[0, 10, 2])))
    );

    assert_eq!(get_type("tests/files/not_a_love", &stray_folder_probe()).unwrap(), None);
}

#[test]
fn test_get_required_version_folder() {
    match get_required_version("tests/files/love_folder_0.10.2", &folder_probe(&conf_with("t.version = '0.10.2'"))) {
        Err(error) => {
            println!("ERROR : {:?}", error);
            assert!(false);
        }
        Ok(version) => {
            assert_eq!(version, Version::new(&[0, 10, 2]));
        }
    }
}

#[test]
fn test_get_required_version_file() {
    match get_required_version("tests/files/0.10.2.love", &package_probe(&conf_with("t.version = \"0.10.2\""))) {
        Err(error) => {
            println!("ERROR(0.10.2) : {:?}", error);
            assert!(false);
        }
        Ok(version) => {
            assert_eq!(version, Version::new(&[0, 10, 2]));
        }
    }

    match get_required_version("tests/files/11.0.love", &package_probe(&conf_with("t.version = \"11.0\""))) {
        Err(error) => {
            println!("ERROR(11.0) : {:?}", error);
            assert!(false);
        }
        Ok(version) => {
            assert_eq!(version, Version::new(&[11, 0]));
        }
    }
}

#[test]
fn package_paths_end_with_the_suffix() {
    assert!(is_love_package("game.love"));
    assert!(is_love_package("some/where/game.v2.love"));
    assert!(is_love_package(".love"));
    assert!(!is_love_package("love"));
    assert!(!is_love_package("game.love.zip"));
    assert!(!is_love_package("game.love/"));
    assert!(!is_love_package(""));
    assert!(!is_love_package("game.lov"));
}

#[test]
fn folder_is_a_project_with_the_entry_script() {
    assert!(is_love_project_folder(&folder_probe("x")));
    assert!(!is_love_project_folder(&stray_folder_probe()));
    let near = PathProbe { file: None, entries: vec!["main.lua.bak".to_string(), "Main.lua".to_string()], conf: None };
    assert!(!is_love_project_folder(&near));
}

#[test]
fn inspection_errors_are_told_apart() {
    let unread = PathProbe { file: None, entries: Vec::new(), conf: None };
    assert_eq!(get_type("a.love", &unread), Err(ProjectError::PackageUnreadable));

    let garbage = PathProbe { file: Some(b"this is no archive".to_vec()), entries: Vec::new(), conf: None };
    assert_eq!(get_type("a.love", &garbage), Err(ProjectError::PackageCorrupt));

    let no_conf = PathProbe { file: Some(package_of(&[("main.lua", "x")])), entries: Vec::new(), conf: None };
    assert_eq!(get_type("a.love", &no_conf), Err(ProjectError::EntryMissing));

    let empty_conf = PathProbe { file: Some(package_of(&[("conf.lua", "")])), entries: Vec::new(), conf: None };
    assert_eq!(get_type("a.love", &empty_conf), Err(ProjectError::EmptyFile));

    let folder_no_conf = PathProbe { file: None, entries: vec!["main.lua".to_string()], conf: None };
    assert_eq!(get_type("folder", &folder_no_conf), Err(ProjectError::ConfUnreadable));

    let folder_empty_conf = PathProbe { file: None, entries: vec!["main.lua".to_string()], conf: Some(String::new()) };
    assert_eq!(get_type("folder", &folder_empty_conf), Err(ProjectError::EmptyFile));

    assert_eq!(get_version("folder", &stray_folder_probe()), Err(ProjectError::NotAProject));
    assert_eq!(
        get_required_version("folder", &folder_probe(&conf_with("t.window.width = 800"))),
        Err(ProjectError::NoVersion)
    );
    assert_eq!(get_required_version("folder", &stray_folder_probe()), Err(ProjectError::NotAProject));
}

#[test]
fn package_entry_that_is_no_text() {
    let mut writer = zip::ZipWriter::new(std::io::Cursor::new(Vec::new()));
    writer.start_file("conf.lua", zip::write::FileOptions::default()).unwrap();
    writer.write_all(&[0xff, 0xfe, 0x00, 0x80]).unwrap();
    let bytes = writer.finish().unwrap().into_inner();
    let probe = PathProbe { file: Some(bytes), entries: Vec::new(), conf: None };
    assert_eq!(get_type("a.love", &probe), Err(ProjectError::EntryUnreadable));
}

#[test]
fn a_package_with_a_version_assignment_carries_the_version() {
    let with = PathProbe { file: Some(package_of(&[("conf.lua", "version = \"11.0\"")])), entries: Vec::new(), conf: None };
    assert_eq!(get_type("project.love", &with), Ok(Some(Project::FileWith(Version::new(&[11, 0])))));
    let without = PathProbe { file: Some(package_of(&[("conf.lua", "identity = \"game\"")])), entries: Vec::new(), conf: None };
    assert_eq!(get_type("project.love", &without), Ok(Some(Project::File)));
    assert_eq!(get_version("project.love", &without), Ok(None));
}

#[test]
fn a_folder_with_the_entry_script_is_a_project() {
    let folder = PathProbe {
        file: None,
        entries: vec!["main.lua".to_string(), "conf.lua".to_string()],
        conf: Some("version = '0.10.2'".to_string()),
    };
    assert_eq!(get_type("some_folder", &folder), Ok(Some(Project::FolderWith(Version::new(&[0, 10, 2])))));
    assert_eq!(get_required_version("some_folder", &folder), Ok(Version::new(&[0, 10, 2])));

    let stray = PathProbe { file: None, entries: vec!["conf.lua".to_string()], conf: Some("version = '0.10.2'".to_string()) };
    assert_eq!(get_type("not_a_project_dir", &stray), Ok(None));
    assert_eq!(get_version("not_a_project_dir", &stray), Err(ProjectError::NotAProject));
    assert_eq!(get_required_version("not_a_project_dir", &stray), Err(ProjectError::NotAProject));
}

#[test]
fn the_version_assignment_is_read_with_either_quote() {
    assert_eq!(get_version_from_file("t.version = \"0.10.2\""), Some(Version::new(&[0, 10, 2])));
    assert_eq!(get_version_from_file("t.version='0.9.1'"), Some(Version::new(&[0, 9, 1])));
    assert_eq!(get_version_from_file("  version   =   \"11.3\" -- the version"), Some(Version::new(&[11, 3])));
    assert_eq!(get_version_from_file("t.version = 11.0"), None);
    assert_eq!(get_version_from_file("t.version = \"latest\""), None);
    assert_eq!(get_version_from_file("t.version = \"1.*\""), None);
    assert_eq!(get_version_from_file("t.title = \"0.10.2\""), None);
    assert_eq!(get_version_from_file(""), None);
    assert_eq!(get_version_from_file("t.version = \"0.10.2\" -- for \"love\" 11"), Some(Version::new(&[0, 10, 2])));
    assert_eq!(get_version_from_file("t.version = \"0.10.2\" -- since \"11\""), Some(Version::new(&[0, 10, 2, 11])));
    assert_eq!(get_version_from_file("t.version = \"0.10.2\"\nt.title = \"11\""), Some(Version::new(&[0, 10, 2])));
}

#[test]
fn what_was_read_is_checked() {
    assert_eq!(check_text("x".to_string()), Ok("x".to_string()));
    assert_eq!(check_text(String::new()), Err(ProjectError::EmptyFile));
    assert_eq!(check_entry(Ok("t.version = 1".to_string())), Ok("t.version = 1".to_string()));
    assert_eq!(check_entry(Ok(String::new())), Err(ProjectError::EmptyFile));
    assert_eq!(check_entry(Err(ArchiveFault::Corrupt)), Err(ProjectError::PackageCorrupt));
    assert_eq!(check_entry(Err(ArchiveFault::NoEntry)), Err(ProjectError::EntryMissing));
    assert_eq!(check_entry(Err(ArchiveFault::Locked)), Err(ProjectError::EntryLocked));
    assert_eq!(check_entry(Err(ArchiveFault::Unreadable)), Err(ProjectError::EntryUnreadable));
    assert_eq!(check_entry(Err(ArchiveFault::NotText)), Err(ProjectError::EntryUnreadable));
    assert_eq!(version_of_declaration(Some("0.10.2".to_string())), Some(Version::new(&[0, 10, 2])));
    assert_eq!(version_of_declaration(Some("none".to_string())), None);
    assert_eq!(version_of_declaration(None), None);
}

#[test]
fn the_configuration_script_is_taken_from_package_or_folder() {
    let archive = package_of(&[("conf.lua", "a = 1"), ("sub/conf.lua", "b = 2"), ("main.lua", "c = 3")]);
    assert_eq!(get_file_contents_from_archive(&archive, "conf.lua"), Ok("a = 1".to_string()));
    assert_eq!(get_file_contents_from_archive(&archive, "sub/conf.lua"), Ok("b = 2".to_string()));
    assert_eq!(get_file_contents_from_archive(&archive, "Conf.lua"), Err(ProjectError::EntryMissing));
    assert_eq!(get_file_contents_from_archive(&Vec::new(), "conf.lua"), Err(ProjectError::PackageCorrupt));

    let both = PathProbe { file: Some(archive), entries: vec!["main.lua".to_string()], conf: Some("folder = 1".to_string()) };
    assert_eq!(get_file_contents("game.love", &both), Ok("a = 1".to_string()));
    assert_eq!(get_file_contents("game", &both), Ok("folder = 1".to_string()));
}

fn replace_all(bytes: &mut Vec<u8>, from: &[u8], to: &[u8]) -> usize {
    let mut count = 0;
    let mut at = 0;
    while at + from.len() <= bytes.len() {
        if &bytes[at..at + from.len()] == from {
            bytes[at..at + to.len()].copy_from_slice(to);
            count += 1;
            at += from.len();
        } else {
            at += 1;
        }
    }
    count
}

#[test]
fn an_entry_marked_as_encrypted_in_its_extra_field_is_locked() {
    let mut writer = zip::ZipWriter::new(std::io::Cursor::new(Vec::new()));
    writer.start_file_with_extra_data("conf.lua", zip::write::FileOptions::default()).unwrap();
    writer.write_all(&[0xfe, 0xca, 0x07, 0x00, 0x02, 0x00, 0x41, 0x45, 0x03, 0x08, 0x00]).unwrap();
    writer.end_extra_data().unwrap();
    writer.write_all(b"t.version = \"0.10.2\"").unwrap();
    let mut bytes = writer.finish().unwrap().into_inner();
    assert_eq!(get_file_contents_from_archive(&bytes, "conf.lua"), Ok("t.version = \"0.10.2\"".to_string()));

    let from = [0xfe, 0xca, 0x07, 0x00, 0x02, 0x00, 0x41, 0x45];
    let to = [0x01, 0x99, 0x07, 0x00, 0x02, 0x00, 0x41, 0x45];
    assert_eq!(replace_all(&mut bytes, &from, &to), 2);
    assert_eq!(get_file_contents_from_archive(&bytes, "conf.lua"), Err(ProjectError::EntryLocked));
    assert_eq!(get_file_contents_from_archive(&bytes, "main.lua"), Err(ProjectError::EntryMissing));
    let probe = PathProbe { file: Some(bytes), entries: Vec::new(), conf: None };
    assert_eq!(get_type("game.love", &probe), Err(ProjectError::EntryLocked));
    assert_eq!(get_required_version("game.love", &probe), Err(ProjectError::EntryLocked));
}

#[test]
fn an_entry_with_the_encryption_flag_is_not_read_as_it_stands() {
    let mut bytes = package_of(&[("conf.lua", "t.version = \"0.10.2\" -- long enough to hold a header")]);
    let mut flagged = 0;
    let mut at = 0;
    while at + 10 <= bytes.len() {
        if bytes[at..at + 4] == [b'P', b'K', 3, 4] {
            bytes[at + 6] |= 1;
            flagged += 1;
        }
        if bytes[at..at + 4] == [b'P', b'K', 1, 2] {
            bytes[at + 8] |= 1;
            flagged += 1;
        }
        at += 1;
    }
    assert_eq!(flagged, 2);
    assert_eq!(get_file_contents_from_archive(&bytes, "conf.lua"), Err(ProjectError::EntryLocked));
}
