//! LÖVE projects: a folder with an entry script, or a `.love` package, and
//! the runtime version that its configuration script asks for.

use vstd::prelude::*;
use crate::error::ErrorKind;
use crate::pattern::{first_group, regex_first_group};
use crate::text::{chars_of, ends_with, same_text, stands_at};
use crate::version::{version_in_text, Version};

verus! {

/// The script that makes a folder a project.
pub const ENTRY_SCRIPT: &'static str = "main.lua";

/// The script that holds a project's settings, the runtime version among
/// them.
pub const CONF_SCRIPT: &'static str = "conf.lua";

/// The ending of a package's path.
pub const PACKAGE_SUFFIX: &'static str = ".love";

/// The assignment that declares the runtime version, with the version as
/// its first group.
pub const VERSION_ASSIGNMENT: &'static str = r#"version *= *["|'](.*)["|']"#;

/// The kinds of project, with the runtime version where one is declared.
#[derive(Debug, PartialEq, Eq)]
pub enum Project {
    FileWith(Version),
    FolderWith(Version),
    File,
    Folder,
}

/// A project as contracts speak of it.
pub enum ProjectView {
    FileWith(Seq<u8>),
    FolderWith(Seq<u8>),
    File,
    Folder,
}

impl View for Project {
    type V = ProjectView;

    open spec fn view(&self) -> ProjectView {
        match self {
            Project::FileWith(v) => ProjectView::FileWith(v@),
            Project::FolderWith(v) => ProjectView::FolderWith(v@),
            Project::File => ProjectView::File,
            Project::Folder => ProjectView::Folder,
        }
    }
}

/// Why a path could not be inspected.
#[derive(Clone, Copy, Debug, PartialEq, Eq, Structural)]
pub enum ProjectError {
    /// The path is neither a package nor a project folder.
    NotAProject,
    /// The package could not be read from disk.
    PackageUnreadable,
    /// The package is no archive.
    PackageCorrupt,
    /// The package holds no entry of the name asked for.
    EntryMissing,
    /// The entry in the package is encrypted.
    EntryLocked,
    /// The entry in the package cannot be read as text.
    EntryUnreadable,
    /// The folder's configuration script could not be read.
    ConfUnreadable,
    /// The configuration script is empty.
    EmptyFile,
    /// The project declares no runtime version.
    NoVersion,
}

impl ProjectError {
    /// The kind of failure.
    pub fn kind(&self) -> (r: ErrorKind)
        ensures
            r == match *self {
                ProjectError::NotAProject => ErrorKind::NotFound,
                ProjectError::PackageUnreadable => ErrorKind::Io,
                ProjectError::PackageCorrupt => ErrorKind::Io,
                ProjectError::EntryMissing => ErrorKind::NotFound,
                ProjectError::EntryLocked => ErrorKind::Io,
                ProjectError::EntryUnreadable => ErrorKind::Io,
                ProjectError::ConfUnreadable => ErrorKind::Io,
                ProjectError::EmptyFile => ErrorKind::Io,
                ProjectError::NoVersion => ErrorKind::Parse,
            },
    {
        match self {
            ProjectError::NotAProject => ErrorKind::NotFound,
            ProjectError::PackageUnreadable => ErrorKind::Io,
            ProjectError::PackageCorrupt => ErrorKind::Io,
            ProjectError::EntryMissing => ErrorKind::NotFound,
            ProjectError::EntryLocked => ErrorKind::Io,
            ProjectError::EntryUnreadable => ErrorKind::Io,
            ProjectError::ConfUnreadable => ErrorKind::Io,
            ProjectError::EmptyFile => ErrorKind::Io,
            ProjectError::NoVersion => ErrorKind::Parse,
        }
    }
}

/// Why an entry could not be taken out of an archive.
#[derive(Clone, Copy, Debug, PartialEq, Eq, Structural)]
pub enum ArchiveFault {
    /// The bytes are no archive.
    Corrupt,
    /// The archive has no entry of the name.
    NoEntry,
    /// The entry is encrypted, and not with the empty password.
    Locked,
    /// The entry is there, but the archive does not give it out.
    Unreadable,
    /// What the entry holds could not be read as text.
    NotText,
}

/// What was found on disk at a path that may be a project.
pub struct PathProbe {
    /// The bytes of the file at the path, where it is a file that could be
    /// read.
    pub file: Option<Vec<u8>>,
    /// The names of the entries directly in the folder at the path; empty
    /// where the path is no folder.
    pub entries: Vec<String>,
    /// The text of the configuration script directly in the folder, where
    /// it could be read.
    pub conf: Option<String>,
}

/// The text of the entry `name` in the zip archive `archive`, as
/// `zip::ZipArchive` reads it with the empty password, or the step at which
/// reading failed.
pub uninterp spec fn archive_entry(archive: Seq<u8>, name: Seq<char>) -> Result<
    Seq<char>,
    ArchiveFault,
>;

/// Whether a path is that of a package: it ends with the package suffix.
pub open spec fn is_package_path(path: Seq<char>) -> bool {
    ends_with(path, PACKAGE_SUFFIX@)
}

/// Whether the entry script is among the names.
pub open spec fn has_entry_script(entries: Seq<String>) -> bool {
    exists|i: int| 0 <= i < entries.len() && (#[trigger] entries[i])@ == ENTRY_SCRIPT@
}

/// The version that a configuration script declares.
pub open spec fn declared_version(content: Seq<char>) -> Option<Seq<u8>> {
    match regex_first_group(VERSION_ASSIGNMENT@, content) {
        Some(written) => version_in_text(written),
        None => None,
    }
}

/// What reading a script comes to: an empty script is an error.
pub open spec fn checked_text(text: Seq<char>) -> Result<Seq<char>, ProjectError> {
    if text.len() > 0 {
        Ok(text)
    } else {
        Err(ProjectError::EmptyFile)
    }
}

/// What taking a script out of an archive comes to.
pub open spec fn checked_entry(outcome: Result<Seq<char>, ArchiveFault>) -> Result<
    Seq<char>,
    ProjectError,
> {
    match outcome {
        Ok(text) => checked_text(text),
        Err(ArchiveFault::Corrupt) => Err(ProjectError::PackageCorrupt),
        Err(ArchiveFault::NoEntry) => Err(ProjectError::EntryMissing),
        Err(ArchiveFault::Locked) => Err(ProjectError::EntryLocked),
        Err(ArchiveFault::Unreadable) => Err(ProjectError::EntryUnreadable),
        Err(ArchiveFault::NotText) => Err(ProjectError::EntryUnreadable),
    }
}

/// The configuration script of a package.
pub open spec fn package_conf(probe: PathProbe) -> Result<Seq<char>, ProjectError> {
    match probe.file {
        Some(bytes) => checked_entry(archive_entry(bytes@, CONF_SCRIPT@)),
        None => Err(ProjectError::PackageUnreadable),
    }
}

/// The configuration script of a folder.
pub open spec fn folder_conf(probe: PathProbe) -> Result<Seq<char>, ProjectError> {
    match probe.conf {
        Some(text) => checked_text(text@),
        None => Err(ProjectError::ConfUnreadable),
    }
}

/// The configuration script of the project at a path.
pub open spec fn conf_contents(path: Seq<char>, probe: PathProbe) -> Result<
    Seq<char>,
    ProjectError,
> {
    if is_package_path(path) {
        package_conf(probe)
    } else {
        folder_conf(probe)
    }
}

/// The kind of project at a path: a package where the path ends with the
/// package suffix, else a folder where the entry script is in it, else no
/// project. A project whose configuration script cannot be had is an error.
pub open spec fn project_type(path: Seq<char>, probe: PathProbe) -> Result<
    Option<ProjectView>,
    ProjectError,
> {
    if is_package_path(path) {
        match package_conf(probe) {
            Ok(content) => Ok(
                Some(
                    match declared_version(content) {
                        Some(v) => ProjectView::FileWith(v),
                        None => ProjectView::File,
                    },
                ),
            ),
            Err(e) => Err(e),
        }
    } else if has_entry_script(probe.entries@) {
        match folder_conf(probe) {
            Ok(content) => Ok(
                Some(
                    match declared_version(content) {
                        Some(v) => ProjectView::FolderWith(v),
                        None => ProjectView::Folder,
                    },
                ),
            ),
            Err(e) => Err(e),
        }
    } else {
        Ok(None)
    }
}

/// The version that a kind of project carries.
pub open spec fn carried_version(project: ProjectView) -> Option<Seq<u8>> {
    match project {
        ProjectView::FileWith(v) => Some(v),
        ProjectView::FolderWith(v) => Some(v),
        ProjectView::File => None,
        ProjectView::Folder => None,
    }
}

/// The runtime version that the project at a path declares, if it declares
/// one; an error where the path is no project.
pub open spec fn project_version(path: Seq<char>, probe: PathProbe) -> Result<
    Option<Seq<u8>>,
    ProjectError,
> {
    match project_type(path, probe) {
        Ok(Some(project)) => Ok(carried_version(project)),
        Ok(None) => Err(ProjectError::NotAProject),
        Err(e) => Err(e),
    }
}

/// The runtime version that the project at a path declares; an error where
/// it declares none.
pub open spec fn required_version(path: Seq<char>, probe: PathProbe) -> Result<
    Seq<u8>,
    ProjectError,
> {
    match project_version(path, probe) {
        Ok(Some(v)) => Ok(v),
        Ok(None) => Err(ProjectError::NoVersion),
        Err(e) => Err(e),
    }
}

/// The view of a text that may have failed to be read.
pub open spec fn text_view(r: Result<String, ProjectError>) -> Result<Seq<char>, ProjectError> {
    match r {
        Ok(text) => Ok(text@),
        Err(e) => Err(e),
    }
}

/// The view of the outcome of an inspection.
pub open spec fn type_view(r: Result<Option<Project>, ProjectError>) -> Result<
    Option<ProjectView>,
    ProjectError,
> {
    match r {
        Ok(Some(project)) => Ok(Some(project@)),
        Ok(None) => Ok(None),
        Err(e) => Err(e),
    }
}

/// The view of a version that may be undeclared, or not there to be had.
pub open spec fn version_view(r: Result<Option<Version>, ProjectError>) -> Result<
    Option<Seq<u8>>,
    ProjectError,
> {
    match r {
        Ok(Some(v)) => Ok(Some(v@)),
        Ok(None) => Ok(None),
        Err(e) => Err(e),
    }
}

/// `zip::ZipArchive::new` on the bytes, `by_name_decrypt` with the empty
/// password on the archive and `read_to_string` on the entry. The text that
/// comes out, or the step that failed, depends on the bytes and the name
/// alone. `by_name_decrypt` hands out a wrong password as a value, where
/// `by_name` would panic on it; of its errors `FileNotFound` is told apart
/// from the rest.
#[verifier::external_body]
fn read_entry(archive: &Vec<u8>, name: &str) -> (r: Result<String, ArchiveFault>)
    ensures
        match r {
            Ok(text) => archive_entry(archive@, name@) == Ok::<Seq<char>, ArchiveFault>(text@),
            Err(fault) => archive_entry(archive@, name@) == Err::<Seq<char>, ArchiveFault>(fault),
        },
{
    let bytes = std::io::Cursor::new(archive);
    let mut zip = zip::ZipArchive::new(bytes).map_err(|_| ArchiveFault::Corrupt)?;
    let mut entry = match zip.by_name_decrypt(name, &[]) {
        Ok(Ok(entry)) => entry,
        Ok(Err(_)) => return Err(ArchiveFault::Locked),
        Err(zip::result::ZipError::FileNotFound) => return Err(ArchiveFault::NoEntry),
        Err(_) => return Err(ArchiveFault::Unreadable),
    };
    let mut text = String::new();
    std::io::Read::read_to_string(&mut entry, &mut text).map_err(|_| ArchiveFault::NotText)?;
    Ok(text)
}

/// Whether the path is that of a package: it ends with `.love`.
pub fn is_love_package(project_path: &str) -> (r: bool)
    ensures
        r == is_package_path(project_path@),
{
    let path = chars_of(project_path);
    let suffix = chars_of(PACKAGE_SUFFIX);
    if suffix.len() > path.len() {
        return false;
    }
    stands_at(&path, &suffix, path.len() - suffix.len())
}

/// Whether the folder is a project: the entry script is directly in it.
pub fn is_love_project_folder(probe: &PathProbe) -> (r: bool)
    ensures
        r == has_entry_script(probe.entries@),
{
    let mut i: usize = 0;
    while i < probe.entries.len()
        invariant
            i <= probe.entries.len(),
            forall|j: int| 0 <= j < i ==> (#[trigger] probe.entries@[j])@ != ENTRY_SCRIPT@,
        decreases probe.entries.len() - i,
    {
        if same_text(probe.entries[i].as_str(), ENTRY_SCRIPT) {
            return true;
        }
        i += 1;
    }
    false
}

/// A script that was read: an empty one is refused.
pub fn check_text(text: String) -> (r: Result<String, ProjectError>)
    ensures
        text_view(r) == checked_text(text@),
{
    if text.as_str().unicode_len() > 0 {
        Ok(text)
    } else {
        Err(ProjectError::EmptyFile)
    }
}

/// What came of taking a script out of an archive, as this library reports
/// it.
pub fn check_entry(outcome: Result<String, ArchiveFault>) -> (r: Result<String, ProjectError>)
    ensures
        text_view(r) == checked_entry(
            match outcome {
                Ok(text) => Ok(text@),
                Err(fault) => Err(fault),
            },
        ),
{
    match outcome {
        Ok(text) => check_text(text),
        Err(ArchiveFault::Corrupt) => Err(ProjectError::PackageCorrupt),
        Err(ArchiveFault::NoEntry) => Err(ProjectError::EntryMissing),
        Err(ArchiveFault::Locked) => Err(ProjectError::EntryLocked),
        Err(ArchiveFault::Unreadable) => Err(ProjectError::EntryUnreadable),
        Err(ArchiveFault::NotText) => Err(ProjectError::EntryUnreadable),
    }
}

/// The text of the entry `file` of the package whose bytes are `archive`.
pub fn get_file_contents_from_archive(archive: &Vec<u8>, file: &str) -> (r: Result<
    String,
    ProjectError,
>)
    ensures
        text_view(r) == checked_entry(archive_entry(archive@, file@)),
{
    check_entry(read_entry(archive, file))
}

/// The configuration script of the project at the path: out of the package
/// where the path is a package's, else the folder's own.
pub fn get_file_contents(project_path: &str, probe: &PathProbe) -> (r: Result<
    String,
    ProjectError,
>)
    ensures
        text_view(r) == conf_contents(project_path@, *probe),
{
    if is_love_package(project_path) {
        match &probe.file {
            Some(bytes) => get_file_contents_from_archive(bytes, CONF_SCRIPT),
            None => Err(ProjectError::PackageUnreadable),
        }
    } else {
        match &probe.conf {
            Some(text) => check_text(text.clone()),
            None => Err(ProjectError::ConfUnreadable),
        }
    }
}

/// The version that a declaration found in a script stands for.
pub fn version_of_declaration(written: Option<String>) -> (r: Option<Version>)
    ensures
        crate::version::view_of(r) == match written {
            Some(text) => version_in_text(text@),
            None => None,
        },
{
    match written {
        Some(text) => Version::from_str(text.as_str()),
        None => None,
    }
}

/// The runtime version that a configuration script declares.
pub fn get_version_from_file(file_content: &str) -> (r: Option<Version>)
    ensures
        crate::version::view_of(r) == declared_version(file_content@),
{
    version_of_declaration(first_group(VERSION_ASSIGNMENT, file_content))
}

/// The kind of project at `project_path`, with its runtime version where it
/// declares one; `None` where the path is no project.
pub fn get_type(project_path: &str, probe: &PathProbe) -> (r: Result<Option<Project>, ProjectError>)
    ensures
        type_view(r) == project_type(project_path@, *probe),
{
    if is_love_package(project_path) {
        let content = match get_file_contents(project_path, probe) {
            Ok(content) => content,
            Err(e) => {
                return Err(e);
            },
        };
        return match get_version_from_file(content.as_str()) {
            Some(version) => Ok(Some(Project::FileWith(version))),
            None => Ok(Some(Project::File)),
        };
    }
    if is_love_project_folder(probe) {
        let content = match get_file_contents(project_path, probe) {
            Ok(content) => content,
            Err(e) => {
                return Err(e);
            },
        };
        return match get_version_from_file(content.as_str()) {
            Some(version) => Ok(Some(Project::FolderWith(version))),
            None => Ok(Some(Project::Folder)),
        };
    }
    Ok(None)
}

/// The runtime version that the project at `project_path` declares; `None`
/// where it declares none, an error where the path is no project.
pub fn get_version(project_path: &str, probe: &PathProbe) -> (r: Result<
    Option<Version>,
    ProjectError,
>)
    ensures
        version_view(r) == project_version(project_path@, *probe),
{
    match get_type(project_path, probe) {
        Ok(Some(Project::FileWith(version))) => Ok(Some(version)),
        Ok(Some(Project::FolderWith(version))) => Ok(Some(version)),
        Ok(Some(Project::File)) => Ok(None),
        Ok(Some(Project::Folder)) => Ok(None),
        Ok(None) => Err(ProjectError::NotAProject),
        Err(e) => Err(e),
    }
}

/// The runtime version that the project at `project_path` declares; an
/// error where it declares none.
pub fn get_required_version(project_path: &str, probe: &PathProbe) -> (r: Result<
    Version,
    ProjectError,
>)
    ensures
        match r {
            Ok(v) => required_version(project_path@, *probe) == Ok::<Seq<u8>, ProjectError>(v@),
            Err(e) => required_version(project_path@, *probe) == Err::<Seq<u8>, ProjectError>(e),
        },
{
    match get_version(project_path, probe) {
        Ok(Some(version)) => Ok(version),
        Ok(None) => Err(ProjectError::NoVersion),
        Err(e) => Err(e),
    }
}

} // verus!
