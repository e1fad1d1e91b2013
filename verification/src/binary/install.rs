//! Installing a runtime: the link is looked up, the archive is downloaded
//! and unpacked, and on Unix the binary is made executable. The caller does
//! each of these; what is done, in what order and where to, is decided here.

use vstd::prelude::*;
use crate::binary::index::RepoError;
use crate::error::ErrorKind;
use crate::platform::{short_name, Platform};
use crate::text::{copy_of, text_of, with_last};
use crate::version::{dotted, Version};

verus! {

/// The file that is run, in a Windows runtime's folder.
pub const WINDOWS_BINARY: &'static str = "love.exe";

/// The file that is run, in a Unix runtime's folder.
pub const UNIX_BINARY: &'static str = "love";

/// Why an install failed, by the step that failed.
#[derive(Clone, Copy, Debug, PartialEq, Eq, Structural)]
pub enum InstallError {
    /// No link to a download was found.
    Link(RepoError),
    /// The download failed.
    Download,
    /// There is no way to install for the platform.
    UnsupportedPlatform,
    /// The archive could not be unpacked.
    Extraction,
    /// The binary could not be made executable.
    Permission,
}

/// The folder that a runtime is installed into: under the settings folder,
/// the folder for installs, then the platform's short name, then the
/// version in dotted form.
pub open spec fn install_dir(
    root: Seq<char>,
    install_path: Seq<char>,
    platform: Platform,
    version: Seq<u8>,
) -> Seq<Seq<char>> {
    seq![root, install_path, short_name(platform), dotted(version)]
}

/// The name of the file that is run; `None` for the unknown platform.
pub open spec fn binary_name(platform: Platform) -> Option<Seq<char>> {
    match platform {
        Platform::Win32 | Platform::Win64 => Some(WINDOWS_BINARY@),
        Platform::Nix32 | Platform::Nix64 => Some(UNIX_BINARY@),
        Platform::Unknown => None,
    }
}

/// Where an install stands.
pub enum InstallStage {
    /// The link is being looked up.
    Linking,
    /// The archive at this address is being downloaded.
    Downloading(String),
    /// The archive in this file is being unpacked.
    Extracting(String),
    /// The binary is being made executable.
    Permitting,
    /// The install is over.
    Done(Result<(), InstallError>),
}

/// What happened since the last step.
pub enum InstallEvent {
    /// Nothing yet.
    Begin,
    /// The link was looked up.
    Link(Result<String, RepoError>),
    /// The archive was downloaded into this file, or could not be.
    Downloaded(Option<String>),
    /// The archive was unpacked, or could not be.
    Extracted(bool),
    /// The binary was made executable, or could not be.
    Permitted(bool),
}

/// What is to be done next.
#[derive(Debug, PartialEq, Eq)]
pub enum InstallAction {
    /// Look up the link for the platform and the version.
    FindLink,
    /// Download the archive at this address.
    Download(String),
    /// Unpack the archive in the file into the folder.
    Extract { archive: String, into: Vec<String> },
    /// Make the file executable.
    MarkExecutable(Vec<String>),
    /// Nothing more: the runtime is in this folder, or the install failed.
    Finish(Result<Vec<String>, InstallError>),
}

/// The stage of an install, as contracts speak of it.
pub enum StageView {
    Linking,
    Downloading(Seq<char>),
    Extracting(Seq<char>),
    Permitting,
    Done(Result<(), InstallError>),
}

/// An event of an install, as contracts speak of it.
pub enum InstallEventView {
    Begin,
    Link(Result<Seq<char>, RepoError>),
    Downloaded(Option<Seq<char>>),
    Extracted(bool),
    Permitted(bool),
}

/// An action of an install, as contracts speak of it.
pub enum InstallActionView {
    FindLink,
    Download(Seq<char>),
    Extract { archive: Seq<char>, into: Seq<Seq<char>> },
    MarkExecutable(Seq<Seq<char>>),
    Finish(Result<Seq<Seq<char>>, InstallError>),
}

impl View for InstallStage {
    type V = StageView;

    open spec fn view(&self) -> StageView {
        match self {
            InstallStage::Linking => StageView::Linking,
            InstallStage::Downloading(url) => StageView::Downloading(url@),
            InstallStage::Extracting(archive) => StageView::Extracting(archive@),
            InstallStage::Permitting => StageView::Permitting,
            InstallStage::Done(outcome) => StageView::Done(*outcome),
        }
    }
}

impl View for InstallEvent {
    type V = InstallEventView;

    open spec fn view(&self) -> InstallEventView {
        match self {
            InstallEvent::Begin => InstallEventView::Begin,
            InstallEvent::Link(Ok(url)) => InstallEventView::Link(Ok(url@)),
            InstallEvent::Link(Err(e)) => InstallEventView::Link(Err(*e)),
            InstallEvent::Downloaded(archive) => InstallEventView::Downloaded(text_of(*archive)),
            InstallEvent::Extracted(done) => InstallEventView::Extracted(*done),
            InstallEvent::Permitted(done) => InstallEventView::Permitted(*done),
        }
    }
}

impl View for InstallAction {
    type V = InstallActionView;

    open spec fn view(&self) -> InstallActionView {
        match self {
            InstallAction::FindLink => InstallActionView::FindLink,
            InstallAction::Download(url) => InstallActionView::Download(url@),
            InstallAction::Extract { archive, into } => InstallActionView::Extract {
                archive: archive@,
                into: into.deep_view(),
            },
            InstallAction::MarkExecutable(file) => InstallActionView::MarkExecutable(
                file.deep_view(),
            ),
            InstallAction::Finish(Ok(dir)) => InstallActionView::Finish(Ok(dir.deep_view())),
            InstallAction::Finish(Err(e)) => InstallActionView::Finish(Err(*e)),
        }
    }
}

/// An install in progress.
pub struct Install {
    platform: Platform,
    dir: Vec<String>,
    stage: InstallStage,
}

/// An install, as contracts speak of it.
pub struct InstallView {
    pub platform: Platform,
    pub dir: Seq<Seq<char>>,
    pub stage: StageView,
}

impl View for Install {
    type V = InstallView;

    closed spec fn view(&self) -> InstallView {
        InstallView { platform: self.platform, dir: self.dir.deep_view(), stage: self.stage@ }
    }
}

/// The install with another stage.
pub open spec fn at_stage(state: InstallView, stage: StageView) -> InstallView {
    InstallView { platform: state.platform, dir: state.dir, stage }
}

/// The end of an install.
pub open spec fn ended(state: InstallView, outcome: Result<(), InstallError>) -> (
    InstallView,
    InstallActionView,
) {
    (
        at_stage(state, StageView::Done(outcome)),
        InstallActionView::Finish(
            match outcome {
                Ok(()) => Ok(state.dir),
                Err(e) => Err(e),
            },
        ),
    )
}

/// What is asked for at a stage.
pub open spec fn asked(state: InstallView) -> InstallActionView {
    match state.stage {
        StageView::Linking => InstallActionView::FindLink,
        StageView::Downloading(url) => InstallActionView::Download(url),
        StageView::Extracting(archive) => InstallActionView::Extract { archive, into: state.dir },
        StageView::Permitting => InstallActionView::MarkExecutable(
            state.dir.push(UNIX_BINARY@),
        ),
        StageView::Done(outcome) => InstallActionView::Finish(
            match outcome {
                Ok(()) => Ok(state.dir),
                Err(e) => Err(e),
            },
        ),
    }
}

/// One step of an install, from where it stands and what happened to where
/// it stands then and what is to be done.
///
/// The link, once found, is downloaded from; the archive, once downloaded,
/// is unpacked into the install's folder, for Windows and for Unix alike,
/// and there is no install for the unknown platform; once unpacked, a
/// Windows runtime is installed, and a Unix runtime's binary is made
/// executable first. Each failure ends the install with the step that
/// failed. What does not answer the step that was asked for has it asked
/// for again, and an install that is over stays over.
pub open spec fn install_step(state: InstallView, event: InstallEventView) -> (
    InstallView,
    InstallActionView,
) {
    match (state.stage, event) {
        (StageView::Linking, InstallEventView::Link(Ok(url))) => (
            at_stage(state, StageView::Downloading(url)),
            InstallActionView::Download(url),
        ),
        (StageView::Linking, InstallEventView::Link(Err(e))) => ended(
            state,
            Err(InstallError::Link(e)),
        ),
        (StageView::Downloading(_), InstallEventView::Downloaded(Some(archive))) => if state.platform
            == Platform::Unknown {
            ended(state, Err(InstallError::UnsupportedPlatform))
        } else {
            (
                at_stage(state, StageView::Extracting(archive)),
                InstallActionView::Extract { archive, into: state.dir },
            )
        },
        (StageView::Downloading(_), InstallEventView::Downloaded(None)) => ended(
            state,
            Err(InstallError::Download),
        ),
        (StageView::Extracting(_), InstallEventView::Extracted(true)) => if state.platform
            == Platform::Nix32 || state.platform == Platform::Nix64 {
            (
                at_stage(state, StageView::Permitting),
                InstallActionView::MarkExecutable(state.dir.push(UNIX_BINARY@)),
            )
        } else {
            ended(state, Ok(()))
        },
        (StageView::Extracting(_), InstallEventView::Extracted(false)) => ended(
            state,
            Err(InstallError::Extraction),
        ),
        (StageView::Permitting, InstallEventView::Permitted(true)) => ended(state, Ok(())),
        (StageView::Permitting, InstallEventView::Permitted(false)) => ended(
            state,
            Err(InstallError::Permission),
        ),
        _ => (state, asked(state)),
    }
}

impl InstallError {
    /// The kind of failure.
    pub fn kind(&self) -> (r: ErrorKind)
        ensures
            r == match *self {
                InstallError::Link(e) => e.spec_kind(),
                InstallError::Download => ErrorKind::Network,
                InstallError::UnsupportedPlatform => ErrorKind::UnsupportedPlatform,
                InstallError::Extraction => ErrorKind::Io,
                InstallError::Permission => ErrorKind::Io,
            },
    {
        match self {
            InstallError::Link(e) => e.kind(),
            InstallError::Download => ErrorKind::Network,
            InstallError::UnsupportedPlatform => ErrorKind::UnsupportedPlatform,
            InstallError::Extraction => ErrorKind::Io,
            InstallError::Permission => ErrorKind::Io,
        }
    }
}

/// The folder that a runtime is installed into.
pub fn destination(root: &str, install_path: &str, platform: &Platform, version: &Version) -> (r:
    Vec<String>)
    ensures
        r.deep_view() == install_dir(root@, install_path@, *platform, version@),
{
    let mut dir: Vec<String> = Vec::new();
    dir.push(root.to_owned());
    dir.push(install_path.to_owned());
    dir.push(platform.to_short_string());
    dir.push(version.to_string());
    assert(dir.deep_view() =~= install_dir(root@, install_path@, *platform, version@));
    dir
}

/// The name of the file that is run; `None` for the unknown platform.
pub fn binary_file(platform: &Platform) -> (r: Option<&'static str>)
    ensures
        match r {
            Some(name) => binary_name(*platform) == Some(name@),
            None => binary_name(*platform) is None,
        },
{
    if platform.is_windows() {
        Some(WINDOWS_BINARY)
    } else if platform.is_unix() {
        Some(UNIX_BINARY)
    } else {
        None
    }
}

/// An install of the version for the platform, not yet begun. `root` is
/// the settings folder and `install_path` the folder for installs in it.
pub fn install(platform: &Platform, version: &Version, root: &str, install_path: &str) -> (r:
    Install)
    ensures
        r@ == (InstallView {
            platform: *platform,
            dir: install_dir(root@, install_path@, *platform, version@),
            stage: StageView::Linking,
        }),
{
    Install {
        platform: *platform,
        dir: destination(root, install_path, platform, version),
        stage: InstallStage::Linking,
    }
}

impl Install {
    fn end(&mut self, outcome: Result<(), InstallError>) -> (action: InstallAction)
        ensures
            (final(self)@, action@) == ended(old(self)@, outcome),
    {
        self.stage = InstallStage::Done(outcome);
        match outcome {
            Ok(()) => InstallAction::Finish(Ok(copy_of(&self.dir))),
            Err(e) => InstallAction::Finish(Err(e)),
        }
    }

    fn ask(&self) -> (action: InstallAction)
        ensures
            action@ == asked(self@),
    {
        match &self.stage {
            InstallStage::Linking => InstallAction::FindLink,
            InstallStage::Downloading(url) => InstallAction::Download(url.clone()),
            InstallStage::Extracting(archive) => InstallAction::Extract {
                archive: archive.clone(),
                into: copy_of(&self.dir),
            },
            InstallStage::Permitting => InstallAction::MarkExecutable(
                with_last(&self.dir, UNIX_BINARY),
            ),
            InstallStage::Done(outcome) => match outcome {
                Ok(()) => InstallAction::Finish(Ok(copy_of(&self.dir))),
                Err(e) => InstallAction::Finish(Err(*e)),
            },
        }
    }

    /// Takes one step: see `install_step`.
    pub fn step(&mut self, event: InstallEvent) -> (action: InstallAction)
        ensures
            (final(self)@, action@) == install_step(old(self)@, event@),
    {
        match (&self.stage, event) {
            (InstallStage::Linking, InstallEvent::Link(Ok(url))) => {
                self.stage = InstallStage::Downloading(url.clone());
                InstallAction::Download(url)
            },
            (InstallStage::Linking, InstallEvent::Link(Err(e))) => self.end(
                Err(InstallError::Link(e)),
            ),
            (InstallStage::Downloading(_), InstallEvent::Downloaded(Some(archive))) => {
                if self.platform == Platform::Unknown {
                    self.end(Err(InstallError::UnsupportedPlatform))
                } else {
                    self.stage = InstallStage::Extracting(archive.clone());
                    InstallAction::Extract { archive, into: copy_of(&self.dir) }
                }
            },
            (InstallStage::Downloading(_), InstallEvent::Downloaded(None)) => self.end(
                Err(InstallError::Download),
            ),
            (InstallStage::Extracting(_), InstallEvent::Extracted(true)) => {
                if self.platform.is_unix() {
                    self.stage = InstallStage::Permitting;
                    InstallAction::MarkExecutable(with_last(&self.dir, UNIX_BINARY))
                } else {
                    self.end(Ok(()))
                }
            },
            (InstallStage::Extracting(_), InstallEvent::Extracted(false)) => self.end(
                Err(InstallError::Extraction),
            ),
            (InstallStage::Permitting, InstallEvent::Permitted(true)) => self.end(Ok(())),
            (InstallStage::Permitting, InstallEvent::Permitted(false)) => self.end(
                Err(InstallError::Permission),
            ),
            _ => self.ask(),
        }
    }
}

} // verus!
