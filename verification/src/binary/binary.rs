//! A runtime binary: where it is, how it comes to be installed, and how it
//! is started.

use vstd::prelude::*;
use crate::binary::install::{binary_file, binary_name, InstallError};
use crate::error::ErrorKind;
use crate::platform::{short_name, Platform};
use crate::text::{copy_of, text_of, with_last};
use crate::version::{dotted, Version};

verus! {

/// Why a binary was not started.
#[derive(Clone, Copy, Debug, PartialEq, Eq, Structural)]
pub enum RunError {
    /// The binary is not installed; with it, why the last install failed,
    /// if one was tried.
    CannotRun(Option<InstallError>),
    /// The binary is there, but could not be started.
    SpawnFailed,
}

/// The program to start, and the project to hand to it.
#[derive(Debug, PartialEq, Eq)]
pub struct Launch {
    pub program: Vec<String>,
    pub argument: Option<String>,
}

/// A launch, as contracts speak of it.
pub struct LaunchView {
    pub program: Seq<Seq<char>>,
    pub argument: Option<Seq<char>>,
}

impl View for Launch {
    type V = LaunchView;

    open spec fn view(&self) -> LaunchView {
        LaunchView { program: self.program.deep_view(), argument: text_of(self.argument) }
    }
}

/// What happened since the last step of an install or a run.
pub enum BinaryEvent {
    /// Nothing yet.
    Begin,
    /// The runtime was installed into this folder, or could not be.
    Installed(Result<Vec<String>, InstallError>),
    /// The program was started, or could not be.
    Spawned(bool),
}

/// An event of an install or a run, as contracts speak of it.
pub enum BinaryEventView {
    Begin,
    Installed(Result<Seq<Seq<char>>, InstallError>),
    Spawned(bool),
}

impl View for BinaryEvent {
    type V = BinaryEventView;

    open spec fn view(&self) -> BinaryEventView {
        match self {
            BinaryEvent::Begin => BinaryEventView::Begin,
            BinaryEvent::Installed(Ok(dir)) => BinaryEventView::Installed(Ok(dir.deep_view())),
            BinaryEvent::Installed(Err(e)) => BinaryEventView::Installed(Err(*e)),
            BinaryEvent::Spawned(started) => BinaryEventView::Spawned(*started),
        }
    }
}

/// What is to be done next to install a binary.
#[derive(Clone, Copy, Debug, PartialEq, Eq)]
pub enum InstallStep {
    /// Install the runtime of the binary's version for its platform.
    Install,
    /// Nothing more: the binary is installed, or could not be.
    Finish(Result<(), InstallError>),
}

/// What is to be done next to run a binary.
#[derive(Debug, PartialEq, Eq)]
pub enum RunStep {
    /// Install the runtime of the binary's version for its platform.
    Install,
    /// Start this program, and do not wait for it.
    Spawn(Launch),
    /// Nothing more: the program was started, or could not be.
    Finish(Result<(), RunError>),
}

/// A step of a run, as contracts speak of it.
pub enum RunStepView {
    Install,
    Spawn(LaunchView),
    Finish(Result<(), RunError>),
}

impl View for RunStep {
    type V = RunStepView;

    open spec fn view(&self) -> RunStepView {
        match self {
            RunStep::Install => RunStepView::Install,
            RunStep::Spawn(launch) => RunStepView::Spawn(launch@),
            RunStep::Finish(outcome) => RunStepView::Finish(*outcome),
        }
    }
}

/// The runtime of one version for one platform. It is resolved once the
/// place of its binary is known, and stays so.
pub struct Binary {
    path: Option<Vec<String>>,
    platform: Platform,
    version: Version,
    failure: Option<InstallError>,
}

/// A binary, as contracts speak of it.
pub struct BinaryView {
    /// The place of the binary, as the names on the way to it.
    pub path: Option<Seq<Seq<char>>>,
    pub platform: Platform,
    pub version: Seq<u8>,
    /// Why the last install failed, if one did.
    pub failure: Option<InstallError>,
}

/// The view of a place that may be unknown.
pub open spec fn place_of(path: Option<Vec<String>>) -> Option<Seq<Seq<char>>> {
    match path {
        Some(path) => Some(path.deep_view()),
        None => None,
    }
}

impl View for Binary {
    type V = BinaryView;

    closed spec fn view(&self) -> BinaryView {
        BinaryView {
            path: place_of(self.path),
            platform: self.platform,
            version: self.version@,
            failure: self.failure,
        }
    }
}

/// The names that end the place of a binary: its version and the file that
/// is run, and for the unknown platform nothing.
pub open spec fn binary_tail(platform: Platform, version: Seq<u8>) -> Seq<Seq<char>> {
    match binary_name(platform) {
        Some(name) => seq![dotted(version), name],
        None => Seq::empty(),
    }
}

/// The place where the binary of a version for a platform is expected:
/// under the settings folder, the folder for binaries, then the platform's
/// short name, the version in dotted form and the file that is run.
pub open spec fn ideal_path(
    root: Seq<char>,
    binaries_root: Seq<char>,
    platform: Platform,
    version: Seq<u8>,
) -> Seq<Seq<char>> {
    seq![root, binaries_root, short_name(platform)] + binary_tail(platform, version)
}

/// The place of the binary in the folder that it was installed into.
pub open spec fn installed_path(dir: Seq<Seq<char>>, platform: Platform) -> Seq<Seq<char>> {
    match binary_name(platform) {
        Some(name) => dir.push(name),
        None => dir,
    }
}

/// The binary after an install that came to `installed`: a resolved binary
/// stays as it is; an unresolved one is resolved by an install that went
/// well, and keeps the reason of one that failed.
pub open spec fn after_install(binary: BinaryView, installed: Result<Seq<Seq<char>>, InstallError>) -> BinaryView {
    if binary.path is Some {
        binary
    } else {
        match installed {
            Ok(dir) => BinaryView {
                path: Some(installed_path(dir, binary.platform)),
                platform: binary.platform,
                version: binary.version,
                failure: None,
            },
            Err(e) => BinaryView {
                path: None,
                platform: binary.platform,
                version: binary.version,
                failure: Some(e),
            },
        }
    }
}

/// What an install comes to for the binary's owner.
pub open spec fn install_outcome(
    binary: BinaryView,
    installed: Result<Seq<Seq<char>>, InstallError>,
) -> Result<(), InstallError> {
    if binary.path is Some {
        Ok(())
    } else {
        match installed {
            Ok(_) => Ok(()),
            Err(e) => Err(e),
        }
    }
}

/// What is started for a binary: its program with the project as its only
/// argument, where it is resolved.
pub open spec fn launch_of(binary: BinaryView, package_path: Option<Seq<char>>) -> Result<
    LaunchView,
    RunError,
> {
    match binary.path {
        Some(program) => Ok(LaunchView { program, argument: package_path }),
        None => Err(RunError::CannotRun(binary.failure)),
    }
}

/// What starting the program came to.
pub open spec fn spawn_outcome(started: bool) -> Result<(), RunError> {
    if started {
        Ok(())
    } else {
        Err(RunError::SpawnFailed)
    }
}

/// One step of installing a binary. For a binary that is resolved there
/// is nothing to do. For one that is not, an install is asked for, and what
/// it came to is taken in: see `after_install`.
pub open spec fn binary_install_step(binary: BinaryView, event: BinaryEventView) -> (
    BinaryView,
    InstallStep,
) {
    if binary.path is Some {
        (binary, InstallStep::Finish(Ok(())))
    } else {
        match event {
            BinaryEventView::Installed(installed) => (
                after_install(binary, installed),
                InstallStep::Finish(install_outcome(binary, installed)),
            ),
            _ => (binary, InstallStep::Install),
        }
    }
}

/// The step that follows once the binary is installed or has failed to be:
/// the program is started where the binary is resolved, and else the run
/// is over, because the binary cannot be run.
pub open spec fn start_or_give_up(binary: BinaryView, package_path: Option<Seq<char>>) -> RunStepView {
    match launch_of(binary, package_path) {
        Ok(launch) => RunStepView::Spawn(launch),
        Err(e) => RunStepView::Finish(Err(e)),
    }
}

/// One step of running a binary. At the beginning a binary that is not
/// resolved is installed first. What the install came to is taken in, and
/// a failed install does not end the run by itself: what counts is whether
/// the binary is resolved then. What starting the program came to ends the
/// run.
pub open spec fn run_step(
    binary: BinaryView,
    package_path: Option<Seq<char>>,
    event: BinaryEventView,
) -> (BinaryView, RunStepView) {
    match event {
        BinaryEventView::Begin => if binary.path is Some {
            (binary, start_or_give_up(binary, package_path))
        } else {
            (binary, RunStepView::Install)
        },
        BinaryEventView::Installed(installed) => (
            after_install(binary, installed),
            start_or_give_up(after_install(binary, installed), package_path),
        ),
        BinaryEventView::Spawned(started) => (binary, RunStepView::Finish(spawn_outcome(started))),
    }
}

/// A binary that is not resolved and whose install fails cannot be run,
/// and this is another failure than that of a program that does not start.
pub proof fn lemma_cannot_run_after_failed_install(
    binary: BinaryView,
    e: InstallError,
    package_path: Option<Seq<char>>,
)
    requires
        binary.path is None,
    ensures
        run_step(binary, package_path, BinaryEventView::Begin).1 == RunStepView::Install,
        run_step(binary, package_path, BinaryEventView::Installed(Err(e))).1
            == RunStepView::Finish(Err(RunError::CannotRun(Some(e)))),
        run_step(binary, package_path, BinaryEventView::Spawned(false)).1 == RunStepView::Finish(
            Err(RunError::SpawnFailed),
        ),
        RunError::CannotRun(Some(e)) != RunError::SpawnFailed,
{
}

/// A binary that is resolved stays resolved, at the same place, whatever
/// step of an install or a run is taken.
pub proof fn lemma_resolved_stays(
    binary: BinaryView,
    package_path: Option<Seq<char>>,
    event: BinaryEventView,
)
    requires
        binary.path is Some,
    ensures
        binary_install_step(binary, event).0 == binary,
        run_step(binary, package_path, event).0 == binary,
{
}

impl RunError {
    /// The kind of failure.
    pub fn kind(&self) -> (r: ErrorKind)
        ensures
            r == match *self {
                RunError::CannotRun(_) => ErrorKind::NotFound,
                RunError::SpawnFailed => ErrorKind::Io,
            },
    {
        match self {
            RunError::CannotRun(_) => ErrorKind::NotFound,
            RunError::SpawnFailed => ErrorKind::Io,
        }
    }
}

/// The place where the binary of a version for a platform is expected.
/// `root` is the settings folder and `binaries_root` the folder for
/// binaries in it.
pub fn build_path(root: &str, binaries_root: &str, platform: &Platform, version: &Version) -> (r:
    Vec<String>)
    ensures
        r.deep_view() == ideal_path(root@, binaries_root@, *platform, version@),
{
    let mut path: Vec<String> = Vec::new();
    path.push(root.to_owned());
    path.push(binaries_root.to_owned());
    path.push(platform.to_short_string());
    match binary_file(platform) {
        Some(name) => {
            path.push(version.to_string());
            path.push(name.to_owned());
        },
        None => {},
    }
    assert(path.deep_view() =~= ideal_path(root@, binaries_root@, *platform, version@));
    path
}

/// What starting the program came to.
pub fn launched(started: bool) -> (r: Result<(), RunError>)
    ensures
        r == spawn_outcome(started),
{
    if started {
        Ok(())
    } else {
        Err(RunError::SpawnFailed)
    }
}

impl Binary {
    /// The binary of a version for a platform. A place that is given is
    /// taken as it is. Where none is given, the binary is at the expected
    /// place if that is there, which `ideal_exists` says, and else it is
    /// not resolved.
    pub fn new(
        platform: &Platform,
        version: &Version,
        path: Option<String>,
        root: &str,
        binaries_root: &str,
        ideal_exists: bool,
    ) -> (r: Binary)
        ensures
            r@ == (BinaryView {
                path: match path {
                    Some(given) => Some(seq![given@]),
                    None => if ideal_exists {
                        Some(ideal_path(root@, binaries_root@, *platform, version@))
                    } else {
                        None
                    },
                },
                platform: *platform,
                version: version@,
                failure: None,
            }),
    {
        let new_path = match path {
            Some(given) => {
                let mut place: Vec<String> = Vec::new();
                place.push(given);
                assert(place.deep_view() =~= seq![given@]);
                Some(place)
            },
            None => {
                if ideal_exists {
                    Some(build_path(root, binaries_root, platform, version))
                } else {
                    None
                }
            },
        };
        Binary { path: new_path, platform: *platform, version: version.clone(), failure: None }
    }

    /// Whether the place of the binary is known.
    pub fn is_resolved(&self) -> (r: bool)
        ensures
            r == self@.path is Some,
    {
        self.path.is_some()
    }

    /// The place of the binary, if it is known.
    pub fn path(&self) -> (r: Option<Vec<String>>)
        ensures
            place_of(r) == self@.path,
    {
        match &self.path {
            Some(path) => Some(copy_of(path)),
            None => None,
        }
    }

    /// The platform that the binary is for.
    pub fn platform(&self) -> (r: Platform)
        ensures
            r == self@.platform,
    {
        self.platform
    }

    /// The version of the binary.
    pub fn version(&self) -> (r: Version)
        ensures
            r@ == self@.version,
    {
        self.version.clone()
    }

    /// Why the last install failed, if one did.
    pub fn failure(&self) -> (r: Option<InstallError>)
        ensures
            r == self@.failure,
    {
        self.failure
    }

    /// Takes in what an install came to: the folder that the runtime was
    /// installed into, or why it was not. For a binary that is resolved
    /// already there is nothing to install, and nothing changes.
    pub fn installed(&mut self, installed: Result<Vec<String>, InstallError>) -> (r: Result<
        (),
        InstallError,
    >)
        ensures
            final(self)@ == after_install(
                old(self)@,
                match installed {
                    Ok(dir) => Ok(dir.deep_view()),
                    Err(e) => Err(e),
                },
            ),
            r == install_outcome(
                old(self)@,
                match installed {
                    Ok(dir) => Ok(dir.deep_view()),
                    Err(e) => Err(e),
                },
            ),
    {
        if self.path.is_some() {
            return Ok(());
        }
        match installed {
            Ok(dir) => {
                let place = match binary_file(&self.platform) {
                    Some(name) => with_last(&dir, name),
                    None => dir,
                };
                self.path = Some(place);
                self.failure = None;
                Ok(())
            },
            Err(e) => {
                self.failure = Some(e);
                Err(e)
            },
        }
    }

    /// What is to be started to run the project at `package_path`, or the
    /// runtime alone: the binary's program, where the binary is resolved.
    pub fn launch(&self, package_path: Option<String>) -> (r: Result<Launch, RunError>)
        ensures
            match r {
                Ok(launch) => launch_of(self@, text_of(package_path)) == Ok::<LaunchView, RunError>(
                    launch@,
                ),
                Err(e) => launch_of(self@, text_of(package_path)) == Err::<LaunchView, RunError>(e),
            },
    {
        match &self.path {
            Some(program) => Ok(Launch { program: copy_of(program), argument: package_path }),
            None => Err(RunError::CannotRun(self.failure)),
        }
    }

    /// Takes one step of installing the binary: see `binary_install_step`.
    pub fn install(&mut self, event: BinaryEvent) -> (step: InstallStep)
        ensures
            (final(self)@, step) == binary_install_step(old(self)@, event@),
    {
        if self.path.is_some() {
            return InstallStep::Finish(Ok(()));
        }
        match event {
            BinaryEvent::Installed(installed) => InstallStep::Finish(self.installed(installed)),
            _ => InstallStep::Install,
        }
    }

    fn start(&self, package_path: Option<String>) -> (step: RunStep)
        ensures
            step@ == start_or_give_up(self@, text_of(package_path)),
    {
        match self.launch(package_path) {
            Ok(launch) => RunStep::Spawn(launch),
            Err(e) => RunStep::Finish(Err(e)),
        }
    }

    /// Takes one step of running the binary, with the project at
    /// `package_path` or alone: see `run_step`.
    pub fn run(&mut self, package_path: Option<String>, event: BinaryEvent) -> (step: RunStep)
        ensures
            (final(self)@, step@) == run_step(old(self)@, text_of(package_path), event@),
    {
        match event {
            BinaryEvent::Begin => {
                if self.path.is_some() {
                    self.start(package_path)
                } else {
                    RunStep::Install
                }
            },
            BinaryEvent::Installed(installed) => {
                let _ = self.installed(installed);
                self.start(package_path)
            },
            BinaryEvent::Spawned(started) => RunStep::Finish(launched(started)),
        }
    }
}

} // verus!
