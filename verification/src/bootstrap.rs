//! The launch as a state machine.
//!
//! A driver starts with [`start`], performs the [`Action`] it is handed,
//! reports the outcome as an [`Event`] to [`step`], and goes on until the
//! stage is [`Stage::Proxying`] or [`Stage::Failed`].

use vstd::prelude::*;
use vstd::string::*;
use crate::arch::{conda_architecture, get_mamba_url, mamba_url_text, parse_url, url_parse};
use crate::archive::{bzip2_decoded, decode_archive};
use crate::error::BootstrapError;
use crate::locate::{which, which_spec};
use crate::paths::{fallback_binary, fallback_binary_text, tool_name};

verus! {

/// What a launch is told about its surroundings, once, before it starts.
#[derive(Clone, Debug, PartialEq, Eq)]
pub struct Config {
    /// The operating system, spelled as the compiler spells its targets.
    pub os: String,
    /// The CPU architecture, spelled as the compiler spells its targets.
    pub arch: String,
    /// The directory under which the tool is installed when it is missing.
    pub root: String,
}

/// A [`Config`] as contracts see it.
pub struct ConfigView {
    pub os: Seq<char>,
    pub arch: Seq<char>,
    pub root: Seq<char>,
}

impl View for Config {
    type V = ConfigView;

    open spec fn view(&self) -> ConfigView {
        ConfigView { os: self.os@, arch: self.arch@, root: self.root@ }
    }
}

/// Why an installation did not complete.
#[derive(Clone, Copy, Debug, PartialEq, Eq, Structural)]
pub enum InstallFailure {
    /// The archive could not be fetched.
    Transfer,
    /// The archive could not be decompressed or read as a tar container.
    Archive,
    /// The temporary directory or the destination could not be written.
    Filesystem,
}

/// One environment that the tool listed, with what a look at the disk found.
#[derive(Clone, Debug, PartialEq, Eq)]
pub struct Environment {
    /// The directory of the environment, as the tool reported it.
    pub path: String,
    /// Whether that directory exists.
    pub exists: bool,
}

/// Where a launch stands.
#[derive(Clone, Debug, PartialEq, Eq)]
pub enum Stage {
    /// The search for the binary on the executable search path is running.
    Searching,
    /// The search reported `path`; whether it exists is being looked up.
    CheckingCandidate { path: String },
    /// The search found nothing; the fallback location is being looked up.
    CheckingFallback,
    /// The binary is missing and its archive is being fetched.
    Installing,
    /// The archive has been decompressed and is being unpacked.
    Unpacking,
    /// The binary is at `binary`; its environments are being listed.
    Installed { binary: String },
    /// No environment exists; the default environment is being created.
    CreatingEnv { binary: String },
    /// An environment exists; the tool runs with the user's arguments.
    EnvReady { binary: String },
    /// The tool has run; the launcher ends with `exit_code`.
    Proxying { exit_code: i32 },
    /// The launch was abandoned.
    Failed { error: BootstrapError },
}

/// A [`Stage`] as contracts see it.
pub enum StageView {
    Searching,
    CheckingCandidate { path: Seq<char> },
    CheckingFallback,
    Installing,
    Unpacking,
    Installed { binary: Seq<char> },
    CreatingEnv { binary: Seq<char> },
    EnvReady { binary: Seq<char> },
    Proxying { exit_code: i32 },
    Failed { error: BootstrapError },
}

impl View for Stage {
    type V = StageView;

    open spec fn view(&self) -> StageView {
        match *self {
            Stage::Searching => StageView::Searching,
            Stage::CheckingCandidate { path } => StageView::CheckingCandidate { path: path@ },
            Stage::CheckingFallback => StageView::CheckingFallback,
            Stage::Installing => StageView::Installing,
            Stage::Unpacking => StageView::Unpacking,
            Stage::Installed { binary } => StageView::Installed { binary: binary@ },
            Stage::CreatingEnv { binary } => StageView::CreatingEnv { binary: binary@ },
            Stage::EnvReady { binary } => StageView::EnvReady { binary: binary@ },
            Stage::Proxying { exit_code } => StageView::Proxying { exit_code },
            Stage::Failed { error } => StageView::Failed { error },
        }
    }
}

/// What the driver is asked to do next.
#[derive(Clone, Debug, PartialEq, Eq)]
pub enum Action {
    /// Ask the system's search mechanism (`which`) for the binary `name`.
    Search { name: String },
    /// Look up whether `path` exists.
    ProbePath { path: String },
    /// Fetch the compressed archive at `url` into a temporary place and hand
    /// over its bytes.
    Download { url: String },
    /// Unpack the tar container `archive` into the directory `dest`.
    Unpack { archive: Vec<u8>, dest: String },
    /// Run `binary` with [`list_arguments`] and look up each listed path.
    ListEnvironments { binary: String },
    /// Run `binary` with [`create_arguments`].
    CreateEnvironment { binary: String },
    /// Run `binary` with the user's arguments and wait for it.
    Proxy { binary: String },
    /// End the process with `code`.
    Exit { code: i32 },
    /// Report `error` and end the process with code 1.
    Abort { error: BootstrapError },
}

/// An [`Action`] as contracts see it.
pub enum ActionView {
    Search { name: Seq<char> },
    ProbePath { path: Seq<char> },
    Download { url: Seq<char> },
    Unpack { archive: Seq<u8>, dest: Seq<char> },
    ListEnvironments { binary: Seq<char> },
    CreateEnvironment { binary: Seq<char> },
    Proxy { binary: Seq<char> },
    Exit { code: i32 },
    Abort { error: BootstrapError },
}

impl View for Action {
    type V = ActionView;

    open spec fn view(&self) -> ActionView {
        match *self {
            Action::Search { name } => ActionView::Search { name: name@ },
            Action::ProbePath { path } => ActionView::ProbePath { path: path@ },
            Action::Download { url } => ActionView::Download { url: url@ },
            Action::Unpack { archive, dest } => ActionView::Unpack {
                archive: archive@,
                dest: dest@,
            },
            Action::ListEnvironments { binary } => ActionView::ListEnvironments { binary: binary@ },
            Action::CreateEnvironment { binary } => ActionView::CreateEnvironment {
                binary: binary@,
            },
            Action::Proxy { binary } => ActionView::Proxy { binary: binary@ },
            Action::Exit { code } => ActionView::Exit { code },
            Action::Abort { error } => ActionView::Abort { error },
        }
    }
}

/// What the driver reports back.
#[derive(Clone, Debug, PartialEq, Eq)]
pub enum Event {
    /// The search ended with `code` (`None`: by a signal) and wrote `output`.
    SearchFinished { code: Option<i32>, output: Vec<u8> },
    /// The process that the action asked for could not be started.
    LaunchFailed,
    /// The path asked about exists, or does not.
    PathProbed { exists: bool },
    /// The archive was fetched; these are its bytes.
    ArchiveFetched { bytes: Vec<u8> },
    /// Fetching failed, or unpacking ended with a failure or without one.
    InstallFinished { failure: Option<InstallFailure> },
    /// The tool listed these environments.
    EnvironmentsListed { entries: Vec<Environment> },
    /// The tool's listing could not be parsed.
    ListingUnreadable,
    /// Creating the default environment ended, with success or without.
    EnvironmentCreated { success: bool },
    /// The tool ended with `code` (`None`: by a signal).
    ChildExited { code: Option<i32> },
}

/// An [`Event`] as contracts see it.
pub enum EventView {
    SearchFinished { code: Option<i32>, output: Seq<u8> },
    LaunchFailed,
    PathProbed { exists: bool },
    ArchiveFetched { bytes: Seq<u8> },
    InstallFinished { failure: Option<InstallFailure> },
    EnvironmentsListed { present: Seq<bool> },
    ListingUnreadable,
    EnvironmentCreated { success: bool },
    ChildExited { code: Option<i32> },
}

/// For each listed environment, whether it exists.
pub open spec fn existence(entries: Seq<Environment>) -> Seq<bool> {
    Seq::new(entries.len(), |i: int| entries[i].exists)
}

impl View for Event {
    type V = EventView;

    open spec fn view(&self) -> EventView {
        match *self {
            Event::SearchFinished { code, output } => EventView::SearchFinished {
                code,
                output: output@,
            },
            Event::LaunchFailed => EventView::LaunchFailed,
            Event::PathProbed { exists } => EventView::PathProbed { exists },
            Event::ArchiveFetched { bytes } => EventView::ArchiveFetched { bytes: bytes@ },
            Event::InstallFinished { failure } => EventView::InstallFinished { failure },
            Event::EnvironmentsListed { entries } => EventView::EnvironmentsListed {
                present: existence(entries@),
            },
            Event::ListingUnreadable => EventView::ListingUnreadable,
            Event::EnvironmentCreated { success } => EventView::EnvironmentCreated { success },
            Event::ChildExited { code } => EventView::ChildExited { code },
        }
    }
}

/// The stage and action of a launch that is abandoned because of `error`.
pub open spec fn failed(error: BootstrapError) -> (StageView, ActionView) {
    (StageView::Failed { error }, ActionView::Abort { error })
}

/// The stage and action once the binary is known to be at `binary`.
pub open spec fn installed(binary: Seq<char>) -> (StageView, ActionView) {
    (StageView::Installed { binary }, ActionView::ListEnvironments { binary })
}

/// Whether any of the listed environments exists.
pub open spec fn has_env_spec(exists: Seq<bool>) -> bool {
    exists.contains(true)
}

/// The error that stands for a failed installation.
pub open spec fn install_error(failure: InstallFailure) -> BootstrapError {
    match failure {
        InstallFailure::Transfer => BootstrapError::Transfer,
        InstallFailure::Archive => BootstrapError::Archive,
        InstallFailure::Filesystem => BootstrapError::Filesystem,
    }
}

/// The code with which the launcher ends after the tool ended with `code`.
pub open spec fn exit_code_spec(code: Option<i32>) -> i32 {
    match code {
        Some(c) => c,
        None => 1i32,
    }
}

/// What follows the search's answer: a reported path is looked up, and where
/// nothing was reported the fallback location is.
pub open spec fn search_finished_spec(cfg: ConfigView, code: Option<i32>, output: Seq<u8>) -> (
    StageView,
    ActionView,
) {
    match which_spec(code, output) {
        Ok(Some(path)) => (StageView::CheckingCandidate { path }, ActionView::ProbePath { path }),
        Ok(None) => (
            StageView::CheckingFallback,
            ActionView::ProbePath { path: fallback_binary_text(cfg.root) },
        ),
        Err(error) => failed(error),
    }
}

/// What follows when the binary is nowhere: the archive for this platform is
/// fetched, unless the platform has none or its address is not a valid URL.
pub open spec fn install_plan(cfg: ConfigView) -> (StageView, ActionView) {
    match conda_architecture(cfg.os, cfg.arch) {
        None => failed(BootstrapError::UnsupportedPlatform),
        Some(token) => match url_parse(mamba_url_text(token)) {
            None => failed(BootstrapError::MalformedUrl),
            Some(url) => (StageView::Installing, ActionView::Download { url }),
        },
    }
}

/// What follows the download: the decompressed archive is unpacked into the
/// root, unless the bytes are not a bzip2 stream.
pub open spec fn unpack_plan(cfg: ConfigView, bytes: Seq<u8>) -> (StageView, ActionView) {
    match bzip2_decoded(bytes) {
        None => failed(BootstrapError::Archive),
        Some(archive) => (StageView::Unpacking, ActionView::Unpack { archive, dest: cfg.root }),
    }
}

/// What follows the listing of the environments: the tool runs if one of
/// them exists, and the default environment is created first if none does.
pub open spec fn ensure_env_spec(binary: Seq<char>, exists: Seq<bool>) -> (StageView, ActionView) {
    if has_env_spec(exists) {
        (StageView::EnvReady { binary }, ActionView::Proxy { binary })
    } else {
        (StageView::CreatingEnv { binary }, ActionView::CreateEnvironment { binary })
    }
}

/// The transition function: the stage that follows `stage` on `event`, and
/// what the driver does next. A finished or abandoned launch stays as it is;
/// an event that does not answer the pending action abandons the launch.
pub open spec fn step_spec(cfg: ConfigView, stage: StageView, event: EventView) -> (
    StageView,
    ActionView,
) {
    match stage {
        StageView::Searching => match event {
            EventView::SearchFinished { code, output } => search_finished_spec(cfg, code, output),
            EventView::LaunchFailed => failed(BootstrapError::Launch),
            _ => failed(BootstrapError::UnexpectedEvent),
        },
        StageView::CheckingCandidate { path } => match event {
            EventView::PathProbed { exists } => if exists {
                installed(path)
            } else {
                failed(BootstrapError::InconsistentEnvironment)
            },
            _ => failed(BootstrapError::UnexpectedEvent),
        },
        StageView::CheckingFallback => match event {
            EventView::PathProbed { exists } => if exists {
                installed(fallback_binary_text(cfg.root))
            } else {
                install_plan(cfg)
            },
            _ => failed(BootstrapError::UnexpectedEvent),
        },
        StageView::Installing => match event {
            EventView::ArchiveFetched { bytes } => unpack_plan(cfg, bytes),
            EventView::InstallFinished { failure: Some(f) } => failed(install_error(f)),
            _ => failed(BootstrapError::UnexpectedEvent),
        },
        StageView::Unpacking => match event {
            EventView::InstallFinished { failure } => match failure {
                None => installed(fallback_binary_text(cfg.root)),
                Some(f) => failed(install_error(f)),
            },
            _ => failed(BootstrapError::UnexpectedEvent),
        },
        StageView::Installed { binary } => match event {
            EventView::EnvironmentsListed { present } => ensure_env_spec(binary, present),
            EventView::ListingUnreadable => failed(BootstrapError::Protocol),
            EventView::LaunchFailed => failed(BootstrapError::Launch),
            _ => failed(BootstrapError::UnexpectedEvent),
        },
        StageView::CreatingEnv { binary } => match event {
            EventView::EnvironmentCreated { success } => if success {
                (StageView::EnvReady { binary }, ActionView::Proxy { binary })
            } else {
                failed(BootstrapError::CreateEnvironment)
            },
            EventView::LaunchFailed => failed(BootstrapError::Launch),
            _ => failed(BootstrapError::UnexpectedEvent),
        },
        StageView::EnvReady { .. } => match event {
            EventView::ChildExited { code } => (
                StageView::Proxying { exit_code: exit_code_spec(code) },
                ActionView::Exit { code: exit_code_spec(code) },
            ),
            EventView::LaunchFailed => failed(BootstrapError::Launch),
            _ => failed(BootstrapError::UnexpectedEvent),
        },
        StageView::Proxying { exit_code } => (stage, ActionView::Exit { code: exit_code }),
        StageView::Failed { error } => (stage, ActionView::Abort { error }),
    }
}

/// Abandons the launch because of `error`.
pub fn fail(error: BootstrapError) -> (r: (Stage, Action))
    ensures
        (r.0@, r.1@) == failed(error),
{
    (Stage::Failed { error }, Action::Abort { error })
}

/// Settles on `binary` as the tool's binary and asks for its environments.
pub fn binary_found(binary: String) -> (r: (Stage, Action))
    ensures
        (r.0@, r.1@) == installed(binary@),
{
    let copy = binary.clone();
    (Stage::Installed { binary }, Action::ListEnvironments { binary: copy })
}

/// Lets the tool run with the user's arguments.
pub fn proxy(binary: String) -> (r: (Stage, Action))
    ensures
        r.0@ == (StageView::EnvReady { binary: binary@ }),
        r.1@ == (ActionView::Proxy { binary: binary@ }),
{
    let copy = binary.clone();
    (Stage::EnvReady { binary }, Action::Proxy { binary: copy })
}

/// The first stage of every launch, and its first action: the search for the
/// binary under its canonical name.
pub fn start() -> (r: (Stage, Action))
    ensures
        r.0@ == StageView::Searching,
        r.1@ == (ActionView::Search { name: "micromamba"@ }),
{
    (Stage::Searching, Action::Search { name: tool_name() })
}

/// Decides where to look once the search has answered with `found`: at the
/// reported path if there is one, at the fallback location below the root
/// otherwise. An error of the search abandons the launch.
pub fn get_mamba_bin_path(cfg: &Config, found: Result<Option<String>, BootstrapError>) -> (r: (
    Stage,
    Action,
))
    ensures
        match found {
            Ok(Some(path)) => r.0@ == (StageView::CheckingCandidate { path: path@ }) && r.1@ == (
            ActionView::ProbePath { path: path@ }),
            Ok(None) => r.0@ == StageView::CheckingFallback && r.1@ == (ActionView::ProbePath {
                path: fallback_binary_text(cfg@.root),
            }),
            Err(error) => (r.0@, r.1@) == failed(error),
        },
{
    match found {
        Ok(Some(path)) => {
            let copy = path.clone();
            (Stage::CheckingCandidate { path }, Action::ProbePath { path: copy })
        },
        Ok(None) => (
            Stage::CheckingFallback,
            Action::ProbePath { path: fallback_binary(cfg.root.as_str()) },
        ),
        Err(error) => fail(error),
    }
}

/// Starts the installation from `parsed`, the outcome of parsing the
/// download address: a valid address is fetched, a rejected one abandons the
/// launch.
pub fn begin_install(parsed: Option<String>) -> (r: (Stage, Action))
    ensures
        match parsed {
            Some(url) => r.0@ == StageView::Installing && r.1@ == (ActionView::Download {
                url: url@,
            }),
            None => (r.0@, r.1@) == failed(BootstrapError::MalformedUrl),
        },
{
    match parsed {
        Some(url) => (Stage::Installing, Action::Download { url }),
        None => fail(BootstrapError::MalformedUrl),
    }
}

/// Goes on from `decoded`, the outcome of decompressing the archive: a tar
/// container is unpacked into `dest`, an error abandons the launch.
pub fn begin_unpack(decoded: Result<Vec<u8>, BootstrapError>, dest: String) -> (r: (
    Stage,
    Action,
))
    ensures
        match decoded {
            Ok(archive) => r.0@ == StageView::Unpacking && r.1@ == (ActionView::Unpack {
                archive: archive@,
                dest: dest@,
            }),
            Err(error) => (r.0@, r.1@) == failed(error),
        },
{
    match decoded {
        Ok(archive) => (Stage::Unpacking, Action::Unpack { archive, dest }),
        Err(error) => fail(error),
    }
}

/// Decides what follows the end of unpacking: the binary is the one at the
/// fallback location below the root, unless unpacking failed.
pub fn install_finished(cfg: &Config, failure: Option<InstallFailure>) -> (r: (Stage, Action))
    ensures
        match failure {
            None => (r.0@, r.1@) == installed(fallback_binary_text(cfg@.root)),
            Some(f) => (r.0@, r.1@) == failed(install_error(f)),
        },
{
    match failure {
        None => binary_found(fallback_binary(cfg.root.as_str())),
        Some(f) => fail(install_failed(f)),
    }
}

/// Decides what to do about a binary that the search did not find, given
/// whether the fallback location holds one: use it, or install the archive
/// for this platform under the root.
pub fn ensure_installed(cfg: &Config, fallback_exists: bool) -> (r: (Stage, Action))
    ensures
        fallback_exists ==> (r.0@, r.1@) == installed(fallback_binary_text(cfg@.root)),
        !fallback_exists ==> (r.0@, r.1@) == install_plan(cfg@),
{
    if fallback_exists {
        return binary_found(fallback_binary(cfg.root.as_str()));
    }
    match get_mamba_url(cfg.os.as_str(), cfg.arch.as_str()) {
        None => fail(BootstrapError::UnsupportedPlatform),
        Some(url) => begin_install(parse_url(url.as_str())),
    }
}

/// Whether any of the listed environments exists on disk.
pub fn has_env(entries: &Vec<Environment>) -> (r: bool)
    ensures
        r == has_env_spec(existence(entries@)),
        r == exists|i: int| 0 <= i < entries@.len() && entries@[i].exists,
{
    let mut i: usize = 0;
    while i < entries.len()
        invariant
            i <= entries.len(),
            forall|j: int| 0 <= j < i ==> !entries@[j].exists,
        decreases entries.len() - i,
    {
        if entries[i].exists {
            assert(existence(entries@)[i as int] == true);
            return true;
        }
        i += 1;
    }
    assert forall|j: int| 0 <= j < existence(entries@).len() implies existence(entries@)[j]
        != true by {
        assert(!entries@[j].exists);
    }
    false
}

/// Decides what follows the listing of the environments: the tool runs if
/// one of them exists; otherwise the default environment is created first.
pub fn ensure_env(binary: String, entries: &Vec<Environment>) -> (r: (Stage, Action))
    ensures
        (r.0@, r.1@) == ensure_env_spec(binary@, existence(entries@)),
{
    if has_env(entries) {
        proxy(binary)
    } else {
        let copy = binary.clone();
        (Stage::CreatingEnv { binary }, Action::CreateEnvironment { binary: copy })
    }
}

/// The error that stands for a failed installation.
pub fn install_failed(failure: InstallFailure) -> (r: BootstrapError)
    ensures
        r == install_error(failure),
{
    match failure {
        InstallFailure::Transfer => BootstrapError::Transfer,
        InstallFailure::Archive => BootstrapError::Archive,
        InstallFailure::Filesystem => BootstrapError::Filesystem,
    }
}

/// The code with which the launcher ends after the tool ended with `code`:
/// the same code, or 1 where the tool was ended by a signal.
pub fn exit_code(code: Option<i32>) -> (r: i32)
    ensures
        r == exit_code_spec(code),
{
    match code {
        Some(c) => c,
        None => 1,
    }
}

/// The code with which the process ends once the driver is handed `action`:
/// the tool's code after it has run, 1 after a failure, and none while the
/// launch is under way.
pub open spec fn final_exit_code_spec(action: ActionView) -> Option<i32> {
    match action {
        ActionView::Exit { code } => Some(code),
        ActionView::Abort { .. } => Some(1i32),
        _ => None,
    }
}

/// The code with which the process ends once the driver is handed `action`,
/// or `None` where the action does not end the launch.
pub fn final_exit_code(action: &Action) -> (r: Option<i32>)
    ensures
        r == final_exit_code_spec(action@),
{
    match action {
        Action::Exit { code } => Some(*code),
        Action::Abort { .. } => Some(1),
        _ => None,
    }
}

/// Advances the launch: takes the stage it is in and what the driver
/// reports, and gives the stage that follows and what the driver does next.
pub fn step(cfg: &Config, stage: Stage, event: Event) -> (r: (Stage, Action))
    ensures
        (r.0@, r.1@) == step_spec(cfg@, stage@, event@),
{
    match stage {
        Stage::Searching => match event {
            Event::SearchFinished { code, output } => get_mamba_bin_path(cfg, which(code, output)),
            Event::LaunchFailed => fail(BootstrapError::Launch),
            _ => fail(BootstrapError::UnexpectedEvent),
        },
        Stage::CheckingCandidate { path } => match event {
            Event::PathProbed { exists } => if exists {
                binary_found(path)
            } else {
                fail(BootstrapError::InconsistentEnvironment)
            },
            _ => fail(BootstrapError::UnexpectedEvent),
        },
        Stage::CheckingFallback => match event {
            Event::PathProbed { exists } => ensure_installed(cfg, exists),
            _ => fail(BootstrapError::UnexpectedEvent),
        },
        Stage::Installing => match event {
            Event::ArchiveFetched { bytes } => begin_unpack(
                decode_archive(bytes.as_slice()),
                cfg.root.clone(),
            ),
            Event::InstallFinished { failure: Some(f) } => fail(install_failed(f)),
            _ => fail(BootstrapError::UnexpectedEvent),
        },
        Stage::Unpacking => match event {
            Event::InstallFinished { failure } => install_finished(cfg, failure),
            _ => fail(BootstrapError::UnexpectedEvent),
        },
        Stage::Installed { binary } => match event {
            Event::EnvironmentsListed { entries } => ensure_env(binary, &entries),
            Event::ListingUnreadable => fail(BootstrapError::Protocol),
            Event::LaunchFailed => fail(BootstrapError::Launch),
            _ => fail(BootstrapError::UnexpectedEvent),
        },
        Stage::CreatingEnv { binary } => match event {
            Event::EnvironmentCreated { success } => if success {
                proxy(binary)
            } else {
                fail(BootstrapError::CreateEnvironment)
            },
            Event::LaunchFailed => fail(BootstrapError::Launch),
            _ => fail(BootstrapError::UnexpectedEvent),
        },
        Stage::EnvReady { .. } => match event {
            Event::ChildExited { code } => {
                let c = exit_code(code);
                (Stage::Proxying { exit_code: c }, Action::Exit { code: c })
            },
            Event::LaunchFailed => fail(BootstrapError::Launch),
            _ => fail(BootstrapError::UnexpectedEvent),
        },
        Stage::Proxying { exit_code } => (Stage::Proxying { exit_code }, Action::Exit {
            code: exit_code,
        }),
        Stage::Failed { error } => (Stage::Failed { error }, Action::Abort { error }),
    }
}

} // verus!
