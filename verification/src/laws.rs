//! What holds of every launch, stated over the transition function.

use vstd::prelude::*;
use crate::arch::{conda_architecture, mamba_url_text, url_parse};
use crate::archive::bzip2_decoded;
use crate::bootstrap::{
    exit_code_spec, failed, final_exit_code_spec, has_env_spec, install_error, install_plan,
    installed, step_spec, ActionView, ConfigView, EventView, InstallFailure, StageView,
};
use crate::error::BootstrapError;
use crate::locate::which_spec;
use crate::paths::fallback_binary_text;

verus! {

/// Whether a stage is one in which the launch has ended.
pub open spec fn is_terminal(stage: StageView) -> bool {
    stage is Proxying || stage is Failed
}

/// How far a launch has come: each stage's place in the one order in which
/// stages can follow each other.
pub open spec fn stage_rank(stage: StageView) -> nat {
    match stage {
        StageView::Searching => 0,
        StageView::CheckingCandidate { .. } => 1,
        StageView::CheckingFallback => 1,
        StageView::Installing => 2,
        StageView::Unpacking => 3,
        StageView::Installed { .. } => 4,
        StageView::CreatingEnv { .. } => 5,
        StageView::EnvReady { .. } => 6,
        StageView::Proxying { .. } => 7,
        StageView::Failed { .. } => 7,
    }
}

/// A launch only moves forward: every step from a stage that has not ended
/// leads to a later stage, so no stage is entered twice and nothing is tried
/// again. A launch therefore ends after seven steps at most.
pub proof fn launch_advances(cfg: ConfigView, stage: StageView, event: EventView)
    ensures
        stage_rank(stage) <= 7,
        is_terminal(stage) <==> stage_rank(stage) == 7,
        !is_terminal(stage) ==> stage_rank(step_spec(cfg, stage, event).0) > stage_rank(stage),
{
}

/// The process ends exactly when the launch has: with the tool's code after
/// the tool has run, and with 1 after any failure.
pub proof fn process_ends_with_launch(cfg: ConfigView, stage: StageView, event: EventView)
    ensures
        final_exit_code_spec(step_spec(cfg, stage, event).1).is_some() <==> is_terminal(
            step_spec(cfg, stage, event).0,
        ),
        step_spec(cfg, stage, event).0 matches StageView::Proxying { exit_code }
            ==> final_exit_code_spec(step_spec(cfg, stage, event).1) == Some(exit_code),
        step_spec(cfg, stage, event).0 is Failed ==> final_exit_code_spec(
            step_spec(cfg, stage, event).1,
        ) == Some(1i32),
{
}

/// On a platform without a distribution, a missing binary abandons the
/// launch with the unsupported-platform error, and no stage ever answers any
/// event by asking for a download.
pub proof fn unsupported_platform_never_downloads(
    cfg: ConfigView,
    stage: StageView,
    event: EventView,
)
    requires
        conda_architecture(cfg.os, cfg.arch).is_none(),
    ensures
        step_spec(cfg, StageView::CheckingFallback, EventView::PathProbed { exists: false })
            == failed(BootstrapError::UnsupportedPlatform),
        !(step_spec(cfg, stage, event).1 is Download),
{
}

/// A download is asked for in one situation only: the search found nothing,
/// nothing exists at the fallback location, and the platform's address is a
/// valid URL. The archive is then fetched from that address.
pub proof fn download_only_when_missing(cfg: ConfigView, stage: StageView, event: EventView)
    requires
        step_spec(cfg, stage, event).1 is Download,
    ensures
        stage == StageView::CheckingFallback,
        event == (EventView::PathProbed { exists: false }),
        conda_architecture(cfg.os, cfg.arch).is_some(),
        step_spec(cfg, stage, event).0 == StageView::Installing,
        step_spec(cfg, stage, event).1 == (ActionView::Download {
            url: url_parse(mamba_url_text(conda_architecture(cfg.os, cfg.arch).unwrap())).unwrap(),
        }),
{
}

/// Nothing is unpacked but what the fetched archive decompresses to, and
/// only into the install root; an archive that is not a bzip2 stream
/// abandons the launch with the archive error.
pub proof fn unpack_only_what_was_fetched(cfg: ConfigView, stage: StageView, event: EventView)
    ensures
        step_spec(cfg, stage, event).1 matches ActionView::Unpack { archive, dest } ==> {
            &&& stage == StageView::Installing
            &&& event matches EventView::ArchiveFetched { bytes }
            &&& bzip2_decoded(bytes) == Some(archive)
            &&& dest == cfg.root
            &&& step_spec(cfg, stage, event).0 == StageView::Unpacking
        },
        forall|bytes: Seq<u8>|
            bzip2_decoded(bytes).is_none() ==> #[trigger] step_spec(
                cfg,
                StageView::Installing,
                EventView::ArchiveFetched { bytes },
            ) == failed(BootstrapError::Archive),
{
}

/// The search order. A path that the search reported and that exists is the
/// binary, and the fallback location is not looked at. A reported path that
/// does not exist abandons the launch. Where the search reported nothing,
/// the fallback location is looked at, and it is the binary if it exists.
/// Only where neither has one does the launch go on to the installation.
pub proof fn search_order(cfg: ConfigView, code: Option<i32>, output: Seq<u8>)
    ensures
        which_spec(code, output) matches Ok(Some(path)) ==> {
            let probing = step_spec(
                cfg,
                StageView::Searching,
                EventView::SearchFinished { code, output },
            );
            &&& probing == (StageView::CheckingCandidate { path }, ActionView::ProbePath { path })
            &&& step_spec(cfg, probing.0, EventView::PathProbed { exists: true }) == installed(path)
            &&& step_spec(cfg, probing.0, EventView::PathProbed { exists: false }) == failed(
                BootstrapError::InconsistentEnvironment,
            )
        },
        which_spec(code, output) == Ok::<Option<Seq<char>>, BootstrapError>(None) ==> {
            let probing = step_spec(
                cfg,
                StageView::Searching,
                EventView::SearchFinished { code, output },
            );
            &&& probing == (
                StageView::CheckingFallback,
                ActionView::ProbePath { path: fallback_binary_text(cfg.root) },
            )
            &&& step_spec(cfg, probing.0, EventView::PathProbed { exists: true }) == installed(
                fallback_binary_text(cfg.root),
            )
            &&& step_spec(cfg, probing.0, EventView::PathProbed { exists: false }) == install_plan(
                cfg,
            )
            &&& !(install_plan(cfg).0 is Installed)
        },
{
}

/// After a successful installation the binary is the one at the fallback
/// location, without another look at the disk; a failure while fetching or
/// unpacking abandons the launch with the error that stands for it.
pub proof fn installation_settles_binary(cfg: ConfigView, f: InstallFailure)
    ensures
        step_spec(cfg, StageView::Unpacking, EventView::InstallFinished { failure: None })
            == installed(fallback_binary_text(cfg.root)),
        step_spec(cfg, StageView::Unpacking, EventView::InstallFinished { failure: Some(f) })
            == failed(install_error(f)),
        step_spec(cfg, StageView::Installing, EventView::InstallFinished { failure: Some(f) })
            == failed(install_error(f)),
{
}

/// An environment is usable exactly when one of the listed paths exists: an
/// empty listing has none, and one existing path is enough.
pub proof fn usable_environment(exists: Seq<bool>)
    ensures
        has_env_spec(exists) <==> (exists|i: int| 0 <= i < exists.len() && exists[i]),
        exists.len() == 0 ==> !has_env_spec(exists),
{
    if has_env_spec(exists) {
        let i = choose|i: int| 0 <= i < exists.len() && exists[i] == true;
        assert(0 <= i < exists.len() && exists[i]);
    }
    if exists|i: int| 0 <= i < exists.len() && exists[i] {
        let i = choose|i: int| 0 <= i < exists.len() && exists[i];
        assert(exists[i] == true);
    }
}

/// The default environment is created only where the listing showed no
/// existing environment, and the tool runs only once one exists or the
/// creation has succeeded.
pub proof fn environment_before_proxy(cfg: ConfigView, stage: StageView, event: EventView)
    ensures
        step_spec(cfg, stage, event).1 is CreateEnvironment ==> {
            &&& stage is Installed
            &&& event matches EventView::EnvironmentsListed { present }
            &&& !has_env_spec(present)
        },
        step_spec(cfg, stage, event).1 is Proxy ==> {
            ||| (stage is Installed && (event matches EventView::EnvironmentsListed { present }
                && has_env_spec(present)))
            ||| (stage is CreatingEnv && event == (EventView::EnvironmentCreated { success: true }))
        },
        step_spec(cfg, stage, event).1 matches ActionView::Proxy { binary } ==> {
            ||| stage == (StageView::Installed { binary })
            ||| stage == (StageView::CreatingEnv { binary })
        },
{
}

/// The launcher ends with the code of the tool, or with 1 where the tool
/// was ended by a signal; and it ends so only after the tool has run.
pub proof fn exit_code_is_childs(cfg: ConfigView, binary: Seq<char>, code: Option<i32>)
    ensures
        step_spec(cfg, StageView::EnvReady { binary }, EventView::ChildExited { code }) == (
            StageView::Proxying { exit_code: exit_code_spec(code) },
            ActionView::Exit { code: exit_code_spec(code) },
        ),
        code matches Some(c) ==> exit_code_spec(code) == c,
        code is None ==> exit_code_spec(code) == 1,
        forall|stage: StageView, event: EventView|
            !is_terminal(stage) && (#[trigger] step_spec(cfg, stage, event)).0 is Proxying
                ==> stage is EnvReady && event is ChildExited,
{
}

/// A launch that has ended stays as it is, whatever is reported to it, and
/// keeps answering with its verdict.
pub proof fn terminal_stages_absorb(cfg: ConfigView, stage: StageView, event: EventView)
    requires
        is_terminal(stage),
    ensures
        step_spec(cfg, stage, event).0 == stage,
        stage matches StageView::Proxying { exit_code } ==> step_spec(cfg, stage, event).1 == (
        ActionView::Exit { code: exit_code }),
        stage matches StageView::Failed { error } ==> step_spec(cfg, stage, event).1 == (
        ActionView::Abort { error }),
{
}

/// Every failure is fatal: a step that abandons the launch answers with the
/// error it recorded, and a step from a running launch never asks to end the
/// process with a code unless the tool has run.
pub proof fn failure_is_reported(cfg: ConfigView, stage: StageView, event: EventView)
    ensures
        step_spec(cfg, stage, event).0 matches StageView::Failed { error } ==> step_spec(
            cfg,
            stage,
            event,
        ).1 == (ActionView::Abort { error }),
        step_spec(cfg, stage, event).1 is Abort ==> step_spec(cfg, stage, event).0 is Failed,
        step_spec(cfg, stage, event).1 is Exit ==> step_spec(cfg, stage, event).0 is Proxying,
{
}

/// With the binary on the search path and an environment on disk, a launch
/// changes nothing: it searches, looks up one path, lists the environments
/// and hands over to the tool, without installing or creating anything.
pub proof fn satisfied_launch_only_probes(
    cfg: ConfigView,
    code: Option<i32>,
    output: Seq<u8>,
    exists: Seq<bool>,
)
    requires
        which_spec(code, output) is Ok,
        which_spec(code, output).unwrap() is Some,
        has_env_spec(exists),
    ensures
        ({
            let path = which_spec(code, output).unwrap().unwrap();
            let first = step_spec(
                cfg,
                StageView::Searching,
                EventView::SearchFinished { code, output },
            );
            let second = step_spec(cfg, first.0, EventView::PathProbed { exists: true });
            let third = step_spec(cfg, second.0, EventView::EnvironmentsListed { present: exists });
            &&& first.1 == (ActionView::ProbePath { path })
            &&& second.1 == (ActionView::ListEnvironments { binary: path })
            &&& third == (StageView::EnvReady { binary: path }, ActionView::Proxy { binary: path })
        }),
{
}

} // verus!
