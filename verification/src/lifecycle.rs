//! The lifecycle controller: an explicit state machine over the unpack →
//! select → run → archive → cleanup order.
//!
//! The outside work (filesystem, spawn, archive write) happens elsewhere; the
//! machine only decides. A driver feeds it each phase's outcome as an event
//! and performs the action it hands back. The machine guarantees that the
//! workspace is torn down exactly once on every path on which it came to
//! exist, except the explicit unpack-only exit, and that no teardown is ever
//! asked for twice.

use vstd::prelude::*;

use crate::configuration::Cli;

verus! {

/// Where the lifecycle stands.
#[derive(Clone, Copy, Debug, PartialEq, Eq, Structural)]
pub enum Phase {
    /// Nothing has happened yet.
    Idle,
    /// The workspace is being created and populated.
    Unpacking,
    /// Terminal: unpack-only mode; the workspace is kept and its path
    /// reported.
    UnpackOnlyExit,
    /// The launch target is being selected.
    Selecting,
    /// The child process is running.
    Running,
    /// The report directory is being archived.
    ArchivingReport,
    /// The workspace is being removed.
    CleaningUp,
    /// Terminal: everything succeeded, the workspace is gone.
    Done,
    /// Terminal: an error was surfaced; cleanup was still attempted wherever
    /// a workspace existed.
    Aborted,
}

/// What the driver reports to the machine.
#[derive(Clone, Copy, Debug, PartialEq, Eq, Structural)]
pub enum LifecycleEvent {
    /// Begin the run.
    Start,
    /// Creating and populating the workspace finished. `workspace_created`
    /// says whether the directory now exists on disk (it may, even when
    /// population failed half-way); `ok` says whether every asset was
    /// written.
    UnpackFinished { workspace_created: bool, ok: bool },
    /// Selection finished; `ok` says whether a launch target was found.
    SelectFinished { ok: bool },
    /// The child process finished or failed to spawn.
    RunFinished { ok: bool },
    /// Writing the encrypted report archive finished.
    ArchiveFinished { ok: bool },
    /// Removing the workspace finished.
    CleanupFinished { ok: bool },
}

/// What the driver is to do next.
#[derive(Clone, Copy, Debug, PartialEq, Eq, Structural)]
pub enum LifecycleAction {
    /// Create the workspace and write every asset into it.
    DoUnpack,
    /// Report the workspace path to the caller and keep the directory.
    ReportWorkspacePath,
    /// Run the executable selector.
    DoSelect,
    /// Spawn the launch target and wait for it.
    DoRun,
    /// Archive the report directory.
    DoArchive,
    /// Remove the workspace directory.
    DoCleanup,
    /// Stop: the machine is in a terminal phase.
    Finish,
}

/// The lifecycle machine: the phase, the two configuration bits it decides
/// by, and what it knows of the world it steers.
pub struct Lifecycle {
    /// Where the lifecycle stands.
    pub phase: Phase,
    /// Unpack-only mode: keep the workspace, spawn nothing.
    pub unpack_only: bool,
    /// Report encryption is configured, so archiving follows the run.
    pub archive_requested: bool,
    /// The workspace directory exists on disk, as last reported.
    pub workspace_exists: bool,
    /// Some phase failed; the terminal phase will be `Aborted`.
    pub failed: bool,
    /// The cleanup itself failed; the workspace may be left behind.
    pub cleanup_failed: bool,
    /// A teardown has been asked for (it never is twice).
    pub cleanup_started: bool,
}

/// The machine's invariant, preserved by every step.
pub open spec fn inv(m: Lifecycle) -> bool {
    &&& (m.phase is Idle ==> !m.workspace_exists && !m.cleanup_started && !m.failed
        && !m.cleanup_failed)
    &&& (m.phase is Unpacking ==> !m.workspace_exists && !m.cleanup_started && !m.failed
        && !m.cleanup_failed)
    &&& (m.phase is Selecting || m.phase is Running || m.phase is ArchivingReport
        ==> m.workspace_exists && !m.cleanup_started && !m.failed && !m.cleanup_failed)
    &&& (m.phase is UnpackOnlyExit ==> m.workspace_exists && !m.cleanup_started)
    &&& (m.phase is CleaningUp ==> m.cleanup_started && m.workspace_exists && !m.cleanup_failed)
    &&& (m.phase is Done ==> !m.workspace_exists && !m.failed && !m.cleanup_failed
        && m.cleanup_started)
    &&& (m.phase is Aborted ==> m.failed || m.cleanup_failed)
    &&& (m.phase is Aborted && !m.cleanup_failed ==> !m.workspace_exists)
}

impl Lifecycle {
    /// Whether the machine's invariant holds, decided at run time so that an
    /// unverified driver can test it before stepping.
    pub fn check_inv(&self) -> (b: bool)
        ensures
            b == inv(*self),
    {
        let idle_ok = !matches!(self.phase, Phase::Idle) || (!self.workspace_exists
            && !self.cleanup_started && !self.failed && !self.cleanup_failed);
        let unpacking_ok = !matches!(self.phase, Phase::Unpacking) || (!self.workspace_exists
            && !self.cleanup_started && !self.failed && !self.cleanup_failed);
        let mid_ok = !(matches!(self.phase, Phase::Selecting) || matches!(
            self.phase,
            Phase::Running,
        ) || matches!(self.phase, Phase::ArchivingReport)) || (self.workspace_exists
            && !self.cleanup_started && !self.failed && !self.cleanup_failed);
        let unpack_only_ok = !matches!(self.phase, Phase::UnpackOnlyExit)
            || (self.workspace_exists && !self.cleanup_started);
        let cleaning_ok = !matches!(self.phase, Phase::CleaningUp) || (self.cleanup_started
            && self.workspace_exists && !self.cleanup_failed);
        let done_ok = !matches!(self.phase, Phase::Done) || (!self.workspace_exists
            && !self.failed && !self.cleanup_failed && self.cleanup_started);
        let aborted_ok = !matches!(self.phase, Phase::Aborted) || ((self.failed
            || self.cleanup_failed) && (self.cleanup_failed || !self.workspace_exists));
        idle_ok && unpacking_ok && mid_ok && unpack_only_ok && cleaning_ok && done_ok && aborted_ok
    }
}

/// The phases in which the lifecycle has ended.
pub open spec fn is_terminal(p: Phase) -> bool {
    p is UnpackOnlyExit || p is Done || p is Aborted
}

/// The whole transition relation: the machine after the event, and the action
/// handed to the driver. An event that does not belong to the current phase
/// changes nothing.
pub open spec fn spec_step(m: Lifecycle, e: LifecycleEvent) -> (Lifecycle, Option<
    LifecycleAction,
>) {
    match (m.phase, e) {
        (Phase::Idle, LifecycleEvent::Start) => (
            (Lifecycle { phase: Phase::Unpacking, ..m }),
            Some(LifecycleAction::DoUnpack),
        ),
        (Phase::Unpacking, LifecycleEvent::UnpackFinished { workspace_created, ok }) => {
            if ok && workspace_created && m.unpack_only {
                (
                    (Lifecycle { phase: Phase::UnpackOnlyExit, workspace_exists: true, ..m }),
                    Some(LifecycleAction::ReportWorkspacePath),
                )
            } else if ok && workspace_created {
                (
                    (Lifecycle { phase: Phase::Selecting, workspace_exists: true, ..m }),
                    Some(LifecycleAction::DoSelect),
                )
            } else if workspace_created {
                (
                    (Lifecycle {
                        phase: Phase::CleaningUp,
                        workspace_exists: true,
                        failed: true,
                        cleanup_started: true,
                        ..m
                    }),
                    Some(LifecycleAction::DoCleanup),
                )
            } else {
                (
                    (Lifecycle { phase: Phase::Aborted, failed: true, ..m }),
                    Some(LifecycleAction::Finish),
                )
            }
        },
        (Phase::Selecting, LifecycleEvent::SelectFinished { ok }) => {
            if ok {
                ((Lifecycle { phase: Phase::Running, ..m }), Some(LifecycleAction::DoRun))
            } else {
                (
                    (Lifecycle { phase: Phase::CleaningUp, failed: true, cleanup_started: true, ..m }),
                    Some(LifecycleAction::DoCleanup),
                )
            }
        },
        (Phase::Running, LifecycleEvent::RunFinished { ok }) => {
            if ok && m.archive_requested {
                (
                    (Lifecycle { phase: Phase::ArchivingReport, ..m }),
                    Some(LifecycleAction::DoArchive),
                )
            } else {
                (
                    (Lifecycle {
                        phase: Phase::CleaningUp,
                        failed: m.failed || !ok,
                        cleanup_started: true,
                        ..m
                    }),
                    Some(LifecycleAction::DoCleanup),
                )
            }
        },
        (Phase::ArchivingReport, LifecycleEvent::ArchiveFinished { ok }) => (
            (Lifecycle {
                phase: Phase::CleaningUp,
                failed: m.failed || !ok,
                cleanup_started: true,
                ..m
            }),
            Some(LifecycleAction::DoCleanup),
        ),
        (Phase::CleaningUp, LifecycleEvent::CleanupFinished { ok }) => {
            if ok {
                (
                    (Lifecycle {
                        phase: if m.failed {
                            Phase::Aborted
                        } else {
                            Phase::Done
                        },
                        workspace_exists: false,
                        ..m
                    }),
                    Some(LifecycleAction::Finish),
                )
            } else {
                (
                    (Lifecycle { phase: Phase::Aborted, cleanup_failed: true, ..m }),
                    Some(LifecycleAction::Finish),
                )
            }
        },
        _ => (m, None),
    }
}

/// The machine a run begins with.
pub open spec fn initial_machine(unpack_only: bool, archive_requested: bool) -> Lifecycle {
    Lifecycle {
        phase: Phase::Idle,
        unpack_only,
        archive_requested,
        workspace_exists: false,
        failed: false,
        cleanup_failed: false,
        cleanup_started: false,
    }
}

/// The machine after the whole event sequence `es`, one step per event.
pub open spec fn run_machine(m: Lifecycle, es: Seq<LifecycleEvent>) -> Lifecycle
    decreases es.len(),
{
    if es.len() == 0 {
        m
    } else {
        run_machine(spec_step(m, es[0]).0, es.subrange(1, es.len() as int))
    }
}

/// How many cleanup actions the machine hands out over the event sequence.
pub open spec fn cleanup_actions(m: Lifecycle, es: Seq<LifecycleEvent>) -> nat
    decreases es.len(),
{
    if es.len() == 0 {
        0
    } else {
        (if spec_step(m, es[0]).1 == Some(LifecycleAction::DoCleanup) {
            1nat
        } else {
            0nat
        }) + cleanup_actions(spec_step(m, es[0]).0, es.subrange(1, es.len() as int))
    }
}

/// A fresh machine for one run.
pub fn lifecycle_init(unpack_only: bool, archive_requested: bool) -> (m: Lifecycle)
    ensures
        m == initial_machine(unpack_only, archive_requested),
        m.phase is Idle,
        m.unpack_only == unpack_only,
        m.archive_requested == archive_requested,
        !m.workspace_exists,
        !m.failed,
        !m.cleanup_failed,
        !m.cleanup_started,
        inv(m),
{
    Lifecycle {
        phase: Phase::Idle,
        unpack_only,
        archive_requested,
        workspace_exists: false,
        failed: false,
        cleanup_failed: false,
        cleanup_started: false,
    }
}

/// A fresh machine configured from the command line: unpack-only per its
/// flag, archiving exactly when an encryption password is set.
pub fn lifecycle_from_config(config: &Cli) -> (m: Lifecycle)
    ensures
        m.phase is Idle,
        m.unpack_only == config.only_unpackage,
        m.archive_requested == (config.encrypt_report is Some),
        !m.workspace_exists,
        !m.failed,
        !m.cleanup_failed,
        !m.cleanup_started,
        inv(m),
{
    lifecycle_init(config.only_unpackage, config.encrypt_report.is_some())
}

/// Advance the machine by one event and hand back the next action, exactly as
/// `spec_step` says.
pub fn lifecycle_step(m: &mut Lifecycle, e: LifecycleEvent) -> (a: Option<LifecycleAction>)
    requires
        inv(*old(m)),
    ensures
        (*final(m), a) == spec_step(*old(m), e),
        inv(*final(m)),
{
    let mut action: Option<LifecycleAction> = None;
    match (m.phase, e) {
        (Phase::Idle, LifecycleEvent::Start) => {
            m.phase = Phase::Unpacking;
            action = Some(LifecycleAction::DoUnpack);
        },
        (Phase::Unpacking, LifecycleEvent::UnpackFinished { workspace_created, ok }) => {
            if ok && workspace_created && m.unpack_only {
                m.phase = Phase::UnpackOnlyExit;
                m.workspace_exists = true;
                action = Some(LifecycleAction::ReportWorkspacePath);
            } else if ok && workspace_created {
                m.phase = Phase::Selecting;
                m.workspace_exists = true;
                action = Some(LifecycleAction::DoSelect);
            } else if workspace_created {
                m.phase = Phase::CleaningUp;
                m.workspace_exists = true;
                m.failed = true;
                m.cleanup_started = true;
                action = Some(LifecycleAction::DoCleanup);
            } else {
                m.phase = Phase::Aborted;
                m.failed = true;
                action = Some(LifecycleAction::Finish);
            }
        },
        (Phase::Selecting, LifecycleEvent::SelectFinished { ok }) => {
            if ok {
                m.phase = Phase::Running;
                action = Some(LifecycleAction::DoRun);
            } else {
                m.phase = Phase::CleaningUp;
                m.failed = true;
                m.cleanup_started = true;
                action = Some(LifecycleAction::DoCleanup);
            }
        },
        (Phase::Running, LifecycleEvent::RunFinished { ok }) => {
            if ok && m.archive_requested {
                m.phase = Phase::ArchivingReport;
                action = Some(LifecycleAction::DoArchive);
            } else {
                m.phase = Phase::CleaningUp;
                m.failed = m.failed || !ok;
                m.cleanup_started = true;
                action = Some(LifecycleAction::DoCleanup);
            }
        },
        (Phase::ArchivingReport, LifecycleEvent::ArchiveFinished { ok }) => {
            m.phase = Phase::CleaningUp;
            m.failed = m.failed || !ok;
            m.cleanup_started = true;
            action = Some(LifecycleAction::DoCleanup);
        },
        (Phase::CleaningUp, LifecycleEvent::CleanupFinished { ok }) => {
            if ok {
                m.phase = if m.failed {
                    Phase::Aborted
                } else {
                    Phase::Done
                };
                m.workspace_exists = false;
            } else {
                m.phase = Phase::Aborted;
                m.cleanup_failed = true;
            }
            action = Some(LifecycleAction::Finish);
        },
        _ => {},
    }
    action
}

/// Cleanup invariant: in any reachable terminal state other than the
/// unpack-only exit, the workspace no longer exists — unless the removal
/// itself was the failing step.
pub proof fn lemma_cleanup_invariant(m: Lifecycle)
    requires
        inv(m),
        is_terminal(m.phase),
        !(m.phase is UnpackOnlyExit),
        !m.cleanup_failed,
    ensures
        !m.workspace_exists,
{
}

/// The unpack-only exit keeps the workspace and never asked for a teardown.
pub proof fn lemma_unpack_only_keeps_workspace(m: Lifecycle)
    requires
        inv(m),
        m.phase is UnpackOnlyExit,
    ensures
        m.workspace_exists,
        !m.cleanup_started,
{
}

/// Teardown happens at most once: the machine asks for cleanup only when it
/// never has before, and marks it at once.
pub proof fn lemma_single_cleanup(m: Lifecycle, e: LifecycleEvent)
    requires
        inv(m),
        spec_step(m, e).1 == Some(LifecycleAction::DoCleanup),
    ensures
        !m.cleanup_started,
        spec_step(m, e).0.cleanup_started,
{
}

/// Once a teardown was asked for, the machine remembers so forever.
pub proof fn lemma_cleanup_monotone(m: Lifecycle, e: LifecycleEvent)
    requires
        m.cleanup_started,
    ensures
        spec_step(m, e).0.cleanup_started,
{
}

/// A surfaced failure is never masked: once the machine has recorded one, a
/// later event (a cleanup outcome among them) never clears it.
pub proof fn lemma_failure_not_masked(m: Lifecycle, e: LifecycleEvent)
    requires
        m.failed,
    ensures
        spec_step(m, e).0.failed,
{
}

/// Every step preserves the machine's invariant.
pub proof fn lemma_step_preserves_inv(m: Lifecycle, e: LifecycleEvent)
    requires
        inv(m),
    ensures
        inv(spec_step(m, e).0),
{
}

/// Every run from an invariant-respecting machine ends in one.
pub proof fn lemma_run_preserves_inv(m: Lifecycle, es: Seq<LifecycleEvent>)
    requires
        inv(m),
    ensures
        inv(run_machine(m, es)),
    decreases es.len(),
{
    if es.len() > 0 {
        lemma_step_preserves_inv(m, es[0]);
        lemma_run_preserves_inv(spec_step(m, es[0]).0, es.subrange(1, es.len() as int));
    }
}

/// Cleanup invariant over whole runs: drive a fresh machine by any event
/// sequence; whenever it stands in a terminal phase other than the
/// unpack-only exit and the removal itself did not fail, the workspace no
/// longer exists.
pub proof fn lemma_trace_cleanup_invariant(
    unpack_only: bool,
    archive_requested: bool,
    es: Seq<LifecycleEvent>,
)
    ensures
        ({
            let m = run_machine(initial_machine(unpack_only, archive_requested), es);
            is_terminal(m.phase) && !(m.phase is UnpackOnlyExit) && !m.cleanup_failed
                ==> !m.workspace_exists
        }),
{
    lemma_run_preserves_inv(initial_machine(unpack_only, archive_requested), es);
}

/// Teardown happens at most once over any whole run: a machine that already
/// started cleanup never asks again, and any other asks at most once.
pub proof fn lemma_cleanup_at_most_once(m: Lifecycle, es: Seq<LifecycleEvent>)
    requires
        inv(m),
    ensures
        cleanup_actions(m, es) <= (if m.cleanup_started {
            0nat
        } else {
            1nat
        }),
    decreases es.len(),
{
    if es.len() > 0 {
        let m2 = spec_step(m, es[0]).0;
        lemma_step_preserves_inv(m, es[0]);
        lemma_cleanup_at_most_once(m2, es.subrange(1, es.len() as int));
        if spec_step(m, es[0]).1 == Some(LifecycleAction::DoCleanup) {
            lemma_single_cleanup(m, es[0]);
        } else {
            if m.cleanup_started {
                lemma_cleanup_monotone(m, es[0]);
            }
        }
    }
}

} // verus!
