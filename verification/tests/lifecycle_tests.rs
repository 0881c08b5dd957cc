use sfx_launcher::configuration::Cli;
use sfx_launcher::lifecycle::{
    lifecycle_from_config, lifecycle_init, lifecycle_step, LifecycleAction, LifecycleEvent, Phase,
};
use sfx_launcher::runner::{archive_destination, build_run_plan};

#[test]
fn plain_run_cleans_up() {
    // Scenario: no flags; unpack, select, run, clean up, done.
    let mut m = lifecycle_init(false, false);
    assert_eq!(lifecycle_step(&mut m, LifecycleEvent::Start), Some(LifecycleAction::DoUnpack));
    assert_eq!(
        lifecycle_step(&mut m, LifecycleEvent::UnpackFinished { workspace_created: true, ok: true }),
        Some(LifecycleAction::DoSelect)
    );
    assert_eq!(
        lifecycle_step(&mut m, LifecycleEvent::SelectFinished { ok: true }),
        Some(LifecycleAction::DoRun)
    );
    assert_eq!(
        lifecycle_step(&mut m, LifecycleEvent::RunFinished { ok: true }),
        Some(LifecycleAction::DoCleanup)
    );
    assert_eq!(
        lifecycle_step(&mut m, LifecycleEvent::CleanupFinished { ok: true }),
        Some(LifecycleAction::Finish)
    );
    assert_eq!(m.phase, Phase::Done);
    assert!(!m.workspace_exists);
    assert!(!m.failed);
}

#[test]
fn ambiguous_selection_still_cleans_up() {
    // Scenario: selection fails; no spawn happens, yet the workspace is
    // removed before the error is surfaced.
    let mut m = lifecycle_init(false, false);
    lifecycle_step(&mut m, LifecycleEvent::Start);
    lifecycle_step(&mut m, LifecycleEvent::UnpackFinished { workspace_created: true, ok: true });
    assert_eq!(
        lifecycle_step(&mut m, LifecycleEvent::SelectFinished { ok: false }),
        Some(LifecycleAction::DoCleanup)
    );
    assert_eq!(
        lifecycle_step(&mut m, LifecycleEvent::CleanupFinished { ok: true }),
        Some(LifecycleAction::Finish)
    );
    assert_eq!(m.phase, Phase::Aborted);
    assert!(!m.workspace_exists);
}

#[test]
fn unpack_only_keeps_workspace() {
    // Scenario: the unpack-only flag is set; the workspace is populated, its
    // path reported, nothing is spawned and nothing is deleted.
    let mut m = lifecycle_init(true, false);
    assert_eq!(lifecycle_step(&mut m, LifecycleEvent::Start), Some(LifecycleAction::DoUnpack));
    assert_eq!(
        lifecycle_step(&mut m, LifecycleEvent::UnpackFinished { workspace_created: true, ok: true }),
        Some(LifecycleAction::ReportWorkspacePath)
    );
    assert_eq!(m.phase, Phase::UnpackOnlyExit);
    assert!(m.workspace_exists);
    assert!(!m.cleanup_started);
    // The machine has ended; further events change nothing.
    assert_eq!(lifecycle_step(&mut m, LifecycleEvent::RunFinished { ok: true }), None);
    assert_eq!(m.phase, Phase::UnpackOnlyExit);
}

#[test]
fn archiving_run_cleans_up() {
    // Scenario: an encryption password is configured; the archive phase runs
    // between the child's exit and cleanup.
    let config = Cli {
        binary_stdout_file: None,
        only_unpackage: false,
        encrypt_report: Some("pw123".to_string()),
        report_archive: None,
        loaded_prog_args: Vec::new(),
    };
    let mut m = lifecycle_from_config(&config);
    assert!(m.archive_requested);
    lifecycle_step(&mut m, LifecycleEvent::Start);
    lifecycle_step(&mut m, LifecycleEvent::UnpackFinished { workspace_created: true, ok: true });
    lifecycle_step(&mut m, LifecycleEvent::SelectFinished { ok: true });
    assert_eq!(
        lifecycle_step(&mut m, LifecycleEvent::RunFinished { ok: true }),
        Some(LifecycleAction::DoArchive)
    );
    assert_eq!(
        lifecycle_step(&mut m, LifecycleEvent::ArchiveFinished { ok: true }),
        Some(LifecycleAction::DoCleanup)
    );
    assert_eq!(
        lifecycle_step(&mut m, LifecycleEvent::CleanupFinished { ok: true }),
        Some(LifecycleAction::Finish)
    );
    assert_eq!(m.phase, Phase::Done);
    assert!(!m.workspace_exists);
}

#[test]
fn failed_unpack_without_workspace_aborts_directly() {
    let mut m = lifecycle_init(false, false);
    lifecycle_step(&mut m, LifecycleEvent::Start);
    assert_eq!(
        lifecycle_step(&mut m, LifecycleEvent::UnpackFinished { workspace_created: false, ok: false }),
        Some(LifecycleAction::Finish)
    );
    assert_eq!(m.phase, Phase::Aborted);
    assert!(!m.workspace_exists);
}

#[test]
fn partially_populated_workspace_is_cleaned() {
    let mut m = lifecycle_init(false, false);
    lifecycle_step(&mut m, LifecycleEvent::Start);
    assert_eq!(
        lifecycle_step(&mut m, LifecycleEvent::UnpackFinished { workspace_created: true, ok: false }),
        Some(LifecycleAction::DoCleanup)
    );
    assert_eq!(
        lifecycle_step(&mut m, LifecycleEvent::CleanupFinished { ok: true }),
        Some(LifecycleAction::Finish)
    );
    assert_eq!(m.phase, Phase::Aborted);
    assert!(!m.workspace_exists);
}

#[test]
fn failed_run_still_cleans_up() {
    let mut m = lifecycle_init(false, true);
    lifecycle_step(&mut m, LifecycleEvent::Start);
    lifecycle_step(&mut m, LifecycleEvent::UnpackFinished { workspace_created: true, ok: true });
    lifecycle_step(&mut m, LifecycleEvent::SelectFinished { ok: true });
    // A failed run skips archiving and goes straight to cleanup.
    assert_eq!(
        lifecycle_step(&mut m, LifecycleEvent::RunFinished { ok: false }),
        Some(LifecycleAction::DoCleanup)
    );
    lifecycle_step(&mut m, LifecycleEvent::CleanupFinished { ok: true });
    assert_eq!(m.phase, Phase::Aborted);
    assert!(!m.workspace_exists);
}

#[test]
fn failed_cleanup_is_reported() {
    let mut m = lifecycle_init(false, false);
    lifecycle_step(&mut m, LifecycleEvent::Start);
    lifecycle_step(&mut m, LifecycleEvent::UnpackFinished { workspace_created: true, ok: true });
    lifecycle_step(&mut m, LifecycleEvent::SelectFinished { ok: true });
    lifecycle_step(&mut m, LifecycleEvent::RunFinished { ok: true });
    lifecycle_step(&mut m, LifecycleEvent::CleanupFinished { ok: false });
    assert_eq!(m.phase, Phase::Aborted);
    assert!(m.cleanup_failed);
    assert!(m.workspace_exists);
}

#[test]
fn run_plan_without_report() {
    let config = Cli {
        binary_stdout_file: None,
        only_unpackage: false,
        encrypt_report: None,
        report_archive: None,
        loaded_prog_args: vec!["--fast".to_string(), "in.dat".to_string()],
    };
    let p = build_run_plan("/tmp/ws/master.elf", "/tmp/ws", &config);
    assert_eq!(p.executable_path, "/tmp/ws/master.elf");
    assert_eq!(p.args, vec!["--fast".to_string(), "in.dat".to_string()]);
    assert_eq!(p.working_dir, ".");
    assert_eq!(p.report_dir, None);
    assert_eq!(p.capture_stdout_to, None);
}

#[test]
fn run_plan_with_report_and_capture() {
    let config = Cli {
        binary_stdout_file: Some("stdout.log".to_string()),
        only_unpackage: false,
        encrypt_report: Some("pw123".to_string()),
        report_archive: Some("/out/report.zip".to_string()),
        loaded_prog_args: Vec::new(),
    };
    let p = build_run_plan("/tmp/ws/master.elf", "/tmp/ws", &config);
    assert_eq!(p.working_dir, "/tmp/ws/report");
    assert_eq!(p.report_dir, Some("/tmp/ws/report".to_string()));
    assert_eq!(p.capture_stdout_to, Some("/tmp/ws/report/stdout.log".to_string()));
    assert_eq!(archive_destination(&config), "/out/report.zip");
}

#[test]
fn archive_destination_default() {
    let config = Cli {
        binary_stdout_file: None,
        only_unpackage: false,
        encrypt_report: Some("pw123".to_string()),
        report_archive: None,
        loaded_prog_args: Vec::new(),
    };
    assert_eq!(archive_destination(&config), "./encrypted_report.zip");
}
