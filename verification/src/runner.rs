//! Launch planning: how the selected executable is spawned.
//!
//! The spawn itself happens outside the core; this module fixes the working
//! directory, the report directory to create, and the capture destination,
//! from the configuration alone.

use vstd::prelude::*;

use crate::configuration::Cli;

verus! {

/// Everything the spawn needs to know: the target, its verbatim arguments,
/// the child's working directory, the report directory to create first (when
/// report encryption is configured), and where the child's standard output is
/// captured (when capture is configured).
pub struct RunPlan {
    /// The absolute path of the launch target.
    pub executable_path: String,
    /// Arguments forwarded verbatim; no shell interpretation.
    pub args: Vec<String>,
    /// The child's working directory: the workspace `report` sub-directory
    /// when report encryption is configured, else the caller's current
    /// directory.
    pub working_dir: String,
    /// The report directory to create before the spawn, exactly when report
    /// encryption is configured.
    pub report_dir: Option<String>,
    /// The file receiving the child's standard output bytes, exactly when
    /// capture is configured; resolved inside the working directory.
    pub capture_stdout_to: Option<String>,
}

/// The fixed name of the report sub-directory: the wire contract between the
/// launcher and the child program.
pub open spec fn report_dir_name() -> Seq<char> {
    "report"@
}

/// Build the launch plan for `executable_path` under `workspace_dir` from the
/// configuration.
pub fn build_run_plan(executable_path: &str, workspace_dir: &str, config: &Cli) -> (p: RunPlan)
    ensures
        p.executable_path@ == executable_path@,
        p.args.deep_view() == config.loaded_prog_args.deep_view(),
        config.encrypt_report is Some ==> p.working_dir@ == workspace_dir@ + "/"@
            + report_dir_name(),
        config.encrypt_report is None ==> p.working_dir@ == "."@,
        config.encrypt_report is Some ==> (p.report_dir matches Some(d) && d@
            == p.working_dir@),
        config.encrypt_report is None ==> p.report_dir is None,
        config.binary_stdout_file matches Some(f) ==> (p.capture_stdout_to matches Some(c) && c@
            == p.working_dir@ + "/"@ + f@),
        config.binary_stdout_file is None ==> p.capture_stdout_to is None,
{
    let working_dir: String;
    let report_dir: Option<String>;
    match &config.encrypt_report {
        Some(_) => {
            let d = crate::workspace::join_path(workspace_dir, "report");
            working_dir = d.clone();
            report_dir = Some(d);
        },
        None => {
            working_dir = String::from_str(".");
            report_dir = None;
        },
    }
    let capture_stdout_to: Option<String> = match &config.binary_stdout_file {
        Some(f) => Some(crate::workspace::join_path(working_dir.as_str(), f.as_str())),
        None => None,
    };
    let mut args: Vec<String> = Vec::new();
    let mut i: usize = 0;
    while i < config.loaded_prog_args.len()
        invariant
            i <= config.loaded_prog_args@.len(),
            args@.len() == i,
            forall|t: int| 0 <= t < i ==> args@[t]@ == config.loaded_prog_args@[t]@,
        decreases config.loaded_prog_args@.len() - i,
    {
        args.push(config.loaded_prog_args[i].clone());
        i += 1;
    }
    proof {
        assert(args.deep_view() =~= config.loaded_prog_args.deep_view());
    }
    RunPlan {
        executable_path: String::from_str(executable_path),
        args,
        working_dir,
        report_dir,
        capture_stdout_to,
    }
}

/// Where the encrypted report archive is written: the configured path, or
/// `./encrypted_report.zip` by default.
pub fn archive_destination(config: &Cli) -> (r: String)
    ensures
        config.report_archive matches Some(p) ==> r@ == p@,
        config.report_archive is None ==> r@ == "./encrypted_report.zip"@,
{
    match &config.report_archive {
        Some(p) => p.clone(),
        None => String::from_str("./encrypted_report.zip"),
    }
}

} // verus!
