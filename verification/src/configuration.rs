//! The validated launcher configuration, as handed over by the command-line
//! front end.

use vstd::prelude::*;

verus! {

/// The launcher's run configuration. Argument parsing happens outside the
/// core; the core consumes this already-validated value.
#[derive(Debug)]
pub struct Cli {
    /// Where the child's standard output is captured, if anywhere.
    pub binary_stdout_file: Option<String>,
    /// Only unpack the assets; spawn nothing and keep the workspace.
    pub only_unpackage: bool,
    /// The password for the encrypted report archive; archiving happens
    /// exactly when this is set.
    pub encrypt_report: Option<String>,
    /// Where the encrypted report archive is written.
    pub report_archive: Option<String>,
    /// Arguments forwarded verbatim to the launched program.
    pub loaded_prog_args: Vec<String>,
}

} // verus!
