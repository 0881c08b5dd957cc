//! The error kinds that the launcher lifecycle can surface.

use vstd::prelude::*;

verus! {

/// Every failure the launcher core can report. Each phase of the lifecycle
/// produces a distinct kind, so a caller always learns which phase failed.
#[derive(Clone, Copy, Debug, PartialEq, Eq, Structural)]
pub enum LauncherError {
    /// The workspace directory could not be created.
    WorkspaceCreationFailed,
    /// Writing an asset into the workspace failed.
    WorkspacePopulationFailed,
    /// No unpacked file name carries an executable suffix.
    NoExecutableFound,
    /// Several candidates carry an executable suffix and none is
    /// distinguished by the `master` name prefix.
    AmbiguousExecutable,
    /// The selected executable could not be spawned.
    SpawnFailed,
    /// Redirecting the child's standard output into the capture file failed.
    ChildIOFailed,
    /// The archive source path is not a directory.
    InvalidArchiveSource,
    /// Writing the encrypted archive failed.
    ArchiveWriteFailed,
    /// Removing the workspace directory failed.
    CleanupFailed,
}

impl LauncherError {
    /// The diagnostic text for this error kind.
    pub fn message(&self) -> (r: String)
        ensures
            *self is NoExecutableFound ==> r@ == "no executable file found"@,
            *self is AmbiguousExecutable ==> r@
                == "only one executable file is allowed; use a master prefix or unpack-only mode"@,
            *self is InvalidArchiveSource ==> r@ == "source is not a directory"@,
            *self is WorkspaceCreationFailed ==> r@ == "could not create workspace directory"@,
            *self is WorkspacePopulationFailed ==> r@ == "could not write an asset into the workspace"@,
            *self is SpawnFailed ==> r@ == "could not spawn the selected executable"@,
            *self is ChildIOFailed ==> r@ == "could not capture the child's standard output"@,
            *self is ArchiveWriteFailed ==> r@ == "could not write the encrypted archive"@,
            *self is CleanupFailed ==> r@ == "could not remove the workspace directory"@,
    {
        match self {
            LauncherError::WorkspaceCreationFailed => String::from_str(
                "could not create workspace directory",
            ),
            LauncherError::WorkspacePopulationFailed => String::from_str(
                "could not write an asset into the workspace",
            ),
            LauncherError::NoExecutableFound => String::from_str("no executable file found"),
            LauncherError::AmbiguousExecutable => String::from_str(
                "only one executable file is allowed; use a master prefix or unpack-only mode",
            ),
            LauncherError::SpawnFailed => String::from_str(
                "could not spawn the selected executable",
            ),
            LauncherError::ChildIOFailed => String::from_str(
                "could not capture the child's standard output",
            ),
            LauncherError::InvalidArchiveSource => String::from_str("source is not a directory"),
            LauncherError::ArchiveWriteFailed => String::from_str(
                "could not write the encrypted archive",
            ),
            LauncherError::CleanupFailed => String::from_str(
                "could not remove the workspace directory",
            ),
        }
    }
}

} // verus!
