//! A self-extracting launcher core: unpack embedded assets into a fresh
//! workspace directory, select the single executable to run, decide how the
//! child process is launched, archive its report directory into an encrypted
//! container, and tear the workspace down on every exit path except the
//! explicit unpack-only mode.

pub mod archive;
pub mod configuration;
pub mod errors;
pub mod lifecycle;
pub mod runner;
pub mod selector;
pub mod workspace;
