//! Shared plumbing for a family of agent command-line tools: the exit-code
//! table, the `--format json|text` value, the response envelope and error
//! reports, and the decisions behind repository-root resolution.
//!
//! The file system, the environment and printing are not done here; the
//! functions of this crate take what those report as plain values.

pub mod exit;
pub mod format;
pub mod output;
pub mod repo;

pub use exit::ExitCode;
pub use format::Format;
pub use output::{Envelope, ErrorEntry};
pub use repo::{RepoError, REPO_ENV};
