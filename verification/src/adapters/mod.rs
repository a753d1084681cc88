//! What the library decides about the outside programs it drives: Git's
//! output, bounded capture of process pipes, the Codex invocation and the
//! supervision of a child process.

pub mod capture;
pub mod codex;
pub mod git;
pub mod process;

pub use capture::CapturedBytes;
pub use codex::{codex_args_for, ResponseSource};
pub use git::{CommandOutput, GitError, LimitedOutput};
pub use process::Supervision;
