//! Branch label and working-copy status for a shell prompt.
//!
//! The crate reduces the per-path change flags of a git repository to one
//! [`branch_status::BranchStatus`] and resolves the label that names the
//! current position of the repository.

pub mod branch_status;
pub mod prompt;
pub mod repository_ext;
pub mod status_entry_ext;
