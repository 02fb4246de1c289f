//! Keeps two related working copies in step: a parent repository and a child
//! repository that the parent also embeds as a submodule.
//!
//! [`working_directory::WorkingDirectory`] makes sure both are present under
//! one directory, opening what is on disk and cloning what is not, and finds
//! the child's entry in the parent's submodule table. Calls into git go
//! through the declarations in [`git`], which the verifier believes without
//! proof; every decision taken on what git answers is verified.

pub mod config;
pub mod failure;
pub mod git;
pub mod layout;
pub mod submodule;
pub mod working_directory;
