use vstd::prelude::*;

verus! {

/// Everything the synchronizer is told about the two repositories it keeps.
///
/// The value is supplied by the caller and only ever read.
#[derive(Debug)]
pub struct Config {
    /// Directory under which both working copies live.
    pub working_directory: String,
    /// Port of the webhook listener; carried along, never interpreted here.
    pub webhook_listen_port: u16,
    pub github: Github,
    pub parent: Parent,
    pub child: Child,
}

/// The remote host that serves both repositories.
#[derive(Debug)]
pub struct Github {
    pub domain: String,
    pub owner: String,
    /// Carried along; fetches authenticate with an SSH key instead.
    pub user_access_token: String,
}

/// The outer repository, which embeds the child as a submodule.
#[derive(Debug)]
pub struct Parent {
    pub name: String,
    pub dev_branch: String,
    /// Path inside the parent's working tree at which the child is mounted.
    pub child_path: String,
    pub current_integration_branch: String,
}

/// The inner repository, tracked standalone and as the parent's submodule.
#[derive(Debug)]
pub struct Child {
    pub name: String,
    pub dev_branch: String,
    pub integration_branch: String,
    pub current_integration_branch: String,
}

} // verus!
