//! Workspace provisioning and lifecycle engine.
//!
//! Creates isolated, disposable coding workspaces backed by git worktrees,
//! sourced from a local repository or a GitHub repository, and tracks them
//! in a persistent registry with strict uniqueness and single-active
//! invariants. All repository operations are delegated to an external
//! git/gh tool; the decision logic around those calls is verified here.

pub mod errors;
pub mod model;
pub mod github;
pub mod lifecycle;
pub mod provision;
pub mod ranking;
pub mod registry_json;
pub mod store;
pub mod strings;
