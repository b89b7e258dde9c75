//! Deployment automation for a catalog of services: keeps a local clone of a
//! service's repository synchronized with its remote (clone, fetch,
//! fast-forward reconciliation, branch selection, checkout), synthesizes a
//! container-orchestration manifest for the chosen service, and plans the
//! build/start/stop/restart lifecycle commands that drive that manifest.

pub mod config;
pub mod deploy;
pub mod errors;
pub mod git_ext;
pub mod lifecycle;
pub mod manifest;
pub mod reconcile;
pub mod repo;
