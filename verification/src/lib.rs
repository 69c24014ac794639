//! Background checkpointing of a working directory into a hidden, parallel
//! commit history, beside the project's own branches and staging area.
//!
//! - `oid`: the identities of commits and trees.
//! - `cycle`: one reconciliation cycle as a state machine of requests and
//!   answers.
//! - `model` and `guarantees`: a model of the repository, and what every
//!   cycle is proved to guarantee of it.
//! - `watcher`: the cycle driven against a repository.
//! - `summary`: the checkpoint history, walked backward and rendered.
//! - `scheduler`: when cycles run and when the loop ends.
//! - `lifecycle`: the rules of the commands around the scheduler process.
//! - `git`: the calls into the version-control engine.
//! - `error`: the kinds of failure.

pub mod cycle;
pub mod error;
pub mod git;
pub mod guarantees;
pub mod lifecycle;
pub mod model;
pub mod oid;
pub mod scheduler;
pub mod summary;
pub mod watcher;
