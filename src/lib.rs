//! Orchestration of a rollup's supporting container stack on one host: the
//! launch descriptor of each service, the dependency-ordered startup with
//! health gates, teardown, status queries, and the decisions made around
//! the rollup deployment service.
//!
//! The orchestrator does no I/O: it is a reconciler whose every request is
//! performed by the caller against a container runtime, and whose every
//! transition is proved to follow the model in `stack`.

pub mod config;
pub mod env_file;
pub mod health;
pub mod laws;
pub mod rollup;
pub mod service;
pub mod stack;
pub mod text;
