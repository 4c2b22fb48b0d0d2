//! Data-refresh engine of a desktop status board for GitLab instances: a
//! per-host cache of authenticated clients, the fetch pipelines that assemble
//! each view, and the self-refreshing load state of every widget.
pub mod cache;
pub mod components;
pub mod config;
pub mod dashboard;
pub mod fetch;
pub mod form;
pub mod model;
pub mod refresh;
pub mod state;
pub mod text;
