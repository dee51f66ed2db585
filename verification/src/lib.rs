//! Routing, configuration and worker-protocol logic for a language-runtime router.

pub mod config;
pub mod error;
pub mod exec;
pub mod fake_worker;
pub mod language;
pub mod names;
pub mod pool;
pub mod provider;
pub mod store;
pub mod text;
pub mod worker_env;
