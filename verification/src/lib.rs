//! Start-up configuration for the profiler: typed reads of environment
//! values with safe defaults, log-directory resolution, the logging plan,
//! and the integration-manifest loader.

pub mod text;
pub mod flags;
pub mod level;
pub mod targets;
pub mod variables;
pub mod paths;
pub mod envvars;
pub mod logdir;
pub mod logging;
pub mod manifest;
pub mod config;
