//! The configuration-driven packager: configuration, build steps and tools.
pub mod pkg_config;
pub mod build;
pub mod cli_config;
pub mod distribution;
pub mod packager;
pub mod args;
