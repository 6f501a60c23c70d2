//! Debian packagers.
pub mod bookworm;
pub mod bookworm_config_builder;
