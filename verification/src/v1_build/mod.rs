//! The earlier, builder-based packager.
pub mod distribution;
pub mod package_build;
pub mod prepare_build;
pub mod sbuild;
