//! The build steps of the configuration-driven packager.
pub mod sbuild;
pub mod dir_setup;
pub mod debian;
pub mod command_builder;
pub mod language_installer;
pub mod sbuild_backend;
