//! pkg-builder: building Debian packages of upstream software in clean
//! chroots, checking them with lintian, piuparts and autopkgtest, and
//! updating them to new upstream versions.
pub mod config;
pub mod paths;
pub mod text;
pub mod tool;
pub mod update;
pub mod v1;
pub mod v1_build;
