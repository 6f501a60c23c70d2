//! Debian packagers.
pub mod bookworm;
