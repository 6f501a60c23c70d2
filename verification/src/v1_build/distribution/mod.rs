//! Distribution packagers.
pub mod debian;
pub mod packager;
