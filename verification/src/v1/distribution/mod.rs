//! Distribution packagers.
pub mod debian;
