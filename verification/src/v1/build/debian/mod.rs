//! Builders for the arguments of the Debian packaging tools.
pub mod lintian;
pub mod sbuild_create_chroot;
pub mod sbuild;
pub mod autopkg;
pub mod piuparts;
pub mod autopkg_image;
