//! Filesystem runtimes: host processes, Docker containers and libkrun guests.
pub mod docker;
pub mod driver;
pub mod events;
pub mod guest_image;
pub mod host;
pub mod host_laws;
pub mod identity;
pub mod identity_laws;
pub mod image;
pub mod image_laws;
pub mod libkrun;
pub mod process;
pub mod scan_laws;
