//! Child processes and mounted filesystems.

pub mod mounts;
pub mod process;
