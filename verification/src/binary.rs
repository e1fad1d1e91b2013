//! Runtime binaries: the index of releases, the installer and the binary
//! that is run.

pub mod binary;
pub mod cache;
pub mod index;
pub mod install;
pub mod lookup;
pub mod plain;
pub mod refresh;
pub mod repo;
