//! Tools for working with LÖVE runtimes and LÖVE projects: which runtime a
//! project asks for, where a runtime is found, and how one is installed.

pub mod binary;
pub mod error;
pub mod package;
pub mod pattern;
pub mod platform;
pub mod project;
pub mod settings;
pub mod text;
pub mod version;
