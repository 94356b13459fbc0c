//! Capability-mediated access from a sandboxed guest to host files,
//! directories and standard streams: rights, descriptor entries, the
//! descriptor table, directory listings and the environment around them.
pub mod builder;
pub mod entry;
pub mod error;
pub mod environ;
pub mod file;
pub mod object;
pub mod readdir;
pub mod rights;
pub mod string_array;
pub mod table;
