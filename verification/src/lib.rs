//! Verified core of a broken-symlink checker.
//!
//! The library holds the logic that decides whether a filesystem path is a
//! valid symbolic link, the path arithmetic used to resolve a link target
//! against the link's parent directory, and the reduction of many per-path
//! outcomes to a single process exit status.  All filesystem access stays
//! outside the library: callers probe the filesystem and feed the answers in
//! as plain values.

pub mod checker;
pub mod diag;
pub mod outcome;
pub mod pathops;
pub mod source;
