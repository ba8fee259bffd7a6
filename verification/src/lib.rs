//! Verified core of a concurrent file-tree hashing pipeline: archive
//! classification, digest state management, output formatting, tree-walk
//! policy, and job planning. I/O, threads, and archive codecs live outside
//! the library and hand it plain values.

pub mod classify;
pub mod format;
pub mod hasher;
pub mod hex;
pub mod laws;
pub mod pipeline;
mod strutil;
pub mod walk;
