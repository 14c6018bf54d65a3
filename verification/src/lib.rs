//! Runtime asset-substitution core for a game process.
//!
//! The library locates functions inside a process's executable segment by
//! structural signatures (sequences of coarse instruction categories) or by
//! literal byte patterns, re-links the resident archive index tables so that a
//! shared file gains an independently redirectable entry, and decides, per
//! file load, whether and how replacement bytes are substituted into the
//! buffer the loader filled.

pub mod banner;
pub mod insn;
pub mod offsets;
pub mod pattern;
pub mod pipeline;
pub mod resolver;
pub mod substitute;
pub mod tables;
