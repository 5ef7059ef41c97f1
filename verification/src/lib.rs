//! Derivation of canonical version identifiers for a project from its git
//! history, the CI event context, and optional package manifests.
//!
//! The core is a pure evaluation engine: given the output of a few git
//! queries, a handful of environment signals and the manifest-declared
//! versions, it computes a complete, internally consistent set of named
//! version fields, including mismatch diagnostics.  Gathering those raw
//! facts (running git, reading files, reading the process environment) is
//! left to the caller; everything in this crate works on plain values.

pub mod describe;
pub mod error;
pub mod info;
pub mod python;
pub mod rust;
pub mod strutil;

pub use error::ManifestError;
pub use info::GitFacts;
pub use info::Info;
pub use info::bool2str;
