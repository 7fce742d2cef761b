//! Decides, for one run of a build script, how a native library is made
//! available to the build: compiled from vendored source, found through
//! pkg-config, or found through vcpkg.
//!
//! The package declares its options in the `buildkit` table of its manifest
//! metadata:
//!
//! ```toml
//! [package.metadata.buildkit]
//! default-mode = "pkg-config"
//!
//! [package.metadata.buildkit.pkg-config]
//! name = "libgit2"
//! version-req = { min = "1.4", max = "1.8" }
//! ```
//!
//! Nothing here reads the environment, runs a tool or prints: the embedding
//! build script hands in what it read and carries out what is handed back.

pub mod buildkit;
pub mod context;
pub mod decode;
pub mod document;
pub mod error;
pub mod laws;
pub mod manifest;
pub mod metadata;
pub mod path;
pub mod probe;
pub mod signal;
pub mod text;

pub use buildkit::{BuildKit, NextStep};
pub use context::VendoredBuildContext;
pub use error::{Error, ErrorKind};
