//! Stable alternative to cargo's artifact dependencies.
//!
//! An [`ArtifactDependency`] describes a crate whose binary another build
//! needs. It is installed with `cargo install` into an install root under the
//! temporary directory, named after the dependency's settings, so that a
//! later resolution of the same dependency finds the binary there and does
//! not build it again.
//!
//! Use [`ArtifactDependencyBuilder`] to describe a dependency. The decisions
//! of a resolution are made here; looking at the file system and running
//! `cargo install` are left to the caller, who hands back what it found.

pub mod dependency;
pub mod error;
pub mod install;
pub mod install_root;
pub mod listing;
pub mod lookup;
pub mod naming;

pub use crate::dependency::{
    ArtifactDependency, ArtifactDependencyBuilder, ArtifactDependencyBuilderError, BuildProfile,
};
pub use crate::error::{Error, IoError, IoErrorKind, Result};
pub use crate::install::{install_result, ResolveAction};
pub use crate::install_root::existing_path;
pub use crate::listing::{files_in_dir, sort_texts, text_le_str, ListedEntry};
pub use crate::lookup::{
    cached_artifact, check_binary, executable_name, find_artifact, find_binary_with_name,
    find_single_binary, ArtifactLookup,
};
pub use crate::naming::{join_path_str, join_with_separator, sanitize_path_component};
