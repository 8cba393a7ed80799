//! Errors returned while resolving an artifact path.

use vstd::prelude::*;

use cargo_install::CargoInstallError;

verus! {

/// The error type of `cargo_install`, carried through unchanged.
#[verifier::external_type_specification]
#[verifier::external_body]
pub struct ExCargoInstallError(CargoInstallError);

/// The kind of a failed file-system operation, as far as resolution tells
/// kinds apart.
#[derive(Clone, Copy, Debug, PartialEq, Eq)]
pub enum IoErrorKind {
    /// The file or directory did not exist.
    NotFound,
    /// Any other failure.
    Other,
}

/// A failed file-system operation: its kind and its message.
#[derive(Clone, Debug, PartialEq, Eq)]
pub struct IoError {
    pub kind: IoErrorKind,
    pub message: String,
}

/// Errors returned while resolving an artifact path.
#[derive(Debug)]
pub enum Error {
    /// Local filesystem or process I/O failed.
    Io(IoError),
    /// Resolution failed while building or obtaining the artifact.
    CargoInstallFailed(CargoInstallError),
    /// More than one binary was available and no `bin_name` was provided.
    AmbiguousInstalledBinaries,
    /// No binary artifacts were found.
    NoInstalledBinaries { dir: String },
    /// The expected binary path was not present.
    InvalidArtifactPath { path: String },
}

/// Convenience result type for this crate.
pub type Result<T> = std::result::Result<T, Error>;

} // verus!
