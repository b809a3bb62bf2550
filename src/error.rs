//! The ways a vendoring run can fail.

use vstd::prelude::*;

verus! {

/// Every failure is fatal to the whole run.
#[derive(Debug)]
pub enum VendorError {
    /// No Cargo manifest above the starting directory.
    NotFound,
    /// A file-system operation failed.
    IoError,
    /// The dependency graph could not be resolved.
    ResolutionError,
    /// No resolved package matched the request.
    PackageNotFound { name: String },
    /// A package's source root has no final path component.
    InvalidPackagePath,
    /// A version range (or version) did not parse.
    MalformedRequest,
    /// The manifest is not valid TOML.
    ManifestParse,
}

} // verus!
