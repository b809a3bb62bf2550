//! Pins a dependency of a Cargo workspace to a local, editable copy: parses
//! `name[@range]` requests, picks the resolved package each one names, decides
//! where its copy goes and records a `[patch]` override in the manifest.

pub mod cli;
pub mod error;
pub mod manifest;
pub mod paths;
pub mod plan;
pub mod request;
pub mod select;
pub mod text;
pub mod version;

pub use plan::VendoredInfo;
