//! Versions and version ranges, parsed and compared by `semver`.
//!
//! Each value keeps the text it was parsed from, which is its view; what
//! `semver` decides about that text is named by the spec functions below.

use vstd::prelude::*;
use crate::error::VendorError;

verus! {

#[verifier::external_type_specification]
#[verifier::external_body]
pub struct ExVersionReq(semver::VersionReq);

#[verifier::external_type_specification]
#[verifier::external_body]
pub struct ExVersion(semver::Version);

#[verifier::external_type_specification]
#[verifier::external_body]
pub struct ExSemverError(semver::Error);

/// Whether `semver` accepts the text as a version requirement.
pub uninterp spec fn range_parses(text: Seq<char>) -> bool;

/// Whether `semver` accepts the text as a concrete version.
pub uninterp spec fn version_parses(text: Seq<char>) -> bool;

/// Whether the requirement written `range` admits the version written `version`.
pub uninterp spec fn range_admits(range: Seq<char>, version: Seq<char>) -> bool;

/// The canonical form in which `semver` prints the requirement written `range`.
pub uninterp spec fn range_display(range: Seq<char>) -> Seq<char>;

/// A version requirement such as `^1.2`, with the text it was read from.
pub struct VersionRange {
    text: String,
    req: semver::VersionReq,
}

/// A concrete version such as `1.2.3`, with the text it was read from.
pub struct PackageVersion {
    text: String,
    parsed: semver::Version,
}

impl View for VersionRange {
    type V = Seq<char>;

    closed spec fn view(&self) -> Seq<char> {
        self.text@
    }
}

impl View for PackageVersion {
    type V = Seq<char>;

    closed spec fn view(&self) -> Seq<char> {
        self.text@
    }
}

/// Relies on semver::VersionReq::parse, which accepts or rejects by the text
/// alone; the value keeps the text it came from.
#[verifier::external_body]
fn parse_req(text: &str) -> (r: Result<VersionRange, semver::Error>)
    ensures
        r is Ok <==> range_parses(text@),
        r matches Ok(v) ==> v@ == text@,
{
    match semver::VersionReq::parse(text) {
        Ok(req) => Ok(VersionRange { text: text.to_string(), req }),
        Err(e) => Err(e),
    }
}

/// Relies on semver::Version::parse, which accepts or rejects by the text
/// alone; the value keeps the text it came from.
#[verifier::external_body]
fn parse_version(text: &str) -> (r: Result<PackageVersion, semver::Error>)
    ensures
        r is Ok <==> version_parses(text@),
        r matches Ok(v) ==> v@ == text@,
{
    match semver::Version::parse(text) {
        Ok(parsed) => Ok(PackageVersion { text: text.to_string(), parsed }),
        Err(e) => Err(e),
    }
}

/// Relies on semver::VersionReq::matches, whose answer depends on the two
/// parsed values alone.
#[verifier::external_body]
fn req_matches(range: &VersionRange, version: &PackageVersion) -> (r: bool)
    ensures
        r == range_admits(range@, version@),
{
    range.req.matches(&version.parsed)
}

/// Relies on the `Display` impl of semver::VersionReq, which prints the
/// comparators in a canonical form.
#[verifier::external_body]
fn req_to_string(range: &VersionRange) -> (r: String)
    ensures
        r@ == range_display(range@),
{
    range.req.to_string()
}

impl VersionRange {
    /// Reads a version requirement; malformed text is a `MalformedRequest`.
    pub fn parse(text: &str) -> (r: Result<VersionRange, VendorError>)
        ensures
            r is Ok <==> range_parses(text@),
            r matches Ok(v) ==> v@ == text@,
            r matches Err(e) ==> e is MalformedRequest,
    {
        match parse_req(text) {
            Ok(v) => Ok(v),
            Err(_) => Err(VendorError::MalformedRequest),
        }
    }

    /// Whether `version` satisfies this requirement.
    pub fn matches(&self, version: &PackageVersion) -> (r: bool)
        ensures
            r == range_admits(self@, version@),
    {
        req_matches(self, version)
    }

    /// The requirement in canonical form, as it is written into the manifest.
    pub fn canonical(&self) -> (r: String)
        ensures
            r@ == range_display(self@),
    {
        req_to_string(self)
    }
}

impl PackageVersion {
    /// Reads a concrete version; malformed text is a `MalformedRequest`.
    pub fn parse(text: &str) -> (r: Result<PackageVersion, VendorError>)
        ensures
            r is Ok <==> version_parses(text@),
            r matches Ok(v) ==> v@ == text@,
            r matches Err(e) ==> e is MalformedRequest,
    {
        match parse_version(text) {
            Ok(v) => Ok(v),
            Err(_) => Err(VendorError::MalformedRequest),
        }
    }
}

} // verus!
