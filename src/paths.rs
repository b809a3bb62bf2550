//! Where a package's copy is placed.

use vstd::prelude::*;
use crate::error::VendorError;

verus! {

/// The final component of a path, as `std::path::Path::file_name` reads it.
pub uninterp spec fn file_name_of(p: Seq<char>) -> Option<Seq<char>>;

/// The directory, relative to the working directory, that receives the copies.
pub open spec fn vendor_root() -> Seq<char> {
    "vendor/"@
}

/// Relies on std::path::Path::file_name: the last normal component of the
/// path, or nothing when the path ends in `..` or is a root or empty. A
/// component is never empty and never holds the separator `/`.
#[verifier::external_body]
fn path_file_name(p: &str) -> (r: Option<String>)
    ensures
        r matches Some(s) ==> file_name_of(p@) == Some(s@),
        r matches Some(s) ==> s@.len() > 0 && !s@.contains('/'),
        r is None ==> file_name_of(p@) is None,
{
    std::path::Path::new(p).file_name().map(|n| n.to_string_lossy().into_owned())
}

/// The relative path `vendor/<name>` for a package whose source tree is at
/// `root`, where `<name>` is the last component of `root`.
pub fn vendor_dir(root: &str) -> (r: Result<String, VendorError>)
    ensures
        r is Ok <==> file_name_of(root@) is Some,
        r matches Ok(s) ==> s@ == vendor_root() + file_name_of(root@).unwrap(),
        r is Ok ==> file_name_of(root@).unwrap().len() > 0,
        r is Ok ==> !file_name_of(root@).unwrap().contains('/'),
        r matches Err(e) ==> e is InvalidPackagePath,
{
    match path_file_name(root) {
        Some(name) => {
            let mut dir = String::from_str("vendor/");
            proof {
                reveal_strlit("vendor/");
            }
            dir.append(name.as_str());
            Ok(dir)
        },
        None => Err(VendorError::InvalidPackagePath),
    }
}

} // verus!
