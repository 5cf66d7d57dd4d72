//! File filtering helpers.
//!
//! This module contains predicates used during file collection to
//! identify candidate YARA files and exclude unsupported file types.

use vstd::prelude::*;

use crate::text::str_eq;

verus! {

/// The extension of a path, as `Path::extension` gives it.
pub uninterp spec fn spec_path_extension(path: Seq<char>) -> Option<Seq<char>>;

/// Calls `Path::extension` on `path`: the part of the path's file name
/// after its last `.`, if the file name has a `.` that is not its first
/// character. The contract names the result; how std splits a path into
/// components is not stated.
#[verifier::external_body]
fn path_extension(path: &str) -> (r: Option<String>)
    ensures
        match r {
            Some(e) => spec_path_extension(path@) == Some(e@),
            None => spec_path_extension(path@) is None,
        },
{
    std::path::Path::new(path).extension().and_then(|ext| ext.to_str()).map(|ext| ext.to_string())
}

/// Whether an extension is one of YARA's: `yar` or `yara`.
pub open spec fn spec_is_yara_extension(ext: Option<Seq<char>>) -> bool {
    ext == Some("yar"@) || ext == Some("yara"@)
}

/// Whether an extension is one of YARA's: `yar` or `yara`.
pub fn is_yara_extension(ext: Option<&str>) -> (b: bool)
    ensures
        b == spec_is_yara_extension(
            match ext {
                Some(e) => Some(e@),
                None => None,
            },
        ),
{
    match ext {
        Some(e) => str_eq(e, "yar") || str_eq(e, "yara"),
        None => false,
    }
}

/// Determines whether a path has a supported YARA file extension.
///
/// Currently, files ending in `.yar` or `.yara` are considered valid
/// YARA rule files.
pub fn is_yara_file(path: &str) -> (b: bool)
    ensures
        b == spec_is_yara_extension(spec_path_extension(path@)),
{
    match path_extension(path) {
        Some(ext) => is_yara_extension(Some(ext.as_str())),
        None => is_yara_extension(None),
    }
}

} // verus!
