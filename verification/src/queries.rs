//! The two auxiliary queries: the application version constant and the
//! file-size metadata lookup.
//!
//! The filesystem read itself is done by the embedding application, which
//! hands in either the byte size the OS reported or the OS error text;
//! shaping that into the query's result is decided here.

use vstd::prelude::*;
use vstd::string::*;

verus! {

/// The application's fixed version string.
pub open spec fn app_version() -> Seq<char> {
    "1.0.0"@
}

/// Returns the fixed version string. The operation is fallible only for
/// uniformity with the other operations: it always succeeds, with the
/// same constant on every call.
pub fn get_app_version() -> (r: Result<String, String>)
    ensures
        crate::probe::report_view(r) == Ok::<Seq<char>, Seq<char>>(app_version()),
{
    Ok(String::from_str("1.0.0"))
}

/// Any two version reports are the same string: the version query is a
/// constant, so every call within one build returns the identical value.
pub proof fn lemma_app_version_constant(r1: Result<String, String>, r2: Result<String, String>)
    requires
        crate::probe::report_view(r1) == Ok::<Seq<char>, Seq<char>>(app_version()),
        crate::probe::report_view(r2) == Ok::<Seq<char>, Seq<char>>(app_version()),
    ensures
        r1 is Ok && r2 is Ok,
        r1->Ok_0@ == r2->Ok_0@,
{
}

/// File metadata as this supervisor reports it: just the byte size.
#[derive(Clone, Copy, Debug, PartialEq, Eq, Structural)]
pub struct FileMetadata {
    pub size: u64,
}

/// Mathematical image of what the OS reported for the path: the byte size,
/// or the OS error text.
pub open spec fn os_size_view(q: Result<u64, String>) -> Result<u64, Seq<char>> {
    match q {
        Ok(size) => Ok(size),
        Err(detail) => Err(detail@),
    }
}

pub open spec fn metadata_error_message(path: Seq<char>, detail: Seq<char>) -> Seq<char> {
    "Failed to read metadata for "@ + path + ": "@ + detail
}

/// Mathematical image of a metadata report.
pub open spec fn metadata_view(r: Result<FileMetadata, String>) -> Result<u64, Seq<char>> {
    match r {
        Ok(m) => Ok(m.size),
        Err(e) => Err(e@),
    }
}

/// What the metadata query owes: the exact byte size the OS reported when
/// the read succeeded, and a descriptive failure naming the path when it
/// did not — never a made-up or zero-value success.
pub open spec fn spec_file_metadata(path: Seq<char>, queried: Result<u64, Seq<char>>) -> Result<
    u64,
    Seq<char>,
> {
    match queried {
        Ok(size) => Ok(size),
        Err(detail) => Err(metadata_error_message(path, detail)),
    }
}

/// Shapes the OS metadata answer for `path` into the query's result,
/// exactly as `spec_file_metadata` describes it. Succeeds if and only if
/// the OS read did.
pub fn get_file_metadata(path: &str, queried: Result<u64, String>) -> (r: Result<
    FileMetadata,
    String,
>)
    ensures
        metadata_view(r) == spec_file_metadata(path@, os_size_view(queried)),
        r is Ok <==> queried is Ok,
        r matches Ok(m) ==> queried matches Ok(size) && m.size == size,
{
    match queried {
        Ok(size) => Ok(FileMetadata { size }),
        Err(detail) => {
            let mut m = String::from_str("Failed to read metadata for ");
            m.append(path);
            m.append(": ");
            m.append(detail.as_str());
            Err(m)
        },
    }
}

} // verus!
