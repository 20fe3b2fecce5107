//! Materializing a layer blob as a directory tree.

use vstd::prelude::*;
use crate::error::PipelineError;

verus! {

/// Relies on flate2's `GzDecoder` and tar's `Archive::unpack`: interprets
/// `blob` as a gzip-compressed tar archive and unpacks its entries (files,
/// directories, symlinks, permission bits) under `dest`, creating
/// intermediate directories as needed. The outcome also depends on the
/// filesystem, so only the failure shape is stated.
#[verifier::external_body]
fn unpack_gzip_tar(blob: &Vec<u8>, dest: &str) -> (r: Result<(), String>) {
    let decoder = flate2::read::GzDecoder::new(&blob[..]);
    let mut archive = tar::Archive::new(decoder);
    archive.unpack(dest).map_err(|e| e.to_string())
}

/// Unpacks `blob`, a gzip-compressed tar archive, into `dest`, preserving
/// each entry's path, contents and permission bits.
///
/// Every failure — bytes that are not valid gzip, a malformed archive, or a
/// write that the filesystem refuses — surfaces as an extraction error;
/// nothing is reported as success past a failure point.
pub fn extract(blob: &Vec<u8>, dest: &str) -> (r: Result<(), PipelineError>)
    ensures
        r matches Err(e) ==> e is Extraction,
{
    match unpack_gzip_tar(blob, dest) {
        Ok(()) => Ok(()),
        Err(detail) => Err(PipelineError::Extraction(detail)),
    }
}

} // verus!
