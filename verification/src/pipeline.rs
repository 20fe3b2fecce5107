//! The full pull stage: authenticate, fetch the manifest, download the first
//! layer's blob, and unpack it into the sandbox root, strictly in that order
//! and with no retries.

use vstd::prelude::*;
use crate::error::PipelineError;
use crate::error::spec_names_image;
use crate::extract::extract;
use crate::registry::{authenticate, fetch_layer, fetch_manifest, select_first_layer, AuthToken};

verus! {

/// What a completed pull did: the token it authenticated with, the layer
/// digests the manifest listed, and the digest of the one layer — the first —
/// that was downloaded and unpacked.
pub struct PullReport {
    pub token: AuthToken,
    pub layers: Vec<String>,
    pub digest: String,
}

/// Pulls `image` into the directory `root`: requests an anonymous pull
/// token, fetches the manifest with it, downloads exactly the first layer's
/// blob, and unpacks it under `root`.
///
/// On success the report shows a non-empty token, a manifest with at least
/// one layer, and that the digest materialized is exactly the first layer's.
/// On failure the error names the stage that failed — authentication,
/// manifest, blob, or extraction — and its detail names the image; the first
/// failure is returned at once, with no retry and no later stage attempted.
pub fn pull_image(image: &str, root: &str) -> (r: Result<PullReport, PipelineError>)
    ensures
        r matches Ok(report) ==> {
            &&& report.token.secret@.len() > 0
            &&& report.layers@.len() >= 1
            &&& report.digest@ == report.layers@[0]@
        },
        r matches Err(e) ==> (e is Auth || e is Manifest || e is Blob || e is Extraction)
            && spec_names_image(e, image@),
{
    let token = match authenticate(image) {
        Ok(token) => token,
        Err(e) => {
            return Err(e);
        },
    };
    let manifest = match fetch_manifest(image, &token) {
        Ok(manifest) => manifest,
        Err(e) => {
            return Err(e);
        },
    };
    let digest = match select_first_layer(&manifest) {
        Ok(digest) => digest,
        Err(e) => {
            return Err(e.with_image_context(image));
        },
    };
    let blob = match fetch_layer(image, digest.as_str(), &token) {
        Ok(blob) => blob,
        Err(e) => {
            return Err(e);
        },
    };
    match extract(&blob, root) {
        Ok(()) => Ok(PullReport { token, layers: manifest.layers, digest }),
        Err(e) => Err(e.with_image_context(image)),
    }
}

} // verus!
