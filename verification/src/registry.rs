//! Anonymous registry access: token authentication, manifest retrieval, and
//! layer blob retrieval, all one-shot and without retries.

use vstd::prelude::*;
use crate::error::PipelineError;
use crate::error::spec_names_image;

verus! {

/// An opaque pull-scoped bearer token, held only in memory.
pub struct AuthToken {
    pub secret: String,
}

/// The part of an image manifest this pipeline consumes: the content digests
/// of its layers, bottom-to-top in the order the registry published them.
pub struct Manifest {
    pub layers: Vec<String>,
}

/// What serde_json finds at the field named `field` of `body` parsed as a
/// JSON object: the field's string value, or nothing when the bytes are not
/// JSON, the field is absent, or it is not a string.
pub uninterp spec fn spec_string_field(body: Seq<u8>, field: Seq<char>) -> Option<Seq<char>>;

/// What serde_json finds under the array field named `list` of `body` parsed
/// as a JSON object: for each array element the string value of its field
/// named `item`, in array order, or nothing when the bytes are not a JSON
/// object with such an array or some element lacks such a string field.
pub uninterp spec fn spec_string_field_list(
    body: Seq<u8>,
    list: Seq<char>,
    item: Seq<char>,
) -> Option<Seq<Seq<char>>>;

/// The `token` string field of an authentication response body.
pub open spec fn spec_token_field(body: Seq<u8>) -> Option<Seq<char>> {
    spec_string_field(body, "token"@)
}

/// The `digest` of each element of the `layers` array of a manifest body, in
/// manifest order.
pub open spec fn spec_layer_digests(body: Seq<u8>) -> Option<Seq<Seq<char>>> {
    spec_string_field_list(body, "layers"@, "digest"@)
}

/// Relies on serde_json (`from_slice`, `Value::get`, `Value::as_str`): parses
/// `body` as JSON and projects out the string field named `field`. The
/// result is a function of the arguments alone.
#[verifier::external_body]
fn read_string_field(body: &Vec<u8>, field: &str) -> (r: Option<String>)
    ensures
        match r {
            Some(t) => spec_string_field(body@, field@) == Some(t@),
            None => spec_string_field(body@, field@) is None,
        },
{
    let value: serde_json::Value = serde_json::from_slice(body).ok()?;
    Some(value.get(field)?.as_str()?.to_string())
}

/// Relies on serde_json (`from_slice`, `Value::get`, `Value::as_array`,
/// `Value::as_str`): parses `body` as JSON and projects each element of its
/// array field named `list` to that element's string field named `item`, in
/// array order. The result is a function of the arguments alone.
#[verifier::external_body]
fn read_string_field_list(body: &Vec<u8>, list: &str, item: &str) -> (r: Option<Vec<String>>)
    ensures
        match r {
            Some(ds) => spec_string_field_list(body@, list@, item@) matches Some(sds)
                && sds.len() == ds@.len() && (forall|i: int|
                0 <= i < ds@.len() ==> sds[i] == ds@[i]@),
            None => spec_string_field_list(body@, list@, item@) is None,
        },
{
    let value: serde_json::Value = serde_json::from_slice(body).ok()?;
    value.get(list)?.as_array()?.iter().map(
        |elem| elem.get(item).and_then(|d| d.as_str()).map(|s| s.to_string()),
    ).collect()
}

/// Relies on reqwest's blocking client: one GET of `url` with no headers,
/// returning the response body bytes. The client is built with
/// `Client::builder`, so an initialization failure surfaces as an error
/// instead of a panic. The outcome depends on the network, so nothing is
/// promised of it.
#[verifier::external_body]
fn http_get(url: &str) -> (r: Result<Vec<u8>, String>) {
    let client = match reqwest::blocking::Client::builder().build() {
        Ok(client) => client,
        Err(e) => return Err(e.to_string()),
    };
    match client.get(url).send().and_then(|resp| resp.bytes()) {
        Ok(bytes) => Ok(bytes.to_vec()),
        Err(e) => Err(e.to_string()),
    }
}

/// Relies on reqwest's blocking client: one GET of `url` with `Authorization:
/// Bearer <token>` and `Accept: <accept>` headers, returning the response
/// body bytes. The client is built with `Client::builder`, so an
/// initialization failure surfaces as an error instead of a panic. The
/// outcome depends on the network, so nothing is promised of it.
#[verifier::external_body]
fn http_get_bearer_accept(url: &str, token: &str, accept: &str) -> (r: Result<Vec<u8>, String>) {
    let client = match reqwest::blocking::Client::builder().build() {
        Ok(client) => client,
        Err(e) => return Err(e.to_string()),
    };
    let request = client.get(url).header("Accept", accept).header(
        "Authorization",
        format!("Bearer {}", token),
    );
    match request.send().and_then(|resp| resp.bytes()) {
        Ok(bytes) => Ok(bytes.to_vec()),
        Err(e) => Err(e.to_string()),
    }
}

/// Relies on reqwest's blocking client: one GET of `url` with an
/// `Authorization: Bearer <token>` header, returning the response body bytes.
/// The client is built with `Client::builder`, so an initialization failure
/// surfaces as an error instead of a panic. The outcome depends on the
/// network, so nothing is promised of it.
#[verifier::external_body]
fn http_get_bearer(url: &str, token: &str) -> (r: Result<Vec<u8>, String>) {
    let client = match reqwest::blocking::Client::builder().build() {
        Ok(client) => client,
        Err(e) => return Err(e.to_string()),
    };
    let request = client.get(url).header("Authorization", format!("Bearer {}", token));
    match request.send().and_then(|resp| resp.bytes()) {
        Ok(bytes) => Ok(bytes.to_vec()),
        Err(e) => Err(e.to_string()),
    }
}

/// The token endpoint for a pull-scoped anonymous token on `image`, under the
/// implicit `library` namespace.
pub fn auth_url(image: &str) -> (r: String)
    ensures
        r@ == "https://auth.docker.io/token?service=registry.docker.io&scope=repository:library/"@
            + image@ + ":pull"@,
{
    let mut url = String::from_str(
        "https://auth.docker.io/token?service=registry.docker.io&scope=repository:library/",
    );
    url.append(image);
    url.append(":pull");
    url
}

/// The manifest endpoint for `image` at the fixed registry host, tag `latest`,
/// under the implicit `library` namespace.
pub fn manifest_url(image: &str) -> (r: String)
    ensures
        r@ == "https://registry.hub.docker.com/v2/library/"@ + image@ + "/manifests/latest"@,
{
    let mut url = String::from_str("https://registry.hub.docker.com/v2/library/");
    url.append(image);
    url.append("/manifests/latest");
    url
}

/// The blob endpoint for `digest` of `image` at the fixed registry host,
/// under the implicit `library` namespace.
pub fn blob_url(image: &str, digest: &str) -> (r: String)
    ensures
        r@ == "https://registry.hub.docker.com/v2/library/"@ + image@ + "/blobs/"@ + digest@,
{
    let mut url = String::from_str("https://registry.hub.docker.com/v2/library/");
    url.append(image);
    url.append("/blobs/");
    url.append(digest);
    url
}

/// Turns a token-endpoint response body into a token.
///
/// Succeeds exactly when the body carries a non-empty `token` string field,
/// and then returns that field; a missing or empty token is an
/// authentication failure, never an empty token handed on silently.
pub fn parse_token_response(body: &Vec<u8>) -> (r: Result<AuthToken, PipelineError>)
    ensures
        match r {
            Ok(t) => spec_token_field(body@) == Some(t.secret@) && t.secret@.len() > 0,
            Err(e) => e is Auth && (match spec_token_field(body@) {
                Some(s) => s.len() == 0,
                None => true,
            }),
        },
{
    match read_string_field(body, "token") {
        Some(secret) => {
            if secret.as_str().is_empty() {
                Err(PipelineError::Auth(String::from_str("Token is empty")))
            } else {
                Ok(AuthToken { secret })
            }
        },
        None => Err(PipelineError::Auth(String::from_str("Token not found in response"))),
    }
}

/// Turns a manifest-endpoint response body into a manifest.
///
/// Succeeds exactly when the body carries a `layers` array whose elements all
/// have string `digest` fields, and then returns those digests in manifest
/// order.
pub fn parse_manifest_response(body: &Vec<u8>) -> (r: Result<Manifest, PipelineError>)
    ensures
        match r {
            Ok(m) => spec_layer_digests(body@) matches Some(ds) && ds.len() == m.layers@.len()
                && (forall|i: int| 0 <= i < m.layers@.len() ==> m.layers@[i]@ == ds[i]),
            Err(e) => e is Manifest && spec_layer_digests(body@) is None,
        },
{
    match read_string_field_list(body, "layers", "digest") {
        Some(layers) => Ok(Manifest { layers }),
        None => Err(PipelineError::Manifest(String::from_str("No layers found in manifest"))),
    }
}

/// Requests a pull-scoped token for `image` from the authentication service.
///
/// Returns a non-empty token, or an authentication error whose detail names
/// the image, when the network call fails, the response is not JSON, or no
/// usable token field is present; it never returns an empty token.
pub fn authenticate(image: &str) -> (r: Result<AuthToken, PipelineError>)
    ensures
        r matches Ok(t) ==> t.secret@.len() > 0,
        r matches Err(e) ==> e is Auth && spec_names_image(e, image@),
{
    let url = auth_url(image);
    match http_get(url.as_str()) {
        Ok(body) => match parse_token_response(&body) {
            Ok(token) => Ok(token),
            Err(e) => Err(e.with_image_context(image)),
        },
        Err(detail) => Err(PipelineError::Auth(detail).with_image_context(image)),
    }
}

/// Requests the manifest of `image`, presenting `token` as a bearer
/// credential and the fixed Docker Distribution Manifest v2 accept header.
///
/// Any transport failure or unusable response surfaces as a manifest error
/// whose detail names the image; on success the returned layer digests are
/// in manifest order.
pub fn fetch_manifest(image: &str, token: &AuthToken) -> (r: Result<Manifest, PipelineError>)
    ensures
        r matches Err(e) ==> e is Manifest && spec_names_image(e, image@),
{
    let url = manifest_url(image);
    let body = http_get_bearer_accept(
        url.as_str(),
        token.secret.as_str(),
        "application/vnd.docker.distribution.manifest.v2+json",
    );
    match body {
        Ok(body) => match parse_manifest_response(&body) {
            Ok(manifest) => Ok(manifest),
            Err(e) => Err(e.with_image_context(image)),
        },
        Err(detail) => Err(PipelineError::Manifest(detail).with_image_context(image)),
    }
}

/// Requests the blob identified by `digest` for `image`, presenting `token`
/// as a bearer credential. Any transport failure surfaces as a blob error
/// whose detail names the image.
pub fn fetch_layer(image: &str, digest: &str, token: &AuthToken) -> (r: Result<
    Vec<u8>,
    PipelineError,
>)
    ensures
        r matches Err(e) ==> e is Blob && spec_names_image(e, image@),
{
    let url = blob_url(image, digest);
    match http_get_bearer(url.as_str(), token.secret.as_str()) {
        Ok(body) => Ok(body),
        Err(detail) => Err(PipelineError::Blob(detail).with_image_context(image)),
    }
}

/// Picks the layer the pipeline materializes: exactly the first layer of the
/// manifest. Succeeds exactly when the manifest has at least one layer; no
/// further layer is ever selected.
pub fn select_first_layer(manifest: &Manifest) -> (r: Result<String, PipelineError>)
    ensures
        match r {
            Ok(digest) => manifest.layers@.len() >= 1 && digest@ == manifest.layers@[0]@,
            Err(e) => e is Manifest && manifest.layers@.len() == 0,
        },
{
    if manifest.layers.len() == 0 {
        Err(PipelineError::Manifest(String::from_str("Manifest has no layers")))
    } else {
        Ok(manifest.layers[0].clone())
    }
}

} // verus!
