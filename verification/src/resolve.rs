use vstd::prelude::*;
use vstd::slice::slice_to_vec;

use crate::assets::{Asset, AssetSet, SpecAsset};
use crate::content::{base64_encode, base64_of, guess_mime, mime_for_path};
use crate::paths::{trim_leading_slashes, trim_slashes};
use crate::response::{not_found, spec_not_found, HttpResponse, SpecResponse};

verus! {

/// The fixed name of the index document.
pub open spec fn index_path() -> Seq<char> {
    "index.html"@
}

/// The index document's name, as the lookups use it.
pub fn index_path_str() -> (r: &'static str)
    ensures
        r@ == index_path(),
{
    "index.html"
}

/// What the resolver does when the requested path is not in the asset set.
#[derive(Clone, Copy, PartialEq, Eq, Structural, Debug)]
pub enum FallbackPolicy {
    /// Answer with a plain-text 404.
    StrictMissing,
    /// Retry the lookup under the index document's name, and answer 404 only
    /// when the index itself is absent.
    SpaFallback,
}

/// The successful response for the asset `a` served under `key`: its bytes,
/// the content type guessed from the key, and an ETag over its content hash.
pub open spec fn spec_ok_response(key: Seq<char>, a: SpecAsset) -> SpecResponse {
    SpecResponse {
        status: 200,
        content_type: mime_for_path(key),
        etag: Option::Some(base64_of(a.hash)),
        body: a.data,
    }
}

/// The response for the already-normalized lookup key `key`.
pub open spec fn spec_response_for(
    assets: Map<Seq<char>, SpecAsset>,
    key: Seq<char>,
    policy: FallbackPolicy,
) -> SpecResponse {
    if assets.contains_key(key) {
        spec_ok_response(key, assets[key])
    } else {
        match policy {
            FallbackPolicy::StrictMissing => spec_not_found(),
            FallbackPolicy::SpaFallback => {
                if assets.contains_key(index_path()) {
                    spec_ok_response(index_path(), assets[index_path()])
                } else {
                    spec_not_found()
                }
            },
        }
    }
}

/// The response for a requested path: a leading-separator strip, an exact
/// lookup, and the fallback policy on a miss.
pub open spec fn spec_resolve(
    assets: Map<Seq<char>, SpecAsset>,
    path: Seq<char>,
    policy: FallbackPolicy,
) -> SpecResponse {
    spec_response_for(assets, trim_slashes(path), policy)
}

/// Builds the 200 response for asset `a` served under `key`.
fn ok_response(key: &str, a: &Asset) -> (r: HttpResponse)
    ensures
        r@ == spec_ok_response(key@, a@),
{
    let content_type = guess_mime(key);
    let etag = base64_encode(&a.sha256);
    let body = slice_to_vec(a.data.as_slice());
    let r = HttpResponse { status: 200, content_type, etag: Option::Some(etag), body };
    proof {
        assert(r@ =~= spec_ok_response(key@, a@));
    }
    r
}

impl AssetSet {
    /// Resolves an already-normalized lookup key against the set.
    pub fn resolve_key(&self, key: &str, policy: FallbackPolicy) -> (r: HttpResponse)
        requires
            self.wf(),
        ensures
            r@ == spec_response_for(self@, key@, policy),
    {
        match self.get(key) {
            Option::Some(a) => ok_response(key, a),
            Option::None => match policy {
                FallbackPolicy::StrictMissing => not_found(),
                FallbackPolicy::SpaFallback => {
                    let index = index_path_str();
                    match self.get(index) {
                        Option::Some(a) => ok_response(index, a),
                        Option::None => not_found(),
                    }
                },
            },
        }
    }

    /// Resolves a requested path: strips leading separators, looks the exact
    /// key up, and applies `policy` on a miss.
    pub fn resolve(&self, path: &str, policy: FallbackPolicy) -> (r: HttpResponse)
        requires
            self.wf(),
        ensures
            r@ == spec_resolve(self@, path@, policy),
    {
        let key = trim_leading_slashes(path);
        self.resolve_key(key, policy)
    }
}

} // verus!
