use vstd::prelude::*;

use crate::assets::{relative_keys, SpecAsset};
use crate::content::{base64_of, mime_for_path};
use crate::paths::{lemma_trim_slashes_noop, trim_slashes};
use crate::resolve::{index_path, spec_ok_response, spec_resolve, FallbackPolicy};
use crate::response::spec_not_found;
use crate::router::{mount_rest, spec_route, under_mount, RoutingVariant};

verus! {

/// Every path present in the asset set resolves, under either policy, to 200
/// with that asset's bytes, an ETag over its content hash, and the content
/// type guessed from the path itself.
pub proof fn lemma_present_path_ok(
    assets: Map<Seq<char>, SpecAsset>,
    path: Seq<char>,
    policy: FallbackPolicy,
)
    requires
        relative_keys(assets),
        assets.contains_key(path),
    ensures
        spec_resolve(assets, path, policy) == spec_ok_response(path, assets[path]),
        spec_resolve(assets, path, policy).status == 200,
        spec_resolve(assets, path, policy).etag == Option::Some(base64_of(assets[path].hash)),
        spec_resolve(assets, path, policy).content_type == mime_for_path(path),
        spec_resolve(assets, path, policy).body == assets[path].data,
{
    lemma_trim_slashes_noop(path);
}

/// Every absent path — whatever its shape, multi-segment ones included — is
/// answered 404 under the strict policy; under the SPA-fallback policy it is
/// answered with the index document's own response where the index is
/// present, and 404 only where it is absent too.
pub proof fn lemma_absent_path_fallback(assets: Map<Seq<char>, SpecAsset>, path: Seq<char>)
    requires
        !assets.contains_key(trim_slashes(path)),
    ensures
        spec_resolve(assets, path, FallbackPolicy::StrictMissing) == spec_not_found(),
        assets.contains_key(index_path()) ==> spec_resolve(assets, path, FallbackPolicy::SpaFallback)
            == spec_ok_response(index_path(), assets[index_path()]),
        !assets.contains_key(index_path()) ==> spec_resolve(
            assets,
            path,
            FallbackPolicy::SpaFallback,
        ) == spec_not_found(),
{
}

/// Inside the assets prefix the separated variant answers a miss with 404,
/// never with the index document: the index applies only to the routes
/// outside the prefix.
pub proof fn lemma_assets_prefix_strict(
    mount: Seq<char>,
    assets: Map<Seq<char>, SpecAsset>,
    path: Seq<char>,
)
    requires
        under_mount(mount, path),
        trim_slashes(mount_rest(mount, path)).len() > 0,
        !assets.contains_key(trim_slashes(mount_rest(mount, path))),
    ensures
        spec_route(RoutingVariant::SeparatedAssets, mount, assets, path) == Option::Some(
            spec_not_found(),
        ),
{
}

/// The ETag is a function of the asset's content hash alone: any two
/// resolutions that find assets with equal hashes — repeated requests for an
/// unchanged asset in particular — carry the same ETag.
pub proof fn lemma_etag_deterministic(
    assets1: Map<Seq<char>, SpecAsset>,
    path1: Seq<char>,
    policy1: FallbackPolicy,
    assets2: Map<Seq<char>, SpecAsset>,
    path2: Seq<char>,
    policy2: FallbackPolicy,
)
    requires
        assets1.contains_key(trim_slashes(path1)),
        assets2.contains_key(trim_slashes(path2)),
        assets1[trim_slashes(path1)].hash == assets2[trim_slashes(path2)].hash,
    ensures
        spec_resolve(assets1, path1, policy1).etag == spec_resolve(assets2, path2, policy2).etag,
        spec_resolve(assets1, path1, policy1).etag == Option::Some(
            base64_of(assets1[trim_slashes(path1)].hash),
        ),
{
}

/// A path outside the mount is not the unified router's: the host's other
/// routes see it untouched.
pub proof fn lemma_outside_mount_untouched(
    mount: Seq<char>,
    assets: Map<Seq<char>, SpecAsset>,
    path: Seq<char>,
)
    requires
        !under_mount(mount, path),
    ensures
        spec_route(RoutingVariant::UnifiedSpa, mount, assets, path) is None,
{
}

} // verus!
