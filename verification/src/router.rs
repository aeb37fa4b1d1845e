use vstd::prelude::*;
use vstd::string::StrSliceExecFns;
use vstd::string::StringExecFns;

use crate::assets::{AssetSet, SpecAsset};
use crate::paths::{starts_with, str_eq, str_starts_with, trim_leading_slashes, trim_slashes};
use crate::resolve::{index_path, index_path_str, spec_response_for, FallbackPolicy};
use crate::response::{HttpResponse, SpecResponse};

verus! {

/// How the adapter lays its routes out.
#[derive(Clone, Copy, PartialEq, Eq, Structural, Debug)]
pub enum RoutingVariant {
    /// A dedicated assets prefix answered strictly, with every path outside
    /// the prefix answered by the index document.
    SeparatedAssets,
    /// One mount under which every miss falls back to the index document;
    /// paths outside the mount are left to the host's other routes.
    UnifiedSpa,
}

/// The routing configuration: a mount path fixed at construction and the
/// variant that decides what a miss turns into.
#[derive(Clone, Copy)]
pub struct SpaRouter {
    pub path: &'static str,
    pub variant: RoutingVariant,
}

/// True when `path` is one the mount at `mount` answers: the mount itself, or
/// anything below it. A mount at `/` answers every path.
pub open spec fn under_mount(mount: Seq<char>, path: Seq<char>) -> bool {
    if mount == "/"@ {
        starts_with(path, mount)
    } else {
        path == mount || starts_with(path, mount + "/"@)
    }
}

/// The part of `path` that the mount leaves for the asset lookup.
pub open spec fn mount_rest(mount: Seq<char>, path: Seq<char>) -> Seq<char> {
    if mount == "/"@ {
        path
    } else {
        path.skip(mount.len() as int)
    }
}

/// The lookup key for a request under the mount: the rest of the path with
/// leading separators stripped, or the index document where nothing is left.
pub open spec fn requested_key(mount: Seq<char>, path: Seq<char>) -> Seq<char> {
    let k = trim_slashes(mount_rest(mount, path));
    if k.len() == 0 {
        index_path()
    } else {
        k
    }
}

/// What the adapter's routes answer for a request path, and `None` where the
/// request is not theirs and stays with the host's other routes.
pub open spec fn spec_route(
    variant: RoutingVariant,
    mount: Seq<char>,
    assets: Map<Seq<char>, SpecAsset>,
    path: Seq<char>,
) -> Option<SpecResponse> {
    match variant {
        RoutingVariant::SeparatedAssets => {
            if under_mount(mount, path) {
                Option::Some(
                    spec_response_for(
                        assets,
                        requested_key(mount, path),
                        FallbackPolicy::StrictMissing,
                    ),
                )
            } else {
                Option::Some(
                    spec_response_for(assets, index_path(), FallbackPolicy::StrictMissing),
                )
            }
        },
        RoutingVariant::UnifiedSpa => {
            if under_mount(mount, path) {
                Option::Some(
                    spec_response_for(assets, requested_key(mount, path), FallbackPolicy::SpaFallback),
                )
            } else {
                Option::None
            }
        },
    }
}

impl SpaRouter {
    /// A router mounted at `path` with the unified fallback: every miss under
    /// the mount becomes the index document.
    pub fn new(path: &'static str) -> (r: SpaRouter)
        ensures
            r.path@ == path@,
            r.variant == RoutingVariant::UnifiedSpa,
    {
        SpaRouter { path, variant: RoutingVariant::UnifiedSpa }
    }

    /// A router mounted at `path` with an explicitly chosen variant.
    pub fn with_variant(path: &'static str, variant: RoutingVariant) -> (r: SpaRouter)
        ensures
            r.path@ == path@,
            r.variant == variant,
    {
        SpaRouter { path, variant }
    }

    /// The mount path this router was built with, for the host's wiring.
    pub fn mount_path(&self) -> (r: &'static str)
        ensures
            r@ == self.path@,
    {
        self.path
    }

    /// Whether the mount answers `request_path`.
    fn request_under_mount(&self, request_path: &str) -> (r: bool)
        ensures
            r == under_mount(self.path@, request_path@),
    {
        if str_eq(self.path, "/") {
            str_starts_with(request_path, self.path)
        } else if str_eq(request_path, self.path) {
            true
        } else {
            let with_slash = self.path.to_owned().concat("/");
            str_starts_with(request_path, with_slash.as_str())
        }
    }

    /// The lookup key for a request under the mount.
    fn request_key<'a>(&self, request_path: &'a str) -> (r: &'a str)
        requires
            under_mount(self.path@, request_path@),
        ensures
            r@ == requested_key(self.path@, request_path@),
    {
        let rest = if str_eq(self.path, "/") {
            request_path
        } else {
            let ml = self.path.unicode_len();
            let nl = request_path.unicode_len();
            let sub = request_path.substring_char(ml, nl);
            proof {
                assert(sub@ =~= request_path@.skip(ml as int));
            }
            sub
        };
        let key = trim_leading_slashes(rest);
        if key.unicode_len() == 0 {
            index_path_str()
        } else {
            key
        }
    }

    /// Answers `request_path` against `assets`, or returns `None` where the
    /// request is not this router's.
    pub fn handle(&self, assets: &AssetSet, request_path: &str) -> (r: Option<HttpResponse>)
        requires
            assets.wf(),
        ensures
            match r {
                Option::Some(resp) => spec_route(self.variant, self.path@, assets@, request_path@)
                    == Option::Some(resp@),
                Option::None => spec_route(self.variant, self.path@, assets@, request_path@)
                    is None,
            },
    {
        let under = self.request_under_mount(request_path);
        match self.variant {
            RoutingVariant::SeparatedAssets => {
                if under {
                    let key = self.request_key(request_path);
                    Option::Some(assets.resolve_key(key, FallbackPolicy::StrictMissing))
                } else {
                    Option::Some(
                        assets.resolve_key(index_path_str(), FallbackPolicy::StrictMissing),
                    )
                }
            },
            RoutingVariant::UnifiedSpa => {
                if under {
                    let key = self.request_key(request_path);
                    Option::Some(assets.resolve_key(key, FallbackPolicy::SpaFallback))
                } else {
                    Option::None
                }
            },
        }
    }
}

} // verus!
