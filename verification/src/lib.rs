//! Serves a single-page application's embedded, read-only assets: an asset
//! resolver that turns a requested path into an HTTP response (status,
//! content type, ETag, body), and a router adapter that decides which lookup
//! each request gets under a configurable mount path and fallback variant.

pub mod assets;
pub mod content;
pub mod laws;
pub mod paths;
pub mod resolve;
pub mod response;
pub mod router;

pub use assets::Asset;
pub use assets::AssetSet;
pub use resolve::FallbackPolicy;
pub use response::HttpResponse;
pub use router::RoutingVariant;
pub use router::SpaRouter;
