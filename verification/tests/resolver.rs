use spa_router::{Asset, AssetSet, FallbackPolicy};

const INDEX_HTML: &[u8] = b"<h1>Hello, World!</h1>\n";
const SCRIPT_JS: &[u8] = b"console.log('hi')\n";
const INDEX_HASH: [u8; 32] = [0x11; 32];
const SCRIPT_HASH: [u8; 32] = [0x22; 32];

fn sample_set() -> AssetSet {
    let mut set = AssetSet::new();
    assert!(set.add(
        "index.html".to_owned(),
        Asset { data: INDEX_HTML.to_vec(), sha256: INDEX_HASH.to_vec() },
    ));
    assert!(set.add(
        "script.js".to_owned(),
        Asset { data: SCRIPT_JS.to_vec(), sha256: SCRIPT_HASH.to_vec() },
    ));
    set
}

#[test]
fn present_path_resolves_ok() {
    let set = sample_set();
    let resp = set.resolve("index.html", FallbackPolicy::StrictMissing);
    assert_eq!(resp.status, 200);
    assert_eq!(resp.content_type, "text/html");
    assert_eq!(resp.etag.as_deref(), Some(base64::encode(INDEX_HASH).as_str()));
    assert_eq!(resp.body, INDEX_HTML.to_vec());

    let resp = set.resolve("script.js", FallbackPolicy::SpaFallback);
    assert_eq!(resp.status, 200);
    assert_eq!(resp.content_type, "application/javascript");
    assert_eq!(resp.etag.as_deref(), Some(base64::encode(SCRIPT_HASH).as_str()));
    assert_eq!(resp.body, SCRIPT_JS.to_vec());
}

#[test]
fn leading_separators_are_stripped() {
    let set = sample_set();
    let resp = set.resolve("/script.js", FallbackPolicy::StrictMissing);
    assert_eq!(resp.status, 200);
    assert_eq!(resp.body, SCRIPT_JS.to_vec());

    let resp = set.resolve("///script.js", FallbackPolicy::StrictMissing);
    assert_eq!(resp.status, 200);
    assert_eq!(resp.body, SCRIPT_JS.to_vec());
}

#[test]
fn absent_path_strict_is_404() {
    let set = sample_set();
    let resp = set.resolve("doesnt_exist", FallbackPolicy::StrictMissing);
    assert_eq!(resp.status, 404);
    assert_eq!(resp.content_type, "text/plain");
    assert_eq!(resp.etag, None);
    assert_eq!(resp.body, b"Not found".to_vec());
}

#[test]
fn absent_path_spa_falls_back_to_index() {
    let set = sample_set();
    let resp = set.resolve("some/random/path", FallbackPolicy::SpaFallback);
    assert_eq!(resp.status, 200);
    assert_eq!(resp.content_type, "text/html");
    assert_eq!(resp.etag.as_deref(), Some(base64::encode(INDEX_HASH).as_str()));
    assert_eq!(resp.body, INDEX_HTML.to_vec());
}

#[test]
fn absent_index_spa_is_404() {
    let mut set = AssetSet::new();
    assert!(set.add(
        "script.js".to_owned(),
        Asset { data: SCRIPT_JS.to_vec(), sha256: SCRIPT_HASH.to_vec() },
    ));
    let resp = set.resolve("doesnt_exist", FallbackPolicy::SpaFallback);
    assert_eq!(resp.status, 404);
    assert_eq!(resp.body, b"Not found".to_vec());
}

#[test]
fn empty_set_resolves_404() {
    let set = AssetSet::new();
    let resp = set.resolve("", FallbackPolicy::StrictMissing);
    assert_eq!(resp.status, 404);
    let resp = set.resolve("anything", FallbackPolicy::SpaFallback);
    assert_eq!(resp.status, 404);
}

#[test]
fn unknown_extension_gets_octet_stream() {
    let mut set = AssetSet::new();
    assert!(set.add(
        "data.bin_unknown_ext".to_owned(),
        Asset { data: vec![0, 1, 2], sha256: [0x33; 32].to_vec() },
    ));
    let resp = set.resolve("data.bin_unknown_ext", FallbackPolicy::StrictMissing);
    assert_eq!(resp.status, 200);
    assert_eq!(resp.content_type, "application/octet-stream");
}

#[test]
fn etag_is_deterministic() {
    let set = sample_set();
    let first = set.resolve("index.html", FallbackPolicy::StrictMissing);
    let second = set.resolve("index.html", FallbackPolicy::StrictMissing);
    assert_eq!(first.etag, second.etag);
    assert!(first.etag.is_some());

    // The ETag follows the content hash, not the path or the rest of the set.
    let mut other = AssetSet::new();
    assert!(other.add(
        "renamed.html".to_owned(),
        Asset { data: INDEX_HTML.to_vec(), sha256: INDEX_HASH.to_vec() },
    ));
    let third = other.resolve("renamed.html", FallbackPolicy::StrictMissing);
    assert_eq!(first.etag, third.etag);
}

#[test]
fn add_rejects_absolute_and_duplicate_paths() {
    let mut set = sample_set();
    assert!(!set.add(
        "/absolute.html".to_owned(),
        Asset { data: vec![1], sha256: [0x44; 32].to_vec() },
    ));
    assert!(!set.add(
        "index.html".to_owned(),
        Asset { data: vec![2], sha256: [0x55; 32].to_vec() },
    ));
    // The set is unchanged: the first index document still answers.
    let resp = set.resolve("index.html", FallbackPolicy::StrictMissing);
    assert_eq!(resp.body, INDEX_HTML.to_vec());
    let resp = set.resolve("absolute.html", FallbackPolicy::StrictMissing);
    assert_eq!(resp.status, 404);
}
