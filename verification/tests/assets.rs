use reso::api::Assets;

#[test]
fn routes_of_the_front_end_serve_the_index() {
    assert_eq!(Assets::resolve_path("/"), "index.html");
    assert_eq!(Assets::resolve_path(""), "index.html");
    assert_eq!(Assets::resolve_path("/settings/rules"), "index.html");
    assert_eq!(Assets::resolve_path("//login"), "index.html");
}

#[test]
fn files_are_served_by_their_path() {
    assert_eq!(Assets::resolve_path("/favicon.ico"), "favicon.ico");
    assert_eq!(Assets::resolve_path("/assets/index-abc123.js"), "assets/index-abc123.js");
    assert_eq!(Assets::resolve_path("/assets/fonts"), "assets/fonts");
}

#[test]
fn hashed_files_are_cached_forever_and_pages_revalidated() {
    assert_eq!(Assets::cache_control("assets/index-abc123.js"), "public, max-age=31536000, immutable");
    assert_eq!(Assets::cache_control("favicon.ico"), "public, max-age=31536000, immutable");
    assert_eq!(Assets::cache_control("index.html"), "no-cache");
    assert_eq!(Assets::cache_control("assets/fonts"), "no-cache");
}
