use kurzlink::assets::{asset_handler, content, mimetype, CACHE_CONTROL};
use kurzlink::index_html::INDEX_HTML;

#[test]
fn unknown_path_is_404_with_empty_body() {
    let r = asset_handler("/nope", "");
    assert_eq!(r.status, 404);
    assert!(r.body.is_empty());
    assert!(r.content_type.is_none());
    assert!(r.cache_control.is_none());
}

#[test]
fn unknown_extension_is_404() {
    let r = asset_handler("/kurzlink.gif", "q=https://example.org");
    assert_eq!(r.status, 404);
    assert!(r.body.is_empty());
    assert!(r.content_type.is_none());
}

#[test]
fn whitelisted_extension_without_content_is_404() {
    let r = asset_handler("/readme.txt", "");
    assert_eq!(r.status, 404);
    assert!(r.body.is_empty());
    assert!(r.content_type.is_none());
    assert!(r.cache_control.is_none());
}

#[test]
fn root_serves_index_page() {
    let r = asset_handler("/index.html", "");
    assert_eq!(r.status, 200);
    assert_eq!(r.content_type, Some("text/html; charset=utf-8"));
    assert_eq!(r.cache_control, Some(CACHE_CONTROL));
    assert_eq!(r.body, INDEX_HTML.as_bytes());
}

#[test]
fn bare_root_resolves_same_page_as_index() {
    let c = content("/", "").unwrap();
    let i = content("/index.html", "").unwrap();
    assert_eq!(c, i);
}

#[test]
fn static_assets_are_served_with_their_types() {
    let css = asset_handler("/style.css", "");
    assert_eq!(css.status, 200);
    assert_eq!(css.content_type, Some("text/css; charset=utf-8"));
    assert_eq!(css.cache_control, Some("max-age=3600,private,immutable"));
    assert!(!css.body.is_empty());

    let norm = asset_handler("/modern-normalize.css", "");
    assert_eq!(norm.status, 200);
    assert_eq!(norm.content_type, Some("text/css; charset=utf-8"));

    let js = asset_handler("/script.js", "");
    assert_eq!(js.status, 200);
    assert_eq!(js.content_type, Some("text/javascript; charset=utf-8"));
    assert!(!js.body.is_empty());
}

#[test]
fn mimetype_whitelist() {
    assert_eq!(mimetype("/a.css"), Some("text/css; charset=utf-8"));
    assert_eq!(mimetype("/a.html"), Some("text/html; charset=utf-8"));
    assert_eq!(mimetype("/a.js"), Some("text/javascript; charset=utf-8"));
    assert_eq!(mimetype("/a.pdf"), Some("application/pdf"));
    assert_eq!(mimetype("/a.png"), Some("image/png"));
    assert_eq!(mimetype("/a.svg"), Some("image/svg+xml; charset=utf-8"));
    assert_eq!(mimetype("/a.txt"), Some("text/plain; charset=utf-8"));
    assert_eq!(mimetype("/a.ttf"), Some("font/ttf"));
    assert_eq!(mimetype("/a.gif"), None);
    assert_eq!(mimetype("/"), None);
    assert_eq!(mimetype("css"), None);
}
