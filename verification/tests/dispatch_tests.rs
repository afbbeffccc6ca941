use phantom_host::assets::{get_mime_type, AssetsLayer, AssetsMiddleware, StaticAssetTree};

fn tree_with_index() -> StaticAssetTree {
    let mut tree = StaticAssetTree::new();
    tree.insert("index.html".to_string(), b"<html>".to_vec());
    tree.insert("app.css".to_string(), b"body{}".to_vec());
    tree
}

#[test]
fn mime_table() {
    assert_eq!(get_mime_type("index.html"), "text/html; charset=utf-8");
    assert_eq!(get_mime_type("style.css"), "text/css");
    assert_eq!(get_mime_type("app.js"), "application/javascript");
    assert_eq!(get_mime_type("data.json"), "application/json");
    assert_eq!(get_mime_type("logo.svg"), "image/svg+xml");
    assert_eq!(get_mime_type("pic.png"), "image/png");
    assert_eq!(get_mime_type("pic.jpg"), "image/jpeg");
    assert_eq!(get_mime_type("pic.jpeg"), "image/jpeg");
    assert_eq!(get_mime_type("anim.gif"), "image/gif");
    assert_eq!(get_mime_type("favicon.ico"), "image/x-icon");
    assert_eq!(get_mime_type("font.woff"), "font/woff");
    assert_eq!(get_mime_type("font.woff2"), "font/woff2");
    assert_eq!(get_mime_type("archive.bin"), "application/octet-stream");
    assert_eq!(get_mime_type("noext"), "application/octet-stream");
    assert_eq!(get_mime_type("trailing."), "application/octet-stream");
    assert_eq!(get_mime_type("a.b.html"), "text/html; charset=utf-8");
    // A dotless name has no file suffix, even one spelling a known suffix.
    assert_eq!(get_mime_type("html"), "application/octet-stream");
    assert_eq!(get_mime_type("css"), "application/octet-stream");
    assert_eq!(get_mime_type(""), "application/octet-stream");
    assert_eq!(get_mime_type(".html"), "text/html; charset=utf-8");
}

#[test]
fn tree_lookup() {
    let tree = tree_with_index();
    assert!(tree.contains("index.html"));
    assert!(!tree.contains("missing.html"));
    let entry = tree.asset("index.html").expect("present");
    assert_eq!(entry.path.as_str(), "index.html");
    assert_eq!(entry.bytes, b"<html>".to_vec());
    assert!(tree.asset("other").is_none());
}

#[test]
fn embedded_asset_is_served_with_media_type_and_bytes() {
    let layer = AssetsLayer { assets: tree_with_index() };
    let mw = layer.layer(());
    let hit = mw.respond("/index.html").expect("asset answer");
    assert_eq!(hit.status, 200);
    assert_eq!(hit.content_type.as_str(), "text/html; charset=utf-8");
    assert_eq!(hit.body, b"<html>".to_vec());
}

#[test]
fn missing_path_is_delegated() {
    let mw = AssetsMiddleware { inner: (), assets: tree_with_index() };
    assert!(mw.respond("/api/ping").is_none());
    assert!(mw.respond("/indexx.html").is_none());
}

#[test]
fn asset_media_type_follows_its_path() {
    let mw = AssetsMiddleware { inner: (), assets: tree_with_index() };
    let hit = mw.respond("/app.css").expect("asset answer");
    assert_eq!(hit.content_type.as_str(), "text/css");
    assert_eq!(hit.body, b"body{}".to_vec());
}

#[test]
fn only_one_leading_slash_is_trimmed() {
    let mw = AssetsMiddleware { inner: (), assets: tree_with_index() };
    assert!(mw.respond("index.html").is_some());
    assert!(mw.respond("/index.html").is_some());
    assert!(mw.respond("//index.html").is_none());
}
