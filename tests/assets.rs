use monkeyarch::assets::{asset_path, content_type_for, download_headers, index_fallback};

#[test]
fn asset_paths() {
    assert_eq!(asset_path("/"), Some("index.html".to_string()));
    assert_eq!(asset_path(""), Some("index.html".to_string()));
    assert_eq!(asset_path("/app.js"), Some("app.js".to_string()));
    assert_eq!(asset_path("//css/site.css"), Some("css/site.css".to_string()));
    assert_eq!(asset_path("/../etc/passwd"), None);
    assert_eq!(asset_path("/a..b"), None);
    assert_eq!(asset_path("/a.b/c.d"), Some("a.b/c.d".to_string()));
}

#[test]
fn index_fallback_rules() {
    assert!(index_fallback("music/list", true));
    assert!(!index_fallback("api/list", true));
    assert!(!index_fallback("index.html", true));
    assert!(index_fallback("index.html", false));
    assert!(!index_fallback("api/x", false));
}

#[test]
fn media_types_by_extension() {
    assert_eq!(content_type_for("song.mp3"), "audio/mpeg");
    assert_eq!(content_type_for("index.html"), "text/html");
    assert_eq!(content_type_for("picture.png"), "image/png");
    assert_eq!(content_type_for("noextension"), "application/octet-stream");
}

#[test]
fn download_header_values() {
    let (mime, disp) = download_headers("song.mp3");
    assert_eq!(mime, "audio/mpeg");
    assert_eq!(disp, "inline; filename=\"song.mp3\"");
}
