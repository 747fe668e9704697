use buddy2api::assets::{asset_head, asset_path, content_type, INDEX_FILE};

#[test]
fn files_are_typed_by_their_ends() {
    for (path, expected) in [
        ("assets/app.js", "text/javascript"),
        ("a.mjs", "text/javascript"),
        ("a.css", "text/css"),
        ("index.html", "text/html; charset=utf-8"),
        ("a.json", "application/json"),
        ("a.svg", "image/svg+xml"),
        ("a.png", "image/png"),
        ("favicon.ico", "image/x-icon"),
        ("a.woff2", "font/woff2"),
        ("a.woff", "application/octet-stream"),
        ("js", "application/octet-stream"),
        ("a.JS", "application/octet-stream"),
        (".js", "text/javascript"),
        ("", "application/octet-stream"),
    ] {
        assert_eq!(content_type(path), expected, "{path}");
    }
}

#[test]
fn paths_lead_to_files() {
    assert_eq!(asset_path("/"), INDEX_FILE);
    assert_eq!(asset_path(""), "index.html");
    assert_eq!(asset_path("///"), "index.html");
    assert_eq!(asset_path("/index.html"), "index.html");
    assert_eq!(asset_path("//assets/app.js"), "assets/app.js");
    assert_eq!(asset_path("/a/"), "a/");
}

#[test]
fn files_are_sent_as_what_was_asked_for() {
    let sent = asset_head("accounts", true);
    assert_eq!((sent.status, sent.content_type), (200, Some("application/octet-stream")));
    let page = asset_head(&asset_path("/"), true);
    assert_eq!((page.status, page.content_type), (200, Some("text/html; charset=utf-8")));
    let missing = asset_head("index.html", false);
    assert_eq!((missing.status, missing.content_type), (404, None));
}
