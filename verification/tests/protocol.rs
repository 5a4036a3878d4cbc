use taocket::taocket_protocol::{
    get_mime_type, handle_custom_protocol, plain_response, request_file_path, FileOutcome,
};
use taocket::taocket_utils::{normalize_path, PathPart};
use taocket::taocket_window::{
    asset_decision, create_response, error_response, handle_asset_request, not_found_response,
    request_asset_path, AssetDecision, AssetProvider,
};

#[test]
fn test_mime_type_detection() {
    assert_eq!(get_mime_type("index.html"), "text/html");
    assert_eq!(get_mime_type("script.js"), "text/javascript");
    assert_eq!(get_mime_type("module.mjs"), "text/javascript");
    assert_eq!(get_mime_type("style.css"), "text/css");
    assert_eq!(get_mime_type("image.png"), "image/png");
    assert_eq!(get_mime_type("photo.jpg"), "image/jpeg");
    assert_eq!(get_mime_type("icon.svg"), "image/svg+xml");
    assert_eq!(get_mime_type("module.wasm"), "application/wasm");
    assert_eq!(get_mime_type("data.json"), "application/json");
    assert_eq!(get_mime_type("font.woff"), "font/woff");
    assert_eq!(get_mime_type("font.woff2"), "font/woff2");
    assert_eq!(get_mime_type("favicon.ico"), "image/x-icon");
    assert_eq!(get_mime_type("unknown.xyz"), "application/octet-stream");
}

#[test]
fn test_root_path_mime_type() {
    assert_eq!(get_mime_type("/"), "text/html");
}

#[test]
fn mime_type_of_the_remaining_endings() {
    assert_eq!(get_mime_type("photo.jpeg"), "image/jpeg");
    assert_eq!(get_mime_type("anim.gif"), "image/gif");
    assert_eq!(get_mime_type("pic.webp"), "image/webp");
    assert_eq!(get_mime_type("font.ttf"), "font/ttf");
    assert_eq!(get_mime_type("font.otf"), "font/otf");
    assert_eq!(get_mime_type("font.eot"), "application/vnd.ms-fontobject");
    assert_eq!(get_mime_type("feed.xml"), "application/xml");
    assert_eq!(get_mime_type("notes.txt"), "text/plain");
    assert_eq!(get_mime_type("paper.pdf"), "application/pdf");
    assert_eq!(get_mime_type("bundle.zip"), "application/zip");
}

#[test]
fn mime_type_edge_cases() {
    assert_eq!(get_mime_type(""), "application/octet-stream");
    assert_eq!(get_mime_type("html"), "application/octet-stream");
    assert_eq!(get_mime_type(".html"), "text/html");
    assert_eq!(get_mime_type("a.html.js"), "text/javascript");
    assert_eq!(get_mime_type("INDEX.HTML"), "application/octet-stream");
    assert_eq!(get_mime_type("//"), "application/octet-stream");
    assert_eq!(get_mime_type("caf\u{e9}.css"), "text/css");
}

#[test]
fn request_path_names_a_file_below_the_root() {
    assert_eq!(request_file_path("/"), "index.html");
    assert_eq!(request_file_path("/app.js"), "app.js");
    assert_eq!(request_file_path("/assets/logo.png"), "assets/logo.png");
    assert_eq!(request_file_path("//x"), "/x");
    assert_eq!(request_file_path(""), "");
}

#[test]
fn asset_path_drops_every_leading_slash() {
    assert_eq!(request_asset_path("/"), "index.html");
    assert_eq!(request_asset_path(""), "index.html");
    assert_eq!(request_asset_path("///"), "index.html");
    assert_eq!(request_asset_path("/app.js"), "app.js");
    assert_eq!(request_asset_path("//assets/logo.png"), "assets/logo.png");
    assert_eq!(request_asset_path("plain"), "plain");
    assert_eq!(request_asset_path("/a/"), "a/");
}

#[test]
fn found_file_is_sent_with_its_type() {
    let response = handle_custom_protocol("/app.js", FileOutcome::Found(vec![1, 2, 3]));
    assert_eq!(response.status, 200);
    assert_eq!(response.content_type, "text/javascript");
    assert!(!response.allow_any_origin);
    assert_eq!(response.body, vec![1, 2, 3]);

    let index = handle_custom_protocol("/", FileOutcome::Found(b"<html>".to_vec()));
    assert_eq!(index.content_type, "text/html");
    assert_eq!(index.body, b"<html>".to_vec());
}

#[test]
fn file_outside_the_root_is_refused() {
    let response = handle_custom_protocol("/../secret", FileOutcome::Outside);
    assert_eq!(response.status, 500);
    assert_eq!(response.content_type, "text/plain");
    assert_eq!(response.body, b"Access denied: path outside root directory".to_vec());
}

#[test]
fn unreadable_file_is_reported() {
    let response =
        handle_custom_protocol("/gone.css", FileOutcome::Failed("No such file".to_string()));
    assert_eq!(response.status, 500);
    assert_eq!(response.content_type, "text/plain");
    assert_eq!(response.body, b"No such file".to_vec());
}

#[test]
fn plain_response_carries_the_text() {
    let response = plain_response(418, "caf\u{e9}");
    assert_eq!(response.status, 418);
    assert_eq!(response.content_type, "text/plain");
    assert!(!response.allow_any_origin);
    assert_eq!(response.body, "caf\u{e9}".as_bytes().to_vec());
}

#[test]
fn created_response_guesses_the_type() {
    let response = create_response("style.css", vec![7]);
    assert_eq!(response.status, 200);
    assert_eq!(response.content_type, "text/css");
    assert!(response.allow_any_origin);
    assert_eq!(response.body, vec![7]);

    let unknown = create_response("file.unknownext", Vec::new());
    assert_eq!(unknown.content_type, "application/octet-stream");
    assert_ne!(unknown.content_type, "file.unknownext");
}

#[test]
fn not_found_and_error_responses() {
    let missing = not_found_response("a/b.png");
    assert_eq!(missing.status, 404);
    assert_eq!(missing.content_type, "text/plain");
    assert_eq!(missing.body, b"404 Not Found: a/b.png".to_vec());

    let failed = error_response("Internal server error");
    assert_eq!(failed.status, 500);
    assert_eq!(failed.content_type, "text/plain");
    assert_eq!(failed.body, b"Internal server error".to_vec());
}

#[derive(Debug)]
struct OneFile;

impl AssetProvider for OneFile {
    fn get(&self, path: &str) -> Option<Vec<u8>> {
        if path == "index.html" {
            Some(b"<html></html>".to_vec())
        } else {
            None
        }
    }
}

#[test]
fn asset_provider_default_method() {
    assert!(OneFile.has_asset("index.html"));
    assert!(!OneFile.has_asset("other.html"));
}

#[test]
fn embedded_assets_come_first() {
    match handle_asset_request("/", Some(&OneFile), true) {
        AssetDecision::Respond(response) => {
            assert_eq!(response.status, 200);
            assert_eq!(response.content_type, "text/html");
            assert_eq!(response.body, b"<html></html>".to_vec());
        }
        other => panic!("unexpected decision {:?}", other),
    }
}

#[test]
fn build_directory_comes_second() {
    assert!(matches!(
        handle_asset_request("/app.js", Some(&OneFile), true),
        AssetDecision::ServeFile
    ));
    assert!(matches!(
        handle_asset_request::<OneFile>("/app.js", None, true),
        AssetDecision::ServeFile
    ));
}

#[test]
fn without_either_the_file_is_not_found() {
    match handle_asset_request("/app.js", Some(&OneFile), false) {
        AssetDecision::Respond(response) => {
            assert_eq!(response.status, 404);
            assert_eq!(response.body, b"404 Not Found: app.js".to_vec());
        }
        other => panic!("unexpected decision {:?}", other),
    }
    match handle_asset_request::<OneFile>("", None, false) {
        AssetDecision::Respond(response) => {
            assert_eq!(response.status, 404);
            assert_eq!(response.body, b"404 Not Found: index.html".to_vec());
        }
        other => panic!("unexpected decision {:?}", other),
    }
}

#[test]
fn asset_decision_for_each_case() {
    assert!(matches!(
        asset_decision("x.png", Some(vec![1]), false),
        AssetDecision::Respond(response) if response.status == 200 && response.body == vec![1]
    ));
    assert!(matches!(asset_decision("x.png", None, true), AssetDecision::ServeFile));
    assert!(matches!(
        asset_decision("x.png", None, false),
        AssetDecision::Respond(response) if response.status == 404
    ));
}

fn name(text: &str) -> PathPart {
    PathPart::Normal(text.to_string())
}

#[test]
fn normalize_drops_dots_and_takes_back_parents() {
    let parts = vec![
        PathPart::RootDir,
        name("home"),
        PathPart::CurDir,
        name("user"),
        PathPart::ParentDir,
        name("app"),
        name("frontend"),
    ];
    assert_eq!(
        normalize_path(parts),
        vec![PathPart::RootDir, name("home"), name("app"), name("frontend")]
    );
}

#[test]
fn normalize_edge_cases() {
    assert_eq!(normalize_path(Vec::new()), Vec::new());
    assert_eq!(normalize_path(vec![PathPart::ParentDir]), Vec::new());
    assert_eq!(normalize_path(vec![PathPart::CurDir, PathPart::CurDir]), Vec::new());
    assert_eq!(normalize_path(vec![PathPart::RootDir, PathPart::ParentDir]), Vec::new());
    assert_eq!(
        normalize_path(vec![name("a"), PathPart::ParentDir, PathPart::ParentDir, name("b")]),
        vec![name("b")]
    );
    assert_eq!(
        normalize_path(vec![PathPart::Prefix("C:".to_string()), PathPart::RootDir, name("x")]),
        vec![PathPart::Prefix("C:".to_string()), PathPart::RootDir, name("x")]
    );
}

#[test]
fn normalize_is_idempotent_on_an_example() {
    let parts = vec![name("a"), PathPart::CurDir, name("b"), PathPart::ParentDir, name("c")];
    let once = normalize_path(parts);
    let twice = normalize_path(once.clone());
    assert_eq!(once, twice);
    assert_eq!(once, vec![name("a"), name("c")]);
}
