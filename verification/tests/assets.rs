use handlebars::Handlebars;
use page_server::media::{content_type_for, content_type_header, mime_for_extension};
use page_server::{asset_handler, get_local_path, AssetResponse, CommonData, Config, ErrorPages, Status};

const SERVER_ERROR_PAGE: &str = "<html><body><h1>Something went wr\u{00f6}ng</h1></body></html>\n";

fn state() -> CommonData {
    CommonData::new(
        Config::new("127.0.0.1".to_string(), 4000),
        Handlebars::new(),
        ErrorPages::load(
            Some("<h1>Not found</h1>".to_string()),
            Some(SERVER_ERROR_PAGE.to_string()),
        )
        .unwrap(),
        "/srv/app".to_string(),
    )
}

fn ext(s: &str) -> Option<String> {
    Some(s.to_string())
}

fn served(path: &str, bytes: &[u8]) -> AssetResponse {
    asset_handler(path, Some(bytes.to_vec()), &state())
}

#[test]
fn the_local_path_lies_under_static_assets() {
    assert_eq!(
        get_local_path("css/site.css", "/srv/app"),
        "/srv/app/static/assets/css/site.css"
    );
    assert_eq!(get_local_path("app.js", "/srv/app"), "/srv/app/static/assets/app.js");
}

#[test]
fn a_trailing_separator_on_the_base_is_not_doubled() {
    assert_eq!(get_local_path("app.js", "/srv/app/"), "/srv/app/static/assets/app.js");
    assert_eq!(get_local_path("app.js", "/"), "/static/assets/app.js");
}

#[test]
fn a_relative_base_stays_relative() {
    assert_eq!(get_local_path("app.js", "site"), "site/static/assets/app.js");
    assert_eq!(get_local_path("app.js", ""), "static/assets/app.js");
}

#[test]
fn the_requested_path_is_taken_as_it_comes() {
    assert_eq!(
        get_local_path("../../secret.txt", "/srv/app"),
        "/srv/app/static/assets/../../secret.txt"
    );
    assert_eq!(get_local_path("/etc/hostname", "/srv/app"), "/etc/hostname");
    assert_eq!(get_local_path("", "/srv/app"), "/srv/app/static/assets/");
}

#[test]
fn the_table_knows_css_and_js() {
    assert_eq!(mime_for_extension(&ext("css")), "text/css");
    assert_eq!(mime_for_extension(&ext("js")), "application/javascript");
    assert_eq!(content_type_for(&ext("css")), "text/css");
    assert_eq!(content_type_for(&ext("js")), "application/javascript");
}

#[test]
fn anything_else_is_an_octet_stream() {
    for other in ["png", "html", "cssx", "jsx", "mjs", "", "CSS", "Js", " css", "c\u{0441}s"] {
        assert_eq!(mime_for_extension(&ext(other)), "application/octet-stream");
        assert_eq!(content_type_for(&ext(other)), "application/octet-stream");
    }
    assert_eq!(mime_for_extension(&None), "application/octet-stream");
    assert_eq!(content_type_for(&None), "application/octet-stream");
}

#[test]
fn a_media_type_that_a_header_can_carry_is_kept() {
    assert_eq!(content_type_header("text/css".to_string()), "text/css");
    assert_eq!(
        content_type_header("text/plain; charset=utf-8".to_string()),
        "text/plain; charset=utf-8"
    );
    assert_eq!(content_type_header("a\tb".to_string()), "a\tb");
    assert_eq!(content_type_header("caf\u{e9}".to_string()), "caf\u{e9}");
    assert_eq!(content_type_header(String::new()), "");
}

#[test]
fn a_media_type_that_a_header_cannot_carry_is_replaced() {
    for bad in ["text/\ncss", "text/css\r\n", "\u{7f}", "a\u{0}b", "\u{1f}"] {
        assert_eq!(content_type_header(bad.to_string()), "application/octet-stream");
    }
}

#[test]
fn a_stylesheet_is_served_as_css() {
    let response = served("/srv/app/static/assets/css/site.css", b"body { margin: 0 }");
    assert_eq!(
        response,
        AssetResponse {
            status: Status::Success,
            content_type: "text/css".to_string(),
            body: b"body { margin: 0 }".to_vec(),
        }
    );
    assert_eq!(response.status.code(), 200);
}

#[test]
fn a_script_is_served_as_javascript() {
    let response = served("/srv/app/static/assets/app.min.js", b"let x = 1;");
    assert_eq!(response.status, Status::Success);
    assert_eq!(response.content_type, "application/javascript");
    assert_eq!(response.body, b"let x = 1;".to_vec());
}

#[test]
fn other_files_are_served_as_octet_streams() {
    for path in [
        "/srv/app/static/assets/logo.png",
        "/srv/app/static/assets/archive.css.gz",
        "/srv/app/static/assets/LICENSE",
        "/srv/app/static/assets/.css",
        "/srv/app/static/assets/SITE.CSS",
        "/srv/app/static/assets/site.Js",
        "/srv/app/static/assets/site.",
        "/srv/app/static/assets/v1.css/readme",
    ] {
        let response = served(path, &[0, 159, 146, 150]);
        assert_eq!(response.status, Status::Success);
        assert_eq!(response.content_type, "application/octet-stream");
        assert_eq!(response.body, vec![0, 159, 146, 150]);
    }
}

#[test]
fn the_extension_is_that_of_the_file_name() {
    assert_eq!(served("relative.css", b"").content_type, "text/css");
    assert_eq!(served("/srv/v1.js/site.css", b"").content_type, "text/css");
    assert_eq!(served("/srv/.hidden.js", b"").content_type, "application/javascript");
}

#[test]
fn an_empty_file_is_served_empty() {
    let response = served("/srv/app/static/assets/empty.css", b"");
    assert_eq!(response.status, Status::Success);
    assert_eq!(response.content_type, "text/css");
    assert!(response.body.is_empty());
}

#[test]
fn a_failed_read_is_a_server_error_in_html() {
    let response = asset_handler("/srv/app/static/assets/missing.css", None, &state());
    assert_eq!(
        response,
        AssetResponse {
            status: Status::ServerError,
            content_type: "text/html".to_string(),
            body: SERVER_ERROR_PAGE.as_bytes().to_vec(),
        }
    );
    assert_eq!(response.status.code(), 500);
}

#[test]
fn a_failed_read_is_answered_alike_whatever_was_asked_for() {
    let data = state();
    let css = asset_handler("/srv/app/static/assets/missing.css", None, &data);
    let png = asset_handler("/srv/app/static/assets/missing.png", None, &data);
    let dir = asset_handler("/srv/app/static/assets/", None, &data);
    assert_eq!(css, png);
    assert_eq!(css, dir);
}

#[test]
fn the_same_asset_request_gets_the_same_answer_each_time() {
    let data = state();
    let path = get_local_path("css/site.css", data.content_dir());
    let first = asset_handler(&path, Some(b"a { }".to_vec()), &data);
    let failed = asset_handler(&path, None, &data);
    for _ in 0..16 {
        assert_eq!(get_local_path("css/site.css", data.content_dir()), path);
        assert_eq!(asset_handler(&path, Some(b"a { }".to_vec()), &data), first);
        assert_eq!(asset_handler(&path, None, &data), failed);
    }
}

#[test]
fn an_asset_is_found_by_its_local_path() {
    let data = state();
    let path = get_local_path("js/app.js", data.content_dir());
    assert_eq!(path, "/srv/app/static/assets/js/app.js");
    let response = asset_handler(&path, Some(b"1".to_vec()), &data);
    assert_eq!(response.content_type, "application/javascript");
}
