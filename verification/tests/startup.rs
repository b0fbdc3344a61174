use handlebars::Handlebars;
use page_server::{CommonData, Config, ErrorPages, StartupFailure};

fn text(s: &str) -> Option<String> {
    Some(s.to_string())
}

#[test]
fn config_keeps_address_and_port() {
    let config = Config::new("127.0.0.1".to_string(), 4000);
    assert_eq!(config.listen_ip(), "127.0.0.1");
    assert_eq!(config.listen_port(), 4000);
    let copy = config.clone();
    assert_eq!(copy.listen_ip(), "127.0.0.1");
    assert_eq!(copy.listen_port(), 4000);
}

#[test]
fn error_pages_load_when_both_files_were_read() {
    let pages = ErrorPages::load(text("<p>404</p>"), text("<p>500</p>")).unwrap();
    assert_eq!(pages.not_found(), "<p>404</p>");
    assert_eq!(pages.server_error(), "<p>500</p>");
}

#[test]
fn a_missing_not_found_page_stops_startup() {
    let loaded = ErrorPages::load(None, text("<p>500</p>"));
    assert_eq!(loaded.err(), Some(StartupFailure::NotFoundPage));
}

#[test]
fn a_missing_server_error_page_stops_startup() {
    let loaded = ErrorPages::load(text("<p>404</p>"), None);
    assert_eq!(loaded.err(), Some(StartupFailure::ServerErrorPage));
}

#[test]
fn with_both_pages_missing_the_not_found_page_is_named() {
    assert_eq!(
        ErrorPages::load(None, None).err(),
        Some(StartupFailure::NotFoundPage)
    );
    assert_eq!(
        ErrorPages::load(text(""), None).err(),
        Some(StartupFailure::NotFoundPage)
    );
}

#[test]
fn an_empty_page_stops_startup() {
    assert_eq!(
        ErrorPages::load(text(""), text("<p>500</p>")).err(),
        Some(StartupFailure::NotFoundPage)
    );
    assert_eq!(
        ErrorPages::load(text("<p>404</p>"), text("")).err(),
        Some(StartupFailure::ServerErrorPage)
    );
}

#[test]
fn a_page_of_one_character_is_enough() {
    let pages = ErrorPages::load(text(" "), text("\n")).unwrap();
    assert_eq!(pages.not_found(), " ");
    assert_eq!(pages.server_error(), "\n");
}

#[test]
fn common_data_hands_back_what_it_was_built_from() {
    let mut hb = Handlebars::new();
    hb.register_template_string("index.html", "hello").unwrap();
    let data = CommonData::new(
        Config::new("0.0.0.0".to_string(), 8080),
        hb,
        ErrorPages::load(text("nf"), text("se")).unwrap(),
        "/srv/app".to_string(),
    );
    assert_eq!(data.config().listen_ip(), "0.0.0.0");
    assert_eq!(data.config().listen_port(), 8080);
    assert!(data.hb().has_template("index.html"));
    assert!(!data.hb().has_template("about.html"));
    assert_eq!(data.error_pages().not_found(), "nf");
    assert_eq!(data.error_pages().server_error(), "se");
    assert_eq!(data.content_dir(), "/srv/app");
}
