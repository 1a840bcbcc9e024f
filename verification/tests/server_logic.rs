use hello_server::fallback::{apply_error_fallback, fallback_body_for};
use hello_server::page::render_page;
use hello_server::response::Response;
use hello_server::routing::{classify_path, landing_response, not_found_response, route_response};
use hello_server::routing::RouteClass;

const PAGE_404: &str = "<!DOCTYPE html><html><head><title>not found</title></head>\
<body><h1>not found</h1><p>unfound url</p></body></html>";

const PAGE_500: &str = "<!DOCTYPE html><html><head><title>server error</title></head>\
<body><h1>server error</h1><p>try later</p></body></html>";

#[test]
fn landing_returns_greeting() {
    let r = landing_response();
    assert_eq!(r.status, 200);
    assert_eq!(r.body, "hello wrold from landing page");
    assert_eq!(r.content_length, r.body.len());
}

#[test]
fn route_serves_landing_page() {
    let r = route_response("/").expect("the landing page is served by the crate");
    assert_eq!(r.status, 200);
    assert_eq!(r.body, "hello wrold from landing page");
}

#[test]
fn route_is_idempotent() {
    let r1 = route_response("/").unwrap();
    let r2 = route_response("/").unwrap();
    assert_eq!(r1.status, r2.status);
    assert_eq!(r1.body, r2.body);
    assert_eq!(r1.content_length, r2.content_length);
}

#[test]
fn classification_follows_route_table() {
    assert_eq!(classify_path("/"), RouteClass::Landing);
    assert_eq!(classify_path("/api-docs"), RouteClass::ApiDocs);
    assert_eq!(classify_path("/api-docs/openapi.json"), RouteClass::ApiDocs);
    assert_eq!(classify_path("/static"), RouteClass::StaticAsset);
    assert_eq!(classify_path("/static/app.css"), RouteClass::StaticAsset);
    assert_eq!(classify_path("/ab"), RouteClass::Unmatched);
    assert_eq!(classify_path("/does-not-exist"), RouteClass::Unmatched);
    assert_eq!(classify_path("/api-docsx"), RouteClass::Unmatched);
    assert_eq!(classify_path("/staticx"), RouteClass::Unmatched);
    assert_eq!(classify_path(""), RouteClass::Unmatched);
}

#[test]
fn unmatched_path_gets_not_found_page() {
    let r = route_response("/does-not-exist").expect("unmatched paths are answered");
    assert_eq!(r.status, 404);
    assert!(r.body.contains("not found"));
    assert!(r.body.contains("unfound url"));
    assert_eq!(r.body, PAGE_404);
}

#[test]
fn delegated_paths_are_not_answered() {
    assert!(route_response("/api-docs/index.html").is_none());
    assert!(route_response("/static/app.css").is_none());
}

#[test]
fn not_found_page_is_exact() {
    let r = not_found_response();
    assert_eq!(r.status, 404);
    assert_eq!(r.body, PAGE_404);
    assert_eq!(r.content_length, PAGE_404.len());
}

#[test]
fn fallback_replaces_internal_error_body() {
    let original = Response::new(500, String::from("stack trace: secret detail"));
    let r = apply_error_fallback(original);
    assert_eq!(r.status, 500);
    assert_eq!(r.body, PAGE_500);
    assert!(r.body.contains("server error"));
    assert!(r.body.contains("try later"));
    assert!(!r.body.contains("secret detail"));
    assert_eq!(r.content_length, r.body.len());
}

#[test]
fn fallback_passes_other_statuses_through() {
    for status in [200u16, 301, 403, 404] {
        let original = Response::new(status, String::from("original body"));
        let before_len = original.content_length;
        let r = apply_error_fallback(original);
        assert_eq!(r.status, status);
        assert_eq!(r.body, "original body");
        assert_eq!(r.content_length, before_len);
    }
}

#[test]
fn fallback_body_only_for_internal_error() {
    assert!(fallback_body_for(500).is_some());
    assert_eq!(fallback_body_for(500).unwrap(), PAGE_500);
    assert!(fallback_body_for(200).is_none());
    assert!(fallback_body_for(301).is_none());
    assert!(fallback_body_for(403).is_none());
    assert!(fallback_body_for(404).is_none());
    assert!(fallback_body_for(501).is_none());
}

#[test]
fn page_without_message_has_no_paragraph() {
    let page = render_page("bare", None);
    assert_eq!(
        page,
        "<!DOCTYPE html><html><head><title>bare</title></head><body><h1>bare</h1></body></html>"
    );
    assert!(!page.contains("<p>"));
}
