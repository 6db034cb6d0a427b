use skyboxer::paths::{final_file, within_base};
use skyboxer::serve::{found, forbidden, not_found, request_path, serve_static};

#[test]
fn root_requests_index() {
    assert_eq!(request_path("/"), "index.html");
    assert_eq!(request_path(""), "index.html");
}

#[test]
fn leading_slashes_are_trimmed() {
    assert_eq!(request_path("/app.js"), "app.js");
    assert_eq!(request_path("///a/b.png"), "a/b.png");
    assert_eq!(request_path("//"), "");
    assert_eq!(request_path("x/"), "x/");
}

#[test]
fn outside_requests_are_forbidden() {
    let r = serve_static("/srv/www", "../secret.txt", "/srv/secret.txt", Some(vec![1, 2, 3]));
    assert_eq!(r.status, 403);
    assert_eq!(r.content_type, "text/plain");
    assert_eq!(r.body, b"403 Forbidden".to_vec());
    let r = forbidden();
    assert_eq!(r.status, 403);
}

#[test]
fn unreadable_files_are_not_found() {
    let r = serve_static("/srv/www", "missing.html", "/srv/www/missing.html", None);
    assert_eq!(r.status, 404);
    assert_eq!(r.content_type, "text/plain");
    assert_eq!(r.body, b"404 Not Found".to_vec());
    assert_eq!(not_found().body, b"404 Not Found".to_vec());
}

#[test]
fn readable_files_are_sent_with_their_type() {
    let r = serve_static("/srv/www", "site", "/srv/www/site/index.html", Some(b"<html>".to_vec()));
    assert_eq!(r.status, 200);
    assert_eq!(r.content_type, "text/html");
    assert_eq!(r.body, b"<html>".to_vec());
    let r = serve_static("/srv/www", "pkg/skyboxer_wasm_bg.wasm", "/srv/www/pkg/skyboxer_wasm_bg.wasm", Some(vec![0, 97]));
    assert_eq!(r.content_type, "application/wasm");
    let r = serve_static("/srv/www", "LICENSE", "/srv/www/LICENSE", Some(vec![]));
    assert_eq!(r.content_type, "text/plain");
    assert_eq!(r.status, 200);
}

#[test]
fn found_keeps_type_and_data() {
    let r = found("image/png".to_string(), vec![9, 8]);
    assert_eq!(r.status, 200);
    assert_eq!(r.content_type, "image/png");
    assert_eq!(r.body, vec![9, 8]);
}

#[test]
fn absolute_path_outside_base_is_forbidden() {
    let r = serve_static("/srv/www", "/etc/passwd", "/etc/passwd", Some(b"root".to_vec()));
    assert_eq!(r.status, 403);
    assert_eq!(r.content_type, "text/plain");
    assert_eq!(r.body, b"403 Forbidden".to_vec());
}

#[test]
fn containment_of_relative_paths() {
    assert!(within_base("/srv/www", "index.html"));
    assert!(within_base("/srv/www", "a/b/../c.png"));
    assert!(within_base("/srv/www", "a/.."));
    assert!(within_base("/srv/www", "./a/./b"));
    assert!(within_base("/srv/www", "a//b"));
    assert!(within_base("/srv/www", ""));
    assert!(within_base("/srv/www", "...x/..a"));
    assert!(!within_base("/srv/www", ".."));
    assert!(!within_base("/srv/www", "../secret.txt"));
    assert!(!within_base("/srv/www", "a/../../secret.txt"));
    assert!(!within_base("/srv/www", "a/b/../../../x"));
}

#[test]
fn containment_of_absolute_paths() {
    assert!(within_base("/srv/www", "/srv/www"));
    assert!(within_base("/srv/www", "/srv/www/a.png"));
    assert!(!within_base("/srv/www", "/srv/wwwx/a.png"));
    assert!(!within_base("/srv/www", "/etc/passwd"));
    assert!(!within_base("/srv/www", "/srv/www/../secret.txt"));
    assert!(within_base("/", "/etc/passwd"));
}

#[test]
fn escaping_request_is_refused_even_if_readable() {
    let p = request_path("/../secret.txt");
    assert_eq!(p, "../secret.txt");
    let r = serve_static("/srv/www", &p, "/srv/secret.txt", Some(b"x".to_vec()));
    assert_eq!(r.status, 403);
}

#[test]
fn containment_compares_components() {
    assert!(within_base("/srv/www", "/srv//www/x"));
    assert!(within_base("/srv/www", "/srv/./www/x"));
    assert!(within_base("/srv/www/", "/srv/www"));
    assert!(within_base("/srv/www", "/srv/www/"));
    assert!(within_base("//srv/www", "/srv/www/a"));
    assert!(within_base("", "/etc/passwd"));
    assert!(!within_base("srv", "/srv/a"));
    assert!(!within_base("/srv/www", "/srv"));
}

#[test]
fn doubled_slash_inside_base_is_served() {
    let r = serve_static("/srv/www", "/srv//www/x", "/srv//www/x", None);
    assert_eq!(r.status, 404);
    let r = serve_static("/srv/www", "/srv//www/a.css", "/srv//www/a.css", Some(b"p{}".to_vec()));
    assert_eq!(r.status, 200);
    assert_eq!(r.content_type, "text/css");
    assert_eq!(r.body, b"p{}".to_vec());
}

#[test]
fn directories_default_to_index() {
    assert_eq!(final_file("/srv/www/site", true), "/srv/www/site/index.html");
    assert_eq!(final_file("/srv/www/site/", true), "/srv/www/site/index.html");
    assert_eq!(final_file("", true), "index.html");
    assert_eq!(final_file("/srv/www/a.png", false), "/srv/www/a.png");
}
