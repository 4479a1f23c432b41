use include_dir::{Dir, DirEntry, File};
use spa_backend::assets::{
    found_response, not_found, serve_file, serve_index, serve_path, Response, STATUS_NOT_FOUND,
    STATUS_OK,
};

const INDEX: &[u8] = b"<!doctype html><div id=app></div>";
const CSS: &[u8] = b"body { margin: 0 }";
const JS: &[u8] = b"console.log(1)";

fn leak<T>(v: T) -> &'static T {
    Box::leak(Box::new(v))
}

fn bundle() -> &'static Dir<'static> {
    let nested: &'static [DirEntry<'static>] =
        Box::leak(vec![DirEntry::File(File::new("assets/app.js", JS))].into_boxed_slice());
    let entries: &'static [DirEntry<'static>] = Box::leak(
        vec![
            DirEntry::File(File::new("index.html", INDEX)),
            DirEntry::File(File::new("style.css", CSS)),
            DirEntry::File(File::new("LICENSE", b"MIT")),
            DirEntry::File(File::new("about", b"not the index")),
            DirEntry::Dir(Dir::new("assets", nested)),
        ]
        .into_boxed_slice(),
    );
    leak(Dir::new("", entries))
}

fn empty_bundle() -> &'static Dir<'static> {
    let entries: &'static [DirEntry<'static>] = Box::leak(Vec::new().into_boxed_slice());
    leak(Dir::new("", entries))
}

fn assert_not_found(r: &Response) {
    assert_eq!(r.status, 404);
    assert_eq!(r.content_type, "text/plain; charset=utf-8");
    assert_eq!(r.body, b"File not found");
}

#[test]
fn root_and_about_serve_the_index() {
    let b = bundle();
    let root = serve_path(b, "");
    let about = serve_path(b, "about");
    assert_eq!(root.status, 200);
    assert_eq!(root.body, INDEX);
    assert_eq!(root.content_type, "text/html");
    assert_eq!(about.status, root.status);
    assert_eq!(about.content_type, root.content_type);
    assert_eq!(about.body, root.body);
    let index = serve_index(b);
    assert_eq!(index.body, INDEX);
}

#[test]
fn missing_file_is_not_found() {
    let b = bundle();
    assert_not_found(&serve_path(b, "nonexistent-file.xyz"));
    assert_not_found(&serve_file(b, "nonexistent-file.xyz"));
    assert_not_found(&serve_file(b, "assets"));
}

#[test]
fn stylesheet_is_served_as_css() {
    let r = serve_path(bundle(), "style.css");
    assert_eq!(r.status, 200);
    assert_eq!(r.content_type, "text/css");
    assert_eq!(r.body, CSS);
}

#[test]
fn nested_file_is_found_by_its_full_path() {
    let r = serve_path(bundle(), "assets/app.js");
    assert_eq!(r.status, 200);
    assert_eq!(r.content_type, "text/javascript");
    assert_eq!(r.body, JS);
    assert_not_found(&serve_path(bundle(), "app.js"));
}

#[test]
fn file_without_extension_is_octet_stream() {
    let r = serve_file(bundle(), "LICENSE");
    assert_eq!(r.status, 200);
    assert_eq!(r.content_type, "application/octet-stream");
    assert_eq!(r.body, b"MIT");
}

#[test]
fn about_route_ignores_a_file_named_about() {
    let r = serve_file(bundle(), "about");
    assert_eq!(r.body, b"not the index");
    assert_eq!(serve_path(bundle(), "about").body, INDEX);
}

#[test]
fn empty_bundle_serves_nothing() {
    let b = empty_bundle();
    assert_not_found(&serve_index(b));
    assert_not_found(&serve_path(b, ""));
    assert_not_found(&serve_path(b, "about"));
    assert_not_found(&serve_path(b, "style.css"));
}

#[test]
fn response_builders_are_exact() {
    let r = found_response(b"abc", "text/plain".to_string());
    assert_eq!(r.status, STATUS_OK);
    assert_eq!(r.content_type, "text/plain");
    assert_eq!(r.body, b"abc");
    let e = found_response(b"", "application/octet-stream".to_string());
    assert!(e.body.is_empty());
    let n = not_found();
    assert_eq!(n.status, STATUS_NOT_FOUND);
    assert_not_found(&n);
}
