//! Serving the bundled front-end: which file a request path names, and the
//! response that carries it.
use vstd::prelude::*;
use vstd::slice::slice_to_vec;
use vstd::string::*;
use vstd::utf8::encode_utf8;
use include_dir::{Dir, File};

verus! {

#[verifier::external_type_specification]
#[verifier::external_body]
pub struct ExDir<'a>(Dir<'a>);

/// The files of a bundle, keyed by every path text under which
/// `Dir::get_file` finds a file, with that file's bytes.
pub uninterp spec fn bundle_files(d: Dir<'static>) -> Map<Seq<char>, Seq<u8>>;

/// The media type that mime_guess gives for a path, or `application/octet-stream`
/// when it knows none.
pub uninterp spec fn mime_for_path(path: Seq<char>) -> Seq<char>;

pub open spec fn octet_stream() -> Seq<char> {
    "application/octet-stream"@
}

/// Relies on include_dir's `Dir::get_file`: the bytes of the file that the
/// bundle holds under `path`, if it holds one.
#[verifier::external_body]
fn find_file(bundle: &Dir<'static>, path: &str) -> (r: Option<&'static [u8]>)
    ensures
        r is Some <==> bundle_files(*bundle).contains_key(path@),
        r matches Some(c) ==> c@ == bundle_files(*bundle)[path@],
{
    bundle.get_file(path).map(File::contents)
}

/// Relies on mime_guess's `from_path(path).first_or_octet_stream()`: the first
/// media type known for the path's extension, or `application/octet-stream`.
/// A path without a `.` has no extension.
#[verifier::external_body]
fn guess_mime(path: &str) -> (r: String)
    ensures
        r@ == mime_for_path(path@),
        !path@.contains('.') ==> r@ == octet_stream(),
{
    mime_guess::from_path(path).first_or_octet_stream().as_ref().to_string()
}

/// The status code of a response that carries a file.
pub const STATUS_OK: u16 = 200;

/// The status code of a response for a path that names no file.
pub const STATUS_NOT_FOUND: u16 = 404;

/// An HTTP response: status code, `Content-Type` and body.
pub struct Response {
    pub status: u16,
    pub content_type: String,
    pub body: Vec<u8>,
}

pub struct ResponseView {
    pub status: u16,
    pub content_type: Seq<char>,
    pub body: Seq<u8>,
}

impl View for Response {
    type V = ResponseView;

    open spec fn view(&self) -> ResponseView {
        ResponseView { status: self.status, content_type: self.content_type@, body: self.body@ }
    }
}

pub open spec fn plain_text() -> Seq<char> {
    "text/plain; charset=utf-8"@
}

pub open spec fn not_found_text() -> Seq<char> {
    "File not found"@
}

/// A file's bytes, sent as the given media type.
pub open spec fn found_view(mime: Seq<char>, contents: Seq<u8>) -> ResponseView {
    ResponseView { status: STATUS_OK, content_type: mime, body: contents }
}

/// The not-found answer: a short plain-text message.
pub open spec fn not_found_view() -> ResponseView {
    ResponseView {
        status: STATUS_NOT_FOUND,
        content_type: plain_text(),
        body: encode_utf8(not_found_text()),
    }
}

/// What a request for the file at `path` of the bundle gets.
pub open spec fn served_file(d: Dir<'static>, path: Seq<char>) -> ResponseView {
    if bundle_files(d).contains_key(path) {
        found_view(mime_for_path(path), bundle_files(d)[path])
    } else {
        not_found_view()
    }
}

/// The index document of the front-end.
pub open spec fn index_path() -> Seq<char> {
    "index.html"@
}

/// The paths after the leading `/` that always get the index document:
/// the root and the about page.
pub open spec fn is_index_route(path: Seq<char>) -> bool {
    path.len() == 0 || path == "about"@
}

/// What a GET request gets, by its path after the leading `/`.
pub open spec fn served_path(d: Dir<'static>, path: Seq<char>) -> ResponseView {
    if is_index_route(path) {
        served_file(d, index_path())
    } else {
        served_file(d, path)
    }
}

/// The response that carries a file's bytes as the given media type.
pub fn found_response(contents: &[u8], mime: String) -> (r: Response)
    ensures
        r@ == found_view(mime@, contents@),
{
    Response { status: STATUS_OK, content_type: mime, body: slice_to_vec(contents) }
}

/// The response for a path that names no file in the bundle.
pub fn not_found() -> (r: Response)
    ensures
        r@ == not_found_view(),
{
    let text = "File not found";
    Response {
        status: STATUS_NOT_FOUND,
        content_type: String::from_str("text/plain; charset=utf-8"),
        body: text.as_bytes_vec(),
    }
}

/// Serves the file of the bundle at `path`, exactly as named, with the media
/// type that its extension gives; a path that names no file gets not-found,
/// never a server error.
pub fn serve_file(bundle: &Dir<'static>, path: &str) -> (r: Response)
    ensures
        r@ == served_file(*bundle, path@),
        !bundle_files(*bundle).contains_key(path@) ==> r@ == not_found_view(),
{
    match find_file(bundle, path) {
        Some(contents) => found_response(contents, guess_mime(path)),
        None => not_found(),
    }
}

/// Serves the index document of the bundle.
pub fn serve_index(bundle: &Dir<'static>) -> (r: Response)
    ensures
        r@ == served_file(*bundle, index_path()),
{
    serve_file(bundle, "index.html")
}

fn text_equals(a: &str, b: &str) -> (r: bool)
    ensures
        r == (a@ == b@),
{
    let n = a.unicode_len();
    if n != b.unicode_len() {
        return false;
    }
    let mut i: usize = 0;
    while i < n
        invariant
            n == a@.len(),
            n == b@.len(),
            i <= n,
            a@.subrange(0, i as int) == b@.subrange(0, i as int),
        decreases n - i,
    {
        if a.get_char(i) != b.get_char(i) {
            assert(a@[i as int] != b@[i as int]);
            return false;
        }
        assert(a@.subrange(0, i + 1) =~= a@.subrange(0, i as int).push(a@[i as int]));
        assert(b@.subrange(0, i + 1) =~= b@.subrange(0, i as int).push(b@[i as int]));
        i = i + 1;
    }
    assert(a@ =~= a@.subrange(0, n as int));
    assert(b@ =~= b@.subrange(0, n as int));
    true
}

/// Answers a GET request by its path after the leading `/`: the root and
/// `about` get the index document, whatever the bundle holds under their own
/// names; any other path gets the file it names.
pub fn serve_path(bundle: &Dir<'static>, path: &str) -> (r: Response)
    ensures
        r@ == served_path(*bundle, path@),
        is_index_route(path@) ==> r@ == served_file(*bundle, index_path()),
{
    if path.unicode_len() == 0 || text_equals(path, "about") {
        serve_index(bundle)
    } else {
        serve_file(bundle, path)
    }
}

/// The root and the about page answer with the same response, the index document.
pub proof fn index_routes_agree(d: Dir<'static>)
    ensures
        served_path(d, Seq::empty()) == served_path(d, "about"@),
        served_path(d, "about"@) == served_file(d, index_path()),
{
}

} // verus!
