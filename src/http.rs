use vstd::prelude::*;
use vstd::string::StringSliceAdditionalSpecFns;

verus! {

/// How many bytes of a request are read and looked at. Anything a client sends
/// past this point is neither read nor drained: the connection is closed with
/// those bytes still unread.
pub const READ_LIMIT: usize = 512;

/// The request line that asks for the root page.
pub const ROOT_REQUEST_LINE: &'static str = "GET / HTTP/1.1\r\n";

/// Status line (with the blank line that ends the header) of a served page.
pub const OK_STATUS_LINE: &'static str = "HTTP/1.1 200 OK\r\n\r\n";

/// Status line (with the blank line that ends the header) of a missing page.
pub const NOT_FOUND_STATUS_LINE: &'static str = "HTTP/1.1 404 NOT FOUND\r\n\r\n";

/// The page served for the root request.
pub const SUCCESS_PAGE: &'static str = "hello_rust.html";

/// The page served for every other request.
pub const NOT_FOUND_PAGE: &'static str = "404.html";

/// What a request asks for: the root page, or anything else.
#[derive(Clone, Copy, Debug, PartialEq, Eq, Structural)]
pub enum Route {
    Root,
    NotFound,
}

/// The part of a request that takes part in its classification.
pub open spec fn read_window(request: Seq<u8>) -> Seq<u8> {
    if request.len() <= READ_LIMIT {
        request
    } else {
        request.subrange(0, READ_LIMIT as int)
    }
}

/// `s` begins with the bytes of `prefix`.
pub open spec fn has_prefix(s: Seq<u8>, prefix: Seq<u8>) -> bool {
    prefix.len() <= s.len() && s.subrange(0, prefix.len() as int) == prefix
}

/// The route of a request: the root page exactly when the bytes that are read
/// begin with the root request line.
pub open spec fn route_of(request: Seq<u8>) -> Route {
    if has_prefix(read_window(request), ROOT_REQUEST_LINE.spec_bytes()) {
        Route::Root
    } else {
        Route::NotFound
    }
}

pub open spec fn status_line_of(route: Route) -> Seq<u8> {
    match route {
        Route::Root => OK_STATUS_LINE.spec_bytes(),
        Route::NotFound => NOT_FOUND_STATUS_LINE.spec_bytes(),
    }
}

pub open spec fn page_of(route: Route) -> Seq<char> {
    match route {
        Route::Root => SUCCESS_PAGE@,
        Route::NotFound => NOT_FOUND_PAGE@,
    }
}

/// The bytes sent back for a request of `route` whose page holds `body`.
pub open spec fn response_of(route: Route, body: Seq<u8>) -> Seq<u8> {
    status_line_of(route) + body
}

/// Tells whether `s` begins with `prefix`.
pub fn starts_with(s: &[u8], prefix: &[u8]) -> (r: bool)
    ensures
        r == has_prefix(s@, prefix@),
{
    if prefix.len() > s.len() {
        return false;
    }
    let mut i: usize = 0;
    while i < prefix.len()
        invariant
            prefix@.len() <= s@.len(),
            i <= prefix@.len(),
            s@.subrange(0, i as int) == prefix@.subrange(0, i as int),
        decreases prefix@.len() - i,
    {
        if s[i] != prefix[i] {
            assert(s@.subrange(0, prefix@.len() as int)[i as int] != prefix@[i as int]);
            return false;
        }
        assert(s@.subrange(0, i + 1) =~= s@.subrange(0, i as int).push(s@[i as int]));
        assert(prefix@.subrange(0, i + 1) =~= prefix@.subrange(0, i as int).push(prefix@[i as int]));
        i = i + 1;
    }
    assert(prefix@.subrange(0, i as int) =~= prefix@);
    true
}

/// Classifies a request by the bytes that are read of it.
pub fn classify(request: &[u8]) -> (r: Route)
    ensures
        r == route_of(request@),
{
    let line = ROOT_REQUEST_LINE.as_bytes();
    let window: &[u8] = if request.len() <= READ_LIMIT {
        request
    } else {
        vstd::slice::slice_subrange(request, 0, READ_LIMIT)
    };
    if starts_with(window, line) {
        Route::Root
    } else {
        Route::NotFound
    }
}

/// The status line that answers a request of `route`.
pub fn status_line(route: Route) -> (r: &'static str)
    ensures
        r.spec_bytes() == status_line_of(route),
{
    match route {
        Route::Root => OK_STATUS_LINE,
        Route::NotFound => NOT_FOUND_STATUS_LINE,
    }
}

/// The name of the page that answers a request of `route`.
pub fn page_file(route: Route) -> (r: &'static str)
    ensures
        r@ == page_of(route),
{
    match route {
        Route::Root => SUCCESS_PAGE,
        Route::NotFound => NOT_FOUND_PAGE,
    }
}

/// The full response to a request of `route`: its status line, then `body`.
pub fn response(route: Route, body: &[u8]) -> (r: Vec<u8>)
    requires
        status_line_of(route).len() + body@.len() <= usize::MAX,
    ensures
        r@ == response_of(route, body@),
{
    let mut out = vstd::slice::slice_to_vec(status_line(route).as_bytes());
    let ghost start = out@;
    let mut i: usize = 0;
    while i < body.len()
        invariant
            i <= body@.len(),
            out@ == start + body@.subrange(0, i as int),
        decreases body@.len() - i,
    {
        out.push(body[i]);
        assert(body@.subrange(0, i + 1) =~= body@.subrange(0, i as int).push(body@[i as int]));
        i = i + 1;
    }
    assert(body@.subrange(0, i as int) =~= body@);
    out
}

/// The root request line is not empty, and short enough to be seen whole
/// among the bytes that are read.
pub proof fn lemma_root_line_fits()
    ensures
        0 < ROOT_REQUEST_LINE.spec_bytes().len() <= READ_LIMIT,
{
    reveal_strlit("GET / HTTP/1.1\r\n");
    vstd::string::is_ascii_spec_bytes(ROOT_REQUEST_LINE);
}

/// Bytes past the read limit never change how a request is classified.
pub proof fn law_bytes_past_limit_ignored(request: Seq<u8>, rest: Seq<u8>)
    requires
        request.len() >= READ_LIMIT,
    ensures
        route_of(request + rest) == route_of(request),
        route_of(request) == route_of(request.subrange(0, READ_LIMIT as int)),
{
    assert((request + rest).subrange(0, READ_LIMIT as int) =~= request.subrange(0, READ_LIMIT as int));
    assert(read_window(request) =~= request.subrange(0, READ_LIMIT as int));
    assert(read_window(request + rest) =~= request.subrange(0, READ_LIMIT as int));
    assert(read_window(request.subrange(0, READ_LIMIT as int)) =~= request.subrange(
        0,
        READ_LIMIT as int,
    ));
}

/// A request that begins with the root request line goes to the root page,
/// whatever follows the line.
pub proof fn lemma_root_prefix_routes_root(request: Seq<u8>)
    requires
        has_prefix(request, ROOT_REQUEST_LINE.spec_bytes()),
    ensures
        route_of(request) == Route::Root,
{
    lemma_root_line_fits();
    let n = ROOT_REQUEST_LINE.spec_bytes().len() as int;
    if request.len() > READ_LIMIT {
        assert(request.subrange(0, READ_LIMIT as int).subrange(0, n) =~= request.subrange(0, n));
    }
}

} // verus!
