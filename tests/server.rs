use rust_basics::http::{
    classify, page_file, response, starts_with, status_line, Route, NOT_FOUND_PAGE,
    NOT_FOUND_STATUS_LINE, OK_STATUS_LINE, READ_LIMIT, SUCCESS_PAGE,
};
use rust_basics::session::{Action, ConnectionError, Event, Phase, Server};

fn run(server: &mut Server, event: Event) -> Action {
    assert!(server.expects(&event));
    server.step(event)
}

/// Drives one whole connection: accept, one read of `request`, then the page
/// that the server asks for, then a successful send.
fn serve(request: &[u8], success: &[u8], not_found: &[u8]) -> Option<Vec<u8>> {
    let mut server = Server::new();
    assert!(server.awaits_connection());
    match run(&mut server, Event::Accepted) {
        Action::Read(n) => assert_eq!(n, READ_LIMIT),
        other => panic!("unexpected {:?}", other),
    }
    let read = &request[..request.len().min(READ_LIMIT)];
    let route = match run(&mut server, Event::Received(read.to_vec())) {
        Action::Load(route) => route,
        Action::Abandon(ConnectionError::ReadError) => {
            assert!(server.awaits_connection());
            return None;
        }
        other => panic!("unexpected {:?}", other),
    };
    let body = match route {
        Route::Root => success,
        Route::NotFound => not_found,
    };
    let bytes = match run(&mut server, Event::Loaded(body.to_vec())) {
        Action::Send(bytes) => bytes,
        other => panic!("unexpected {:?}", other),
    };
    assert_eq!(server.phase, Phase::Writing);
    assert!(matches!(run(&mut server, Event::Sent), Action::Close));
    assert!(server.awaits_connection());
    Some(bytes)
}

fn joined(a: &str, b: &[u8]) -> Vec<u8> {
    let mut v = a.as_bytes().to_vec();
    v.extend_from_slice(b);
    v
}

#[test]
fn root_request_with_headers_gets_success_page() {
    let got = serve(b"GET / HTTP/1.1\r\nHost: x\r\n\r\n", b"<h1>hi</h1>", b"<h1>nope</h1>");
    assert_eq!(got, Some(b"HTTP/1.1 200 OK\r\n\r\n<h1>hi</h1>".to_vec()));
}

#[test]
fn other_path_gets_not_found_page() {
    let got = serve(b"GET /foo HTTP/1.1\r\n\r\n", b"<h1>hi</h1>", b"<h1>nope</h1>");
    assert_eq!(got, Some(b"HTTP/1.1 404 NOT FOUND\r\n\r\n<h1>nope</h1>".to_vec()));
}

#[test]
fn empty_read_gets_no_response() {
    assert_eq!(serve(b"", b"ok", b"missing"), None);
}

#[test]
fn malformed_and_short_requests_get_not_found() {
    for request in [&b"x"[..], b"GET / HTTP/1.0\r\n", b"GET / HTTP/1.1", b"get / HTTP/1.1\r\n", b"\0\0\0"] {
        assert_eq!(serve(request, b"ok", b"missing"), Some(joined(NOT_FOUND_STATUS_LINE, b"missing")));
    }
}

#[test]
fn root_line_alone_is_enough() {
    assert_eq!(classify(b"GET / HTTP/1.1\r\n"), Route::Root);
    assert_eq!(serve(b"GET / HTTP/1.1\r\n", b"ok", b"missing"), Some(joined(OK_STATUS_LINE, b"ok")));
}

#[test]
fn long_request_is_classified_by_its_first_bytes() {
    let mut request = b"GET / HTTP/1.1\r\n".to_vec();
    request.resize(2000, b'a');
    assert_eq!(classify(&request), Route::Root);
    assert_eq!(serve(&request, b"ok", b"missing"), Some(joined(OK_STATUS_LINE, b"ok")));
}

#[test]
fn root_line_past_the_limit_is_not_seen() {
    let mut request = vec![b' '; READ_LIMIT - 4];
    request.extend_from_slice(b"GET / HTTP/1.1\r\n");
    assert_eq!(classify(&request), Route::NotFound);
    let mut late = vec![b' '; READ_LIMIT];
    late.extend_from_slice(b"GET / HTTP/1.1\r\n");
    assert_eq!(classify(&late), Route::NotFound);
}

#[test]
fn status_lines_and_pages() {
    assert_eq!(status_line(Route::Root), "HTTP/1.1 200 OK\r\n\r\n");
    assert_eq!(status_line(Route::NotFound), "HTTP/1.1 404 NOT FOUND\r\n\r\n");
    assert_eq!(page_file(Route::Root), SUCCESS_PAGE);
    assert_eq!(page_file(Route::NotFound), NOT_FOUND_PAGE);
    assert_eq!(SUCCESS_PAGE, "hello_rust.html");
    assert_eq!(NOT_FOUND_PAGE, "404.html");
}

#[test]
fn response_keeps_body_bytes() {
    let body = [0u8, 255, 13, 10, 200];
    assert_eq!(response(Route::Root, &body), joined(OK_STATUS_LINE, &body));
    assert_eq!(response(Route::NotFound, b""), NOT_FOUND_STATUS_LINE.as_bytes().to_vec());
}

#[test]
fn starts_with_cases() {
    assert!(starts_with(b"abc", b""));
    assert!(starts_with(b"abc", b"ab"));
    assert!(starts_with(b"abc", b"abc"));
    assert!(!starts_with(b"abc", b"abcd"));
    assert!(!starts_with(b"abc", b"abd"));
    assert!(!starts_with(b"", b"a"));
}

#[test]
fn read_failure_abandons_connection() {
    let mut server = Server::new();
    run(&mut server, Event::Accepted);
    assert!(!server.awaits_connection());
    assert!(!server.expects(&Event::Accepted));
    assert!(matches!(run(&mut server, Event::ReadFailed), Action::Abandon(ConnectionError::ReadError)));
    assert!(server.awaits_connection());
}

#[test]
fn load_failure_abandons_connection() {
    let mut server = Server::new();
    run(&mut server, Event::Accepted);
    run(&mut server, Event::Received(b"GET /x HTTP/1.1\r\n".to_vec()));
    assert_eq!(server.phase, Phase::Loading(Route::NotFound));
    assert!(matches!(run(&mut server, Event::LoadFailed), Action::Abandon(ConnectionError::FileReadError)));
    assert!(server.awaits_connection());
}

#[test]
fn send_failure_abandons_connection() {
    let mut server = Server::new();
    run(&mut server, Event::Accepted);
    run(&mut server, Event::Received(b"GET / HTTP/1.1\r\n".to_vec()));
    run(&mut server, Event::Loaded(b"ok".to_vec()));
    assert!(matches!(run(&mut server, Event::SendFailed), Action::Abandon(ConnectionError::WriteError)));
    assert!(server.awaits_connection());
}

#[test]
fn connections_are_served_one_after_another() {
    let mut server = Server::new();
    for _ in 0..3 {
        assert!(server.expects(&Event::Accepted));
        run(&mut server, Event::Accepted);
        assert!(!server.expects(&Event::Accepted));
        run(&mut server, Event::Received(b"GET / HTTP/1.1\r\n".to_vec()));
        assert!(!server.expects(&Event::Accepted));
        run(&mut server, Event::Loaded(b"page".to_vec()));
        assert!(!server.expects(&Event::Accepted));
        run(&mut server, Event::Sent);
        assert!(server.expects(&Event::Accepted));
        assert!(!server.expects(&Event::Sent));
    }
}
