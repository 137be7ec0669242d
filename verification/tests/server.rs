use rustbook::guessing_game::parse_guess;
use rustbook::server::{response, route};

#[test]
fn routes_requests() {
    let r = route("GET / HTTP/1.1");
    assert_eq!((r.file_path, r.status_line, r.delay_secs), ("index.html", "HTTP/1.1 200 OK", 0));
    let r = route("GET /sleep HTTP/1.1");
    assert_eq!((r.file_path, r.status_line, r.delay_secs), ("index.html", "HTTP/1.1 200 OK", 5));
    let r = route("GET /other HTTP/1.1");
    assert_eq!(
        (r.file_path, r.status_line, r.delay_secs),
        ("404.html", "HTTP/1.1 404 NOT FOUND", 0)
    );
}

#[test]
fn builds_response() {
    assert_eq!(
        response("HTTP/1.1 200 OK", "<p>hi</p>"),
        "HTTP/1.1 200 OK\r\nContent-Length: 9\r\n\r\n<p>hi</p>"
    );
    assert_eq!(response("HTTP/1.1 200 OK", ""), "HTTP/1.1 200 OK\r\nContent-Length: 0\r\n\r\n");
    let body = "x".repeat(1234);
    let r = response("S", &body);
    assert_eq!(r, format!("S\r\nContent-Length: 1234\r\n\r\n{}", body));
    // the length counts bytes
    assert_eq!(response("S", "é"), "S\r\nContent-Length: 2\r\n\r\né");
}

#[test]
fn content_length_reads_back() {
    let body = "y".repeat(40321);
    let r = response("S", &body);
    let header_line = r.split("\r\n").nth(1).unwrap();
    let number = header_line.strip_prefix("Content-Length: ").unwrap();
    assert_eq!(parse_guess(number), Some(40321));
}
