use static_http::config::Config;
use static_http::head::ResponseHead;
use static_http::mime::MineType;
use static_http::proxy::{file_head, Proxy, TextProxy};
use static_http::request::{LineOutcome, ReadState, Request};
use static_http::resolve::NOT_FOUND_TEXT;
use static_http::resolve::{next_source, not_found_text, resolve_path, SourceChoice};
use static_http::response::{response, stream_body, Sink};
use static_http::status::HttpStatus;
use static_http::text::{ends_with, split_at_colon};

fn config_with(pages: Vec<(&str, &str)>) -> Config {
    Config {
        host: "127.0.0.1".to_string(),
        port: 8080,
        home_page: "index.html".to_string(),
        root_dir: "/srv/www".to_string(),
        error_pages: pages.into_iter().map(|(k, v)| (k.to_string(), v.to_string())).collect(),
    }
}

fn fields(head: &ResponseHead) -> Vec<(String, String)> {
    head.headers.clone()
}

/// A source over bytes held in the test, with the head of a file of that length.
struct BytesSource {
    path: String,
    data: Vec<u8>,
    pos: usize,
    status: HttpStatus,
}

impl Proxy for BytesSource {
    fn read(&mut self, buf: &mut [u8]) -> std::io::Result<usize> {
        let n = std::cmp::min(buf.len(), self.data.len() - self.pos);
        buf[..n].copy_from_slice(&self.data[self.pos..self.pos + n]);
        self.pos += n;
        Ok(n)
    }

    fn write(&mut self, _buf: &[u8]) -> std::io::Result<usize> {
        Err(std::io::Error::new(std::io::ErrorKind::Unsupported, "read-only"))
    }

    fn get_head(&self) -> std::io::Result<ResponseHead> {
        Ok(file_head(&self.path, self.data.len() as u64, self.status))
    }
}

#[test]
fn status_codes_and_reasons() {
    assert_eq!(HttpStatus::OK.code(), 200);
    assert_eq!(HttpStatus::OK.string(), "OK");
    assert_eq!(HttpStatus::NotFound.code(), 404);
    assert_eq!(HttpStatus::NotFound.string(), "Not Found");
    assert_eq!(HttpStatus::NoContent.code(), 204);
    assert_eq!(HttpStatus::NoContent.string(), "No Content");
    assert_eq!(HttpStatus::MethodNotAllowed.code(), 405);
    assert_eq!(HttpStatus::MethodNotAllowed.string(), "Method Not Allowed");
    assert_eq!(HttpStatus::InternalServerError.code(), 500);
    assert_eq!(HttpStatus::InternalServerError.string(), "Internal Server Error");
    assert_eq!(HttpStatus::ServiceUnavailable.code(), 503);
    assert_eq!(HttpStatus::ServiceUnavailable.string(), "Service Unavailable");
}

#[test]
fn mime_by_suffix() {
    assert_eq!(MineType::from_path("/a/b.svg"), MineType::Svg);
    assert_eq!(MineType::from_path("/a/b.svg").to_string(), "image/svg+xml");
    assert_eq!(MineType::from_path("/x.bin").to_string(), "application/octet-stream");
    assert_eq!(MineType::from_path("/index.html").to_string(), "text/html");
    assert_eq!(MineType::from_path("/s.css").to_string(), "text/css");
    assert_eq!(MineType::from_path("/app.js").to_string(), "text/javascript");
    assert_eq!(MineType::from_path("/p.jpg").to_string(), "image/jpeg");
    assert_eq!(MineType::from_path("/p.png").to_string(), "image/png");
    assert_eq!(MineType::from_path("/p.gif").to_string(), "image/gif");
    assert_eq!(MineType::from_path("").to_string(), "application/octet-stream");
    assert_eq!(MineType::from_path("/html").to_string(), "application/octet-stream");
    assert_eq!(MineType::from_path("/a.html.bak").to_string(), "application/octet-stream");
}

fn drain(p: &mut TextProxy, size: usize) -> (Vec<u8>, usize) {
    let mut out = Vec::new();
    let mut buf = vec![0u8; size];
    let mut reads = 0;
    loop {
        let n = p.read(&mut buf).unwrap();
        reads += 1;
        if n == 0 {
            break;
        }
        assert!(n <= size);
        out.extend_from_slice(&buf[..n]);
    }
    (out, reads)
}

#[test]
fn text_source_reads_back_its_text() {
    let text = "hello, content source".to_string();
    for size in [1usize, 3, 5, 21, 100] {
        let mut p = TextProxy::new(&text, HttpStatus::OK);
        let (out, reads) = drain(&mut p, size);
        assert_eq!(out, text.as_bytes());
        assert_eq!(reads, (text.len() + size - 1) / size + 1);
        let (again, again_reads) = drain(&mut p, size);
        assert!(again.is_empty());
        assert_eq!(again_reads, 1);
    }
}

#[test]
fn text_source_chunks_are_bounded_by_buffer() {
    let mut p = TextProxy::new(&"abcdefg".to_string(), HttpStatus::OK);
    let mut buf = [0u8; 3];
    assert_eq!(p.read(&mut buf).unwrap(), 3);
    assert_eq!(&buf, b"abc");
    assert_eq!(p.read(&mut buf).unwrap(), 3);
    assert_eq!(&buf, b"def");
    assert_eq!(p.read(&mut buf).unwrap(), 1);
    assert_eq!(buf[0], b'g');
    assert_eq!(p.read(&mut buf).unwrap(), 0);
}

#[test]
fn empty_text_source() {
    let mut p = TextProxy::new(&String::new(), HttpStatus::NoContent);
    let mut buf = [0u8; 4];
    assert_eq!(p.read(&mut buf).unwrap(), 0);
    let head = p.get_head().unwrap();
    assert_eq!(head.headers[0], ("Content-Length".to_string(), "0".to_string()));
}

#[test]
fn text_source_refuses_writes() {
    let mut p = TextProxy::new(&"abc".to_string(), HttpStatus::OK);
    assert!(p.write(b"x").is_err());
    let mut buf = [0u8; 8];
    assert_eq!(p.read(&mut buf).unwrap(), 3);
}

#[test]
fn text_source_head() {
    let p = TextProxy::new(&"héllo".to_string(), HttpStatus::Forbidden);
    let head = p.get_head().unwrap();
    assert_eq!(head.version, "HTTP/1.1");
    assert_eq!(head.status, HttpStatus::Forbidden);
    assert_eq!(
        fields(&head),
        vec![
            ("Content-Length".to_string(), "6".to_string()),
            ("Content-Type".to_string(), "text/plain".to_string()),
        ]
    );
}

#[test]
fn file_head_fields() {
    let head = file_head("/srv/www/logo.png", 1234567, HttpStatus::OK);
    assert_eq!(head.version, "HTTP/1.1");
    assert_eq!(head.status, HttpStatus::OK);
    assert_eq!(
        fields(&head),
        vec![
            ("Content-Length".to_string(), "1234567".to_string()),
            ("Content-Type".to_string(), "image/png".to_string()),
        ]
    );
    let empty = file_head("/srv/www/none", 0, HttpStatus::NotFound);
    assert_eq!(empty.headers[0].1, "0");
    assert_eq!(empty.headers[1].1, "application/octet-stream");
}

#[test]
fn head_wire_form() {
    let head = file_head("/a.css", 42, HttpStatus::OK);
    assert_eq!(
        head.serialize(),
        "HTTP/1.1 200 OK\r\nContent-Length: 42\r\nContent-Type: text/css\r\n\r\n"
    );
    let bare = ResponseHead { version: "HTTP/1.1".to_string(), status: HttpStatus::BadGateway, headers: vec![] };
    assert_eq!(bare.serialize(), "HTTP/1.1 502 Bad Gateway\r\n\r\n");
}

#[test]
fn literal_not_found_response() {
    let mut p = not_found_text();
    let mut sink = Vec::new();
    let head = response(&mut sink, &mut p).unwrap();
    assert_eq!(head.status, HttpStatus::NotFound);
    assert_eq!(
        String::from_utf8(sink).unwrap(),
        "HTTP/1.1 404 Not Found\r\nContent-Length: 13\r\nContent-Type: text/plain\r\n\r\n404 Not Found"
    );
}

#[test]
fn response_keeps_what_sink_held() {
    let mut p = TextProxy::new(&"body".to_string(), HttpStatus::Created);
    let mut sink = b"prefix|".to_vec();
    response(&mut sink, &mut p).unwrap();
    assert_eq!(
        String::from_utf8(sink).unwrap(),
        "prefix|HTTP/1.1 201 Created\r\nContent-Length: 4\r\nContent-Type: text/plain\r\n\r\nbody"
    );
}

#[test]
fn response_streams_long_bodies_whole() {
    let text: String = (0..3000).map(|i| char::from(b'a' + (i % 26) as u8)).collect();
    let mut p = TextProxy::new(&text, HttpStatus::OK);
    let mut sink = Vec::new();
    response(&mut sink, &mut p).unwrap();
    let head = "HTTP/1.1 200 OK\r\nContent-Length: 3000\r\nContent-Type: text/plain\r\n\r\n";
    assert_eq!(sink.len(), head.len() + 3000);
    assert_eq!(&sink[head.len()..], text.as_bytes());
}

#[test]
fn stream_body_with_small_buffer() {
    let mut p = TextProxy::new(&"0123456789".to_string(), HttpStatus::OK);
    let mut sink = Vec::new();
    let mut buf = [0u8; 4];
    stream_body(&mut sink, &mut p, &mut buf).unwrap();
    assert_eq!(sink, b"0123456789");
    let mut more = [0u8; 4];
    assert_eq!(p.read(&mut more).unwrap(), 0);
}

#[test]
fn end_to_end_index_html() {
    let config = config_with(vec![("404", "/404.html")]);
    let mut req = Request::new();
    assert_eq!(req.feed_line("GET /index.html HTTP/1.1"), LineOutcome::Continue);
    assert_eq!(req.feed_line(""), LineOutcome::Complete);
    let target = req.path.clone().unwrap();
    let path = match next_source(&config, &target, 0) {
        SourceChoice::OpenFile { path, status } => {
            assert_eq!(status, HttpStatus::OK);
            path
        }
        SourceChoice::Literal(_) => panic!("the requested file comes first"),
    };
    assert_eq!(path, "/srv/www/index.html");
    let mut source = BytesSource { path, data: b"<p>hi</p>\n".to_vec(), pos: 0, status: HttpStatus::OK };
    let mut sink = Vec::new();
    let head = response(&mut sink, &mut source).unwrap();
    assert_eq!(head.status.code(), 200);
    assert_eq!(
        String::from_utf8(sink).unwrap(),
        "HTTP/1.1 200 OK\r\nContent-Length: 10\r\nContent-Type: text/html\r\n\r\n<p>hi</p>\n"
    );
}

#[test]
fn fallback_to_configured_error_page() {
    let config = config_with(vec![("500", "/500.html"), ("404", "/errors/404.html")]);
    match next_source(&config, "/missing.html", 1) {
        SourceChoice::OpenFile { path, status } => {
            assert_eq!(path, "/srv/www/errors/404.html");
            assert_eq!(status, HttpStatus::NotFound);
            let mut source = BytesSource { path, data: b"gone".to_vec(), pos: 0, status };
            let mut sink = Vec::new();
            response(&mut sink, &mut source).unwrap();
            assert_eq!(
                String::from_utf8(sink).unwrap(),
                "HTTP/1.1 404 Not Found\r\nContent-Length: 4\r\nContent-Type: text/html\r\n\r\ngone"
            );
        }
        SourceChoice::Literal(_) => panic!("a 404 page is configured"),
    }
}

#[test]
fn fallback_to_literal_text() {
    let config = config_with(vec![("404", "/404.html")]);
    match next_source(&config, "/missing.html", 2) {
        SourceChoice::Literal(mut p) => {
            let head = p.get_head().unwrap();
            assert_eq!(head.status, HttpStatus::NotFound);
            assert_eq!(head.headers[1].1, "text/plain");
            let mut buf = [0u8; 64];
            let n = p.read(&mut buf).unwrap();
            assert_eq!(&buf[..n], b"404 Not Found");
        }
        SourceChoice::OpenFile { .. } => panic!("both files failed"),
    }
    let none = config_with(vec![]);
    assert!(matches!(next_source(&none, "/missing.html", 1), SourceChoice::Literal(_)));
}

#[test]
fn resolve_appends_home_page_once() {
    let config = config_with(vec![]);
    assert_eq!(resolve_path(&config, "/"), "/srv/www/index.html");
    assert_eq!(resolve_path(&config, "/docs/"), "/srv/www/docs/index.html");
    assert_eq!(resolve_path(&config, "/docs"), "/srv/www/docs");
    assert_eq!(resolve_path(&config, "/index.html"), "/srv/www/index.html");
}

#[test]
fn error_page_lookup() {
    let config = config_with(vec![("404", "/a.html"), ("500", "/c.html")]);
    assert_eq!(config.error_page("404"), Some("/a.html".to_string()));
    assert_eq!(config.error_page("500"), Some("/c.html".to_string()));
    assert_eq!(config.error_page("403"), None);
}

#[test]
fn request_line_is_three_tokens() {
    let mut req = Request::new();
    assert_eq!(req.feed_line("GET  /a/b.html\tHTTP/1.1 "), LineOutcome::Continue);
    assert_eq!(req.state, ReadState::Headers);
    assert_eq!(req.method.as_deref(), Some("GET"));
    assert_eq!(req.path.as_deref(), Some("/a/b.html"));
    assert_eq!(req.version.as_deref(), Some("HTTP/1.1"));
}

#[test]
fn request_line_with_other_token_counts_fails() {
    for line in ["GET /", "GET / HTTP/1.1 extra", "", "   "] {
        let mut req = Request::new();
        assert_eq!(req.feed_line(line), LineOutcome::InvalidRequestLine);
        assert_eq!(req.state, ReadState::RequestLine);
        assert!(req.method.is_none());
    }
}

#[test]
fn header_splits_at_first_colon() {
    let mut req = Request::new();
    req.feed_line("GET / HTTP/1.1");
    assert_eq!(req.feed_line("Host: example.com:8080"), LineOutcome::Continue);
    assert_eq!(req.feed_line("X-Empty:"), LineOutcome::Continue);
    assert_eq!(req.feed_line("Host: again"), LineOutcome::Continue);
    assert_eq!(
        req.headers,
        vec![
            ("Host".to_string(), " example.com:8080".to_string()),
            ("X-Empty".to_string(), "".to_string()),
            ("Host".to_string(), " again".to_string()),
        ]
    );
}

#[test]
fn header_without_colon_fails() {
    let mut req = Request::new();
    req.feed_line("GET / HTTP/1.1");
    assert_eq!(req.feed_line("Host example.com"), LineOutcome::InvalidHeader);
    assert_eq!(req.state, ReadState::Headers);
    assert!(req.headers.is_empty());
}

#[test]
fn only_the_empty_line_completes() {
    let mut req = Request::new();
    assert_eq!(req.feed_line(""), LineOutcome::InvalidRequestLine);
    req.feed_line("GET / HTTP/1.1");
    assert_eq!(req.feed_line(" "), LineOutcome::InvalidHeader);
    assert_eq!(req.state, ReadState::Headers);
    assert_eq!(req.feed_line(""), LineOutcome::Complete);
    assert_eq!(req.state, ReadState::Done);
    assert_eq!(req.feed_line("Host: late"), LineOutcome::NotImplemented);
    assert_eq!(req.feed_line(""), LineOutcome::NotImplemented);
    assert!(req.headers.is_empty());
    assert_eq!(req.state, ReadState::Done);
}

#[test]
fn not_found_text_in_five_byte_reads() {
    let mut p = TextProxy::new(&NOT_FOUND_TEXT.to_string(), HttpStatus::NotFound);
    let mut b = [0u8; 5];
    assert_eq!(p.read(&mut b).unwrap(), 5);
    assert_eq!(&b, b"404 N");
    let mut b = [0u8; 5];
    assert_eq!(p.read(&mut b).unwrap(), 5);
    assert_eq!(&b, b"ot Fo");
    let mut b = [0u8; 5];
    assert_eq!(p.read(&mut b).unwrap(), 3);
    assert_eq!(&b, b"und\0\0");
    let mut b = [0u8; 5];
    assert_eq!(p.read(&mut b).unwrap(), 0);
    assert_eq!(b, [0u8; 5]);
}

#[test]
fn text_read_leaves_rest_of_buffer() {
    let mut p = TextProxy::new(&"ab".to_string(), HttpStatus::OK);
    let mut b = [9u8; 6];
    assert_eq!(p.read(&mut b).unwrap(), 2);
    assert_eq!(b, [b'a', b'b', 9, 9, 9, 9]);
    let mut empty: [u8; 0] = [];
    assert_eq!(p.read(&mut empty).unwrap(), 0);
    assert_eq!(p.read(&mut b).unwrap(), 0);
    assert_eq!(b, [b'a', b'b', 9, 9, 9, 9]);
}

#[test]
fn text_read_with_empty_buffer_takes_nothing() {
    let mut p = TextProxy::new(&"xyz".to_string(), HttpStatus::OK);
    let mut empty: [u8; 0] = [];
    assert_eq!(p.read(&mut empty).unwrap(), 0);
    let mut b = [0u8; 3];
    assert_eq!(p.read(&mut b).unwrap(), 3);
    assert_eq!(&b, b"xyz");
}

#[test]
fn take_request_line_counts_tokens() {
    let mut req = Request::new();
    assert_eq!(req.take_request_line(vec!["GET".to_string(), "/".to_string()]), LineOutcome::InvalidRequestLine);
    assert_eq!(req.state, ReadState::RequestLine);
    assert!(req.method.is_none());
    let tokens = vec!["POST".to_string(), "/form".to_string(), "HTTP/1.0".to_string()];
    assert_eq!(req.take_request_line(tokens), LineOutcome::Continue);
    assert_eq!(req.state, ReadState::Headers);
    assert_eq!(req.method.as_deref(), Some("POST"));
    assert_eq!(req.path.as_deref(), Some("/form"));
    assert_eq!(req.version.as_deref(), Some("HTTP/1.0"));
}

#[test]
fn response_reports_failed_head() {
    struct Broken;
    impl Proxy for Broken {
        fn read(&mut self, _buf: &mut [u8]) -> std::io::Result<usize> {
            Err(std::io::Error::new(std::io::ErrorKind::Other, "broken"))
        }
        fn write(&mut self, _buf: &[u8]) -> std::io::Result<usize> {
            Err(std::io::Error::new(std::io::ErrorKind::Unsupported, "read-only"))
        }
        fn get_head(&self) -> std::io::Result<ResponseHead> {
            Err(std::io::Error::new(std::io::ErrorKind::Other, "no head"))
        }
    }
    let mut sink = b"kept".to_vec();
    assert!(response(&mut sink, &mut Broken).is_err());
    assert_eq!(sink, b"kept");
}

/// A sink that takes `room` bytes and then refuses.
struct Cramped {
    taken: Vec<u8>,
    room: usize,
    sends: usize,
}

impl Sink for Cramped {
    fn send_bytes(&mut self, bytes: &[u8]) -> std::io::Result<()> {
        self.sends += 1;
        if self.taken.len() + bytes.len() > self.room {
            let fit = self.room - self.taken.len();
            self.taken.extend_from_slice(&bytes[..fit]);
            return Err(std::io::Error::new(std::io::ErrorKind::WriteZero, "full"));
        }
        self.taken.extend_from_slice(bytes);
        Ok(())
    }

    fn flush_sink(&mut self) -> std::io::Result<()> {
        Ok(())
    }
}

#[test]
fn response_stops_at_failed_send() {
    let text: String = "z".repeat(2500);
    let mut p = TextProxy::new(&text, HttpStatus::OK);
    let head = "HTTP/1.1 200 OK\r\nContent-Length: 2500\r\nContent-Type: text/plain\r\n\r\n";
    let mut sink = Cramped { taken: Vec::new(), room: head.len() + 1500, sends: 0 };
    assert!(response(&mut sink, &mut p).is_err());
    assert_eq!(sink.sends, 3);
    assert_eq!(sink.taken.len(), head.len() + 1500);
    assert_eq!(&sink.taken[..head.len()], head.as_bytes());
}

#[test]
fn response_to_roomy_sink_sends_head_then_chunks() {
    let text: String = "q".repeat(2100);
    let mut p = TextProxy::new(&text, HttpStatus::OK);
    let mut sink = Cramped { taken: Vec::new(), room: 1 << 20, sends: 0 };
    let head = response(&mut sink, &mut p).unwrap();
    assert_eq!(head.status, HttpStatus::OK);
    assert_eq!(sink.sends, 4);
    assert!(sink.taken.ends_with(text.as_bytes()));
}

#[test]
fn suffix_and_colon_helpers() {
    assert!(ends_with("/docs/", "/"));
    assert!(!ends_with("/docs", "/"));
    assert!(ends_with("abc", ""));
    assert!(!ends_with("", "/"));
    assert!(ends_with("é.svg", ".svg"));
    assert_eq!(split_at_colon("a:b:c"), Some(("a".to_string(), "b:c".to_string())));
    assert_eq!(split_at_colon(":x"), Some(("".to_string(), "x".to_string())));
    assert_eq!(split_at_colon("none"), None);
}
