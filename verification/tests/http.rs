use werk1112::failure::{format_error_chain, Failure};
use werk1112::http::body::{BodyEvent, BodyRead, BodyState};
use werk1112::http::request::{
    get, post_json, request, request_head, HttpAnswers, RequestStep,
};
use werk1112::http::response::{header_contains, parse_status_line, read_headers};
use werk1112::http::url::{http_url, parse_http_url};
use werk1112::json::value::JsonValue;

fn texts(items: &[&str]) -> Vec<String> {
    items.iter().map(|item| item.to_string()).collect()
}

#[test]
fn addresses_are_taken_apart() {
    let parts = parse_http_url("http://example.test:8080/v1/models").unwrap();
    assert_eq!(parts, ("http".to_string(), "example.test".to_string(), 8080));
    assert_eq!(parse_http_url("http://[::1]:9").unwrap().1, "[::1]");
    assert_eq!(
        parse_http_url("https://h:1").unwrap_err().message,
        "only http vLLM URLs are supported: https://h:1"
    );
    assert_eq!(
        parse_http_url("http://host/a:1").unwrap_err().message,
        "vLLM URL has no port: http://host/a:1"
    );
    assert_eq!(
        parse_http_url("http://host:abc").unwrap_err().message,
        "invalid digit found in string"
    );
    assert_eq!(
        parse_http_url("http://host:").unwrap_err().message,
        "cannot parse integer from empty string"
    );
    assert!(parse_http_url("http://host:65536").is_err());
}

#[test]
fn addresses_round_trip() {
    for (host, port) in [("127.0.0.1", 0), ("a:b", 65535), ("", 80)] {
        let url = http_url(host, port);
        assert_eq!(
            parse_http_url(&url).unwrap(),
            ("http".to_string(), host.to_string(), port)
        );
    }
    assert_eq!(http_url("127.0.0.1", 8000), "http://127.0.0.1:8000");
}

#[test]
fn request_heads_announce_their_body() {
    assert_eq!(
        request_head("GET", "/health", "h", 80, None),
        "GET /health HTTP/1.1\r\nHost: h:80\r\nConnection: close\r\nAccept: text/event-stream\r\n\r\n"
    );
    assert_eq!(
        request_head("POST", "/x", "h", 1, Some("{\"é\":1}")),
        "POST /x HTTP/1.1\r\nHost: h:1\r\nConnection: close\r\nAccept: text/event-stream\r\nContent-Type: application/json\r\nContent-Length: 8\r\n\r\n"
    );
}

#[test]
fn status_lines_need_a_number() {
    assert_eq!(parse_status_line("HTTP/1.1 200 OK\r\n").unwrap(), 200);
    assert_eq!(
        parse_status_line("HTTP/1.1\r\n").unwrap_err().message,
        "invalid HTTP response from vLLM server: \"HTTP/1.1\\r\\n\""
    );
    assert!(parse_status_line("HTTP/1.1 99999").is_err());
    assert!(parse_status_line("").is_err());
}

#[test]
fn headers_end_at_an_empty_line() {
    let lines = texts(&["Content-Type: Text/Plain\r\n", "junk\r\n", "X-A :  b:c \r\n", "\r\n", "Y: z"]);
    let headers = read_headers(&lines).unwrap();
    assert_eq!(
        headers,
        vec![
            ("content-type".to_string(), "Text/Plain".to_string()),
            ("x-a".to_string(), "b:c".to_string())
        ]
    );
    assert!(read_headers(&lines[..3]).is_none());
    assert_eq!(read_headers(&texts(&[""])).unwrap(), Vec::new());
    assert!(header_contains(&headers, "CONTENT-TYPE", "text"));
    assert!(!header_contains(&headers, "content-type", "json"));
    assert!(!header_contains(&headers, "missing", "text"));
}

#[test]
fn exchange_runs_from_connecting_to_the_head() {
    let url = "http://h:7";
    let mut answers = HttpAnswers::none();
    assert!(matches!(
        get("ftp://h:7", "/p", &answers),
        RequestStep::Fail(failure) if failure.message == "only http vLLM URLs are supported: ftp://h:7"
    ));
    assert!(matches!(
        get(url, "/p", &answers),
        RequestStep::Connect { ref host, port: 7 } if host == "h"
    ));
    answers.connected = Some(Err("refused".to_string()));
    match get(url, "/p", &answers) {
        RequestStep::Fail(failure) => {
            assert_eq!(failure.message, "failed to connect to vLLM server at http://h:7");
            assert_eq!(failure.causes, vec!["refused"]);
        }
        _ => panic!("no connection fails"),
    }
    answers.connected = Some(Ok(()));
    let body = JsonValue::Object(vec![("a".to_string(), JsonValue::Unsigned(1))]);
    match post_json(url, "/p", &body, &answers) {
        RequestStep::Send { head, body } => {
            assert!(head.starts_with("POST /p HTTP/1.1\r\n"));
            assert!(head.contains("Content-Length: 7\r\n"));
            assert_eq!(body.as_deref(), Some("{\"a\":1}"));
        }
        _ => panic!("the request is sent"),
    }
    answers.sent = Some(Err("broken pipe".to_string()));
    assert!(matches!(
        get(url, "/p", &answers),
        RequestStep::Fail(failure) if failure.message == "broken pipe"
    ));
    answers.sent = Some(Ok(()));
    assert!(matches!(get(url, "/p", &answers), RequestStep::ReadLine));
    answers.lines = texts(&["HTTP/1.1 200 OK\r\n", "A: b\r\n"]);
    assert!(matches!(get(url, "/p", &answers), RequestStep::ReadLine));
    answers.read_failure = Some("reset".to_string());
    assert!(matches!(
        get(url, "/p", &answers),
        RequestStep::Fail(failure) if failure.message == "reset"
    ));
    answers.lines.push("\r\n".to_string());
    match request(url, "/p", "GET", None, &answers) {
        RequestStep::Done(head) => {
            assert_eq!(head.status, 200);
            assert_eq!(head.headers, vec![("a".to_string(), "b".to_string())]);
        }
        _ => panic!("the head is complete"),
    }
    answers.lines[0] = "oops\n".to_string();
    assert!(matches!(get(url, "/p", &answers), RequestStep::Fail(_)));
}

#[test]
fn refused_requests_fail_with_what_the_server_says() {
    let mut answers = HttpAnswers::none();
    answers.connected = Some(Ok(()));
    answers.sent = Some(Ok(()));
    answers.lines = texts(&["HTTP/1.1 404 Not Found\r\n", "\r\n"]);
    assert!(matches!(get("http://h:1", "/p", &answers), RequestStep::ReadRefusal));
    answers.refusal_body = Some("  no such model \n".to_string());
    match get("http://h:1", "/p", &answers) {
        RequestStep::Fail(failure) => assert_eq!(failure.message, "vLLM HTTP 404: no such model"),
        _ => panic!("a refused request fails"),
    }
}

fn read_body(headers: &[(String, String)], events: Vec<BodyEvent>) -> Result<(BodyState, Vec<u8>), Failure> {
    let mut state = BodyState::start(headers);
    let mut body = Vec::new();
    for event in events {
        let (next, bytes) = state.accept(event)?;
        state = next;
        body.extend(bytes);
    }
    Ok((state, body))
}

#[test]
fn chunked_bodies_are_read_whole() {
    let headers = vec![("transfer-encoding".to_string(), "gzip, Chunked".to_string())];
    assert_eq!(BodyState::start(&headers), BodyState::Size);
    let (state, body) = read_body(
        &headers,
        vec![
            BodyEvent::Line("3;name=x\r\n".to_string()),
            BodyEvent::Bytes(b"abc".to_vec()),
            BodyEvent::Bytes(b"\r\n".to_vec()),
            BodyEvent::Line(" A \r\n".to_string()),
            BodyEvent::Bytes(b"0123456789".to_vec()),
            BodyEvent::Bytes(b"\r\n".to_vec()),
            BodyEvent::Line("0\r\n".to_string()),
        ],
    )
    .unwrap();
    assert_eq!(state, BodyState::Complete);
    assert_eq!(body, b"abc0123456789");
    assert_eq!(BodyState::Size.next_read(), BodyRead::Line);
    assert_eq!(BodyState::Chunk(3).next_read(), BodyRead::Exactly(3));
    assert_eq!(BodyState::ChunkEnd.next_read(), BodyRead::Exactly(2));
    assert_eq!(BodyState::Complete.next_read(), BodyRead::Nothing);
    let failure =
        read_body(&headers, vec![BodyEvent::Line("xyz;1\r\n".to_string())]).unwrap_err();
    assert_eq!(failure.message, "invalid chunk size from vLLM: xyz");
    assert_eq!(failure.causes, vec!["invalid digit found in string"]);
    let failure = read_body(&headers, vec![BodyEvent::Failed("eof".to_string())]).unwrap_err();
    assert_eq!(failure.message, "eof");
}

#[test]
fn plain_bodies_end_with_the_stream() {
    assert_eq!(BodyState::start(&[]), BodyState::Plain);
    assert_eq!(BodyState::Plain.next_read(), BodyRead::Available);
    let (state, body) = read_body(
        &[],
        vec![
            BodyEvent::Bytes(b"ab".to_vec()),
            BodyEvent::Bytes(b"c".to_vec()),
            BodyEvent::Bytes(Vec::new()),
        ],
    )
    .unwrap();
    assert_eq!(state, BodyState::Complete);
    assert_eq!(body, b"abc");
}

#[test]
fn error_chains_leave_out_repeats() {
    let error = anyhow::Error::msg("inner").context("inner").context("outer");
    let messages: Vec<String> = error.chain().map(|cause| cause.to_string()).collect();
    assert_eq!(format_error_chain(&messages), "outer: inner");
    assert_eq!(format_error_chain(&["only".to_string()]), "only");
    assert_eq!(format_error_chain(&[]), "");
    let failure = Failure::because("inner".to_string(), "inner".to_string());
    assert_eq!(failure.format_chain(), "inner");
    assert_eq!(failure.under("top".to_string()).format_chain(), "top: inner");
    let twice = Failure::because("a".to_string(), "b".to_string()).under("a".to_string());
    assert_eq!(twice.format_chain(), "a: b");
    assert_eq!(twice.copied().causes, vec!["a", "b"]);
}
