//! One exchange with a server: what to do next, given what has come of it so far.

use super::response::{
    bad_status_message, header_views, headers_after, parse_status_line, read_headers, refusal,
    refusal_message, status_of,
};
use super::url::{parse_http_url, url_parts};
use crate::failure::Failure;
use crate::json::bridge::rendered;
use crate::json::value::{JsonTree, JsonValue};
use crate::text::number::{decimal, decimal_text};
use crate::text::space::{optional_text, views};
use vstd::prelude::*;
use vstd::utf8::encode_utf8;

verus! {

/// What has come of an exchange so far.
#[derive(Debug, Clone)]
pub struct HttpAnswers {
    /// Whether the server was reached, once that was tried.
    pub connected: Option<Result<(), String>>,
    /// Whether the request was sent, once that was tried.
    pub sent: Option<Result<(), String>>,
    /// The lines that were read, each with its line end. At the end of the stream a line is empty.
    pub lines: Vec<String>,
    /// Why no further line could be read.
    pub read_failure: Option<String>,
    /// What the server said when it refused the request, once that was read.
    pub refusal_body: Option<String>,
}

/// The head of a response.
#[derive(Debug, Clone)]
pub struct HttpHead {
    pub status: u16,
    pub headers: Vec<(String, String)>,
}

/// What to do next in an exchange.
pub enum RequestStep {
    Fail(Failure),
    Connect { host: String, port: u16 },
    Send { head: String, body: Option<String> },
    ReadLine,
    /// The request was refused: read what the server says.
    ReadRefusal,
    Done(HttpHead),
}

impl HttpAnswers {
    /// Nothing has been done yet.
    pub fn none() -> (answers: HttpAnswers)
        ensures
            answers.connected is None,
            answers.sent is None,
            answers.lines@.len() == 0,
            answers.read_failure is None,
            answers.refusal_body is None,
    {
        HttpAnswers {
            connected: None,
            sent: None,
            lines: Vec::new(),
            read_failure: None,
            refusal_body: None,
        }
    }
}

/// The headers that announce a body.
pub open spec fn body_headers(body: Option<Seq<char>>) -> Seq<char> {
    match body {
        Some(body) => "Content-Type: application/json\r\n"@ + "Content-Length: "@ + decimal(
            encode_utf8(body).len(),
        ) + "\r\n"@,
        None => Seq::empty(),
    }
}

/// The head of a request.
pub open spec fn request_text(
    method: Seq<char>,
    path: Seq<char>,
    host: Seq<char>,
    port: u16,
    body: Option<Seq<char>>,
) -> Seq<char> {
    method + " "@ + path + " HTTP/1.1\r\nHost: "@ + host + ":"@ + decimal(port as nat)
        + "\r\nConnection: close\r\nAccept: text/event-stream\r\n"@ + body_headers(body) + "\r\n"@
}

/// The head of a request.
pub fn request_head(method: &str, path: &str, host: &str, port: u16, body: Option<&str>) -> (head:
    String)
    ensures
        head@ == request_text(
            method@,
            path@,
            host@,
            port,
            match body {
                Some(body) => Some(body@),
                None => None,
            },
        ),
{
    let mut head = method.to_string().concat(" ").concat(path).concat(" HTTP/1.1\r\nHost: ").concat(
        host,
    ).concat(":").concat(decimal_text(port as u64).as_str()).concat(
        "\r\nConnection: close\r\nAccept: text/event-stream\r\n",
    );
    let ghost lead = head@;
    match body {
        Some(body) => {
            let length: usize = body.as_bytes().len();
            let fields = "Content-Type: application/json\r\n".to_string().concat(
                "Content-Length: ",
            ).concat(decimal_text(length as u64).as_str()).concat("\r\n");
            head = head.concat(fields.as_str());
        },
        None => {
            proof {
                assert(lead + Seq::<char>::empty() =~= lead);
            }
        },
    }
    head.concat("\r\n")
}

/// The text of an optional body, or why it could not be written.
pub open spec fn body_text(body: Option<JsonTree>) -> Result<Option<Seq<char>>, Seq<char>> {
    match body {
        Some(tree) => match rendered(tree) {
            Ok(text) => Ok(Some(text)),
            Err(message) => Err(message),
        },
        None => Ok(None),
    }
}

/// Whether a step is the one that follows the lines read so far.
pub open spec fn is_reading_step(step: RequestStep, answers: HttpAnswers) -> bool {
    let lines = views(answers.lines@);
    let status = status_of(lines[0]);
    let headers = headers_after(Seq::empty(), lines.skip(1));
    if lines.len() > 0 && status is None {
        step matches RequestStep::Fail(failure) && failure@ == seq![bad_status_message(lines[0])]
    } else if lines.len() == 0 || headers is None {
        match answers.read_failure {
            Some(reason) => step matches RequestStep::Fail(failure) && failure@ == seq![reason@],
            None => step is ReadLine,
        }
    } else if status->0 < 400 {
        step matches RequestStep::Done(head) && head.status == status->0 && header_views(
            head.headers@,
        ) == headers->0
    } else {
        match answers.refusal_body {
            None => step is ReadRefusal,
            Some(body) => step matches RequestStep::Fail(failure) && failure@
                == seq![refusal_message(status->0, body@)],
        }
    }
}

/// Whether a step is the one that follows what has come of an exchange so far.
pub open spec fn is_request_step(
    step: RequestStep,
    base_url: Seq<char>,
    path: Seq<char>,
    method: Seq<char>,
    body: Option<JsonTree>,
    answers: HttpAnswers,
) -> bool {
    match url_parts(base_url) {
        Err(message) => step matches RequestStep::Fail(failure) && failure@ == seq![message],
        Ok((host, port)) => match answers.connected {
            None => step matches RequestStep::Connect { host: to, port: at } && to@ == host && at
                == port,
            Some(Err(reason)) => step matches RequestStep::Fail(failure) && failure@
                == seq!["failed to connect to vLLM server at "@ + base_url, reason@],
            Some(Ok(_)) => match body_text(body) {
                Err(message) => step matches RequestStep::Fail(failure) && failure@ == seq![message],
                Ok(text) => match answers.sent {
                    None => step matches RequestStep::Send { head, body: sent } && head@
                        == request_text(method, path, host, port, text) && optional_text(sent)
                        == text,
                    Some(Err(reason)) => step matches RequestStep::Fail(failure) && failure@
                        == seq![reason@],
                    Some(Ok(_)) => is_reading_step(step, answers),
                },
            },
        },
    }
}

fn reading_step(answers: &HttpAnswers) -> (step: RequestStep)
    ensures
        is_reading_step(step, *answers),
{
    let ghost lines = views(answers.lines@);
    proof {
        assert(lines.len() == answers.lines@.len());
    }
    if answers.lines.len() > 0 {
        proof {
            assert(lines[0] == answers.lines@[0]@);
        }
        match parse_status_line(answers.lines[0].as_str()) {
            Err(failure) => {
                return RequestStep::Fail(failure);
            },
            Ok(status) => {
                let mut rest: Vec<String> = Vec::new();
                for i in 1..answers.lines.len()
                    invariant
                        lines == views(answers.lines@),
                        views(rest@) == lines.subrange(1, i as int),
                {
                    let ghost before = views(rest@);
                    rest.push(answers.lines[i].clone());
                    proof {
                        assert(views(rest@) =~= before.push(answers.lines@[i as int]@));
                    }
                }
                proof {
                    assert(lines.subrange(1, lines.len() as int) =~= lines.skip(1));
                }
                match read_headers(&rest) {
                    None => {},
                    Some(headers) => {
                        if status < 400 {
                            return RequestStep::Done(HttpHead { status, headers });
                        }
                        return match &answers.refusal_body {
                            None => RequestStep::ReadRefusal,
                            Some(body) => RequestStep::Fail(refusal(status, body.as_str())),
                        };
                    },
                }
            },
        }
    }
    match &answers.read_failure {
        Some(reason) => RequestStep::Fail(Failure::new(reason.clone())),
        None => RequestStep::ReadLine,
    }
}

/// What to do next in an exchange with the server at `base_url`.
pub fn request(
    base_url: &str,
    path: &str,
    method: &str,
    body: Option<&JsonValue>,
    answers: &HttpAnswers,
) -> (step: RequestStep)
    ensures
        is_request_step(
            step,
            base_url@,
            path@,
            method@,
            match body {
                Some(body) => Some(body.tree()),
                None => None,
            },
            *answers,
        ),
{
    let (_, host, port) = match parse_http_url(base_url) {
        Ok(parts) => parts,
        Err(failure) => {
            return RequestStep::Fail(failure);
        },
    };
    match &answers.connected {
        None => {
            return RequestStep::Connect { host, port };
        },
        Some(Err(reason)) => {
            let message = "failed to connect to vLLM server at ".to_string().concat(base_url);
            return RequestStep::Fail(Failure::because(message, reason.clone()));
        },
        Some(Ok(_)) => {},
    }
    let text = match body {
        None => None,
        Some(body) => match body.render() {
            Ok(text) => Some(text),
            Err(message) => {
                return RequestStep::Fail(Failure::new(message));
            },
        },
    };
    match &answers.sent {
        None => {
            let head = match &text {
                Some(text) => request_head(method, path, host.as_str(), port, Some(text.as_str())),
                None => request_head(method, path, host.as_str(), port, None),
            };
            RequestStep::Send { head, body: text }
        },
        Some(Err(reason)) => RequestStep::Fail(Failure::new(reason.clone())),
        Some(Ok(_)) => reading_step(answers),
    }
}

/// What to do next to get what is at a path of the server at `base_url`.
pub fn get(base_url: &str, path: &str, answers: &HttpAnswers) -> (step: RequestStep)
    ensures
        is_request_step(step, base_url@, path@, "GET"@, None, *answers),
{
    request(base_url, path, "GET", None, answers)
}

/// What to do next to send a JSON value to a path of the server at `base_url`.
pub fn post_json(base_url: &str, path: &str, body: &JsonValue, answers: &HttpAnswers) -> (step:
    RequestStep)
    ensures
        is_request_step(step, base_url@, path@, "POST"@, Some(body.tree()), *answers),
{
    request(base_url, path, "POST", Some(body), answers)
}

/// A request that the server refuses fails with what the server says, and no response comes of
/// it.
pub proof fn law_refused_request_fails(
    step: RequestStep,
    base_url: Seq<char>,
    path: Seq<char>,
    method: Seq<char>,
    body: Option<JsonTree>,
    answers: HttpAnswers,
)
    requires
        is_request_step(step, base_url, path, method, body, answers),
        url_parts(base_url) is Ok,
        body_text(body) is Ok,
        answers.connected is Some && answers.connected->0 is Ok,
        answers.sent is Some && answers.sent->0 is Ok,
        answers.lines@.len() > 0,
        status_of(views(answers.lines@)[0]) is Some,
        status_of(views(answers.lines@)[0])->0 >= 400,
    ensures
        !(step is Done),
        headers_after(Seq::empty(), views(answers.lines@).skip(1)) is Some
            && answers.refusal_body is Some ==> step is Fail && step->Fail_0@ == seq![
            refusal_message(
                status_of(views(answers.lines@)[0])->0,
                answers.refusal_body->0@,
            ),
        ],
{
}

/// A request goes to the host and port of the server's address. A response comes of it only where
/// the connection was made, the request was sent, and the head tells a status below 400; its
/// status and headers are those of the head.
pub proof fn law_response_is_that_of_the_server(
    step: RequestStep,
    base_url: Seq<char>,
    path: Seq<char>,
    method: Seq<char>,
    body: Option<JsonTree>,
    answers: HttpAnswers,
)
    requires
        is_request_step(step, base_url, path, method, body, answers),
    ensures
        url_parts(base_url) is Err ==> step is Fail,
        step matches RequestStep::Connect { host, port } ==> answers.connected is None
            && url_parts(base_url) is Ok && host@ == url_parts(base_url)->Ok_0.0 && port
            == url_parts(base_url)->Ok_0.1,
        step matches RequestStep::Done(head) ==> answers.connected is Some
            && answers.connected->0 is Ok && answers.sent is Some && answers.sent->0 is Ok
            && answers.lines@.len() > 0 && status_of(views(answers.lines@)[0]) == Some(head.status)
            && head.status < 400 && headers_after(
            Seq::empty(),
            views(answers.lines@).skip(1),
        ) == Some(header_views(head.headers@)),
        step is ReadRefusal ==> answers.lines@.len() > 0 && status_of(views(answers.lines@)[0])
            is Some && status_of(views(answers.lines@)[0])->0 >= 400
            && answers.refusal_body is None,
        step matches RequestStep::Send { head, body: sent } ==> answers.sent is None && body_text(
            body,
        ) is Ok && optional_text(sent) == body_text(body)->Ok_0 && (sent is Some <==> body is Some),
{
    assert(views(answers.lines@).len() == answers.lines@.len());
}

/// The head of a request names the method and the path first, then the host. With a body it tells
/// the number of the body's bytes, and it ends with an empty line.
pub proof fn law_head_names_the_request(
    method: Seq<char>,
    path: Seq<char>,
    host: Seq<char>,
    port: u16,
    body: Option<Seq<char>>,
)
    ensures
        ({
            let head = request_text(method, path, host, port, body);
            let lead = method + " "@ + path + " HTTP/1.1\r\nHost: "@ + host + ":"@ + decimal(
                port as nat,
            ) + "\r\n"@;
            &&& lead.len() <= head.len()
            &&& head.take(lead.len() as int) == lead
            &&& "\r\n"@.len() == 2
            &&& head.skip(head.len() - 2) == "\r\n"@
        }),
        body is Some ==> body_headers(body) == "Content-Type: application/json\r\n"@
            + "Content-Length: "@ + decimal(encode_utf8(body->0).len()) + "\r\n"@,
        body is None ==> body_headers(body).len() == 0,
{
    reveal_strlit("\r\n");
    reveal_strlit("\r\nConnection: close\r\nAccept: text/event-stream\r\n");
    let start = method + " "@ + path + " HTTP/1.1\r\nHost: "@ + host + ":"@ + decimal(port as nat);
    let head = request_text(method, path, host, port, body);
    let lead = start + "\r\n"@;
    assert(head.take(lead.len() as int) =~= lead);
    assert(head.skip(head.len() - 2) =~= "\r\n"@);
}

} // verus!
