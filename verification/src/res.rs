//! The answer that a handler gives: a status, a message, and either the error
//! behind a failure or a body that stands in for everything else.
//!
//! An answer without a body of its own is sent as a JSON object with the key
//! `message` and, where there is an error, the key `error`.
use vstd::prelude::*;
use vstd::string::StringExecFns;
use crate::text::owned;

verus! {

/// `serde_json::Error`, the error of the JSON library: carried through as it
/// is, nothing is known of what it holds.
#[verifier::external_type_specification]
#[verifier::external_body]
pub struct ExJsonError(serde_json::Error);

/// `reqwest::Error`, the error of the HTTP client: carried through as it is,
/// nothing is known of what it holds.
#[verifier::external_type_specification]
#[verifier::external_body]
pub struct ExHttpError(reqwest::Error);

/// The character of a hexadecimal digit, in lower case.
pub open spec fn hex_digit(d: int) -> char {
    seq!['0', '1', '2', '3', '4', '5', '6', '7', '8', '9', 'a', 'b', 'c', 'd', 'e', 'f'][d]
}

/// A character as it stands inside a JSON string: the quote, the
/// backslash and the control characters escaped, every other character as
/// it is.
pub open spec fn escaped(c: char) -> Seq<char> {
    if c == '"' {
        seq!['\\', '"']
    } else if c == '\\' {
        seq!['\\', '\\']
    } else if c == '\u{8}' {
        seq!['\\', 'b']
    } else if c == '\t' {
        seq!['\\', 't']
    } else if c == '\n' {
        seq!['\\', 'n']
    } else if c == '\u{c}' {
        seq!['\\', 'f']
    } else if c == '\r' {
        seq!['\\', 'r']
    } else if (c as u32) < 0x20 {
        seq![
            '\\',
            'u',
            '0',
            '0',
            hex_digit((c as u32) as int / 16),
            hex_digit((c as u32) as int % 16),
        ]
    } else {
        seq![c]
    }
}

/// The characters of a text as they stand inside a JSON string.
pub open spec fn escaped_text(text: Seq<char>) -> Seq<char>
    decreases text.len(),
{
    if text.len() == 0 {
        Seq::empty()
    } else {
        escaped_text(text.drop_last()) + escaped(text.last())
    }
}

/// The JSON text of a string: the string between double quotes, with the
/// characters escaped that JSON wants escaped.
pub open spec fn json_string(text: Seq<char>) -> Seq<char> {
    seq!['"'] + escaped_text(text) + seq!['"']
}

/// `serde_json::to_string` on a string slice. Not proved: that it returns
/// `Ok`, with the JSON text of the string, escaped as `escaped` says. It
/// fails only where the writer fails, the value refuses to be written, or a
/// map has a key that is no string; it writes into memory, and a string is
/// none of these.
#[verifier::external_body]
fn to_json_string(text: &str) -> (r: Result<String, serde_json::Error>)
    ensures
        r is Ok,
        r matches Ok(json) ==> json@ == json_string(text@),
{
    serde_json::to_string(text)
}

/// An answer to a request.
#[derive(Debug, Clone, PartialEq, Eq)]
pub struct Res {
    status: u16,
    message: String,
    error: String,
    body: String,
}

pub struct ResView {
    pub status: int,
    pub message: Seq<char>,
    pub error: Seq<char>,
    pub body: Seq<char>,
}

impl View for Res {
    type V = ResView;

    closed spec fn view(&self) -> ResView {
        ResView {
            status: self.status as int,
            message: self.message@,
            error: self.error@,
            body: self.body@,
        }
    }
}

/// What is sent for an answer: its status, the headers that let a browser
/// read it, and the body as text.
#[derive(Debug, Clone, PartialEq, Eq)]
pub struct Response {
    pub status: u16,
    pub headers: Vec<(String, String)>,
    pub body: String,
    /// Whether the answer reports a failure, and belongs in the error log.
    pub failed: bool,
}

/// The JSON object of a message and, where there is one, an error, each
/// given as JSON text.
pub open spec fn framed(message_json: Seq<char>, error_json: Option<Seq<char>>) -> Seq<char> {
    match error_json {
        Some(error) => "{\"message\":"@ + message_json + ",\"error\":"@ + error + "}"@,
        None => "{\"message\":"@ + message_json + "}"@,
    }
}

/// The body that is sent for an answer: its own body where it has one, else
/// the JSON object of its message and error.
pub open spec fn response_text(res: ResView) -> Seq<char> {
    if res.body.len() > 0 {
        res.body
    } else if res.error.len() > 0 {
        framed(json_string(res.message), Some(json_string(res.error)))
    } else {
        framed(json_string(res.message), None)
    }
}

/// The headers of every answer.
pub open spec fn cors_headers_spec() -> Seq<(Seq<char>, Seq<char>)> {
    seq![
        ("Access-Control-Allow-Origin"@, "https://holdcrypt.com"@),
        ("Access-Control-Allow-Methods"@, "*"@),
        ("Access-Control-Allow-Headers"@, "*"@),
    ]
}

/// Puts a message and an error, each already JSON text, into one JSON object.
pub fn frame(message_json: &str, error_json: Option<&str>) -> (r: String)
    ensures
        r@ == framed(
            message_json@,
            match error_json {
                Some(e) => Some(e@),
                None => None,
            },
        ),
{
    let mut text = owned("{\"message\":");
    text.append(message_json);
    match error_json {
        Some(error) => {
            text.append(",\"error\":");
            text.append(error);
        },
        None => {},
    }
    text.append("}");
    text
}

/// The headers of every answer: they let the site's pages read it.
pub fn cors_headers() -> (r: Vec<(String, String)>)
    ensures
        r.deep_view() == cors_headers_spec(),
{
    let mut headers: Vec<(String, String)> = Vec::new();
    headers.push((owned("Access-Control-Allow-Origin"), owned("https://holdcrypt.com")));
    headers.push((owned("Access-Control-Allow-Methods"), owned("*")));
    headers.push((owned("Access-Control-Allow-Headers"), owned("*")));
    assert(headers.deep_view() =~= cors_headers_spec());
    headers
}

impl Default for Res {
    fn default() -> (r: Res)
        ensures
            r@ == (ResView {
                status: 0,
                message: Seq::empty(),
                error: Seq::empty(),
                body: Seq::empty(),
            }),
    {
        Res { status: 0, message: String::new(), error: String::new(), body: String::new() }
    }
}

impl Res {
    /// An answer with every part given.
    fn with(status: u16, message: String, error: String, body: String) -> (r: Res)
        ensures
            r@ == (ResView { status: status as int, message: message@, error: error@, body: body@ }),
    {
        Res { status, message, error, body }
    }

    /// Success, reported with a message.
    pub fn ok(message: &str) -> (r: Res)
        ensures
            r@ == (ResView {
                status: 200,
                message: message@,
                error: Seq::empty(),
                body: Seq::empty(),
            }),
    {
        Res::with(200, owned(message), String::new(), String::new())
    }

    /// Success, answered with a body that the caller has serialised.
    pub fn ok_body(body: &str) -> (r: Res)
        ensures
            r@ == (ResView {
                status: 200,
                message: Seq::empty(),
                error: Seq::empty(),
                body: body@,
            }),
    {
        Res::with(200, String::new(), String::new(), owned(body))
    }

    /// The request's body is not the JSON that was asked for: the answer
    /// carries the parser's own account of the error.
    pub fn parse_body_error(error: serde_json::Error) -> (r: Res)
        ensures
            r@.status == 400,
            r@.message == "failed to parse json body"@,
            r@.body == Seq::<char>::empty(),
            exists|text: String|
                vstd::string::to_string_from_display_ensures::<serde_json::Error>(&error, text)
                    && r@.error == text@,
    {
        let text = error.to_string();
        Res::with(400, owned("failed to parse json body"), text, String::new())
    }

    /// The caller asked for something that cannot be done as asked; the
    /// message says what.
    pub fn bad_request(message: &str) -> (r: Res)
        ensures
            r@ == (ResView {
                status: 400,
                message: message@,
                error: Seq::empty(),
                body: Seq::empty(),
            }),
    {
        Res::with(400, owned(message), String::new(), String::new())
    }

    /// An upstream service answered with something that could not be read:
    /// the answer carries the client's own account of the error.
    pub fn parse_response_error(message: &str, error: reqwest::Error) -> (r: Res)
        ensures
            r@.status == 500,
            r@.message == message@,
            r@.body == Seq::<char>::empty(),
            exists|text: String|
                vstd::string::to_string_from_display_ensures::<reqwest::Error>(&error, text)
                    && r@.error == text@,
    {
        let text = error.to_string();
        Res::with(500, owned(message), text, String::new())
    }

    /// Something failed that should not have; `error` is the failure's own account.
    pub fn internal_server_error(message: &str, error: &str) -> (r: Res)
        ensures
            r@ == (ResView {
                status: 500,
                message: message@,
                error: error@,
                body: Seq::empty(),
            }),
    {
        Res::with(500, owned(message), owned(error), String::new())
    }

    pub fn status(&self) -> (r: u16)
        ensures
            r == self@.status,
    {
        self.status
    }

    pub fn message(&self) -> (r: &str)
        ensures
            r@ == self@.message,
    {
        self.message.as_str()
    }

    pub fn error(&self) -> (r: &str)
        ensures
            r@ == self@.error,
    {
        self.error.as_str()
    }

    pub fn body(&self) -> (r: &str)
        ensures
            r@ == self@.body,
    {
        self.body.as_str()
    }

    /// Whether the answer reports a failure.
    pub fn is_failure(&self) -> (r: bool)
        ensures
            r == (self@.status >= 400),
    {
        self.status >= 400
    }

    /// The body that is sent: the answer's own body where it has one, else
    /// the JSON object of its message and, where there is one, its error.
    pub fn response_body(&self) -> (r: String)
        ensures
            r@ == response_text(self@),
    {
        if !self.body.as_str().is_empty() {
            return self.body.clone();
        }
        let message = match to_json_string(self.message.as_str()) {
            Ok(json) => json,
            Err(_) => String::new(),
        };
        if self.error.as_str().is_empty() {
            frame(message.as_str(), None)
        } else {
            let error = match to_json_string(self.error.as_str()) {
                Ok(json) => json,
                Err(_) => String::new(),
            };
            frame(message.as_str(), Some(error.as_str()))
        }
    }

    /// What is sent for the answer.
    pub fn into_response(self) -> (r: Response)
        ensures
            r.status == self@.status,
            r.body@ == response_text(self@),
            r.headers.deep_view() == cors_headers_spec(),
            r.failed == (self@.status >= 400),
    {
        let body = self.response_body();
        Response { status: self.status, headers: cors_headers(), body, failed: self.status >= 400 }
    }
}

} // verus!
