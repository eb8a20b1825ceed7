//! Requests as plain values, for the caller to send, and what is read of
//! a response before its body.

use vstd::prelude::*;

verus! {

/// The request method.
#[derive(Debug, Clone, Copy, PartialEq, Eq, Structural)]
pub enum Method {
    Get,
    Post,
}

/// A request to send: where, how, and with which headers and body.
#[derive(Debug, Clone, PartialEq, Eq)]
pub struct HttpRequest {
    pub method: Method,
    pub url: String,
    /// Header names and values, in the order in which they are set.
    pub headers: Vec<(String, String)>,
    pub body: Option<String>,
}

pub struct HttpRequestView {
    pub method: Method,
    pub url: Seq<char>,
    pub headers: Seq<(Seq<char>, Seq<char>)>,
    pub body: Option<Seq<char>>,
}

impl View for HttpRequest {
    type V = HttpRequestView;

    open spec fn view(&self) -> HttpRequestView {
        HttpRequestView {
            method: self.method,
            url: self.url@,
            headers: self.headers.deep_view(),
            body: self.body.deep_view(),
        }
    }
}

/// Whether a status code reports success: the codes from 200 to 299.
pub open spec fn success(status: u16) -> bool {
    200 <= status < 300
}

/// Whether a status code reports success.
pub fn is_success(status: u16) -> (r: bool)
    ensures
        r == success(status),
{
    200 <= status && status < 300
}

/// What came back for a request.
#[derive(Debug, Clone, PartialEq, Eq)]
pub enum HttpReply {
    /// The request did not reach the service, or no response came back.
    Unreachable,
    /// The service answered.
    Answer { status: u16, body: String },
}

pub enum HttpReplyView {
    Unreachable,
    Answer { status: u16, body: Seq<char> },
}

impl View for HttpReply {
    type V = HttpReplyView;

    open spec fn view(&self) -> HttpReplyView {
        match self {
            HttpReply::Unreachable => HttpReplyView::Unreachable,
            HttpReply::Answer { status, body } => HttpReplyView::Answer {
                status: *status,
                body: body@,
            },
        }
    }
}

/// Whether a character may stand in a header value: anything but the
/// control characters, of which only the tab is admitted.
pub open spec fn header_char(c: char) -> bool {
    (c as u32 >= 32 && c as u32 != 127) || c as u32 == 9
}

/// Whether a text may be sent as a header value.
pub open spec fn header_text(s: Seq<char>) -> bool {
    forall|i: int| 0 <= i < s.len() ==> header_char(#[trigger] s[i])
}

/// Calls `reqwest::header::HeaderValue::from_str` and reports whether it
/// accepted the text. It accepts a text unless one of its bytes is a
/// control character other than the tab; the bytes of a character
/// beyond ASCII are all accepted.
#[verifier::external_body]
fn reqwest_accepts(value: &str) -> (r: bool)
    ensures
        r == header_text(value@),
{
    reqwest::header::HeaderValue::from_str(value).is_ok()
}

/// Whether a text may be sent as a header value.
pub fn is_header_value(value: &str) -> (r: bool)
    ensures
        r == header_text(value@),
{
    reqwest_accepts(value)
}

} // verus!
