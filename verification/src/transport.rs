//! One exchange with the server: what is sent, and what an answer means.
//!
//! Nothing here touches the network. A [`Request`] says what to send; the
//! caller sends it, and hands what came back to [`receive`] as a [`Reply`].

use vstd::prelude::*;
use crate::auth::{Authorization, Credentials};
use crate::names::NameMap;
use crate::result::{Error, Failure};
use crate::text::{concat, decimal, decimal_string, same_text};
use base64::Engine;

verus! {

/// The methods that the protocol uses.
#[derive(Clone, Copy, Debug, PartialEq, Eq, Structural)]
pub enum Method {
    Get,
    Propfind,
    Report,
}

/// The method that a text names, if it names one.
pub open spec fn method_of(text: Seq<char>) -> Option<Method> {
    if text == "GET"@ {
        Some(Method::Get)
    } else if text == "PROPFIND"@ {
        Some(Method::Propfind)
    } else if text == "REPORT"@ {
        Some(Method::Report)
    } else {
        None
    }
}

impl Method {
    /// The method as it is written in a request.
    pub open spec fn name(self) -> Seq<char> {
        match self {
            Method::Get => "GET"@,
            Method::Propfind => "PROPFIND"@,
            Method::Report => "REPORT"@,
        }
    }

    /// The method as it is written in a request.
    pub fn as_str(&self) -> (s: &'static str)
        ensures
            s@ == self.name(),
    {
        match self {
            Method::Get => "GET",
            Method::Propfind => "PROPFIND",
            Method::Report => "REPORT",
        }
    }

    /// Reads a method from its name.
    pub fn parse(text: &str) -> (m: Option<Method>)
        ensures
            m == method_of(text@),
    {
        if same_text(text, "GET") {
            Some(Method::Get)
        } else if same_text(text, "PROPFIND") {
            Some(Method::Propfind)
        } else if same_text(text, "REPORT") {
            Some(Method::Report)
        } else {
            None
        }
    }
}

/// What is to be sent.
#[derive(Debug)]
pub struct Request {
    pub method: Method,
    pub url: String,
    pub headers: Vec<(String, String)>,
    pub body: String,
}

/// A [`Request`] with its texts as sequences of characters.
pub struct RequestView {
    pub method: Method,
    pub url: Seq<char>,
    pub headers: Seq<(Seq<char>, Seq<char>)>,
    pub body: Seq<char>,
}

/// Header lines, each string by its view.
pub open spec fn header_view(headers: Seq<(String, String)>) -> Seq<(Seq<char>, Seq<char>)> {
    Seq::new(headers.len(), |i: int| (headers[i].0@, headers[i].1@))
}

impl View for Request {
    type V = RequestView;

    open spec fn view(&self) -> RequestView {
        RequestView {
            method: self.method,
            url: self.url@,
            headers: header_view(self.headers@),
            body: self.body@,
        }
    }
}

/// What came back from the transport.
#[derive(Debug)]
pub enum Reply {
    /// A response: its status and its body.
    Response(u16, String),
    /// No response: the connection or the TLS session failed. The text is
    /// what the transport reported.
    Fault(String),
}

/// A [`Reply`] with its texts as sequences of characters.
pub enum ReplyView {
    Response(u16, Seq<char>),
    Fault(Seq<char>),
}

impl View for Reply {
    type V = ReplyView;

    open spec fn view(&self) -> ReplyView {
        match self {
            Reply::Response(status, text) => ReplyView::Response(*status, text@),
            Reply::Fault(text) => ReplyView::Fault(text@),
        }
    }
}

/// What the standard base64 alphabet, with padding, makes of bytes.
pub uninterp spec fn base64_standard(data: Seq<u8>) -> Seq<char>;

/// Whether the base64 text of `n` bytes has a length that fits `usize`.
pub open spec fn encodable(n: nat) -> bool {
    n / 3 * 4 + 4 <= usize::MAX
}

/// `base64::Engine::encode` of `base64::engine::general_purpose::STANDARD`.
/// It panics where the length of its result does not fit `usize`, which
/// [`encodable`] excludes. [`base64_standard`] names the result.
#[verifier::external_body]
fn encode_base64(data: &[u8]) -> (text: String)
    requires
        encodable(data@.len()),
    ensures
        text@ == base64_standard(data@),
{
    base64::engine::general_purpose::STANDARD.encode(data)
}

/// User name and password as they are encoded: joined by a colon, an absent
/// password as an empty one.
pub open spec fn pair_text(c: Credentials) -> Seq<char> {
    c.username + ":"@ + match c.password {
        Some(p) => p,
        None => Seq::empty(),
    }
}

/// The value of the `Authorization` header for encoded credentials.
pub open spec fn basic_value(encoded: Seq<char>) -> Seq<char> {
    "Basic "@ + encoded
}

/// The credentials of `auth` as they go into the header, if they are short
/// enough to encode.
pub fn encoded(auth: &Authorization) -> (text: Option<String>)
    ensures
        match text {
            Some(t) => encodable(vstd::utf8::encode_utf8(pair_text(auth@)).len()) && t@
                == base64_standard(vstd::utf8::encode_utf8(pair_text(auth@))),
            None => !encodable(vstd::utf8::encode_utf8(pair_text(auth@)).len()),
        },
{
    let mut pair = concat(auth.username.as_str(), ":");
    match &auth.password {
        Some(p) => {
            pair.append(p.as_str());
        },
        None => {
            assert(pair@ + Seq::<char>::empty() =~= pair@);
        },
    }
    assert(pair@ == pair_text(auth@));
    let bytes = pair.as_str().as_bytes();
    if bytes.len() / 3 > (usize::MAX - 4) / 4 {
        return None;
    }
    Some(encode_base64(bytes))
}

/// The names of a collection with their items, as header lines.
pub open spec fn entry_lines(extra: NameMap<String>) -> Seq<(Seq<char>, Seq<char>)> {
    Seq::new(extra.names().len(), |i: int| (extra.names()[i], extra.items()[i]@))
}

/// The header lines of a request: those that the caller gave, then the
/// encoded credentials if there are any, then the length of the body in
/// bytes.
pub open spec fn lines_with(
    extra: Seq<(Seq<char>, Seq<char>)>,
    encoded: Option<Seq<char>>,
    body: Seq<char>,
) -> Seq<(Seq<char>, Seq<char>)> {
    extra + match encoded {
        Some(text) => seq![("Authorization"@, basic_value(text))],
        None => Seq::empty(),
    } + seq![("Content-Length"@, decimal(vstd::utf8::encode_utf8(body).len()))]
}

/// The header lines of a request on behalf of `auth`.
pub open spec fn header_lines(
    extra: Seq<(Seq<char>, Seq<char>)>,
    auth: Option<Credentials>,
    body: Seq<char>,
) -> Seq<(Seq<char>, Seq<char>)> {
    lines_with(
        extra,
        match auth {
            Some(c) => Some(base64_standard(vstd::utf8::encode_utf8(pair_text(c)))),
            None => None,
        },
        body,
    )
}

/// The request for a method, a target, a body and the caller's headers, on
/// behalf of `auth`. It fails only where there are credentials that are too
/// long to encode.
pub open spec fn prepared(
    method: Method,
    href: Seq<char>,
    body: Seq<char>,
    extra: Seq<(Seq<char>, Seq<char>)>,
    auth: Option<Credentials>,
) -> Result<RequestView, Failure> {
    if auth is Some && !encodable(vstd::utf8::encode_utf8(pair_text(auth->0)).len()) {
        Err(Failure::Credentials)
    } else {
        Ok(RequestView { method, url: href, headers: header_lines(extra, auth, body), body })
    }
}

/// A request, or a failure, by their views.
pub open spec fn request_view(res: Result<Request, Error>) -> Result<RequestView, Failure> {
    match res {
        Ok(r) => Ok(r@),
        Err(e) => Err(e@),
    }
}

/// The view of a text that may be absent.
pub open spec fn value_view(value: Option<String>) -> Option<Seq<char>> {
    match value {
        Some(v) => Some(v@),
        None => None,
    }
}

/// Puts a request together: the caller's headers in their order, then the
/// `Authorization` header, written `Basic` and the encoded credentials, if
/// there are any, then the length of `body` in bytes.
pub fn assemble(
    method: Method,
    href: String,
    body: &str,
    extra: &NameMap<String>,
    encoded: Option<String>,
) -> (request: Request)
    ensures
        request@ == (RequestView {
            method,
            url: href@,
            headers: lines_with(entry_lines(*extra), value_view(encoded), body@),
            body: body@,
        }),
{
    let mut headers: Vec<(String, String)> = Vec::new();
    let n = extra.len();
    let mut i: usize = 0;
    while i < n
        invariant
            i <= n,
            n == extra.names().len(),
            extra.well_formed(),
            header_view(headers@) == entry_lines(*extra).take(i as int),
        decreases n - i,
    {
        let ghost before = headers@;
        headers.push((extra.name_at(i).to_owned(), extra.item_at(i).clone()));
        i = i + 1;
        assert(header_view(headers@) =~= header_view(before).push(
            entry_lines(*extra)[i as int - 1],
        ));
        assert(entry_lines(*extra).take(i as int) =~= entry_lines(*extra).take(i as int - 1).push(
            entry_lines(*extra)[i as int - 1],
        ));
    }
    assert(entry_lines(*extra).take(n as int) =~= entry_lines(*extra));
    let ghost given = header_view(headers@);
    match encoded {
        Some(text) => {
            headers.push(("Authorization".to_owned(), concat("Basic ", text.as_str())));
            assert(header_view(headers@) =~= given + seq![
                ("Authorization"@, basic_value(text@)),
            ]);
        },
        None => {
            assert(header_view(headers@) =~= given + Seq::<(Seq<char>, Seq<char>)>::empty());
        },
    }
    let ghost with_auth = header_view(headers@);
    let length = body.as_bytes().len();
    headers.push(("Content-Length".to_owned(), decimal_string(length as u64)));
    assert(header_view(headers@) =~= with_auth + seq![
        ("Content-Length"@, decimal(vstd::utf8::encode_utf8(body@).len())),
    ]);
    Request { method, url: href, headers, body: body.to_owned() }
}

/// Builds the request for a method, a target, a body and the caller's
/// headers, and attaches the credentials if there are any.
pub fn prepare(
    method: Method,
    href: String,
    body: &str,
    extra: &NameMap<String>,
    auth: &Option<Authorization>,
) -> (res: Result<Request, Error>)
    ensures
        request_view(res) == prepared(
            method,
            href@,
            body@,
            entry_lines(*extra),
            crate::auth::credentials(*auth),
        ),
{
    let text = match auth {
        Some(a) => match encoded(a) {
            Some(text) => Some(text),
            None => {
                return Err(Error::Credentials);
            },
        },
        None => None,
    };
    Ok(assemble(method, href, body, extra, text))
}

/// Whether a status stands for success: `200` and `207` do.
pub open spec fn accepted(status: u16) -> bool {
    status == 200 || status == 207
}

/// The text that describes a refused exchange: `METHOD target: status`.
pub open spec fn status_text(method: Method, url: Seq<char>, status: u16) -> Seq<char> {
    method.name() + " "@ + url + ": "@ + decimal(status as nat)
}

/// What a reply to a request for `url` means: its body where the status is
/// accepted, else the failure that carries the status; a fault of the
/// transport stays one.
pub open spec fn received(method: Method, url: Seq<char>, reply: ReplyView) -> Result<
    Seq<char>,
    Failure,
> {
    match reply {
        ReplyView::Fault(text) => Err(Failure::Io(text)),
        ReplyView::Response(status, text) => if accepted(status) {
            Ok(text)
        } else {
            Err(Failure::Status(status, status_text(method, url, status)))
        },
    }
}

/// A text, or a failure, by their views.
pub open spec fn text_view(res: Result<String, Error>) -> Result<Seq<char>, Failure> {
    match res {
        Ok(text) => Ok(text@),
        Err(e) => Err(e@),
    }
}

/// Classifies the reply to a request with `method` for `url`.
pub fn receive(method: Method, url: &str, reply: Reply) -> (res: Result<String, Error>)
    ensures
        text_view(res) == received(method, url@, reply@),
{
    match reply {
        Reply::Fault(text) => Err(Error::Io(text)),
        Reply::Response(status, text) => {
            if status == 200 || status == 207 {
                Ok(text)
            } else {
                let mut message = concat(method.as_str(), " ");
                message.append(url);
                message.append(": ");
                let code = decimal_string(status as u64);
                message.append(code.as_str());
                Err(Error::Status(status, message))
            }
        },
    }
}

impl Request {
    /// Classifies the reply to this request.
    pub fn receive(&self, reply: Reply) -> (res: Result<String, Error>)
        ensures
            text_view(res) == received(self@.method, self@.url, reply@),
    {
        receive(self.method, self.url.as_str(), reply)
    }
}

} // verus!
