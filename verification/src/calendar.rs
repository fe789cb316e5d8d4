//! Calendars and the queries that list their objects.

use vstd::prelude::*;
use crate::auth::{credentials, duplicate, Authorization};
use crate::names::NameMap;
use crate::object::{Iterator, Object};
use crate::resource::{listed, to_vec, Children, Handle, Requestable, Xmlable};
use crate::result::{Error, Failure};
use crate::text::concat;
use crate::transport::{prepared, receive, received, request_view, Method, Reply, ReplyView, Request};

verus! {

/// What a query for the objects of a calendar begins with, up to the place
/// of the filter on the kind of object.
pub const QUERY_HEAD: &'static str = r#"
<c:calendar-query xmlns:d="DAV:" xmlns:c="urn:ietf:params:xml:ns:caldav">
    <d:prop>
        <d:resourcetype />
    </d:prop>
    <c:filter>
        <c:comp-filter name="VCALENDAR">
            "#;

/// What a query for the objects of a calendar ends with.
pub const QUERY_TAIL: &'static str = r#"
        </c:comp-filter>
    </c:filter>
</c:calendar-query>
"#;

/// What a search for events begins with, up to the start of the range.
pub const SEARCH_HEAD: &'static str = r#"
<c:calendar-query xmlns:d="DAV:" xmlns:c="urn:ietf:params:xml:ns:caldav">
    <d:prop>
        <d:resourcetype />
    </d:prop>
    <c:filter>
        <c:comp-filter name="VCALENDAR">
            <c:comp-filter name="VEVENT">
                <c:time-range start=""#;

/// What stands between the start and the end of the range of a search.
pub const SEARCH_MIDDLE: &'static str = r#"" end=""#;

/// What a search for events ends with.
pub const SEARCH_TAIL: &'static str = r#""/>
            </c:comp-filter>
        </c:comp-filter>
    </c:filter>
</c:calendar-query>"#;

/// Where the answer to a query names the objects that it found.
pub const OBJECT_HREFS: &'static str = "//d:response/d:href/text()";

/// How the ends of a range are written: year, month, day, `T`, hour,
/// minute, second, `Z`, in UTC.
pub const STAMP_FORMAT: &'static str = "%Y%m%dT%H%M%SZ";

/// A calendar.
#[derive(Debug)]
pub struct Calendar {
    /// The colour that the server gave for the calendar, if it gave one.
    pub color: Option<String>,
    url: String,
    auth: Option<Authorization>,
}

/// The attributes of a calendar with the given colour.
pub open spec fn color_attrs(color: Option<String>) -> Map<Seq<char>, Seq<char>> {
    match color {
        Some(c) => Map::empty().insert("color"@, c@),
        None => Map::empty(),
    }
}

impl View for Calendar {
    type V = Handle;

    closed spec fn view(&self) -> Handle {
        Handle { url: self.url@, auth: credentials(self.auth), attrs: color_attrs(self.color) }
    }
}

impl Default for Calendar {
    fn default() -> (empty: Calendar)
        ensures
            empty@ == (Handle { url: Seq::empty(), auth: None, attrs: Map::empty() }),
    {
        Calendar { color: None, url: String::new(), auth: None }
    }
}

impl Clone for Calendar {
    fn clone(&self) -> (copy: Calendar)
        ensures
            copy@ == self@,
    {
        Calendar {
            color: match &self.color {
                Some(c) => Some(c.clone()),
                None => None,
            },
            url: self.url.clone(),
            auth: duplicate(&self.auth),
        }
    }
}

impl Requestable for Calendar {
    fn auth(&self) -> (auth: Option<Authorization>) {
        duplicate(&self.auth)
    }

    fn set_auth(&mut self, auth: Option<Authorization>) {
        self.auth = auth;
    }
}

impl Xmlable for Calendar {
    fn url(&self) -> (url: &str) {
        self.url.as_str()
    }
}

impl Children for Calendar {
    open spec fn attr_names() -> Set<Seq<char>> {
        Set::empty().insert("color"@)
    }

    fn new(url: String, params: &NameMap<String>) -> (child: Calendar) {
        let color = match params.get("color") {
            Some(c) => Some(c.clone()),
            None => None,
        };
        let child = Calendar { color, url, auth: None };
        assert(child@.attrs =~= crate::resource::texts_map(*params).restrict(Self::attr_names()));
        child
    }
}

/// The filter that limits a query to one kind of object.
pub open spec fn kind_filter(kind: Option<Seq<char>>) -> Seq<char> {
    match kind {
        Some(name) => "<c:comp-filter name=\""@ + name + "\" />"@,
        None => Seq::empty(),
    }
}

/// The body of the query for the objects of a kind, or for all objects.
pub open spec fn query_body(kind: Option<Seq<char>>) -> Seq<char> {
    QUERY_HEAD@ + kind_filter(kind) + QUERY_TAIL@
}

/// The view of a text that may be absent.
pub open spec fn text_of(text: Option<&str>) -> Option<Seq<char>> {
    match text {
        Some(t) => Some(t@),
        None => None,
    }
}

/// The objects that a reply names for a calendar.
pub open spec fn objects_of(calendar: Handle, reply: ReplyView) -> Result<Seq<Handle>, Failure> {
    match received(Method::Report, calendar.url, reply) {
        Ok(text) => listed(calendar, text, OBJECT_HREFS@),
        Err(f) => Err(f),
    }
}

/// What `chrono` writes for the UTC time that lies `seconds` after the
/// beginning of 1970, in a format; nothing where that time is outside the
/// years that `chrono` counts.
pub uninterp spec fn utc_text(seconds: i64, format: Seq<char>) -> Option<Seq<char>>;

/// `chrono::DateTime::from_timestamp`, and `format` on the `naive_utc` of
/// what it returns. With [`STAMP_FORMAT`] nothing fails while the text is
/// written. [`utc_text`] names the result.
#[verifier::external_body]
fn write_utc(seconds: i64, format: &str) -> (text: Option<String>)
    requires
        format@ == STAMP_FORMAT@,
    ensures
        match text {
            Some(t) => utc_text(seconds, format@) == Some(t@),
            None => utc_text(seconds, format@) is None,
        },
{
    chrono::DateTime::from_timestamp(seconds, 0).map(|t| t.naive_utc().format(format).to_string())
}

/// One end of a range: the time written out, or `open` where there is no
/// bound. It fails where the time is outside the years that can be written.
pub open spec fn bound_text(seconds: Option<i64>, open: Seq<char>) -> Result<Seq<char>, Failure> {
    match seconds {
        Some(s) => match utc_text(s, STAMP_FORMAT@) {
            Some(text) => Ok(text),
            None => Err(Failure::Time(s)),
        },
        None => Ok(open),
    }
}

/// The body of a search for the events between two times.
pub open spec fn search_body(start: Option<i64>, end: Option<i64>) -> Result<Seq<char>, Failure> {
    match bound_text(start, "-infinity"@) {
        Ok(from) => match bound_text(end, "+infinity"@) {
            Ok(to) => Ok(SEARCH_HEAD@ + from + SEARCH_MIDDLE@ + to + SEARCH_TAIL@),
            Err(f) => Err(f),
        },
        Err(f) => Err(f),
    }
}

/// One end of a range as it is written, given the time as text where it
/// could be written: that text; `open` where there is no bound; a failure
/// where there is a bound that could not be written.
pub fn bound(seconds: Option<i64>, written: Option<String>, open: &str) -> (res: Result<
    String,
    Error,
>)
    ensures
        match seconds {
            Some(s) => match written {
                Some(text) => res matches Ok(t) && t@ == text@,
                None => res matches Err(e) && e@ == Failure::Time(s),
            },
            None => res matches Ok(t) && t@ == open@,
        },
{
    match seconds {
        Some(s) => match written {
            Some(text) => Ok(text),
            None => Err(Error::Time(s)),
        },
        None => Ok(open.to_owned()),
    }
}

fn write_bound(seconds: Option<i64>, open: &str) -> (res: Result<String, Error>)
    ensures
        crate::transport::text_view(res) == bound_text(seconds, open@),
{
    let written = match seconds {
        Some(s) => write_utc(s, STAMP_FORMAT),
        None => None,
    };
    bound(seconds, written, open)
}

impl Calendar {
    /// The colour that the server gave for the calendar, if it gave one.
    pub fn color(&self) -> (color: Option<&str>)
        ensures
            match color {
                Some(c) => self@.attrs.contains_key("color"@) && self@.attrs["color"@] == c@,
                None => !self@.attrs.contains_key("color"@),
            },
            self@.attrs.dom().subset_of(Self::attr_names()),
    {
        match &self.color {
            Some(c) => Some(c.as_str()),
            None => None,
        }
    }

    /// The request that lists the objects of one kind, named as in
    /// `VEVENT` or `VTODO`, or all objects where no kind is given.
    pub fn request(&self, filter: Option<&str>) -> (res: Result<Request, Error>)
        ensures
            request_view(res) == prepared(
                Method::Report,
                self@.url,
                query_body(text_of(filter)),
                crate::resource::depth_one(),
                self@.auth,
            ),
    {
        let mut body = QUERY_HEAD.to_owned();
        match filter {
            Some(name) => {
                body.append("<c:comp-filter name=\"");
                body.append(name);
                body.append("\" />");
                assert(body@ =~= QUERY_HEAD@ + kind_filter(text_of(filter)));
            },
            None => {
                assert(body@ =~= QUERY_HEAD@ + kind_filter(text_of(filter)));
            },
        }
        body.append(QUERY_TAIL);
        self.report(self.url.clone(), body.as_str())
    }

    /// The request that lists all objects of the calendar.
    pub fn objects_request(&self) -> (res: Result<Request, Error>)
        ensures
            request_view(res) == prepared(
                Method::Report,
                self@.url,
                query_body(None),
                crate::resource::depth_one(),
                self@.auth,
            ),
    {
        self.request(None)
    }

    /// The request that lists the events of the calendar.
    pub fn events_request(&self) -> (res: Result<Request, Error>)
        ensures
            request_view(res) == prepared(
                Method::Report,
                self@.url,
                query_body(Some("VEVENT"@)),
                crate::resource::depth_one(),
                self@.auth,
            ),
    {
        self.request(Some("VEVENT"))
    }

    /// The request that lists the tasks of the calendar.
    pub fn tasks_request(&self) -> (res: Result<Request, Error>)
        ensures
            request_view(res) == prepared(
                Method::Report,
                self@.url,
                query_body(Some("VTODO"@)),
                crate::resource::depth_one(),
                self@.auth,
            ),
    {
        self.request(Some("VTODO"))
    }

    /// The request that lists the events between two times, each given in
    /// seconds since the beginning of 1970, UTC. A missing start leaves the
    /// range open to the past, a missing end to the future.
    pub fn search_request(&self, start: Option<i64>, end: Option<i64>) -> (res: Result<
        Request,
        Error,
    >)
        ensures
            match search_body(start, end) {
                Ok(body) => request_view(res) == prepared(
                    Method::Report,
                    self@.url,
                    body,
                    crate::resource::depth_one(),
                    self@.auth,
                ),
                Err(f) => res matches Err(e) && e@ == f,
            },
    {
        let from = match write_bound(start, "-infinity") {
            Ok(from) => from,
            Err(e) => {
                return Err(e);
            },
        };
        let to = match write_bound(end, "+infinity") {
            Ok(to) => to,
            Err(e) => {
                return Err(e);
            },
        };
        let mut body = concat(SEARCH_HEAD, from.as_str());
        body.append(SEARCH_MIDDLE);
        body.append(to.as_str());
        body.append(SEARCH_TAIL);
        self.report(self.url.clone(), body.as_str())
    }

    fn stream(&self, reply: Reply) -> (res: Result<Iterator, Error>)
        ensures
            stream_view(res) == objects_of(self@, reply@),
    {
        match receive(Method::Report, self.url.as_str(), reply) {
            Ok(text) => {
                let found: Result<Vec<Object>, Error> = to_vec(self, text.as_str(), OBJECT_HREFS);
                match found {
                    Ok(objects) => Ok(Iterator::from(objects)),
                    Err(e) => Err(e),
                }
            },
            Err(e) => Err(e),
        }
    }

    /// The objects of the calendar, from the reply to
    /// [`Calendar::objects_request`]: a stream over one object for each
    /// address that the reply names, in document order, none of them
    /// fetched yet.
    pub fn objects(&self, reply: Reply) -> (res: Result<Iterator, Error>)
        ensures
            stream_view(res) == objects_of(self@, reply@),
    {
        self.stream(reply)
    }

    /// The events of the calendar, from the reply to
    /// [`Calendar::events_request`].
    pub fn events(&self, reply: Reply) -> (res: Result<Iterator, Error>)
        ensures
            stream_view(res) == objects_of(self@, reply@),
    {
        self.stream(reply)
    }

    /// The tasks of the calendar, from the reply to
    /// [`Calendar::tasks_request`].
    pub fn tasks(&self, reply: Reply) -> (res: Result<Iterator, Error>)
        ensures
            stream_view(res) == objects_of(self@, reply@),
    {
        self.stream(reply)
    }

    /// The events that a search found, from the reply to
    /// [`Calendar::search_request`].
    pub fn search(&self, reply: Reply) -> (res: Result<Iterator, Error>)
        ensures
            stream_view(res) == objects_of(self@, reply@),
    {
        self.stream(reply)
    }
}

/// A stream, or a failure, by their views: a stream by what remains of it.
pub open spec fn stream_view(res: Result<Iterator, Error>) -> Result<Seq<Handle>, Failure> {
    match res {
        Ok(stream) => Ok(stream.remaining()),
        Err(e) => Err(e@),
    }
}

} // verus!
