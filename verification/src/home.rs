//! The collection under which the calendars of a user live.

use vstd::prelude::*;
use crate::auth::{credentials, duplicate, Authorization};
use crate::calendar::Calendar;
use crate::names::{first_seen, NameMap};
use crate::xml::extracted;
use crate::resource::{map_view, mapped, templates, to_map, Children, Handle, Requestable, Xmlable};
use crate::result::{Error, Failure};
use crate::transport::{prepared, receive, received, request_view, Method, Reply, ReplyView, Request};

verus! {

/// The properties that are asked of every calendar of a home.
pub const CALENDARS_QUERY: &'static str = r#"
<d:propfind xmlns:d="DAV:" xmlns:cs="http://calendarserver.org/ns/" xmlns:c="urn:ietf:params:xml:ns:caldav" xmlns:x1="http://apple.com/ns/ical/">
  <d:prop>
     <d:resourcetype />
     <d:displayname />
     <cs:getctag />
     <c:supported-calendar-component-set />
     <x1:calendar-color />
  </d:prop>
</d:propfind>
"#;

/// Where the answer of a home names its calendars.
pub const CALENDAR_NAMES: &'static str = "//d:response//d:displayname/text()";

/// Where the answer of a home gives the address of the calendar named `{}`.
pub const CALENDAR_HREF: &'static str = "//d:displayname [text() = '{}']/../../../d:href/text()";

/// Where the answer of a home gives the colour of the calendar named `{}`.
pub const CALENDAR_COLOR: &'static str = "//d:displayname [text() = '{}']/../x1:calendar-color/text()";

/// A calendar home.
#[derive(Debug)]
pub struct Home {
    url: String,
    auth: Option<Authorization>,
}

impl View for Home {
    type V = Handle;

    closed spec fn view(&self) -> Handle {
        Handle { url: self.url@, auth: credentials(self.auth), attrs: Map::empty() }
    }
}

impl Default for Home {
    fn default() -> (empty: Home)
        ensures
            empty@ == (Handle { url: Seq::empty(), auth: None, attrs: Map::empty() }),
    {
        Home { url: String::new(), auth: None }
    }
}

impl Clone for Home {
    fn clone(&self) -> (copy: Home)
        ensures
            copy@ == self@,
    {
        Home { url: self.url.clone(), auth: duplicate(&self.auth) }
    }
}

impl Requestable for Home {
    fn auth(&self) -> (auth: Option<Authorization>) {
        duplicate(&self.auth)
    }

    fn set_auth(&mut self, auth: Option<Authorization>) {
        self.auth = auth;
    }
}

impl Xmlable for Home {
    fn url(&self) -> (url: &str) {
        self.url.as_str()
    }
}

impl Children for Home {
    open spec fn attr_names() -> Set<Seq<char>> {
        Set::empty()
    }

    fn new(url: String, params: &NameMap<String>) -> (child: Home) {
        let child = Home { url, auth: None };
        assert(child@.attrs =~= crate::resource::texts_map(*params).restrict(Self::attr_names()));
        child
    }
}

/// The attributes that are read for each calendar, with their templates.
pub open spec fn calendar_params() -> Seq<(Seq<char>, Seq<char>)> {
    seq![("color"@, CALENDAR_COLOR@)]
}

/// The calendars that a reply names for a home, under their display names.
pub open spec fn calendars_of(home: Handle, reply: ReplyView) -> Result<
    Map<Seq<char>, Handle>,
    Failure,
> {
    match received(Method::Propfind, home.url, reply) {
        Ok(text) => mapped(
            home,
            Calendar::attr_names(),
            text,
            CALENDAR_NAMES@,
            CALENDAR_HREF@,
            calendar_params(),
        ),
        Err(f) => Err(f),
    }
}

/// The display names that a reply holds, each once, in the order in which
/// they are first seen.
pub open spec fn calendar_names(home: Handle, reply: ReplyView) -> Seq<Seq<char>> {
    first_seen(
        extracted(received(Method::Propfind, home.url, reply)->Ok_0, CALENDAR_NAMES@)->Ok_0,
    )
}

impl Home {
    /// The request that asks the home for its calendars.
    pub fn calendars_request(&self) -> (res: Result<Request, Error>)
        ensures
            request_view(res) == prepared(
                Method::Propfind,
                self@.url,
                CALENDARS_QUERY@,
                Seq::empty(),
                self@.auth,
            ),
    {
        self.propfind(self.url.clone(), CALENDARS_QUERY)
    }

    /// The calendars of the home, from the reply to
    /// [`Home::calendars_request`], under their display names. Each has the
    /// first address that the reply gives next to its name, its colour
    /// where the reply gives one, and the credentials of the home. Two
    /// calendars of one name are not told apart: the later replaces the
    /// earlier.
    pub fn calendars(&self, reply: Reply) -> (res: Result<NameMap<Calendar>, Error>)
        ensures
            map_view(res) == calendars_of(self@, reply@),
            res matches Ok(found) ==> found.well_formed() && found.names() == calendar_names(
                self@,
                reply@,
            ),
    {
        match receive(Method::Propfind, self.url.as_str(), reply) {
            Ok(text) => {
                let mut params: Vec<(&str, &str)> = Vec::new();
                params.push(("color", CALENDAR_COLOR));
                assert(templates(params@) =~= calendar_params());
                to_map(self, text.as_str(), CALENDAR_NAMES, CALENDAR_HREF, params)
            },
            Err(e) => Err(e),
        }
    }
}

} // verus!
