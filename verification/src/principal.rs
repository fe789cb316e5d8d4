//! The identity that the server knows the user by, and the way from it to
//! the collection that holds the user's calendars.

use vstd::prelude::*;
use crate::auth::{credentials, duplicate, Authorization};
use crate::home::Home;
use crate::names::NameMap;
use crate::resource::{listed, to_vec, vector_view, Children, Handle, Requestable, Xmlable};
use crate::result::{Error, Failure};
use crate::transport::{prepared, receive, received, request_view, Method, Reply, ReplyView, Request};

verus! {

/// The properties that are asked of a principal.
pub const HOME_QUERY: &'static str = r#"
<d:propfind xmlns:d="DAV:" xmlns:c="urn:ietf:params:xml:ns:caldav">
  <d:prop>
     <d:displayname />
     <c:calendar-home-set />
  </d:prop>
</d:propfind>
"#;

/// Where the answer of a principal names its calendar homes.
pub const HOME_HREFS: &'static str = "//cal:calendar-home-set/d:href/text()";

/// A principal: the resource that stands for an authenticated user.
#[derive(Debug)]
pub struct Principal {
    url: String,
    auth: Option<Authorization>,
}

impl View for Principal {
    type V = Handle;

    closed spec fn view(&self) -> Handle {
        Handle { url: self.url@, auth: credentials(self.auth), attrs: Map::empty() }
    }
}

impl Clone for Principal {
    fn clone(&self) -> (copy: Principal)
        ensures
            copy@ == self@,
    {
        Principal { url: self.url.clone(), auth: duplicate(&self.auth) }
    }
}

impl Requestable for Principal {
    fn auth(&self) -> (auth: Option<Authorization>) {
        duplicate(&self.auth)
    }

    fn set_auth(&mut self, auth: Option<Authorization>) {
        self.auth = auth;
    }
}

impl Xmlable for Principal {
    fn url(&self) -> (url: &str) {
        self.url.as_str()
    }
}

impl Children for Principal {
    open spec fn attr_names() -> Set<Seq<char>> {
        Set::empty()
    }

    fn new(url: String, params: &NameMap<String>) -> (child: Principal) {
        let child = Principal { url, auth: None };
        assert(child@.attrs =~= crate::resource::texts_map(*params).restrict(Self::attr_names()));
        child
    }
}

/// The calendar homes that a reply names for a principal.
pub open spec fn homes_of(principal: Handle, reply: ReplyView) -> Result<Seq<Handle>, Failure> {
    match received(Method::Propfind, principal.url, reply) {
        Ok(text) => listed(principal, text, HOME_HREFS@),
        Err(f) => Err(f),
    }
}

impl Principal {
    /// The request that asks the principal for its calendar homes.
    pub fn home_request(&self) -> (res: Result<Request, Error>)
        ensures
            request_view(res) == prepared(
                Method::Propfind,
                self@.url,
                HOME_QUERY@,
                Seq::empty(),
                self@.auth,
            ),
    {
        self.propfind(self.url.clone(), HOME_QUERY)
    }

    /// The calendar homes of the principal, from the reply to
    /// [`Principal::home_request`]: one for each address that the reply
    /// names, in document order, with the credentials of the principal.
    pub fn home(&self, reply: Reply) -> (res: Result<Vec<Home>, Error>)
        ensures
            vector_view(res) == homes_of(self@, reply@),
    {
        match receive(Method::Propfind, self.url.as_str(), reply) {
            Ok(text) => to_vec(self, text.as_str(), HOME_HREFS),
            Err(e) => Err(e),
        }
    }
}

} // verus!
