//! The entry point: a client for one server, and the walk from the server
//! down to the calendars of the user.

use vstd::prelude::*;
use crate::auth::{credentials, duplicate, Authorization};
use crate::calendar::Calendar;
use crate::home::{calendar_names, calendars_of, Home};
use crate::names::NameMap;
use crate::principal::{homes_of, Principal, HOME_HREFS};
use crate::resource::{handle_map, listed, to_vec, vector_view, Children, Handle, Requestable, Xmlable};
use crate::result::{Error, Failure};
use crate::transport::{prepared, receive, received, request_view, Method, Reply, ReplyView, Request};

verus! {

/// The property that is asked of the server to find the user's principal.
pub const PRINCIPAL_QUERY: &'static str = r#"
<d:propfind xmlns:d="DAV:">
    <d:prop>
        <d:current-user-principal />
    </d:prop>
</d:propfind>
"#;

/// Where the answer of the server names the principals of the user.
pub const PRINCIPAL_HREFS: &'static str = "//d:current-user-principal/d:href/text()";

/// A client for the server at one address.
#[derive(Debug)]
pub struct Client {
    url: String,
    auth: Option<Authorization>,
}

impl View for Client {
    type V = Handle;

    closed spec fn view(&self) -> Handle {
        Handle { url: self.url@, auth: credentials(self.auth), attrs: Map::empty() }
    }
}

impl Default for Client {
    fn default() -> (empty: Client)
        ensures
            empty@ == (Handle { url: Seq::empty(), auth: None, attrs: Map::empty() }),
    {
        Client { url: String::new(), auth: None }
    }
}

impl Clone for Client {
    fn clone(&self) -> (copy: Client)
        ensures
            copy@ == self@,
    {
        Client { url: self.url.clone(), auth: duplicate(&self.auth) }
    }
}

impl Requestable for Client {
    fn auth(&self) -> (auth: Option<Authorization>) {
        duplicate(&self.auth)
    }

    fn set_auth(&mut self, auth: Option<Authorization>) {
        self.auth = auth;
    }
}

impl Xmlable for Client {
    fn url(&self) -> (url: &str) {
        self.url.as_str()
    }
}

impl Children for Client {
    open spec fn attr_names() -> Set<Seq<char>> {
        Set::empty()
    }

    fn new(url: String, params: &NameMap<String>) -> (child: Client) {
        let child = Client { url, auth: None };
        assert(child@.attrs =~= crate::resource::texts_map(*params).restrict(Self::attr_names()));
        child
    }
}

/// The principals that a reply names for a client.
pub open spec fn principals_of(client: Handle, reply: ReplyView) -> Result<Seq<Handle>, Failure> {
    match received(Method::Propfind, client.url, reply) {
        Ok(text) => listed(client, text, PRINCIPAL_HREFS@),
        Err(f) => Err(f),
    }
}

/// The first of the resources that were found; where none was found, the
/// failure that names the expression that found none.
pub open spec fn first_of(found: Result<Seq<Handle>, Failure>, wanted: Seq<char>) -> Result<
    Handle,
    Failure,
> {
    match found {
        Ok(list) => if list.len() > 0 {
            Ok(list[0])
        } else {
            Err(Failure::Missing(wanted))
        },
        Err(f) => Err(f),
    }
}

/// Takes the first of a list of resources.
pub fn first<C: Children>(found: Result<Vec<C>, Error>, wanted: &str) -> (res: Result<C, Error>)
    ensures
        match first_of(vector_view(found), wanted@) {
            Ok(handle) => res matches Ok(c) && c@ == handle,
            Err(f) => res matches Err(e) && e@ == f,
        },
{
    match found {
        Ok(mut list) => {
            if list.len() > 0 {
                Ok(list.remove(0))
            } else {
                Err(Error::Missing(wanted.to_owned()))
            }
        },
        Err(e) => Err(e),
    }
}

impl Client {
    /// A client for the server at `url`, without credentials.
    pub fn new(url: String) -> (client: Client)
        ensures
            client@ == (Handle { url: url@, auth: None, attrs: Map::empty() }),
    {
        Client { url, auth: None }
    }

    /// Replaces the credentials and nothing else.
    pub fn set_auth(&mut self, auth: Option<Authorization>)
        ensures
            final(self)@ == (Handle { auth: credentials(auth), ..old(self)@ }),
    {
        Requestable::set_auth(self, auth)
    }

    /// The request that asks the server for the principals of the user.
    pub fn principals_request(&self) -> (res: Result<Request, Error>)
        ensures
            request_view(res) == prepared(
                Method::Propfind,
                self@.url,
                PRINCIPAL_QUERY@,
                Seq::empty(),
                self@.auth,
            ),
    {
        self.propfind(self.url.clone(), PRINCIPAL_QUERY)
    }

    /// The principals of the user, from the reply to
    /// [`Client::principals_request`]: one for each address that the reply
    /// names, in document order, with the credentials of the client.
    pub fn principals(&self, reply: Reply) -> (res: Result<Vec<Principal>, Error>)
        ensures
            vector_view(res) == principals_of(self@, reply@),
    {
        match receive(Method::Propfind, self.url.as_str(), reply) {
            Ok(text) => to_vec(self, text.as_str(), PRINCIPAL_HREFS),
            Err(e) => Err(e),
        }
    }

    /// The principal of the user: the first that the reply names.
    pub fn principal(&self, reply: Reply) -> (res: Result<Principal, Error>)
        ensures
            match first_of(principals_of(self@, reply@), PRINCIPAL_HREFS@) {
                Ok(handle) => res matches Ok(p) && p@ == handle,
                Err(f) => res matches Err(e) && e@ == f,
            },
    {
        first(self.principals(reply), PRINCIPAL_HREFS)
    }

    /// The calendar home of the user, given the principal: the first that
    /// the reply of the principal names.
    pub fn home(principal: &Principal, reply: Reply) -> (res: Result<Home, Error>)
        ensures
            match first_of(homes_of(principal@, reply@), HOME_HREFS@) {
                Ok(handle) => res matches Ok(h) && h@ == handle,
                Err(f) => res matches Err(e) && e@ == f,
            },
    {
        first(principal.home(reply), HOME_HREFS)
    }

    /// Begins the walk to the calendars of the user: from the server to
    /// the principal, from the principal to the calendar home, from the
    /// home to the calendars.
    pub fn calendars(&self) -> (walk: Discovery)
        ensures
            walk@ == Stage::Principals(self@),
    {
        Discovery::Principals(self.clone())
    }
}

/// Where the walk to the calendars stands: which resource is asked next.
#[derive(Debug)]
pub enum Discovery {
    /// The server is asked for the principal.
    Principals(Client),
    /// The principal is asked for the calendar home.
    Home(Principal),
    /// The calendar home is asked for the calendars.
    Calendars(Home),
}

/// A [`Discovery`] with its resource by its view.
pub enum Stage {
    Principals(Handle),
    Home(Handle),
    Calendars(Handle),
}

/// What a step of the walk leads to.
#[derive(Debug)]
pub enum Progress {
    /// Another resource has to be asked.
    Next(Discovery),
    /// The calendars of the user, under their display names.
    Done(NameMap<Calendar>),
}

/// A [`Progress`] by the views of what it holds.
pub enum Outcome {
    Next(Stage),
    Done(Map<Seq<char>, Handle>),
}

impl View for Discovery {
    type V = Stage;

    open spec fn view(&self) -> Stage {
        match self {
            Discovery::Principals(client) => Stage::Principals(client@),
            Discovery::Home(principal) => Stage::Home(principal@),
            Discovery::Calendars(home) => Stage::Calendars(home@),
        }
    }
}

impl View for Progress {
    type V = Outcome;

    open spec fn view(&self) -> Outcome {
        match self {
            Progress::Next(walk) => Outcome::Next(walk@),
            Progress::Done(calendars) => Outcome::Done(handle_map(*calendars)),
        }
    }
}

/// The resource that is asked at a stage.
pub open spec fn asked(stage: Stage) -> Handle {
    match stage {
        Stage::Principals(client) => client,
        Stage::Home(principal) => principal,
        Stage::Calendars(home) => home,
    }
}

/// What is asked of the resource at a stage.
pub open spec fn question(stage: Stage) -> Seq<char> {
    match stage {
        Stage::Principals(_) => PRINCIPAL_QUERY@,
        Stage::Home(_) => crate::principal::HOME_QUERY@,
        Stage::Calendars(_) => crate::home::CALENDARS_QUERY@,
    }
}

/// Where a reply leads from a stage: to the first principal, to its first
/// calendar home, to the calendars of that home; or to the failure of the
/// exchange, of reading its answer, or of finding nothing in it.
pub open spec fn stepped(stage: Stage, reply: ReplyView) -> Result<Outcome, Failure> {
    match stage {
        Stage::Principals(client) => match first_of(
            principals_of(client, reply),
            PRINCIPAL_HREFS@,
        ) {
            Ok(principal) => Ok(Outcome::Next(Stage::Home(principal))),
            Err(f) => Err(f),
        },
        Stage::Home(principal) => match first_of(homes_of(principal, reply), HOME_HREFS@) {
            Ok(home) => Ok(Outcome::Next(Stage::Calendars(home))),
            Err(f) => Err(f),
        },
        Stage::Calendars(home) => match calendars_of(home, reply) {
            Ok(calendars) => Ok(Outcome::Done(calendars)),
            Err(f) => Err(f),
        },
    }
}

impl Discovery {
    /// The request to send at this stage.
    pub fn request(&self) -> (res: Result<Request, Error>)
        ensures
            request_view(res) == prepared(
                Method::Propfind,
                asked(self@).url,
                question(self@),
                Seq::empty(),
                asked(self@).auth,
            ),
    {
        match self {
            Discovery::Principals(client) => client.principals_request(),
            Discovery::Home(principal) => principal.home_request(),
            Discovery::Calendars(home) => home.calendars_request(),
        }
    }

    /// Takes the reply to [`Discovery::request`] and moves on.
    pub fn advance(self, reply: Reply) -> (res: Result<Progress, Error>)
        ensures
            match stepped(self@, reply@) {
                Ok(outcome) => res matches Ok(progress) && progress@ == outcome,
                Err(f) => res matches Err(e) && e@ == f,
            },
            res matches Ok(Progress::Done(found)) ==> found.well_formed() && found.names()
                == calendar_names(asked(self@), reply@),
    {
        match self {
            Discovery::Principals(client) => match client.principal(reply) {
                Ok(principal) => Ok(Progress::Next(Discovery::Home(principal))),
                Err(e) => Err(e),
            },
            Discovery::Home(principal) => match Client::home(&principal, reply) {
                Ok(home) => Ok(Progress::Next(Discovery::Calendars(home))),
                Err(e) => Err(e),
            },
            Discovery::Calendars(home) => match home.calendars(reply) {
                Ok(calendars) => Ok(Progress::Done(calendars)),
                Err(e) => Err(e),
            },
        }
    }
}

} // verus!
