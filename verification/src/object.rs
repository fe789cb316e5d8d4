//! Calendar objects, and the stream that fetches them one by one.

use vstd::prelude::*;
use crate::auth::{credentials, duplicate, Authorization};
use crate::names::NameMap;
use crate::resource::{handles, Children, Handle, Requestable, Xmlable};
use crate::result::Error;
use crate::transport::{prepared, receive, received, request_view, text_view, Method, Reply, Request};

verus! {

/// One calendar object on the server: an event, a task, or whatever else
/// the calendar holds.
#[derive(Debug)]
pub struct Object {
    url: String,
    auth: Option<Authorization>,
}

impl View for Object {
    type V = Handle;

    closed spec fn view(&self) -> Handle {
        Handle { url: self.url@, auth: credentials(self.auth), attrs: Map::empty() }
    }
}

impl Clone for Object {
    fn clone(&self) -> (copy: Object)
        ensures
            copy@ == self@,
    {
        Object { url: self.url.clone(), auth: duplicate(&self.auth) }
    }
}

impl Requestable for Object {
    fn auth(&self) -> (auth: Option<Authorization>) {
        duplicate(&self.auth)
    }

    fn set_auth(&mut self, auth: Option<Authorization>) {
        self.auth = auth;
    }
}

impl Xmlable for Object {
    fn url(&self) -> (url: &str) {
        self.url.as_str()
    }
}

impl Children for Object {
    open spec fn attr_names() -> Set<Seq<char>> {
        Set::empty()
    }

    fn new(url: String, params: &NameMap<String>) -> (child: Object) {
        let child = Object { url, auth: None };
        assert(child@.attrs =~= crate::resource::texts_map(*params).restrict(Self::attr_names()));
        child
    }
}

/// The objects of a calendar that have not been fetched yet, in the order
/// in which the server listed them. Each is fetched once, when the stream
/// reaches it, and the stream never goes back.
#[derive(Debug)]
pub struct Iterator {
    objects: Vec<Object>,
    current: usize,
}

/// What is left of a stream once its first object has been passed.
pub open spec fn rest(remaining: Seq<Handle>) -> Seq<Handle> {
    if remaining.len() > 0 {
        remaining.skip(1)
    } else {
        remaining
    }
}

/// What is left of a stream after `k` calls of [`Iterator::advance`].
pub open spec fn after(remaining: Seq<Handle>, k: nat) -> Seq<Handle>
    decreases k,
{
    if k == 0 {
        remaining
    } else {
        rest(after(remaining, (k - 1) as nat))
    }
}

/// After `k` calls, `k` fewer objects remain, and none once all were passed;
/// what remains is the end of what there was.
pub proof fn lemma_after(remaining: Seq<Handle>, k: nat)
    ensures
        k <= remaining.len() ==> after(remaining, k) == remaining.skip(k as int),
        k <= remaining.len() ==> after(remaining, k).len() == remaining.len() - k,
        k > remaining.len() ==> after(remaining, k).len() == 0,
    decreases k,
{
    if k == 0 {
        assert(remaining.skip(0) =~= remaining);
    } else {
        lemma_after(remaining, (k - 1) as nat);
        if k <= remaining.len() {
            assert(remaining.skip(k - 1).skip(1) =~= remaining.skip(k as int));
        }
    }
}

impl Iterator {
    #[verifier::type_invariant]
    spec fn in_range(self) -> bool {
        self.current <= self.objects@.len()
    }

    /// The objects that have not been passed yet.
    pub closed spec fn remaining(&self) -> Seq<Handle> {
        handles(self.objects@).skip(self.current as int)
    }

    /// A stream over `objects`, with none of them passed.
    pub fn from(objects: Vec<Object>) -> (stream: Iterator)
        ensures
            stream.remaining() == handles(objects@),
    {
        assert(handles(objects@).skip(0) =~= handles(objects@));
        Iterator { objects, current: 0 }
    }

    /// Whether nothing is left to fetch.
    pub fn is_empty(&self) -> (b: bool)
        ensures
            b == (self.remaining().len() == 0),
    {
        proof {
            use_type_invariant(self);
        }
        self.current == self.objects.len()
    }

    /// How many objects are left to fetch.
    pub fn len(&self) -> (n: usize)
        ensures
            n == self.remaining().len(),
    {
        proof {
            use_type_invariant(self);
        }
        self.objects.len() - self.current
    }

    /// The request that fetches the object at `index` among those that are
    /// left; `None` where fewer are left.
    pub fn get(&self, index: usize) -> (res: Option<Result<Request, Error>>)
        ensures
            match res {
                Some(request) => index < self.remaining().len() && request_view(request)
                    == prepared(
                    Method::Get,
                    self.remaining()[index as int].url,
                    Seq::empty(),
                    Seq::empty(),
                    self.remaining()[index as int].auth,
                ),
                None => index >= self.remaining().len(),
            },
    {
        proof {
            use_type_invariant(self);
        }
        if index < self.objects.len() - self.current {
            let object = &self.objects[self.current + index];
            Some(object.get(object.url.clone()))
        } else {
            None
        }
    }

    /// The request that fetches the next object; `None` at the end.
    pub fn request(&self) -> (res: Option<Result<Request, Error>>)
        ensures
            match res {
                Some(request) => self.remaining().len() > 0 && request_view(request) == prepared(
                    Method::Get,
                    self.remaining()[0].url,
                    Seq::empty(),
                    Seq::empty(),
                    self.remaining()[0].auth,
                ),
                None => self.remaining().len() == 0,
            },
    {
        self.get(0)
    }

    /// Passes the next object, given the reply to its request.
    ///
    /// At the end of the stream nothing changes and nothing is returned,
    /// however often this is called. Before the end the stream moves on by
    /// one object, whatever the reply was: the result is the text of the
    /// object, to be decoded, or the failure of this one exchange.
    pub fn advance(&mut self, reply: Reply) -> (item: Option<Result<String, Error>>)
        ensures
            final(self).remaining() == rest(old(self).remaining()),
            match item {
                Some(body) => old(self).remaining().len() > 0 && text_view(body) == received(
                    Method::Get,
                    old(self).remaining()[0].url,
                    reply@,
                ),
                None => old(self).remaining().len() == 0,
            },
    {
        proof {
            use_type_invariant(&*self);
        }
        if self.current < self.objects.len() {
            let body = receive(Method::Get, self.objects[self.current].url.as_str(), reply);
            self.current = self.current + 1;
            assert(self.remaining() =~= old(self).remaining().skip(1));
            Some(body)
        } else {
            None
        }
    }
}

} // verus!
