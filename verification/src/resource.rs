//! What every resource of the hierarchy has in common, and how the
//! resources below one are built from what the server says of them.

use vstd::prelude::*;
use crate::auth::{credentials, Authorization, Credentials};
use crate::host::{is_path, origin_of, origin_text, resolved, Authority, Origin};
use crate::names::{first_seen, NameMap};
use crate::result::{Error, Failure};
use crate::text::{fill, filled};
use crate::transport::{entry_lines, method_of, prepare, prepared, request_view, Method, Request};
use crate::xml::{evaluate, extracted, extraction, lines};

verus! {

/// A resource as contracts see it: its address, the credentials that it
/// carries, and the attributes that its kind keeps.
pub struct Handle {
    pub url: Seq<char>,
    pub auth: Option<Credentials>,
    pub attrs: Map<Seq<char>, Seq<char>>,
}

/// The header that limits a report to the resource and what is directly
/// below it.
pub open spec fn depth_one() -> Seq<(Seq<char>, Seq<char>)> {
    seq![("Depth"@, "1"@)]
}

/// A resource that requests are made on behalf of.
pub trait Requestable: View<V = Handle> + Sized {
    /// A copy of the credentials that the resource carries.
    fn auth(&self) -> (auth: Option<Authorization>)
        ensures
            credentials(auth) == self@.auth,
    ;

    /// Replaces the credentials and nothing else.
    fn set_auth(&mut self, auth: Option<Authorization>)
        ensures
            final(self)@ == (Handle { auth: credentials(auth), ..old(self)@ }),
    ;

    /// The request that fetches `href`.
    fn get(&self, href: String) -> (res: Result<Request, Error>)
        ensures
            request_view(res) == prepared(
                Method::Get,
                href@,
                Seq::empty(),
                Seq::empty(),
                self@.auth,
            ),
    {
        self.request("GET", href, None, None)
    }

    /// The request that asks `href` for the properties that `body` lists.
    fn propfind(&self, href: String, body: &str) -> (res: Result<Request, Error>)
        ensures
            request_view(res) == prepared(
                Method::Propfind,
                href@,
                body@,
                Seq::empty(),
                self@.auth,
            ),
    {
        proof {
            reveal_strlit("GET");
            reveal_strlit("PROPFIND");
            assert("GET"@.len() != "PROPFIND"@.len());
            assert(method_of("PROPFIND"@) == Some(Method::Propfind));
        }
        self.request("PROPFIND", href, Some(body), None)
    }

    /// The request that runs the query `body` on `href` and on what is
    /// directly below it.
    fn report(&self, href: String, body: &str) -> (res: Result<Request, Error>)
        ensures
            request_view(res) == prepared(
                Method::Report,
                href@,
                body@,
                depth_one(),
                self@.auth,
            ),
    {
        let mut headers: NameMap<String> = NameMap::new();
        headers.insert("Depth".to_owned(), "1".to_owned());
        assert(entry_lines(headers) =~= depth_one());
        proof {
            reveal_strlit("GET");
            reveal_strlit("PROPFIND");
            reveal_strlit("REPORT");
            assert("GET"@.len() != "REPORT"@.len());
            assert("PROPFIND"@.len() != "REPORT"@.len());
            assert(method_of("REPORT"@) == Some(Method::Report));
        }
        self.request("REPORT", href, Some(body), Some(headers))
    }

    /// The request with `method`, which is `GET`, `PROPFIND` or `REPORT`, for
    /// `href`. An absent body is an empty one; the credentials of the
    /// resource are attached after the headers that the caller gives, and
    /// the length of the body after them.
    fn request(
        &self,
        method: &str,
        href: String,
        body: Option<&str>,
        headers: Option<NameMap<String>>,
    ) -> (res: Result<Request, Error>)
        requires
            method_of(method@) is Some,
        ensures
            request_view(res) == prepared(
                method_of(method@)->0,
                href@,
                match body {
                    Some(b) => b@,
                    None => Seq::empty(),
                },
                match headers {
                    Some(h) => entry_lines(h),
                    None => Seq::empty(),
                },
                self@.auth,
            ),
    {
        let parsed = Method::parse(method);
        let auth = self.auth();
        let text = match body {
            Some(b) => b,
            None => "",
        };
        proof {
            reveal_strlit("");
            assert(""@ =~= Seq::<char>::empty());
        }
        let extra = match headers {
            Some(h) => h,
            None => {
                let none: NameMap<String> = NameMap::new();
                assert(entry_lines(none) =~= Seq::<(Seq<char>, Seq<char>)>::empty());
                none
            },
        };
        match parsed {
            Some(m) => prepare(m, href, text, &extra, &auth),
            None => vstd::pervasive::unreached(),
        }
    }
}

/// A resource whose answers are XML.
pub trait Xmlable: View<V = Handle> + Sized {
    /// The address of the resource.
    fn url(&self) -> (url: &str)
        ensures
            url@ == self@.url,
    ;

    /// The texts that `xpath` selects in `xml`, in document order.
    fn xml(xml: &str, xpath: &str) -> (res: Result<Vec<String>, Error>)
        ensures
            extraction(res) == extracted(xml@, xpath@),
    {
        evaluate(xml, xpath)
    }

    /// `href` as an absolute URL of the authority of this resource, whose
    /// address must be an absolute URL with a host.
    fn append_host(&self, href: String) -> (url: String)
        requires
            origin_of(self@.url) is Some,
        ensures
            url@ == resolved(origin_of(self@.url)->0, href@),
            is_path(href@) ==> url@ == origin_text(origin_of(self@.url)->0) + href@,
    {
        match Origin::of(self.url()) {
            Some(origin) => origin.resolve(href.as_str()),
            None => vstd::pervasive::unreached(),
        }
    }

    /// `href` as an absolute URL of the authority of this resource; `None`
    /// where the address of the resource is no absolute URL with a host.
    fn resolve(&self, href: String) -> (url: Option<String>)
        ensures
            match url {
                Some(u) => origin_of(self@.url) is Some && u@ == resolved(
                    origin_of(self@.url)->0,
                    href@,
                ) && (is_path(href@) ==> u@ == origin_text(origin_of(self@.url)->0) + href@),
                None => origin_of(self@.url) is None,
            },
    {
        match Origin::of(self.url()) {
            Some(_) => Some(self.append_host(href)),
            None => None,
        }
    }
}

/// A collection of strings as a map of texts.
pub open spec fn texts_map(params: NameMap<String>) -> Map<Seq<char>, Seq<char>> {
    params@.map_values(|s: String| s@)
}

/// A kind of resource that is found below another one.
pub trait Children: Requestable + Xmlable {
    /// The names of the attributes that this kind keeps.
    spec fn attr_names() -> Set<Seq<char>>;

    /// A resource at `url`, without credentials, with those of `params` that
    /// this kind keeps.
    fn new(url: String, params: &NameMap<String>) -> (child: Self)
        ensures
            child@ == (Handle {
                url: url@,
                auth: None,
                attrs: texts_map(*params).restrict(Self::attr_names()),
            }),
    ;
}

/// The resource that `parent` has at `href`: its address is resolved with
/// the origin of the parent, and it carries the parent's credentials.
pub open spec fn child_of(
    origin: Authority,
    parent: Handle,
    href: Seq<char>,
    attrs: Map<Seq<char>, Seq<char>>,
) -> Handle {
    Handle { url: resolved(origin, href), auth: parent.auth, attrs }
}

/// The resources that `parent` has at `hrefs`, in the same order. It fails
/// only where the address of the parent is no absolute URL with a host.
pub open spec fn vector_of(parent: Handle, hrefs: Seq<Seq<char>>) -> Result<Seq<Handle>, Failure> {
    match origin_of(parent.url) {
        Some(origin) => Ok(
            Seq::new(hrefs.len(), |i: int| child_of(origin, parent, hrefs[i], Map::empty())),
        ),
        None => Err(Failure::Url(parent.url)),
    }
}

/// For a parent whose address has an origin, every reference gives one
/// resource, in the order of the references, with the credentials of the
/// parent. Its address is the reference where that is an absolute URL with
/// the scheme, the host and the port of the parent, and is of that
/// authority then; else it is the origin of the parent followed by the
/// reference.
pub proof fn lemma_vector_complete(parent: Handle, hrefs: Seq<Seq<char>>)
    requires
        origin_of(parent.url) is Some,
    ensures
        vector_of(parent, hrefs) is Ok,
        vector_of(parent, hrefs)->Ok_0.len() == hrefs.len(),
        forall|i: int|
            0 <= i < hrefs.len() ==> {
                let child = #[trigger] vector_of(parent, hrefs)->Ok_0[i];
                &&& child.url == resolved(origin_of(parent.url)->0, hrefs[i])
                &&& origin_of(hrefs[i]) == origin_of(parent.url) ==> child.url == hrefs[i]
                    && origin_of(child.url) == origin_of(parent.url)
                &&& origin_of(hrefs[i]) != origin_of(parent.url) ==> child.url == origin_text(
                    origin_of(parent.url)->0,
                ) + hrefs[i]
                &&& child.auth == parent.auth
                &&& child.attrs == Map::<Seq<char>, Seq<char>>::empty()
            },
{
}

/// Whether each resource for a reference that is a path has the origin
/// followed by that path for its address.
pub open spec fn paths_kept(origin: Authority, hrefs: Seq<Seq<char>>, list: Seq<Handle>) -> bool {
    forall|i: int|
        0 <= i < hrefs.len() && i < list.len() && is_path(#[trigger] hrefs[i]) ==> list[i].url
            == origin_text(origin) + hrefs[i]
}

/// Resources, each by its view.
pub open spec fn handles<C: View<V = Handle>>(list: Seq<C>) -> Seq<Handle> {
    Seq::new(list.len(), |i: int| list[i]@)
}

/// A list of resources, or a failure, by their views.
pub open spec fn vector_view<C: View<V = Handle>>(res: Result<Vec<C>, Error>) -> Result<
    Seq<Handle>,
    Failure,
> {
    match res {
        Ok(list) => Ok(handles(list@)),
        Err(e) => Err(e@),
    }
}

fn make_child<P: Children, C: Children>(
    parent: &P,
    origin: &Origin,
    href: &str,
    params: &NameMap<String>,
) -> (child: C)
    ensures
        child@ == child_of(
            origin@,
            parent@,
            href@,
            texts_map(*params).restrict(C::attr_names()),
        ),
        is_path(href@) ==> child@.url == origin_text(origin@) + href@,
{
    let mut child = C::new(origin.resolve(href), params);
    child.set_auth(parent.auth());
    child
}

/// Builds the resources that `parent` has at `hrefs`.
pub fn build_vector<P: Children, C: Children>(parent: &P, hrefs: &Vec<String>) -> (res: Result<
    Vec<C>,
    Error,
>)
    ensures
        vector_view(res) == vector_of(parent@, lines(hrefs@)),
        res matches Ok(list) ==> paths_kept(
            origin_of(parent@.url)->0,
            lines(hrefs@),
            handles(list@),
        ),
{
    let origin = match Origin::of(parent.url()) {
        Some(origin) => origin,
        None => {
            return Err(Error::Url(parent.url().to_owned()));
        },
    };
    let none: NameMap<String> = NameMap::new();
    assert(texts_map(none).restrict(C::attr_names()) =~= Map::<Seq<char>, Seq<char>>::empty());
    let mut list: Vec<C> = Vec::new();
    let mut i: usize = 0;
    while i < hrefs.len()
        invariant
            i <= hrefs@.len(),
            list@.len() == i,
            origin_of(parent@.url) == Some(origin@),
            texts_map(none).restrict(C::attr_names()) == Map::<Seq<char>, Seq<char>>::empty(),
            forall|j: int|
                0 <= j < i ==> (#[trigger] list@[j])@ == child_of(
                    origin@,
                    parent@,
                    hrefs@[j]@,
                    Map::empty(),
                ),
            forall|j: int|
                0 <= j < i && is_path(hrefs@[j]@) ==> (#[trigger] list@[j])@.url == origin_text(
                    origin@,
                ) + hrefs@[j]@,
        decreases hrefs@.len() - i,
    {
        let child: C = make_child(parent, &origin, hrefs[i].as_str(), &none);
        list.push(child);
        i = i + 1;
    }
    assert(handles(list@) =~= vector_of(parent@, lines(hrefs@))->Ok_0);
    Ok(list)
}

/// What [`to_vec`] returns: the resources at the texts that `xpath` selects
/// in `response`, or the failure of that selection.
pub open spec fn listed(parent: Handle, response: Seq<char>, xpath: Seq<char>) -> Result<
    Seq<Handle>,
    Failure,
> {
    match extracted(response, xpath) {
        Ok(hrefs) => vector_of(parent, hrefs),
        Err(f) => Err(f),
    }
}

/// The resources below `parent` that `response` names: one for each text
/// that `xpath` selects, in document order, at the address that the text
/// resolves to, with the credentials of `parent` and no attributes. A text
/// that is a path resolves to the origin of `parent` followed by the path.
pub fn to_vec<P: Children, C: Children>(parent: &P, response: &str, xpath: &str) -> (res: Result<
    Vec<C>,
    Error,
>)
    ensures
        vector_view(res) == listed(parent@, response@, xpath@),
        res matches Ok(list) ==> paths_kept(
            origin_of(parent@.url)->0,
            extracted(response@, xpath@)->Ok_0,
            handles(list@),
        ),
{
    match evaluate(response, xpath) {
        Ok(hrefs) => build_vector(parent, &hrefs),
        Err(e) => Err(e),
    }
}

/// The first of the resources that [`to_vec`] returns, if there is one.
pub fn one<P: Children, C: Children>(parent: &P, response: &str, xpath: &str) -> (res: Result<
    Option<C>,
    Error,
>)
    ensures
        match listed(parent@, response@, xpath@) {
            Ok(found) => match res {
                Ok(Some(first)) => found.len() > 0 && first@ == found[0],
                Ok(None) => found.len() == 0,
                Err(_) => false,
            },
            Err(f) => res matches Err(e) && e@ == f,
        },
{
    match to_vec::<P, C>(parent, response, xpath) {
        Ok(mut items) => {
            if items.len() == 0 {
                Ok(None)
            } else {
                Ok(Some(items.remove(0)))
            }
        },
        Err(e) => Err(e),
    }
}

/// Templates with the names of the attributes that they are for, each
/// string by its view.
pub open spec fn templates(list: Seq<(&str, &str)>) -> Seq<(Seq<char>, Seq<char>)> {
    Seq::new(list.len(), |i: int| (list[i].0@, list[i].1@))
}

/// The attributes that `response` holds for `key`: for each pair of a name
/// and a template, in order, the first text that the template selects once
/// `key` is put into it; no entry where it selects none. It fails with the
/// first selection that fails.
pub open spec fn attrs_of(
    response: Seq<char>,
    key: Seq<char>,
    params: Seq<(Seq<char>, Seq<char>)>,
) -> Result<Map<Seq<char>, Seq<char>>, Failure>
    decreases params.len(),
{
    if params.len() == 0 {
        Ok(Map::empty())
    } else {
        match attrs_of(response, key, params.drop_last()) {
            Ok(found) => match extracted(response, filled(params.last().1, key)) {
                Ok(values) => if values.len() > 0 {
                    Ok(found.insert(params.last().0, values[0]))
                } else {
                    Ok(found)
                },
                Err(f) => Err(f),
            },
            Err(f) => Err(f),
        }
    }
}

/// A failure among the first attributes is the failure of all of them.
pub proof fn lemma_attrs_fail(
    response: Seq<char>,
    key: Seq<char>,
    params: Seq<(Seq<char>, Seq<char>)>,
    n: int,
)
    requires
        0 <= n <= params.len(),
        attrs_of(response, key, params.take(n)) is Err,
    ensures
        attrs_of(response, key, params) == attrs_of(response, key, params.take(n)),
    decreases params.len() - n,
{
    if n < params.len() {
        assert(params.take(n + 1).drop_last() =~= params.take(n));
        lemma_attrs_fail(response, key, params, n + 1);
    } else {
        assert(params.take(n) =~= params);
    }
}

/// The resource that `parent` has under `key`: at the first address that
/// the value template selects for the key, with the attributes that its
/// kind keeps. Where the template selects no address, the key is missing
/// its resource, and the failure names the expression.
pub open spec fn entry_of(
    parent: Handle,
    origin: Authority,
    kept: Set<Seq<char>>,
    response: Seq<char>,
    key: Seq<char>,
    value_xpath: Seq<char>,
    params: Seq<(Seq<char>, Seq<char>)>,
) -> Result<Handle, Failure> {
    match extracted(response, filled(value_xpath, key)) {
        Ok(hrefs) => match attrs_of(response, key, params) {
            Ok(attrs) => if hrefs.len() > 0 {
                Ok(child_of(origin, parent, hrefs[0], attrs.restrict(kept)))
            } else {
                Err(Failure::Missing(filled(value_xpath, key)))
            },
            Err(f) => Err(f),
        },
        Err(f) => Err(f),
    }
}

/// The resources that `parent` has under `keys`, taken in order: a key that
/// comes again replaces what it stood for. It fails with the first key that
/// fails.
pub open spec fn map_of(
    parent: Handle,
    origin: Authority,
    kept: Set<Seq<char>>,
    response: Seq<char>,
    keys: Seq<Seq<char>>,
    value_xpath: Seq<char>,
    params: Seq<(Seq<char>, Seq<char>)>,
) -> Result<Map<Seq<char>, Handle>, Failure>
    decreases keys.len(),
{
    if keys.len() == 0 {
        Ok(Map::empty())
    } else {
        match map_of(parent, origin, kept, response, keys.drop_last(), value_xpath, params) {
            Ok(found) => match entry_of(
                parent,
                origin,
                kept,
                response,
                keys.last(),
                value_xpath,
                params,
            ) {
                Ok(child) => Ok(found.insert(keys.last(), child)),
                Err(f) => Err(f),
            },
            Err(f) => Err(f),
        }
    }
}

/// A failure among the first keys is the failure of all of them.
pub proof fn lemma_map_fail(
    parent: Handle,
    origin: Authority,
    kept: Set<Seq<char>>,
    response: Seq<char>,
    keys: Seq<Seq<char>>,
    value_xpath: Seq<char>,
    params: Seq<(Seq<char>, Seq<char>)>,
    n: int,
)
    requires
        0 <= n <= keys.len(),
        map_of(parent, origin, kept, response, keys.take(n), value_xpath, params) is Err,
    ensures
        map_of(parent, origin, kept, response, keys, value_xpath, params) == map_of(
            parent,
            origin,
            kept,
            response,
            keys.take(n),
            value_xpath,
            params,
        ),
    decreases keys.len() - n,
{
    if n < keys.len() {
        assert(keys.take(n + 1).drop_last() =~= keys.take(n));
        lemma_map_fail(parent, origin, kept, response, keys, value_xpath, params, n + 1);
    } else {
        assert(keys.take(n) =~= keys);
    }
}

/// Where every key has a resource, the keys give a map with one entry for
/// each distinct key, and each key stands for its resource.
pub proof fn lemma_map_complete(
    parent: Handle,
    origin: Authority,
    kept: Set<Seq<char>>,
    response: Seq<char>,
    keys: Seq<Seq<char>>,
    value_xpath: Seq<char>,
    params: Seq<(Seq<char>, Seq<char>)>,
)
    requires
        forall|i: int|
            0 <= i < keys.len() ==> entry_of(
                parent,
                origin,
                kept,
                response,
                #[trigger] keys[i],
                value_xpath,
                params,
            ) is Ok,
    ensures
        map_of(parent, origin, kept, response, keys, value_xpath, params) is Ok,
        map_of(parent, origin, kept, response, keys, value_xpath, params)->Ok_0.dom()
            == keys.to_set(),
        map_of(parent, origin, kept, response, keys, value_xpath, params)->Ok_0.dom().finite(),
        map_of(parent, origin, kept, response, keys, value_xpath, params)->Ok_0.len()
            == keys.to_set().len(),
        forall|i: int|
            0 <= i < keys.len() ==> map_of(
                parent,
                origin,
                kept,
                response,
                keys,
                value_xpath,
                params,
            )->Ok_0[#[trigger] keys[i]] == entry_of(
                parent,
                origin,
                kept,
                response,
                keys[i],
                value_xpath,
                params,
            )->Ok_0,
    decreases keys.len(),
{
    let all = map_of(parent, origin, kept, response, keys, value_xpath, params);
    if keys.len() == 0 {
        assert(all->Ok_0.dom() =~= keys.to_set());
    } else {
        let front = keys.drop_last();
        assert forall|i: int| 0 <= i < front.len() implies entry_of(
            parent,
            origin,
            kept,
            response,
            #[trigger] front[i],
            value_xpath,
            params,
        ) is Ok by {
            assert(front[i] == keys[i]);
        }
        lemma_map_complete(parent, origin, kept, response, front, value_xpath, params);
        let before = map_of(parent, origin, kept, response, front, value_xpath, params)->Ok_0;
        assert(entry_of(
            parent,
            origin,
            kept,
            response,
            keys[keys.len() - 1],
            value_xpath,
            params,
        ) is Ok);
        assert forall|k: Seq<char>| keys.to_set().contains(k) <==> (front.to_set().contains(k) || k
            == keys.last()) by {
            if keys.contains(k) {
                let i = choose|i: int| 0 <= i < keys.len() && keys[i] == k;
                if i < keys.len() - 1 {
                    assert(front[i] == k);
                }
            }
            if front.contains(k) {
                let i = choose|i: int| 0 <= i < front.len() && front[i] == k;
                assert(keys[i] == k);
            }
            if k == keys.last() {
                assert(keys[keys.len() - 1] == k);
            }
        }
        assert(all->Ok_0.dom() =~= keys.to_set());
        assert forall|i: int| 0 <= i < keys.len() implies all->Ok_0[#[trigger] keys[i]]
            == entry_of(parent, origin, kept, response, keys[i], value_xpath, params)->Ok_0 by {
            if keys[i] != keys.last() {
                assert(front[i] == keys[i]);
            }
        }
    }
}

/// What [`to_map`] returns: the resources under the keys that `key_xpath`
/// selects in `response`, or the first failure on the way.
pub open spec fn mapped(
    parent: Handle,
    kept: Set<Seq<char>>,
    response: Seq<char>,
    key_xpath: Seq<char>,
    value_xpath: Seq<char>,
    params: Seq<(Seq<char>, Seq<char>)>,
) -> Result<Map<Seq<char>, Handle>, Failure> {
    match extracted(response, key_xpath) {
        Ok(keys) => match origin_of(parent.url) {
            Some(origin) => map_of(parent, origin, kept, response, keys, value_xpath, params),
            None => Err(Failure::Url(parent.url)),
        },
        Err(f) => Err(f),
    }
}

/// A collection of resources as a map of their views.
pub open spec fn handle_map<C: View<V = Handle>>(found: NameMap<C>) -> Map<Seq<char>, Handle> {
    found@.map_values(|c: C| c@)
}

/// A collection of resources, or a failure, by their views.
pub open spec fn map_view<C: View<V = Handle>>(res: Result<NameMap<C>, Error>) -> Result<
    Map<Seq<char>, Handle>,
    Failure,
> {
    match res {
        Ok(found) => Ok(handle_map(found)),
        Err(e) => Err(e@),
    }
}

/// Collects the attributes of `key` from `response`.
pub fn attributes(response: &str, key: &str, params: &Vec<(&str, &str)>) -> (res: Result<
    NameMap<String>,
    Error,
>)
    ensures
        match attrs_of(response@, key@, templates(params@)) {
            Ok(attrs) => res matches Ok(found) && texts_map(found) == attrs,
            Err(f) => res matches Err(e) && e@ == f,
        },
{
    let ghost all = templates(params@);
    let mut found: NameMap<String> = NameMap::new();
    let mut j: usize = 0;
    assert(all.take(0) =~= Seq::<(Seq<char>, Seq<char>)>::empty());
    assert(texts_map(found) =~= Map::<Seq<char>, Seq<char>>::empty());
    while j < params.len()
        invariant
            j <= params@.len(),
            all == templates(params@),
            attrs_of(response@, key@, all.take(j as int)) == Ok::<
                Map<Seq<char>, Seq<char>>,
                Failure,
            >(texts_map(found)),
        decreases params@.len() - j,
    {
        let (name, template) = params[j];
        proof {
            assert(all.take(j + 1).drop_last() =~= all.take(j as int));
            assert(all.take(j + 1).last() == (name@, template@));
        }
        let xpath = fill(template, key);
        match evaluate(response, xpath.as_str()) {
            Ok(values) => {
                if values.len() > 0 {
                    let ghost before = texts_map(found);
                    found.insert(name.to_owned(), values[0].clone());
                    assert(texts_map(found) =~= before.insert(name@, values@[0]@));
                }
            },
            Err(e) => {
                proof {
                    lemma_attrs_fail(response@, key@, all, j + 1);
                }
                return Err(e);
            },
        }
        j = j + 1;
    }
    assert(all.take(j as int) =~= all);
    Ok(found)
}

/// Builds the resource of one key from what was selected for it: `hrefs`
/// are its addresses, of which the first counts, `attrs` its attributes,
/// and `wanted` the expression that selected the addresses.
pub fn entry<P: Children, C: Children>(
    parent: &P,
    origin: &Origin,
    hrefs: &Vec<String>,
    attrs: &NameMap<String>,
    wanted: String,
) -> (res: Result<C, Error>)
    ensures
        match res {
            Ok(child) => hrefs@.len() > 0 && child@ == child_of(
                origin@,
                parent@,
                hrefs@[0]@,
                texts_map(*attrs).restrict(C::attr_names()),
            ) && (is_path(hrefs@[0]@) ==> child@.url == origin_text(origin@) + hrefs@[0]@),
            Err(e) => hrefs@.len() == 0 && e@ == Failure::Missing(wanted@),
        },
{
    if hrefs.len() > 0 {
        Ok(make_child(parent, origin, hrefs[0].as_str(), attrs))
    } else {
        Err(Error::Missing(wanted))
    }
}

/// The resources below `parent` that `response` names, under their keys.
///
/// `key_xpath` selects the keys. For each key, in document order,
/// `value_xpath` with the key in place of `{}` selects the address of its
/// resource, of which the first counts, and each template of `params_xpath`
/// selects an attribute in the same way, which is left out where nothing is
/// selected. Every resource carries the credentials of `parent`. A key that
/// comes again replaces the resource that it stood for. A key without an
/// address makes the whole call fail.
pub fn to_map<P: Children, C: Children>(
    parent: &P,
    response: &str,
    key_xpath: &str,
    value_xpath: &str,
    params_xpath: Vec<(&str, &str)>,
) -> (res: Result<NameMap<C>, Error>)
    ensures
        map_view(res) == mapped(
            parent@,
            C::attr_names(),
            response@,
            key_xpath@,
            value_xpath@,
            templates(params_xpath@),
        ),
        res matches Ok(found) ==> found.well_formed() && found.names() == first_seen(
            extracted(response@, key_xpath@)->Ok_0,
        ),
{
    let keys = match evaluate(response, key_xpath) {
        Ok(keys) => keys,
        Err(e) => {
            return Err(e);
        },
    };
    let origin = match Origin::of(parent.url()) {
        Some(origin) => origin,
        None => {
            return Err(Error::Url(parent.url().to_owned()));
        },
    };
    let ghost all = lines(keys@);
    let ghost params = templates(params_xpath@);
    let mut found: NameMap<C> = NameMap::new();
    let mut i: usize = 0;
    assert(all.take(0) =~= Seq::<Seq<char>>::empty());
    assert(handle_map(found) =~= Map::<Seq<char>, Handle>::empty());
    while i < keys.len()
        invariant
            i <= keys@.len(),
            all == lines(keys@),
            params == templates(params_xpath@),
            extracted(response@, key_xpath@) == Ok::<Seq<Seq<char>>, Failure>(all),
            origin_of(parent@.url) == Some(origin@),
            found.well_formed(),
            found.names() == first_seen(all.take(i as int)),
            map_of(
                parent@,
                origin@,
                C::attr_names(),
                response@,
                all.take(i as int),
                value_xpath@,
                params,
            ) == Ok::<Map<Seq<char>, Handle>, Failure>(handle_map(found)),
        decreases keys@.len() - i,
    {
        let key = keys[i].as_str();
        proof {
            assert(all.take(i + 1).drop_last() =~= all.take(i as int));
            assert(all.take(i + 1).last() == key@);
        }
        let xpath = fill(value_xpath, key);
        let hrefs = match evaluate(response, xpath.as_str()) {
            Ok(hrefs) => hrefs,
            Err(e) => {
                proof {
                    lemma_map_fail(
                        parent@,
                        origin@,
                        C::attr_names(),
                        response@,
                        all,
                        value_xpath@,
                        params,
                        i + 1,
                    );
                }
                return Err(e);
            },
        };
        let attrs = match attributes(response, key, &params_xpath) {
            Ok(attrs) => attrs,
            Err(e) => {
                proof {
                    lemma_map_fail(
                        parent@,
                        origin@,
                        C::attr_names(),
                        response@,
                        all,
                        value_xpath@,
                        params,
                        i + 1,
                    );
                }
                return Err(e);
            },
        };
        let child: C = match entry(parent, &origin, &hrefs, &attrs, xpath) {
            Ok(child) => child,
            Err(e) => {
                proof {
                    lemma_map_fail(
                        parent@,
                        origin@,
                        C::attr_names(),
                        response@,
                        all,
                        value_xpath@,
                        params,
                        i + 1,
                    );
                }
                return Err(e);
            },
        };
        let ghost before = handle_map(found);
        found.insert(key.to_owned(), child);
        assert(handle_map(found) =~= before.insert(key@, child@));
        i = i + 1;
    }
    assert(all.take(i as int) =~= all);
    Ok(found)
}

} // verus!
