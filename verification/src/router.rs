//! The request router of the server: from the path of a request to a query,
//! from the query to a lookup in the store, from the outcome to a response.

use crate::ip::{cidr_of_text, ip_of_text, parse_cidr, parse_ip, Cidr, IpAddr};
use crate::query::{autnum_of_text, is_query_name, CidrQuery, IpQuery, QueryType, QueryView};
use crate::response::{Autnum, Domain, Entity, Nameserver, Network, Rfc9083Error};
use crate::storage::mem::{answer, nameserver_answer, Answer, Lookup, StoreData, StoreView};
use crate::text::{ascii_lowercase, chars_of, string_of, string_of_range, text_eq};
use vstd::prelude::*;
use vstd::string::StringExecFns;

verus! {

/// The media type of every response.
pub const RDAP_MEDIA_TYPE: &'static str = "application/rdap+json";

/// Whether `s` ends with `tail`.
pub open spec fn ends_with(s: Seq<char>, tail: Seq<char>) -> bool {
    tail.len() <= s.len() && s.skip(s.len() - tail.len()) == tail
}

/// The length of `s` up to and including its first `://`; zero if it has none.
pub open spec fn scheme_len(s: Seq<char>) -> nat
    decreases s.len(),
{
    if s.len() < 3 {
        0
    } else {
        let before = scheme_len(s.drop_last());
        if before > 0 {
            before
        } else if s[s.len() - 3] == ':' && s[s.len() - 2] == '/' && s[s.len() - 1] == '/' {
            s.len()
        } else {
            0
        }
    }
}

/// `s` with each run of slashes made one slash.
pub open spec fn collapse(s: Seq<char>) -> Seq<char>
    decreases s.len(),
{
    if s.len() == 0 {
        s
    } else {
        let before = collapse(s.drop_last());
        if s.len() >= 2 && s[s.len() - 2] == '/' && s.last() == '/' {
            before
        } else {
            before.push(s.last())
        }
    }
}

/// `s` with each run of slashes after its scheme made one slash.
pub open spec fn collapse_path(s: Seq<char>) -> Seq<char> {
    let k = scheme_len(s) as int;
    s.take(k) + collapse(s.skip(k))
}

/// Where a redirect to `url` sends a request for `path`: to `url` itself if it
/// ends with the path, else to `url` followed by the path, with runs of
/// slashes after the scheme made one slash.
pub open spec fn location_text(url: Seq<char>, path: Seq<char>) -> Seq<char> {
    if ends_with(url, path) {
        url
    } else {
        collapse_path(url + path)
    }
}

/// The `Location` of the redirect that answers a request for `path` with the
/// stored URL `url`; `path` begins with a slash.
pub fn location(url: &str, path: &str) -> (r: String)
    ensures
        r@ == location_text(url@, path@),
{
    let u = chars_of(url);
    let p = chars_of(path);
    if p.len() <= u.len() {
        let from = u.len() - p.len();
        let mut same = true;
        let mut i: usize = 0;
        while i < p.len()
            invariant
                i <= p.len(),
                from + p.len() == u.len(),
                same == (forall|k: int| 0 <= k < i ==> u@[from + k] == p@[k]),
            decreases p.len() - i,
        {
            if u[from + i] != p[i] {
                same = false;
            }
            i += 1;
        }
        proof {
            let tail = u@.skip(from as int);
            if same {
                assert(tail =~= p@);
            } else {
                let k = choose|k: int| 0 <= k < p.len() && u@[from + k] != p@[k];
                assert(tail[k] != p@[k]);
            }
        }
        if same {
            return string_of(&u);
        }
    }
    let mut full: Vec<char> = Vec::new();
    let mut i: usize = 0;
    while i < u.len()
        invariant
            i <= u.len(),
            full@ == u@.take(i as int),
        decreases u.len() - i,
    {
        full.push(u[i]);
        assert(full@ =~= u@.take(i as int + 1));
        i += 1;
    }
    assert(u@.take(u.len() as int) =~= u@);
    i = 0;
    while i < p.len()
        invariant
            i <= p.len(),
            full@ == u@ + p@.take(i as int),
        decreases p.len() - i,
    {
        full.push(p[i]);
        assert(full@ =~= u@ + p@.take(i as int + 1));
        i += 1;
    }
    assert(p@.take(p.len() as int) =~= p@);
    let collapsed = collapse_after_scheme(&full);
    string_of(&collapsed)
}

/// Makes each run of slashes after the scheme one slash.
fn collapse_after_scheme(s: &Vec<char>) -> (r: Vec<char>)
    ensures
        r@ == collapse_path(s@),
{
    let n = s.len();
    let mut k: usize = 0;
    let mut i: usize = 0;
    while i < n
        invariant
            i <= n == s.len(),
            k == scheme_len(s@.take(i as int)),
            k <= i,
        decreases n - i,
    {
        proof {
            let next = s@.take(i as int + 1);
            assert(next.drop_last() =~= s@.take(i as int));
            if i >= 2 {
                assert(next[next.len() - 3] == s@[i - 2]);
                assert(next[next.len() - 2] == s@[i - 1]);
                assert(next[next.len() - 1] == s@[i as int]);
            }
        }
        if k == 0 && i >= 2 && s[i - 2] == ':' && s[i - 1] == '/' && s[i] == '/' {
            k = i + 1;
        }
        i += 1;
    }
    assert(s@.take(n as int) =~= s@);
    let mut out: Vec<char> = Vec::new();
    i = 0;
    while i < k
        invariant
            i <= k <= n == s.len(),
            out@ == s@.take(i as int),
        decreases k - i,
    {
        out.push(s[i]);
        assert(out@ =~= s@.take(i as int + 1));
        i += 1;
    }
    let ghost rest = s@.skip(k as int);
    assert(rest.take(0) =~= Seq::<char>::empty());
    assert(out@ =~= s@.take(k as int) + collapse(rest.take(0)));
    while i < n
        invariant
            k <= i <= n == s.len(),
            rest == s@.skip(k as int),
            out@ == s@.take(k as int) + collapse(rest.take(i - k)),
        decreases n - i,
    {
        proof {
            let next = rest.take(i - k + 1);
            assert(next.drop_last() =~= rest.take(i - k));
            assert(next.last() == s@[i as int]);
            if i - k >= 1 {
                assert(next[next.len() - 2] == s@[i - 1]);
            }
        }
        if !(i > k && s[i - 1] == '/' && s[i] == '/') {
            out.push(s[i]);
            assert(out@ =~= s@.take(k as int) + collapse(rest.take(i - k)).push(s@[i as int]));
        }
        i += 1;
    }
    assert(rest.take(n - k) =~= rest);
    out
}

/// The place of the first `c` in `s`, or the length of `s` if it has none.
pub open spec fn first_index(s: Seq<char>, c: char) -> int
    decreases s.len(),
{
    if s.len() == 0 {
        0
    } else {
        let f = first_index(s.drop_last(), c);
        if f < s.len() - 1 {
            f
        } else if s.last() == c {
            s.len() - 1
        } else {
            s.len() as int
        }
    }
}

/// Why a request is not routed.
#[derive(Debug, Clone, Copy, PartialEq, Eq, Structural)]
pub enum RouteError {
    /// The query of the request does not parse: status 400.
    BadRequest,
    /// The path is none that the server serves: status 501.
    NotImplemented,
}

/// The first segment of a path: what follows the leading slash up to the next
/// slash.
pub open spec fn segment(path: Seq<char>) -> Seq<char> {
    let rest = path.skip(1);
    rest.take(first_index(rest, '/'))
}

/// What follows the first segment of a path and its slash, if anything does.
pub open spec fn operand(path: Seq<char>) -> Option<Seq<char>> {
    let rest = path.skip(1);
    let k = first_index(rest, '/');
    if k < rest.len() {
        Some(rest.skip(k + 1))
    } else {
        None
    }
}

/// The query that a request path stands for.
///
/// The path is `/domain/{name}`, `/nameserver/{name}`, `/entity/{handle}`,
/// `/autnum/{number}` or `/ip/{address or block}`. A path with another first
/// segment is not served; a path without a leading slash, or with an operand
/// that does not parse, is a bad request.
pub open spec fn request_of(path: Seq<char>) -> Result<QueryView, RouteError> {
    if path.len() == 0 || path[0] != '/' {
        Err(RouteError::BadRequest)
    } else {
        let kind = segment(path);
        let x = operand(path);
        if kind == "domain"@ {
            match x {
                Some(name) if is_query_name(name) => Ok(QueryView::Domain(ascii_lowercase(name))),
                _ => Err(RouteError::BadRequest),
            }
        } else if kind == "nameserver"@ {
            match x {
                Some(name) if is_query_name(name) => Ok(
                    QueryView::ANameserver(ascii_lowercase(name)),
                ),
                _ => Err(RouteError::BadRequest),
            }
        } else if kind == "entity"@ {
            match x {
                Some(handle) if handle.len() > 0 => Ok(QueryView::Entity(handle)),
                _ => Err(RouteError::BadRequest),
            }
        } else if kind == "autnum"@ {
            match x {
                Some(text) if autnum_of_text(text) is Some => Ok(
                    QueryView::AutNum(autnum_of_text(text)->0),
                ),
                _ => Err(RouteError::BadRequest),
            }
        } else if kind == "ip"@ {
            match x {
                Some(text) => ip_request_of(text),
                None => Err(RouteError::BadRequest),
            }
        } else {
            Err(RouteError::NotImplemented)
        }
    }
}

/// The query that the operand of an `/ip/` path stands for: a block if it
/// holds a slash, else an address.
pub open spec fn ip_request_of(text: Seq<char>) -> Result<QueryView, RouteError> {
    if first_index(text, '/') < text.len() {
        match cidr_of_text(text) {
            Some(cidr) => Ok(
                if cidr.addr is V4 {
                    QueryView::IpV4Cidr { cidr, text }
                } else {
                    QueryView::IpV6Cidr { cidr, text }
                },
            ),
            None => Err(RouteError::BadRequest),
        }
    } else {
        match ip_of_text(text) {
            Some(addr) => Ok(
                if addr is V4 {
                    QueryView::IpV4Addr { addr, text }
                } else {
                    QueryView::IpV6Addr { addr, text }
                },
            ),
            None => Err(RouteError::BadRequest),
        }
    }
}

/// The place of the first `c` in `s`, or the length of `s`.
fn find_first(s: &Vec<char>, c: char) -> (r: usize)
    ensures
        r == first_index(s@, c),
        r <= s.len(),
{
    let mut f: usize = 0;
    let mut i: usize = 0;
    while i < s.len()
        invariant
            i <= s.len(),
            f == first_index(s@.take(i as int), c),
            f <= i,
        decreases s.len() - i,
    {
        proof {
            let next = s@.take(i as int + 1);
            assert(next.drop_last() =~= s@.take(i as int));
            assert(next.last() == s@[i as int]);
        }
        if f == i && s[i] != c {
            f = i + 1;
        }
        i += 1;
    }
    assert(s@.take(s.len() as int) =~= s@);
    f
}

/// Reads the operand of an `/ip/` path.
fn parse_ip_operand(text: &str) -> (r: Result<QueryType, RouteError>)
    ensures
        r is Ok <==> ip_request_of(text@) is Ok,
        r matches Ok(q) ==> Ok::<QueryView, RouteError>(q@) == ip_request_of(text@) && q@.wf(),
        r matches Err(e) ==> Err::<QueryView, RouteError>(e) == ip_request_of(text@),
{
    let chars = chars_of(text);
    if find_first(&chars, '/') < chars.len() {
        match parse_cidr(text) {
            Some(c) => {
                let q = CidrQuery { cidr: c, text: text.to_owned() };
                Ok(
                    match c.addr {
                        IpAddr::V4(_) => QueryType::IpV4Cidr(q),
                        IpAddr::V6(_) => QueryType::IpV6Cidr(q),
                    },
                )
            },
            None => Err(RouteError::BadRequest),
        }
    } else {
        match parse_ip(text) {
            Some(a) => {
                let q = IpQuery { addr: a, text: text.to_owned() };
                Ok(
                    match a {
                        IpAddr::V4(_) => QueryType::IpV4Addr(q),
                        IpAddr::V6(_) => QueryType::IpV6Addr(q),
                    },
                )
            },
            None => Err(RouteError::BadRequest),
        }
    }
}

/// Reads the path of a request into a query.
pub fn parse_path(path: &str) -> (r: Result<QueryType, RouteError>)
    ensures
        r is Ok <==> request_of(path@) is Ok,
        r matches Ok(q) ==> Ok::<QueryView, RouteError>(q@) == request_of(path@) && q@.wf(),
        r matches Err(e) ==> Err::<QueryView, RouteError>(e) == request_of(path@),
{
    let chars = chars_of(path);
    if chars.len() == 0 || chars[0] != '/' {
        return Err(RouteError::BadRequest);
    }
    let mut rest: Vec<char> = Vec::new();
    let mut i: usize = 1;
    while i < chars.len()
        invariant
            1 <= i <= chars.len(),
            rest@ == chars@.subrange(1, i as int),
        decreases chars.len() - i,
    {
        rest.push(chars[i]);
        assert(rest@ =~= chars@.subrange(1, i as int + 1));
        i += 1;
    }
    assert(rest@ =~= path@.skip(1));
    let k = find_first(&rest, '/');
    let kind = string_of_range(&rest, 0, k);
    assert(kind@ =~= segment(path@));
    let x: Option<String> = if k < rest.len() {
        let text = string_of_range(&rest, k + 1, rest.len());
        assert(text@ =~= rest@.skip(k + 1));
        Some(text)
    } else {
        None
    };
    assert(x is Some <==> operand(path@) is Some);
    assert(x matches Some(t) ==> operand(path@) == Some(t@));
    if text_eq(kind.as_str(), "domain") {
        match x {
            Some(name) => match QueryType::domain(name.as_str()) {
                Ok(q) => Ok(q),
                Err(_) => Err(RouteError::BadRequest),
            },
            None => Err(RouteError::BadRequest),
        }
    } else if text_eq(kind.as_str(), "nameserver") {
        match x {
            Some(name) => match QueryType::ns(name.as_str()) {
                Ok(q) => Ok(q),
                Err(_) => Err(RouteError::BadRequest),
            },
            None => Err(RouteError::BadRequest),
        }
    } else if text_eq(kind.as_str(), "entity") {
        match x {
            Some(handle) => if handle.as_str().unicode_len() > 0 {
                Ok(QueryType::Entity(handle))
            } else {
                Err(RouteError::BadRequest)
            },
            None => Err(RouteError::BadRequest),
        }
    } else if text_eq(kind.as_str(), "autnum") {
        match x {
            Some(text) => match QueryType::autnum(text.as_str()) {
                Ok(q) => Ok(q),
                Err(_) => Err(RouteError::BadRequest),
            },
            None => Err(RouteError::BadRequest),
        }
    } else if text_eq(kind.as_str(), "ip") {
        match x {
            Some(text) => parse_ip_operand(text.as_str()),
            None => Err(RouteError::BadRequest),
        }
    } else {
        Err(RouteError::NotImplemented)
    }
}

/// What a response carries.
pub enum Body<'a> {
    Domain(&'a Domain),
    Nameserver(&'a Nameserver),
    Entity(&'a Entity),
    Autnum(&'a Autnum),
    Network(&'a Network),
    Error(Rfc9083Error),
}

/// A response: the HTTP status, the `Location` header of a redirect, and the
/// body. The content type is always [`RDAP_MEDIA_TYPE`].
pub struct Response<'a> {
    pub status: u16,
    pub location: Option<String>,
    pub body: Body<'a>,
}

/// What a [`Body`] stands for.
pub ghost enum BodyView {
    Domain(Domain),
    Nameserver(Nameserver),
    Entity(Entity),
    Autnum(Autnum),
    Network(Network),
    /// An error body with its status code and, for a redirect, its target.
    Error { error_code: u16, target: Option<Seq<char>> },
}

/// What a [`Response`] stands for.
pub ghost struct ResponseView {
    pub status: u16,
    pub location: Option<Seq<char>>,
    pub body: BodyView,
}

impl<'a> View for Body<'a> {
    type V = BodyView;

    open spec fn view(&self) -> BodyView {
        match self {
            Body::Domain(d) => BodyView::Domain(**d),
            Body::Nameserver(n) => BodyView::Nameserver(**n),
            Body::Entity(e) => BodyView::Entity(**e),
            Body::Autnum(a) => BodyView::Autnum(**a),
            Body::Network(n) => BodyView::Network(**n),
            Body::Error(e) => BodyView::Error {
                error_code: e.error_code,
                target: match e.spec_redirect_url() {
                    Some(u) => Some(u@),
                    None => None,
                },
            },
        }
    }
}

impl<'a> View for Response<'a> {
    type V = ResponseView;

    open spec fn view(&self) -> ResponseView {
        ResponseView {
            status: self.status,
            location: match self.location {
                Some(l) => Some(l@),
                None => None,
            },
            body: self.body@,
        }
    }
}

/// The response that carries nothing but an error status.
pub open spec fn error_response(status: u16) -> ResponseView {
    ResponseView {
        status,
        location: None,
        body: BodyView::Error { error_code: status, target: None },
    }
}

/// The response to a lookup: 200 with the object that was found; 302 with
/// the location for a redirect, and an error body that names it; 404 with an
/// error body where nothing was found.
pub open spec fn response_of<T>(
    a: Answer<T>,
    path: Seq<char>,
    wrap: spec_fn(T) -> BodyView,
) -> ResponseView {
    match a {
        Answer::Found(t) => ResponseView { status: 200, location: None, body: wrap(t) },
        Answer::Redirect(u) => ResponseView {
            status: 302,
            location: Some(location_text(u, path)),
            body: BodyView::Error { error_code: 302, target: Some(location_text(u, path)) },
        },
        Answer::NotFound => error_response(404),
    }
}

/// The response of a store to a query. Searches, help and complete URLs are
/// not served: status 501.
pub open spec fn reply(store: StoreView, q: QueryView) -> ResponseView {
    let path = "/"@ + q.path();
    match q {
        QueryView::Domain(n) => response_of(
            answer(store.domains, n),
            path,
            |d: Domain| BodyView::Domain(d),
        ),
        QueryView::ANameserver(n) => response_of(
            nameserver_answer(store, n),
            path,
            |d: Nameserver| BodyView::Nameserver(d),
        ),
        QueryView::Entity(h) => response_of(
            answer(store.entities, h),
            path,
            |d: Entity| BodyView::Entity(d),
        ),
        QueryView::AutNum(n) => response_of(
            answer(store.autnums, n),
            path,
            |d: Autnum| BodyView::Autnum(d),
        ),
        QueryView::IpV4Addr { addr, text } => response_of(
            answer(store.networks, Cidr::spec_host(addr)),
            path,
            |d: Network| BodyView::Network(d),
        ),
        QueryView::IpV6Addr { addr, text } => response_of(
            answer(store.networks, Cidr::spec_host(addr)),
            path,
            |d: Network| BodyView::Network(d),
        ),
        QueryView::IpV4Cidr { cidr, text } => response_of(
            answer(store.networks, cidr),
            path,
            |d: Network| BodyView::Network(d),
        ),
        QueryView::IpV6Cidr { cidr, text } => response_of(
            answer(store.networks, cidr),
            path,
            |d: Network| BodyView::Network(d),
        ),
        _ => error_response(501),
    }
}

/// The response to a request path: that of the store to the query of the
/// path, or 400 for a bad request and 501 for a path that is not served.
pub open spec fn response_to(store: StoreView, path: Seq<char>) -> ResponseView {
    match request_of(path) {
        Ok(q) => reply(store, q),
        Err(RouteError::BadRequest) => error_response(400),
        Err(RouteError::NotImplemented) => error_response(501),
    }
}

/// The response that carries nothing but an error status.
fn plain_error<'a>(status: u16) -> (r: Response<'a>)
    ensures
        r@ == error_response(status),
{
    Response { status, location: None, body: Body::Error(Rfc9083Error::error(status)) }
}

/// The response to a redirect or to a miss; `None` for an object that was
/// found.
fn without_object<'a, 'b, T>(found: &Lookup<'a, T>, path: &str) -> (r: Option<Response<'b>>)
    ensures
        found@ is Found <==> r is None,
        r matches Some(resp) ==> forall|wrap: spec_fn(T) -> BodyView|
            resp@ == #[trigger] response_of(found@, path@, wrap),
{
    match found {
        Lookup::Found(_) => None,
        Lookup::Redirect(u) => {
            let target = location(u.as_str(), path);
            let mut body = Rfc9083Error::redirect(target.clone());
            body.error_code = 302;
            Some(Response { status: 302, location: Some(target), body: Body::Error(body) })
        },
        Lookup::NotFound => Some(plain_error(404)),
    }
}

/// Answers a query from the store.
pub fn route_query<'a>(data: &'a StoreData, query: &QueryType) -> (r: Response<'a>)
    ensures
        r@ == reply(data@, query@),
{
    let tail = query.path();
    let mut path = "/".to_owned();
    path.append(tail.as_str());
    match query {
        QueryType::Domain(n) => {
            let found = data.get_domain(n.as_str());
            match without_object(&found, path.as_str()) {
                Some(r) => r,
                None => match found {
                    Lookup::Found(d) => Response { status: 200, location: None, body: Body::Domain(d) },
                    _ => plain_error(404),
                },
            }
        },
        QueryType::ANameserver(n) => {
            let found = data.get_nameserver(n.as_str());
            match without_object(&found, path.as_str()) {
                Some(r) => r,
                None => match found {
                    Lookup::Found(d) => Response {
                        status: 200,
                        location: None,
                        body: Body::Nameserver(d),
                    },
                    _ => plain_error(404),
                },
            }
        },
        QueryType::Entity(h) => {
            let found = data.get_entity(h.as_str());
            match without_object(&found, path.as_str()) {
                Some(r) => r,
                None => match found {
                    Lookup::Found(d) => Response { status: 200, location: None, body: Body::Entity(d) },
                    _ => plain_error(404),
                },
            }
        },
        QueryType::AutNum(n) => {
            let found = data.get_autnum(*n);
            match without_object(&found, path.as_str()) {
                Some(r) => r,
                None => match found {
                    Lookup::Found(d) => Response { status: 200, location: None, body: Body::Autnum(d) },
                    _ => plain_error(404),
                },
            }
        },
        QueryType::IpV4Addr(q) => network_response(data.get_network(&q.addr), path.as_str()),
        QueryType::IpV6Addr(q) => network_response(data.get_network(&q.addr), path.as_str()),
        QueryType::IpV4Cidr(q) => network_response(
            data.get_network_by_cidr(&q.cidr),
            path.as_str(),
        ),
        QueryType::IpV6Cidr(q) => network_response(
            data.get_network_by_cidr(&q.cidr),
            path.as_str(),
        ),
        _ => plain_error(501),
    }
}

/// The response to the lookup of a network.
fn network_response<'a>(found: Lookup<'a, Network>, path: &str) -> (r: Response<'a>)
    ensures
        r@ == response_of(found@, path@, |d: Network| BodyView::Network(d)),
{
    match without_object(&found, path) {
        Some(r) => r,
        None => match found {
            Lookup::Found(d) => Response { status: 200, location: None, body: Body::Network(d) },
            _ => plain_error(404),
        },
    }
}

/// Answers the request for `path` from the store.
pub fn route<'a>(data: &'a StoreData, path: &str) -> (r: Response<'a>)
    ensures
        r@ == response_to(data@, path@),
{
    match parse_path(path) {
        Ok(q) => route_query(data, &q),
        Err(RouteError::BadRequest) => plain_error(400),
        Err(RouteError::NotImplemented) => plain_error(501),
    }
}

} // verus!
