//! The queries that a client can put to an RDAP server, how user input is
//! read into them, and the URL of each.

use crate::check::is_ldh_domain_text;
use crate::check::is_ldh_domain_name;
use crate::ip::{cidr_of_text, ip_of_text, parse_cidr, parse_ip, Cidr, IpAddr};
use crate::text::{
    ascii_lower, ascii_lowercase, chars_of, decimal, number_of_digits, parse_digits, split,
    split_chars, string_of_range, to_ascii_lower, to_ascii_lowercase, u64_to_decimal,
};
use vstd::prelude::*;
use vstd::string::StringExecFns;

verus! {

/// Why user input was not taken as a query.
#[derive(Debug, Clone, Copy, PartialEq, Eq, Structural)]
pub enum QueryError {
    /// Not a domain or name server name in LDH form within the length limits.
    InvalidDomainName,
    /// Not `AS` and digits, or digits alone, of a number below 2^32.
    InvalidAutnum,
    /// Not an IP address of the family asked for.
    InvalidIpAddress,
    /// Not a CIDR block of the family asked for.
    InvalidCidr,
}

/// An IP address as it was given, and the address that it stands for.
#[derive(Debug, PartialEq, Eq)]
pub struct IpQuery {
    pub addr: IpAddr,
    pub text: String,
}

/// A CIDR block as it was given, and the block that it stands for.
#[derive(Debug, PartialEq, Eq)]
pub struct CidrQuery {
    pub cidr: Cidr,
    pub text: String,
}

/// A query.
#[derive(Debug, PartialEq, Eq)]
pub enum QueryType {
    IpV4Addr(IpQuery),
    IpV6Addr(IpQuery),
    IpV4Cidr(CidrQuery),
    IpV6Cidr(CidrQuery),
    AutNum(u32),
    /// A domain by its name in LDH form, in lower case.
    Domain(String),
    /// A name server by its name in LDH form, in lower case.
    ANameserver(String),
    /// An entity by its handle.
    Entity(String),
    /// The name servers with an IP address.
    Nameservers(String),
    DomainNameSearch(String),
    EntityNameSearch(String),
    EntityHandleSearch(String),
    NameserverNameSearch(String),
    /// A complete URL, to be used as it is.
    Url(String),
    Help,
}

/// What a [`QueryType`] stands for.
pub ghost enum QueryView {
    IpV4Addr { addr: IpAddr, text: Seq<char> },
    IpV6Addr { addr: IpAddr, text: Seq<char> },
    IpV4Cidr { cidr: Cidr, text: Seq<char> },
    IpV6Cidr { cidr: Cidr, text: Seq<char> },
    AutNum(u32),
    Domain(Seq<char>),
    ANameserver(Seq<char>),
    Entity(Seq<char>),
    Nameservers(Seq<char>),
    DomainNameSearch(Seq<char>),
    EntityNameSearch(Seq<char>),
    EntityHandleSearch(Seq<char>),
    NameserverNameSearch(Seq<char>),
    Url(Seq<char>),
    Help,
}

impl View for QueryType {
    type V = QueryView;

    open spec fn view(&self) -> QueryView {
        match self {
            QueryType::IpV4Addr(q) => QueryView::IpV4Addr { addr: q.addr, text: q.text@ },
            QueryType::IpV6Addr(q) => QueryView::IpV6Addr { addr: q.addr, text: q.text@ },
            QueryType::IpV4Cidr(q) => QueryView::IpV4Cidr { cidr: q.cidr, text: q.text@ },
            QueryType::IpV6Cidr(q) => QueryView::IpV6Cidr { cidr: q.cidr, text: q.text@ },
            QueryType::AutNum(n) => QueryView::AutNum(*n),
            QueryType::Domain(n) => QueryView::Domain(n@),
            QueryType::ANameserver(n) => QueryView::ANameserver(n@),
            QueryType::Entity(h) => QueryView::Entity(h@),
            QueryType::Nameservers(ip) => QueryView::Nameservers(ip@),
            QueryType::DomainNameSearch(n) => QueryView::DomainNameSearch(n@),
            QueryType::EntityNameSearch(n) => QueryView::EntityNameSearch(n@),
            QueryType::EntityHandleSearch(h) => QueryView::EntityHandleSearch(h@),
            QueryType::NameserverNameSearch(n) => QueryView::NameserverNameSearch(n@),
            QueryType::Url(u) => QueryView::Url(u@),
            QueryType::Help => QueryView::Help,
        }
    }
}

impl QueryView {
    /// Whether an address or block is of the family of its variant and is what
    /// its text stands for.
    pub open spec fn wf(self) -> bool {
        match self {
            QueryView::IpV4Addr { addr, text } => addr is V4 && ip_of_text(text) == Some(addr),
            QueryView::IpV6Addr { addr, text } => addr is V6 && ip_of_text(text) == Some(addr),
            QueryView::IpV4Cidr { cidr, text } => cidr.addr is V4 && cidr_of_text(text) == Some(
                cidr,
            ),
            QueryView::IpV6Cidr { cidr, text } => cidr.addr is V6 && cidr_of_text(text) == Some(
                cidr,
            ),
            _ => true,
        }
    }

    /// The path of the query below the base URL of a server, without a
    /// leading slash; for a complete URL, the URL.
    pub open spec fn path(self) -> Seq<char> {
        match self {
            QueryView::IpV4Addr { addr, text } => "ip/"@ + text,
            QueryView::IpV6Addr { addr, text } => "ip/"@ + text,
            QueryView::IpV4Cidr { cidr, text } => "ip/"@ + text,
            QueryView::IpV6Cidr { cidr, text } => "ip/"@ + text,
            QueryView::AutNum(n) => "autnum/"@ + decimal(n as nat),
            QueryView::Domain(n) => "domain/"@ + n,
            QueryView::ANameserver(n) => "nameserver/"@ + n,
            QueryView::Entity(h) => "entity/"@ + h,
            QueryView::Nameservers(ip) => "nameservers?ip="@ + ip,
            QueryView::DomainNameSearch(n) => "domains?name="@ + n,
            QueryView::EntityNameSearch(n) => "entities?fn="@ + n,
            QueryView::EntityHandleSearch(h) => "entities?handle="@ + h,
            QueryView::NameserverNameSearch(n) => "nameservers?name="@ + n,
            QueryView::Url(u) => u,
            QueryView::Help => "help"@,
        }
    }

    /// The URL of the query at a server: the base URL without slashes at its
    /// end, a slash and the path. A complete URL stands for itself.
    pub open spec fn query_url(self, base_url: Seq<char>) -> Seq<char> {
        match self {
            QueryView::Url(u) => u,
            _ => strip_slashes(base_url) + "/"@ + self.path(),
        }
    }
}

/// Whether each label of a name has at most 63 characters.
pub open spec fn labels_fit(s: Seq<char>) -> bool {
    forall|i: int| 0 <= i < split(s, '.').len() ==> (#[trigger] split(s, '.')[i]).len() <= 63
}

/// Whether `s` can be asked for as a domain or name server name: LDH labels
/// with dots between them, at most 253 characters, at most 63 in a label.
pub open spec fn is_query_name(s: Seq<char>) -> bool {
    &&& is_ldh_domain_text(s)
    &&& s.len() <= 253
    &&& labels_fit(s)
}

/// Whether `s` begins with `AS` in any letter case.
pub open spec fn has_as_prefix(s: Seq<char>) -> bool {
    s.len() >= 2 && ascii_lower(s[0]) == 'a' && ascii_lower(s[1]) == 's'
}

/// The AS number that a text stands for: digits, with or without `AS` before
/// them, of a number below 2^32.
pub open spec fn autnum_of_text(s: Seq<char>) -> Option<u32> {
    let digits = if has_as_prefix(s) {
        s.skip(2)
    } else {
        s
    };
    match number_of_digits(digits, u32::MAX as nat) {
        Some(n) => Some(n as u32),
        None => None,
    }
}

/// Reads a name for asking: checks it and puts it in lower case.
fn read_name(name: &str) -> (r: Option<String>)
    ensures
        r is Some <==> is_query_name(name@),
        r matches Some(n) ==> n@ == ascii_lowercase(name@),
{
    if !is_ldh_domain_name(name) {
        return None;
    }
    let chars = chars_of(name);
    if chars.len() > 253 {
        return None;
    }
    let labels = split_chars(&chars, '.');
    let mut i: usize = 0;
    while i < labels.len()
        invariant
            i <= labels.len(),
            labels.deep_view() == split(name@, '.'),
            forall|k: int| 0 <= k < i ==> (#[trigger] split(name@, '.')[k]).len() <= 63,
        decreases labels.len() - i,
    {
        assert(labels.deep_view()[i as int].len() == labels@[i as int]@.len());
        if labels[i].len() > 63 {
            return None;
        }
        i += 1;
    }
    Some(to_ascii_lowercase(name))
}

impl QueryType {
    /// A query for a domain.
    pub fn domain(domain_name: &str) -> (r: Result<QueryType, QueryError>)
        ensures
            r is Ok <==> is_query_name(domain_name@),
            r matches Ok(q) ==> q matches QueryType::Domain(n) && n@ == ascii_lowercase(
                domain_name@,
            ),
            r matches Err(e) ==> e == QueryError::InvalidDomainName,
    {
        match read_name(domain_name) {
            Some(n) => Ok(QueryType::Domain(n)),
            None => Err(QueryError::InvalidDomainName),
        }
    }

    /// A query for a name server.
    pub fn ns(nameserver: &str) -> (r: Result<QueryType, QueryError>)
        ensures
            r is Ok <==> is_query_name(nameserver@),
            r matches Ok(q) ==> q matches QueryType::ANameserver(n) && n@ == ascii_lowercase(
                nameserver@,
            ),
            r matches Err(e) ==> e == QueryError::InvalidDomainName,
    {
        match read_name(nameserver) {
            Some(n) => Ok(QueryType::ANameserver(n)),
            None => Err(QueryError::InvalidDomainName),
        }
    }

    /// A query for an AS number.
    pub fn autnum(autnum: &str) -> (r: Result<QueryType, QueryError>)
        ensures
            r is Ok <==> autnum_of_text(autnum@) is Some,
            r matches Ok(q) ==> q == QueryType::AutNum(autnum_of_text(autnum@)->0),
            r matches Err(e) ==> e == QueryError::InvalidAutnum,
    {
        let chars = chars_of(autnum);
        let prefixed = chars.len() >= 2 && to_ascii_lower(chars[0]) == 'a' && to_ascii_lower(
            chars[1],
        ) == 's';
        let mut digits: Vec<char> = Vec::new();
        let from: usize = if prefixed {
            2
        } else {
            0
        };
        let mut i: usize = from;
        while i < chars.len()
            invariant
                from <= i <= chars.len(),
                digits@ == chars@.subrange(from as int, i as int),
            decreases chars.len() - i,
        {
            digits.push(chars[i]);
            i += 1;
        }
        assert(digits@ =~= chars@.skip(from as int));
        assert(chars@.skip(0) =~= chars@);
        match parse_digits(&digits, u32::MAX as u64) {
            Some(n) => Ok(QueryType::AutNum(n as u32)),
            None => Err(QueryError::InvalidAutnum),
        }
    }

    /// A query for an IPv4 address.
    pub fn ipv4(ip: &str) -> (r: Result<QueryType, QueryError>)
        ensures
            r is Ok <==> (ip_of_text(ip@) matches Some(a) && a is V4),
            r matches Ok(q) ==> q@.wf() && (q matches QueryType::IpV4Addr(v) && v.text@ == ip@),
            r matches Err(e) ==> e == QueryError::InvalidIpAddress,
    {
        match parse_ip(ip) {
            Some(IpAddr::V4(a)) => Ok(
                QueryType::IpV4Addr(IpQuery { addr: IpAddr::V4(a), text: ip.to_owned() }),
            ),
            _ => Err(QueryError::InvalidIpAddress),
        }
    }

    /// A query for an IPv6 address.
    pub fn ipv6(ip: &str) -> (r: Result<QueryType, QueryError>)
        ensures
            r is Ok <==> (ip_of_text(ip@) matches Some(a) && a is V6),
            r matches Ok(q) ==> q@.wf() && (q matches QueryType::IpV6Addr(v) && v.text@ == ip@),
            r matches Err(e) ==> e == QueryError::InvalidIpAddress,
    {
        match parse_ip(ip) {
            Some(IpAddr::V6(a)) => Ok(
                QueryType::IpV6Addr(IpQuery { addr: IpAddr::V6(a), text: ip.to_owned() }),
            ),
            _ => Err(QueryError::InvalidIpAddress),
        }
    }

    /// A query for an IPv4 block.
    pub fn ipv4cidr(cidr: &str) -> (r: Result<QueryType, QueryError>)
        ensures
            r is Ok <==> (cidr_of_text(cidr@) matches Some(c) && c.addr is V4),
            r matches Ok(q) ==> q@.wf() && (q matches QueryType::IpV4Cidr(v) && v.text@ == cidr@),
            r matches Err(e) ==> e == QueryError::InvalidCidr,
    {
        match parse_cidr(cidr) {
            Some(c) => match c.addr {
                IpAddr::V4(_) => Ok(QueryType::IpV4Cidr(CidrQuery { cidr: c, text: cidr.to_owned() })),
                IpAddr::V6(_) => Err(QueryError::InvalidCidr),
            },
            None => Err(QueryError::InvalidCidr),
        }
    }

    /// A query for an IPv6 block.
    pub fn ipv6cidr(cidr: &str) -> (r: Result<QueryType, QueryError>)
        ensures
            r is Ok <==> (cidr_of_text(cidr@) matches Some(c) && c.addr is V6),
            r matches Ok(q) ==> q@.wf() && (q matches QueryType::IpV6Cidr(v) && v.text@ == cidr@),
            r matches Err(e) ==> e == QueryError::InvalidCidr,
    {
        match parse_cidr(cidr) {
            Some(c) => match c.addr {
                IpAddr::V6(_) => Ok(QueryType::IpV6Cidr(CidrQuery { cidr: c, text: cidr.to_owned() })),
                IpAddr::V4(_) => Err(QueryError::InvalidCidr),
            },
            None => Err(QueryError::InvalidCidr),
        }
    }

    /// The path of the query below the base URL of a server.
    pub fn path(&self) -> (r: String)
        ensures
            r@ == self@.path(),
    {
        match self {
            QueryType::IpV4Addr(q) => prefixed("ip/", q.text.as_str()),
            QueryType::IpV6Addr(q) => prefixed("ip/", q.text.as_str()),
            QueryType::IpV4Cidr(q) => prefixed("ip/", q.text.as_str()),
            QueryType::IpV6Cidr(q) => prefixed("ip/", q.text.as_str()),
            QueryType::AutNum(n) => {
                let digits = u64_to_decimal(*n as u64);
                prefixed("autnum/", digits.as_str())
            },
            QueryType::Domain(n) => prefixed("domain/", n.as_str()),
            QueryType::ANameserver(n) => prefixed("nameserver/", n.as_str()),
            QueryType::Entity(h) => prefixed("entity/", h.as_str()),
            QueryType::Nameservers(ip) => prefixed("nameservers?ip=", ip.as_str()),
            QueryType::DomainNameSearch(n) => prefixed("domains?name=", n.as_str()),
            QueryType::EntityNameSearch(n) => prefixed("entities?fn=", n.as_str()),
            QueryType::EntityHandleSearch(h) => prefixed("entities?handle=", h.as_str()),
            QueryType::NameserverNameSearch(n) => prefixed("nameservers?name=", n.as_str()),
            QueryType::Url(u) => u.clone(),
            QueryType::Help => "help".to_owned(),
        }
    }

    /// The URL of the query at the server with the base URL `base_url`.
    pub fn query_url(&self, base_url: &str) -> (r: String)
        ensures
            r@ == self@.query_url(base_url@),
    {
        match self {
            QueryType::Url(u) => u.clone(),
            _ => {
                let base = chars_of(base_url);
                let mut end: usize = base.len();
                assert(base@.subrange(0, end as int) =~= base@);
                while end > 0 && base[end - 1] == '/'
                    invariant
                        end <= base.len(),
                        strip_slashes(base@) == strip_slashes(base@.subrange(0, end as int)),
                    decreases end,
                {
                    proof {
                        let t = base@.subrange(0, end as int);
                        assert(t.last() == base@[end - 1]);
                        assert(t.drop_last() =~= base@.subrange(0, end - 1));
                    }
                    end -= 1;
                }
                proof {
                    let t = base@.subrange(0, end as int);
                    if end > 0 {
                        assert(t.last() == base@[end - 1]);
                    }
                }
                let mut r = string_of_range(&base, 0, end);
                r.append("/");
                let path = self.path();
                r.append(path.as_str());
                r
            },
        }
    }
}

/// `s` without the slashes at its end.
pub open spec fn strip_slashes(s: Seq<char>) -> Seq<char>
    decreases s.len(),
{
    if s.len() > 0 && s.last() == '/' {
        strip_slashes(s.drop_last())
    } else {
        s
    }
}

/// `head` followed by `tail`.
fn prefixed(head: &str, tail: &str) -> (r: String)
    ensures
        r@ == head@ + tail@,
{
    let mut r = head.to_owned();
    r.append(tail);
    r
}

} // verus!
