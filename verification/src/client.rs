//! The decisions of the client's request engine.
//!
//! The engine itself sends requests and waits for responses; what it does
//! next is decided here. It starts with [`start`], sends the request that it
//! is told to send, and hands each outcome to [`step`] until it is told to
//! deliver a response or to fail.

use crate::httpdata::HttpData;
use crate::query::QueryType;
use crate::response::RdapResponse;
use crate::text::{chars_of, text_eq};
use vstd::prelude::*;

verus! {

/// How the client behaves.
#[derive(Debug, Clone, PartialEq, Eq)]
pub struct ClientConfig {
    /// Whether URLs that do not begin with `https://` are rejected.
    pub https_only: bool,
    /// Whether redirects are followed.
    pub follow_redirects: bool,
    /// How many redirects are followed at most for one query.
    pub max_redirects: usize,
    pub accept_invalid_host_names: bool,
    pub accept_invalid_certificates: bool,
    pub user_agent: Option<String>,
    pub client_name: Option<String>,
    pub client_version: Option<String>,
    pub timeout_seconds: u64,
}

impl Default for ClientConfig {
    fn default() -> (r: Self)
        ensures
            r.https_only,
            r.follow_redirects,
            r.max_redirects == 5,
            !r.accept_invalid_host_names,
            !r.accept_invalid_certificates,
            r.user_agent is None,
            r.client_name is None,
            r.client_version is None,
            r.timeout_seconds == 60,
    {
        ClientConfig {
            https_only: true,
            follow_redirects: true,
            max_redirects: 5,
            accept_invalid_host_names: false,
            accept_invalid_certificates: false,
            user_agent: None,
            client_name: None,
            client_version: None,
            timeout_seconds: 60,
        }
    }
}

/// What a request brings: the response and the HTTP data that came with it.
#[derive(Debug, Clone, PartialEq, Eq)]
pub struct ResponseData {
    pub rdap: RdapResponse,
    pub http_data: HttpData,
}

/// Why a request failed.
#[derive(Debug, Clone, Copy, PartialEq, Eq, Structural)]
pub enum ClientError {
    /// The URL does not begin with `https://` and only such are allowed.
    HttpsRequired,
    /// The HTTP or TLS layer failed.
    Transport,
    /// The deadline passed.
    Timeout,
    /// A redirect came after as many as are followed.
    TooManyRedirects,
    /// A redirect led to a URL that was asked before.
    RedirectLoop,
}

/// What the engine has done so far for one query.
#[derive(Debug, PartialEq, Eq)]
pub struct RequestState {
    /// The URLs that were asked, the latest last.
    visited: Vec<String>,
}

impl View for RequestState {
    type V = Seq<Seq<char>>;

    closed spec fn view(&self) -> Seq<Seq<char>> {
        self.visited.deep_view()
    }
}

/// What came of a request.
#[derive(Debug, PartialEq, Eq)]
pub enum Event {
    /// A response with its status code and its `Location`.
    Response { status: u16, location: Option<String> },
    /// The HTTP or TLS layer failed.
    TransportFailure,
    /// The deadline passed.
    TimedOut,
}

/// What the engine is to do next.
#[derive(Debug, PartialEq, Eq)]
pub enum Action {
    /// Send the same request to this URL.
    Send(String),
    /// Hand the response that came last to the caller.
    Deliver,
    /// Give up.
    Fail(ClientError),
}

/// What an [`Action`] stands for.
pub ghost enum ActionView {
    Send(Seq<char>),
    Deliver,
    Fail(ClientError),
}

impl View for Action {
    type V = ActionView;

    open spec fn view(&self) -> ActionView {
        match self {
            Action::Send(u) => ActionView::Send(u@),
            Action::Deliver => ActionView::Deliver,
            Action::Fail(e) => ActionView::Fail(*e),
        }
    }
}

/// Whether `url` begins with `https://`.
pub open spec fn is_https(url: Seq<char>) -> bool {
    url.len() >= 8 && url.take(8) == "https://"@
}

/// Whether the configuration allows the URL.
pub open spec fn is_allowed(config: ClientConfig, url: Seq<char>) -> bool {
    !config.https_only || is_https(url)
}

/// Whether the status code is one of redirection.
pub open spec fn is_redirect_status(status: u16) -> bool {
    300 <= status < 400
}

/// What follows an event, given the URLs asked so far: a failure of the
/// transport or a deadline fails the request. A redirect with a location is
/// followed if redirects are followed at all, unless as many were followed as
/// are allowed, the location was asked before, or it is not allowed. Any
/// other response is delivered.
pub open spec fn decide(config: ClientConfig, visited: Seq<Seq<char>>, event: Event) -> ActionView {
    match event {
        Event::TransportFailure => ActionView::Fail(ClientError::Transport),
        Event::TimedOut => ActionView::Fail(ClientError::Timeout),
        Event::Response { status, location } => match location {
            Some(l) if config.follow_redirects && is_redirect_status(status) => {
                if visited.len() > config.max_redirects {
                    ActionView::Fail(ClientError::TooManyRedirects)
                } else if visited.contains(l@) {
                    ActionView::Fail(ClientError::RedirectLoop)
                } else if !is_allowed(config, l@) {
                    ActionView::Fail(ClientError::HttpsRequired)
                } else {
                    ActionView::Send(l@)
                }
            },
            _ => ActionView::Deliver,
        },
    }
}

/// Whether `url` begins with `https://`.
pub fn https(url: &str) -> (r: bool)
    ensures
        r == is_https(url@),
{
    let u = chars_of(url);
    if u.len() < 8 {
        return false;
    }
    proof {
        reveal_strlit("https://");
    }
    let ok = u[0] == 'h' && u[1] == 't' && u[2] == 't' && u[3] == 'p' && u[4] == 's' && u[5] == ':'
        && u[6] == '/' && u[7] == '/';
    proof {
        let head = url@.take(8);
        if ok {
            assert(head =~= "https://"@);
        } else {
            assert(head[0] == url@[0] && head[1] == url@[1] && head[2] == url@[2] && head[3]
                == url@[3] && head[4] == url@[4] && head[5] == url@[5] && head[6] == url@[6]
                && head[7] == url@[7]);
        }
    }
    ok
}

fn was_visited(visited: &Vec<String>, url: &str) -> (r: bool)
    ensures
        r == visited.deep_view().contains(url@),
{
    let mut i: usize = 0;
    while i < visited.len()
        invariant
            i <= visited.len(),
            forall|k: int| 0 <= k < i ==> visited.deep_view()[k] != url@,
        decreases visited.len() - i,
    {
        assert(visited.deep_view()[i as int] == visited@[i as int]@);
        if text_eq(visited[i].as_str(), url) {
            return true;
        }
        i += 1;
    }
    false
}

/// Begins a request: the URL of the query at the server is to be sent, if the
/// configuration allows it.
pub fn start(config: &ClientConfig, base_url: &str, query: &QueryType) -> (r: Result<
    (RequestState, String),
    ClientError,
>)
    ensures
        r is Ok <==> is_allowed(*config, query@.query_url(base_url@)),
        r matches Ok((state, url)) ==> url@ == query@.query_url(base_url@) && state@ == seq![url@],
        r matches Err(e) ==> e == ClientError::HttpsRequired,
{
    let url = query.query_url(base_url);
    if config.https_only && !https(url.as_str()) {
        return Err(ClientError::HttpsRequired);
    }
    let visited: Vec<String> = vec![url.clone()];
    assert(visited.deep_view() =~= seq![url@]);
    Ok((RequestState { visited }, url))
}

/// Decides what follows an event. A URL that is to be sent is noted as
/// asked; otherwise the state stays as it is.
pub fn step(config: &ClientConfig, state: &mut RequestState, event: &Event) -> (action: Action)
    ensures
        action@ == decide(*config, old(state)@, *event),
        final(state)@ == match action@ {
            ActionView::Send(u) => old(state)@.push(u),
            _ => old(state)@,
        },
{
    match event {
        Event::TransportFailure => Action::Fail(ClientError::Transport),
        Event::TimedOut => Action::Fail(ClientError::Timeout),
        Event::Response { status, location } => match location {
            Some(l) => {
                if config.follow_redirects && 300 <= *status && *status < 400 {
                    if state.visited.len() > config.max_redirects {
                        Action::Fail(ClientError::TooManyRedirects)
                    } else if was_visited(&state.visited, l.as_str()) {
                        Action::Fail(ClientError::RedirectLoop)
                    } else if config.https_only && !https(l.as_str()) {
                        Action::Fail(ClientError::HttpsRequired)
                    } else {
                        let ghost before = state.visited.deep_view();
                        state.visited.push(l.clone());
                        assert(state.visited.deep_view() =~= before.push(l@));
                        Action::Send(l.clone())
                    }
                } else {
                    Action::Deliver
                }
            },
            None => Action::Deliver,
        },
    }
}

/// However the servers answer, a request is sent to no URL twice and to no
/// more URLs than one more than the redirects that are followed.
pub proof fn law_redirects_are_bounded(config: ClientConfig, visited: Seq<Seq<char>>, event: Event)
    requires
        decide(config, visited, event) is Send,
    ensures
        !visited.contains(decide(config, visited, event)->Send_0),
        visited.len() <= config.max_redirects,
        is_allowed(config, decide(config, visited, event)->Send_0),
{
}

} // verus!
