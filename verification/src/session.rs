//! The session manager: the one cached bearer credential, acquired on first
//! need by a single acquisition at a time and dropped when the server
//! rejects a request.

use vstd::prelude::*;
use vstd::string::*;
use crate::config::Config;
use crate::error::SourceError;
use crate::json::Json;
use crate::request::{text_view, Method, Request, RequestView, STATUS_OK};

verus! {

/// The credential cache.
#[derive(Clone, Debug, PartialEq, Eq)]
pub enum Session {
    /// No credential, and nobody is fetching one.
    Empty,
    /// No credential yet; one caller is fetching it.
    Acquiring,
    /// The cached `Authorization` header value.
    Ready(String),
}

pub enum SessionView {
    Empty,
    Acquiring,
    Ready(Seq<char>),
}

impl View for Session {
    type V = SessionView;

    open spec fn view(&self) -> SessionView {
        match self {
            Session::Empty => SessionView::Empty,
            Session::Acquiring => SessionView::Acquiring,
            Session::Ready(header) => SessionView::Ready(header@),
        }
    }
}

/// What a caller that needs the header has to do.
#[derive(Clone, Debug, PartialEq, Eq)]
pub enum AuthStep {
    /// Use this header.
    Ready(String),
    /// Send this request and report the answer with [`Session::complete`].
    Acquire(Request),
    /// Another caller is acquiring the credential: wait for it and ask again.
    Wait,
}

pub enum AuthStepView {
    Ready(Seq<char>),
    Acquire(RequestView),
    Wait,
}

impl View for AuthStep {
    type V = AuthStepView;

    open spec fn view(&self) -> AuthStepView {
        match self {
            AuthStep::Ready(header) => AuthStepView::Ready(header@),
            AuthStep::Acquire(request) => AuthStepView::Acquire(request@),
            AuthStep::Wait => AuthStepView::Wait,
        }
    }
}

/// What can happen to a session.
pub enum SessionEvent {
    /// A caller asks for the header.
    Begin,
    /// The acquisition in flight ended, with a token or without.
    Complete(Option<Seq<char>>),
    /// A request that used the credential was rejected.
    Invalidate,
}

/// The request that exchanges the API key for a token.
pub open spec fn auth_request(api_url: Seq<char>, api_key: Seq<char>) -> RequestView {
    RequestView {
        method: Method::Post,
        url: api_url + "/Plugin/authenticate?apiKey="@ + api_key + "&pluginName=Kavya"@,
        authorization: None,
        json_body: None,
    }
}

/// The header value for a token.
pub open spec fn bearer(token: Seq<char>) -> Seq<char> {
    "Bearer "@ + token
}

/// The token that an answer to the authenticate request grants: the
/// `token` member of a body that came with status 200.
pub open spec fn granted_token(status: int, body: Json) -> Option<Seq<char>> {
    if status == STATUS_OK {
        body.text_field("token"@)
    } else {
        None
    }
}

/// What a caller is told that asks for the header in state `s`.
pub open spec fn step_in(s: SessionView, api_url: Seq<char>, api_key: Seq<char>) -> AuthStepView {
    match s {
        SessionView::Empty => AuthStepView::Acquire(auth_request(api_url, api_key)),
        SessionView::Acquiring => AuthStepView::Wait,
        SessionView::Ready(header) => AuthStepView::Ready(header),
    }
}

/// Whether a caller that asks in state `s` starts an acquisition.
pub open spec fn starts_acquisition(s: SessionView) -> bool {
    s is Empty
}

/// The state after an event.
pub open spec fn after(s: SessionView, event: SessionEvent) -> SessionView {
    match event {
        SessionEvent::Begin => match s {
            SessionView::Empty => SessionView::Acquiring,
            _ => s,
        },
        SessionEvent::Complete(granted) => match s {
            SessionView::Acquiring => match granted {
                Some(token) => SessionView::Ready(bearer(token)),
                None => SessionView::Empty,
            },
            _ => s,
        },
        SessionEvent::Invalidate => match s {
            SessionView::Ready(_) => SessionView::Empty,
            _ => s,
        },
    }
}

/// What the caller that completes an acquisition is handed: the new header,
/// or an authentication error. Outside an acquisition the cache answers as
/// it stands.
pub open spec fn completion(s: SessionView, granted: Option<Seq<char>>) -> Result<
    Seq<char>,
    SourceError,
> {
    match s {
        SessionView::Acquiring => match granted {
            Some(token) => Ok(bearer(token)),
            None => Err(SourceError::Auth),
        },
        SessionView::Ready(header) => Ok(header),
        SessionView::Empty => Err(SourceError::Auth),
    }
}

/// The state after a run of events.
pub open spec fn after_all(s: SessionView, events: Seq<SessionEvent>) -> SessionView
    decreases events.len(),
{
    if events.len() == 0 {
        s
    } else {
        after(after_all(s, events.drop_last()), events.last())
    }
}

/// How many acquisitions a run of events starts.
pub open spec fn acquisitions(s: SessionView, events: Seq<SessionEvent>) -> nat
    decreases events.len(),
{
    if events.len() == 0 {
        0
    } else {
        let before = after_all(s, events.drop_last());
        let started: nat = if events.last() is Begin && starts_acquisition(before) {
            1
        } else {
            0
        };
        acquisitions(s, events.drop_last()) + started
    }
}

/// How many acquisitions a run of events ends: the completions that arrive
/// while one is in flight.
pub open spec fn completions(s: SessionView, events: Seq<SessionEvent>) -> nat
    decreases events.len(),
{
    if events.len() == 0 {
        0
    } else {
        let before = after_all(s, events.drop_last());
        let ended: nat = if events.last() is Complete && before is Acquiring {
            1
        } else {
            0
        };
        completions(s, events.drop_last()) + ended
    }
}

/// How many acquisitions are in flight in state `s`.
pub open spec fn in_flight(s: SessionView) -> nat {
    if s is Acquiring {
        1
    } else {
        0
    }
}

/// At most one acquisition is in flight at any time: whatever the callers
/// do, the acquisitions started so far are those that ended plus the one
/// that the state shows, which is one at most.
pub proof fn lemma_single_flight(s: SessionView, events: Seq<SessionEvent>)
    ensures
        in_flight(s) + acquisitions(s, events) == completions(s, events) + in_flight(
            after_all(s, events),
        ),
        in_flight(after_all(s, events)) <= 1,
    decreases events.len(),
{
    if events.len() > 0 {
        lemma_single_flight(s, events.drop_last());
    }
}

/// Two callers that ask an empty session one after the other cause one
/// authenticate request: the first is told to acquire, the second to wait.
/// Once the first completes with a token, it is handed the header for that
/// token, and the second, asking again, is given the same header.
pub proof fn lemma_two_callers_share(api_url: Seq<char>, api_key: Seq<char>, token: Seq<char>)
    ensures
        ({
            let s0 = SessionView::Empty;
            let s1 = after(s0, SessionEvent::Begin);
            let s2 = after(s1, SessionEvent::Begin);
            let s3 = after(s2, SessionEvent::Complete(Some(token)));
            let s4 = after(s3, SessionEvent::Begin);
            &&& step_in(s0, api_url, api_key) == AuthStepView::Acquire(
                auth_request(api_url, api_key),
            )
            &&& step_in(s1, api_url, api_key) == AuthStepView::Wait
            &&& completion(s2, Some(token)) == Ok::<_, SourceError>(bearer(token))
            &&& step_in(s3, api_url, api_key) == AuthStepView::Ready(bearer(token))
            &&& s4 == s3
        }),
{
}

/// A cached header is handed to every caller unchanged until it is
/// invalidated, and a failed acquisition leaves the cache empty.
pub proof fn lemma_cache_lifecycle(s: SessionView, api_url: Seq<char>, api_key: Seq<char>)
    ensures
        s is Ready ==> after(s, SessionEvent::Begin) == s && step_in(s, api_url, api_key)
            == AuthStepView::Ready(s->Ready_0),
        !(after(s, SessionEvent::Invalidate) is Ready),
        s is Ready ==> step_in(after(s, SessionEvent::Invalidate), api_url, api_key)
            is Acquire,
        s is Acquiring ==> after(s, SessionEvent::Complete(None)) is Empty && completion(s, None)
            == Err::<Seq<char>, _>(SourceError::Auth),
{
}

/// Composes the request that exchanges the API key for a token.
pub fn make_auth_request(config: &Config) -> (request: Request)
    ensures
        request@ == auth_request(config.api_url@, config.api_key@),
{
    let mut url = config.api_url.clone();
    url.append("/Plugin/authenticate?apiKey=");
    url.append(config.api_key.as_str());
    url.append("&pluginName=Kavya");
    Request { method: Method::Post, url, authorization: None, json_body: None }
}

/// Reads the token out of an answer to the authenticate request.
pub fn read_token(status: i32, body: &Json) -> (token: Option<String>)
    ensures
        match token {
            Some(t) => granted_token(status as int, *body) == Some(t@),
            None => granted_token(status as int, *body) is None,
        },
{
    if status != STATUS_OK {
        return None;
    }
    match body.get_text("token") {
        Some(token) => Some(String::from_str(token)),
        None => None,
    }
}

impl Session {
    /// A session without credential.
    pub fn new() -> (session: Session)
        ensures
            session@ is Empty,
    {
        Session::Empty
    }

    /// The cached header, if there is one.
    pub fn header(&self) -> (header: Option<String>)
        ensures
            match header {
                Some(h) => self@ == SessionView::Ready(h@),
                None => !(self@ is Ready),
            },
    {
        match self {
            Session::Ready(header) => Some(header.clone()),
            _ => None,
        }
    }

    /// Asks for the header. An empty session tells this caller to acquire
    /// the credential and notes that an acquisition is in flight; while it
    /// is, every other caller is told to wait.
    pub fn begin(&mut self, config: &Config) -> (step: AuthStep)
        ensures
            step@ == step_in(old(self)@, config.api_url@, config.api_key@),
            final(self)@ == after(old(self)@, SessionEvent::Begin),
    {
        match self.header() {
            Some(header) => AuthStep::Ready(header),
            None => {
                let acquiring = match self {
                    Session::Acquiring => true,
                    _ => false,
                };
                if acquiring {
                    AuthStep::Wait
                } else {
                    *self = Session::Acquiring;
                    AuthStep::Acquire(make_auth_request(config))
                }
            },
        }
    }

    /// Ends the acquisition in flight with what it obtained: a token is
    /// cached as a bearer header and handed out; without one the cache is
    /// left empty and the caller gets an authentication error.
    pub fn finish(&mut self, granted: Option<String>) -> (header: Result<String, SourceError>)
        ensures
            final(self)@ == after(
                old(self)@,
                SessionEvent::Complete(text_view(granted)),
            ),
            match header {
                Ok(h) => completion(old(self)@, text_view(granted)) == Ok::<
                    _,
                    SourceError,
                >(h@),
                Err(e) => completion(old(self)@, text_view(granted)) == Err::<
                    Seq<char>,
                    _,
                >(e),
            },
    {
        match self.header() {
            Some(header) => Ok(header),
            None => {
                let acquiring = match self {
                    Session::Acquiring => true,
                    _ => false,
                };
                if !acquiring {
                    return Err(SourceError::Auth);
                }
                match granted {
                    Some(token) => {
                        let header = String::from_str("Bearer ").concat(token.as_str());
                        *self = Session::Ready(header.clone());
                        Ok(header)
                    },
                    None => {
                        *self = Session::Empty;
                        Err(SourceError::Auth)
                    },
                }
            },
        }
    }

    /// Ends the acquisition in flight with the answer to the authenticate
    /// request.
    pub fn complete(&mut self, status: i32, body: &Json) -> (header: Result<String, SourceError>)
        ensures
            final(self)@ == after(
                old(self)@,
                SessionEvent::Complete(granted_token(status as int, *body)),
            ),
            match header {
                Ok(h) => completion(old(self)@, granted_token(status as int, *body)) == Ok::<
                    _,
                    SourceError,
                >(h@),
                Err(e) => completion(old(self)@, granted_token(status as int, *body)) == Err::<
                    Seq<char>,
                    _,
                >(e),
            },
    {
        let granted = read_token(status, body);
        self.finish(granted)
    }

    /// Drops the cached credential, so that the next caller acquires a new
    /// one. An acquisition in flight is left alone.
    pub fn invalidate(&mut self)
        ensures
            final(self)@ == after(old(self)@, SessionEvent::Invalidate),
    {
        let ready = match self {
            Session::Ready(_) => true,
            _ => false,
        };
        if ready {
            *self = Session::Empty;
        }
    }
}

} // verus!
