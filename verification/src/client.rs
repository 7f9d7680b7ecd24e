use crate::challenge::{
    ChallengeProof, ChallengeProofView, CHALLENGE_ID_HEADER, CHALLENGE_METADATA_HEADER,
    CHALLENGE_TYPE_HEADER,
};
use crate::ratelimit::{option_ratelimit, Ratelimit, RatelimitView};
use crate::text::str_eq;
use vstd::prelude::*;
use vstd::string::*;

verus! {

pub const TOKEN_HEADER: &'static str = "x-csrf-token";

pub const USER_AGENT_HEADER: &'static str = "user-agent";

pub const COOKIE_HEADER: &'static str = "cookie";

/// The session cookie, as the `cookie` header carries it.
#[derive(Debug, Default, PartialEq, Eq)]
pub struct Cookie(pub String);

impl Cookie {
    /// The text of the cookie for a session secret.
    pub open spec fn text_of(secret: Seq<char>) -> Seq<char> {
        ".ROBLOSECURITY="@ + secret
    }

    /// The cookie's text as an owned string.
    pub fn to_string(&self) -> (r: String)
        ensures
            r@ == self.0@,
    {
        self.0.clone()
    }
}

impl Cookie {
    /// The cookie for a session secret.
    pub fn new(secret: &str) -> (r: Cookie)
        ensures
            r.0@ == Cookie::text_of(secret@),
    {
        let mut text = String::from_str(".ROBLOSECURITY=");
        text.append(secret);
        Cookie(text)
    }
}

impl<'a> From<&'a str> for Cookie {
    fn from(value: &'a str) -> (r: Self) {
        Cookie::new(value)
    }
}

impl<'a> vstd::std_specs::convert::FromSpecImpl<&'a str> for Cookie {
    /// A cookie owns its text, so no value of the specification stands for
    /// the result: `Cookie::new` states what the text is.
    open spec fn obeys_from_spec() -> bool {
        false
    }

    open spec fn from_spec(value: &'a str) -> Self {
        arbitrary()
    }
}

/// One header: a name, in lower case, and a value.
#[derive(Debug, PartialEq, Eq)]
pub struct Header {
    pub name: String,
    pub value: String,
}

pub struct HeaderView {
    pub name: Seq<char>,
    pub value: Seq<char>,
}

impl View for Header {
    type V = HeaderView;

    open spec fn view(&self) -> HeaderView {
        HeaderView { name: self.name@, value: self.value@ }
    }
}

impl Clone for Header {
    fn clone(&self) -> (r: Self)
        ensures
            r@ == self@,
    {
        Header { name: self.name.clone(), value: self.value.clone() }
    }
}

impl Header {
    pub fn new(name: &str, value: &str) -> (r: Header)
        ensures
            r@ == (HeaderView { name: name@, value: value@ }),
    {
        Header { name: String::from_str(name), value: String::from_str(value) }
    }
}

/// The headers that a vector holds.
pub open spec fn headers_view(headers: Seq<Header>) -> Seq<HeaderView> {
    Seq::new(headers.len(), |i: int| headers[i]@)
}

/// The value of the first header named `name`.
pub open spec fn find_header(headers: Seq<HeaderView>, name: Seq<char>) -> Option<Seq<char>>
    decreases headers.len(),
{
    if headers.len() == 0 {
        None
    } else if headers[0].name == name {
        Some(headers[0].value)
    } else {
        find_header(headers.drop_first(), name)
    }
}

/// Looks up the first header named `name`.
pub fn header_value<'a>(headers: &'a Vec<Header>, name: &str) -> (r: Option<&'a str>)
    ensures
        match r {
            Some(v) => find_header(headers_view(headers@), name@) == Some(v@),
            None => find_header(headers_view(headers@), name@) is None,
        },
{
    let ghost all = headers_view(headers@);
    assert(all.subrange(0, all.len() as int) =~= all);
    let mut i: usize = 0;
    while i < headers.len()
        invariant
            i <= headers.len(),
            all == headers_view(headers@),
            find_header(all, name@) == find_header(all.subrange(i as int, all.len() as int), name@),
        decreases headers.len() - i,
    {
        let ghost rest = all.subrange(i as int, all.len() as int);
        assert(rest[0] == all[i as int]);
        assert(rest.drop_first() =~= all.subrange(i + 1, all.len() as int));
        if str_eq(headers[i].name.as_str(), name) {
            return Some(headers[i].value.as_str());
        }
        i = i + 1;
    }
    assert(all.subrange(i as int, all.len() as int).len() == 0);
    None
}

/// The headers without those named `name`.
pub open spec fn without_header(headers: Seq<HeaderView>, name: Seq<char>) -> Seq<HeaderView>
    decreases headers.len(),
{
    if headers.len() == 0 {
        Seq::empty()
    } else if headers.last().name == name {
        without_header(headers.drop_last(), name)
    } else {
        without_header(headers.drop_last(), name).push(headers.last())
    }
}

/// The headers with `header` in place of every header of its name: those
/// are taken out and `header` is put at the end.
pub open spec fn with_header(headers: Seq<HeaderView>, header: HeaderView) -> Seq<HeaderView> {
    without_header(headers, header.name).push(header)
}

/// Sets a header, in place of every header of that name.
pub fn insert_header(headers: Vec<Header>, name: &str, value: &str) -> (r: Vec<Header>)
    ensures
        headers_view(r@) == with_header(
            headers_view(headers@),
            HeaderView { name: name@, value: value@ },
        ),
{
    let ghost all = headers_view(headers@);
    let mut out: Vec<Header> = Vec::new();
    let mut i: usize = 0;
    assert(headers_view(out@) =~= without_header(all.subrange(0, 0), name@));
    while i < headers.len()
        invariant
            i <= headers.len(),
            all == headers_view(headers@),
            headers_view(out@) == without_header(all.subrange(0, i as int), name@),
        decreases headers.len() - i,
    {
        let ghost done = all.subrange(0, i as int);
        let ghost next = all.subrange(0, i + 1);
        let ghost kept = headers_view(out@);
        assert(next.drop_last() =~= done);
        assert(next.last() == headers@[i as int]@);
        if !str_eq(headers[i].name.as_str(), name) {
            out.push(headers[i].clone());
            assert(headers_view(out@) =~= kept.push(headers@[i as int]@));
        }
        i = i + 1;
    }
    assert(all.subrange(0, i as int) =~= all);
    let ghost kept = headers_view(out@);
    out.push(Header::new(name, value));
    assert(headers_view(out@) =~= kept.push(HeaderView { name: name@, value: value@ }));
    out
}

/// Copies a list of headers.
pub fn clone_headers(headers: &Vec<Header>) -> (r: Vec<Header>)
    ensures
        headers_view(r@) == headers_view(headers@),
{
    let mut out: Vec<Header> = Vec::new();
    let mut i: usize = 0;
    while i < headers.len()
        invariant
            i <= headers.len(),
            out@.len() == i,
            forall|k: int| 0 <= k < i ==> out@[k]@ == headers@[k]@,
        decreases headers.len() - i,
    {
        out.push(headers[i].clone());
        i = i + 1;
    }
    assert(headers_view(out@) =~= headers_view(headers@));
    out
}

/// The method of a request.
#[derive(Clone, Copy, Debug, PartialEq, Eq, Structural)]
pub enum Method {
    Get,
    Post,
    Patch,
    Put,
    Delete,
}

/// What a request sends after its headers.
#[derive(Debug, PartialEq, Eq)]
pub enum Body {
    Empty,
    /// JSON text, sent as `application/json`.
    Json(String),
    /// Bytes, sent as they are.
    Bytes(Vec<u8>),
    /// A multipart form: this JSON text as the part `request`, beside a file
    /// that the transport adds as the part `fileContent`.
    Form(String),
}

pub enum BodyView {
    Empty,
    Json(Seq<char>),
    Bytes(Seq<u8>),
    Form(Seq<char>),
}

impl View for Body {
    type V = BodyView;

    open spec fn view(&self) -> BodyView {
        match self {
            Body::Empty => BodyView::Empty,
            Body::Json(text) => BodyView::Json(text@),
            Body::Bytes(bytes) => BodyView::Bytes(bytes@),
            Body::Form(text) => BodyView::Form(text@),
        }
    }
}

/// A request, ready for a transport to send: the address, the query pairs
/// that the transport still has to percent-encode and add to it, the headers
/// and the body.
#[derive(Debug, PartialEq, Eq)]
pub struct Request {
    pub method: Method,
    pub url: String,
    pub query: Vec<Header>,
    pub headers: Vec<Header>,
    pub body: Body,
}

pub struct RequestView {
    pub method: Method,
    pub url: Seq<char>,
    pub query: Seq<HeaderView>,
    pub headers: Seq<HeaderView>,
    pub body: BodyView,
}

impl View for Request {
    type V = RequestView;

    open spec fn view(&self) -> RequestView {
        RequestView {
            method: self.method,
            url: self.url@,
            query: headers_view(self.query@),
            headers: headers_view(self.headers@),
            body: self.body@,
        }
    }
}

/// A response as the transport received it, with its body read in full.
/// Header names are in lower case.
#[derive(Debug, PartialEq, Eq)]
pub struct Response {
    pub status: u16,
    pub headers: Vec<Header>,
    pub body: Vec<u8>,
}

pub struct ResponseView {
    pub status: u16,
    pub headers: Seq<HeaderView>,
    pub body: Seq<u8>,
}

impl View for Response {
    type V = ResponseView;

    open spec fn view(&self) -> ResponseView {
        ResponseView { status: self.status, headers: headers_view(self.headers@), body: self.body@ }
    }
}

impl Request {
    /// Sets a header of the request, in place of every header of that name.
    pub fn set_header(self, name: &str, value: &str) -> (r: Request)
        ensures
            r@.method == self@.method,
            r@.url == self@.url,
            r@.query == self@.query,
            r@.headers == with_header(self@.headers, HeaderView { name: name@, value: value@ }),
            r@.body == self@.body,
    {
        Request {
            method: self.method,
            url: self.url,
            query: self.query,
            headers: insert_header(self.headers, name, value),
            body: self.body,
        }
    }
}

impl Response {
    /// The value of the first header named `name`.
    pub fn header(&self, name: &str) -> (r: Option<&str>)
        ensures
            match r {
                Some(v) => find_header(self@.headers, name@) == Some(v@),
                None => find_header(self@.headers, name@) is None,
            },
    {
        header_value(&self.headers, name)
    }
}

/// What a client remembers between two calls: the token that the server
/// wants on requests that change something, and the proof of a solved
/// challenge for the next request.
#[derive(Debug, Default, PartialEq, Eq)]
pub struct SessionState {
    pub csrf_token: Option<String>,
    pub challenge_proof: Option<ChallengeProof>,
}

pub struct SessionStateView {
    pub csrf_token: Option<Seq<char>>,
    pub challenge_proof: Option<ChallengeProofView>,
}

impl View for SessionState {
    type V = SessionStateView;

    open spec fn view(&self) -> SessionStateView {
        SessionStateView {
            csrf_token: match self.csrf_token {
                Some(t) => Some(t@),
                None => None,
            },
            challenge_proof: match self.challenge_proof {
                Some(p) => Some(p@),
                None => None,
            },
        }
    }
}

/// The headers that a session adds to a request: the token, where there is
/// one, and then the three proof headers, where a proof is armed.
pub open spec fn session_headers(session: SessionStateView) -> Seq<HeaderView> {
    let token = match session.csrf_token {
        Some(t) => seq![HeaderView { name: TOKEN_HEADER@, value: t }],
        None => Seq::empty(),
    };
    let proof = match session.challenge_proof {
        Some(p) => seq![
            HeaderView { name: CHALLENGE_ID_HEADER@, value: p.id },
            HeaderView { name: CHALLENGE_TYPE_HEADER@, value: p.kind },
            HeaderView { name: CHALLENGE_METADATA_HEADER@, value: p.metadata },
        ],
        None => Seq::empty(),
    };
    token + proof
}

impl SessionState {
    pub fn new() -> (r: SessionState)
        ensures
            r@.csrf_token is None,
            r@.challenge_proof is None,
    {
        SessionState { csrf_token: None, challenge_proof: None }
    }

    /// Stores a token in place of the one held.
    pub fn set_token(&mut self, token: &str)
        ensures
            final(self)@.csrf_token == Some(token@),
            final(self)@.challenge_proof == old(self)@.challenge_proof,
    {
        self.csrf_token = Some(String::from_str(token));
    }

    /// Arms the session with a proof, for the next request only.
    pub fn arm(&mut self, proof: ChallengeProof)
        ensures
            final(self)@.challenge_proof == Some(proof@),
            final(self)@.csrf_token == old(self)@.csrf_token,
    {
        self.challenge_proof = Some(proof);
    }

    /// Drops the proof, if one is armed.
    pub fn remove_challenge(&mut self)
        ensures
            final(self)@.challenge_proof is None,
            final(self)@.csrf_token == old(self)@.csrf_token,
    {
        self.challenge_proof = None;
    }

    /// Appends the session's headers to `out`.
    pub fn write_headers(&self, out: &mut Vec<Header>)
        ensures
            headers_view(final(out)@) == headers_view(old(out)@) + session_headers(self@),
    {
        let ghost before = headers_view(out@);
        match &self.csrf_token {
            Some(t) => {
                out.push(Header::new(TOKEN_HEADER, t.as_str()));
            },
            None => {},
        }
        let ghost token = match self@.csrf_token {
            Some(t) => seq![HeaderView { name: TOKEN_HEADER@, value: t }],
            None => Seq::empty(),
        };
        assert(headers_view(out@) =~= before + token);
        match &self.challenge_proof {
            Some(p) => {
                out.push(Header::new(CHALLENGE_ID_HEADER, p.id.as_str()));
                out.push(Header::new(CHALLENGE_TYPE_HEADER, p.kind.as_str()));
                out.push(Header::new(CHALLENGE_METADATA_HEADER, p.metadata.as_str()));
            },
            None => {},
        }
        assert(headers_view(out@) =~= before + session_headers(self@));
    }
}

/// The part of a client that requests go through: the headers that every
/// request carries, the session's state, and the last rate limit seen.
#[derive(Debug, Default, PartialEq, Eq)]
pub struct ClientRequestor {
    pub base_headers: Vec<Header>,
    pub session: SessionState,
    pub ratelimit: Option<Ratelimit>,
}

pub struct ClientRequestorView {
    pub base_headers: Seq<HeaderView>,
    pub session: SessionStateView,
    pub ratelimit: Option<RatelimitView>,
}

impl View for ClientRequestor {
    type V = ClientRequestorView;

    open spec fn view(&self) -> ClientRequestorView {
        ClientRequestorView {
            base_headers: headers_view(self.base_headers@),
            session: self.session@,
            ratelimit: option_ratelimit(self.ratelimit),
        }
    }
}

impl ClientRequestorView {
    /// The headers of the next request: those that every request carries,
    /// then the session's.
    pub open spec fn default_headers(self) -> Seq<HeaderView> {
        self.base_headers + session_headers(self.session)
    }
}

impl ClientRequestor {
    /// The headers of the next request.
    pub fn default_headers(&self) -> (r: Vec<Header>)
        ensures
            headers_view(r@) == self@.default_headers(),
    {
        let mut out = clone_headers(&self.base_headers);
        self.session.write_headers(&mut out);
        out
    }

    /// Arms the session with a proof, for the next request only.
    pub fn queue_challenge(&mut self, proof: ChallengeProof)
        ensures
            final(self)@.session.challenge_proof == Some(proof@),
            final(self)@.session.csrf_token == old(self)@.session.csrf_token,
            final(self)@.base_headers == old(self)@.base_headers,
            final(self)@.ratelimit == old(self)@.ratelimit,
    {
        self.session.arm(proof);
    }

    /// Drops the proof, if one is armed.
    pub fn remove_challenge(&mut self)
        ensures
            final(self)@.session.challenge_proof is None,
            final(self)@.session.csrf_token == old(self)@.session.csrf_token,
            final(self)@.base_headers == old(self)@.base_headers,
            final(self)@.ratelimit == old(self)@.ratelimit,
    {
        self.session.remove_challenge();
    }

    /// The last rate limit seen, if any.
    pub fn ratelimits(&self) -> (r: Option<Ratelimit>)
        ensures
            option_ratelimit(r) == self@.ratelimit,
    {
        match &self.ratelimit {
            Some(r) => Some(r.clone()),
            None => None,
        }
    }
}

/// A client: one session with the server. It sends nothing itself; it says
/// what to send and reads what came back.
#[derive(Debug, Default, PartialEq, Eq)]
pub struct Client {
    pub requestor: ClientRequestor,
}

impl View for Client {
    type V = ClientRequestorView;

    open spec fn view(&self) -> ClientRequestorView {
        self.requestor@
    }
}

/// The headers that a client made from a cookie puts on every request.
pub open spec fn cookie_headers(cookie: Seq<char>) -> Seq<HeaderView> {
    seq![
        HeaderView { name: USER_AGENT_HEADER@, value: "Roblox/WinInet"@ },
        HeaderView { name: COOKIE_HEADER@, value: cookie },
        HeaderView { name: COOKIE_HEADER@, value: "RBXEventTrackerV2=&browserid=2"@ },
    ]
}

impl Client {
    /// A client for the session that a cookie names, with no token and no
    /// proof yet.
    pub fn from_cookie(cookie: Cookie) -> (r: Client)
        ensures
            r@.base_headers == cookie_headers(cookie.0@),
            r@.session.csrf_token is None,
            r@.session.challenge_proof is None,
            r@.ratelimit is None,
    {
        let mut base_headers: Vec<Header> = Vec::new();
        base_headers.push(Header::new(USER_AGENT_HEADER, "Roblox/WinInet"));
        base_headers.push(Header::new(COOKIE_HEADER, cookie.0.as_str()));
        base_headers.push(Header::new(COOKIE_HEADER, "RBXEventTrackerV2=&browserid=2"));
        assert(headers_view(base_headers@) =~= cookie_headers(cookie.0@));
        Client {
            requestor: ClientRequestor {
                base_headers,
                session: SessionState::new(),
                ratelimit: None,
            },
        }
    }

    /// The headers of the next request.
    pub fn default_headers(&self) -> (r: Vec<Header>)
        ensures
            headers_view(r@) == self@.default_headers(),
    {
        self.requestor.default_headers()
    }

    /// The last rate limit seen, if any.
    pub fn ratelimits(&self) -> (r: Option<Ratelimit>)
        ensures
            option_ratelimit(r) == self@.ratelimit,
    {
        self.requestor.ratelimits()
    }

    /// A request with this client's headers and with a query.
    pub fn request_with(&self, method: Method, url: String, query: Vec<Header>, body: Body) -> (r:
        Request)
        ensures
            r@.method == method,
            r@.url == url@,
            r@.query == headers_view(query@),
            r@.headers == self@.default_headers(),
            r@.body == body@,
    {
        Request { method, url, query, headers: self.default_headers(), body }
    }

    /// A request with this client's headers and no query.
    pub fn request(&self, method: Method, url: String, body: Body) -> (r: Request)
        ensures
            r@.method == method,
            r@.url == url@,
            r@.query == Seq::<HeaderView>::empty(),
            r@.headers == self@.default_headers(),
            r@.body == body@,
    {
        let r = Request {
            method,
            url,
            query: Vec::new(),
            headers: self.default_headers(),
            body,
        };
        assert(headers_view(r.query@) =~= Seq::<HeaderView>::empty());
        r
    }
}

} // verus!
