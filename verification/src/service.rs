//! The relay session: registration, connection and publication, as the steps
//! of one state machine. The session decides and describes; whoever drives it
//! sends the requests, opens the socket and reports back what happened.

use crate::bridge::InboundBridge;
use crate::endpoints::{endpoint_address, endpoint_url, Gettable};
use crate::error::{ConnectError, PublishError, RegistrationError};
use crate::text::{copy_texts, same_text};
use crate::types::{Publish, PublishView, Register, RegisterResponse, RegisterView};
use vstd::prelude::*;

verus! {

/// Where a session stands between two registrations.
#[derive(Clone, Copy, Debug, PartialEq, Eq, Structural)]
pub enum ConnectionState {
    Disconnected,
    Registering,
    Connecting,
    Connected,
    Closing,
}

/// What can happen to a session.
pub enum SessionEvent {
    /// A registration is asked for.
    Register,
    /// The relay answered the registration with an address.
    Registered,
    /// The registration failed.
    RegistrationFailed,
    /// The connection to the address stands.
    Opened,
    /// The connection did not come about.
    ConnectionFailed,
    /// The application closes the connection, or the connection broke.
    Close,
    /// What the connection held has been released.
    Closed,
}

/// The state that follows `state` on `event`. An event that the state does
/// not admit changes nothing.
pub open spec fn next_state(state: ConnectionState, event: SessionEvent) -> ConnectionState {
    match (state, event) {
        (ConnectionState::Disconnected, SessionEvent::Register) => ConnectionState::Registering,
        (ConnectionState::Registering, SessionEvent::Registered) => ConnectionState::Connecting,
        (ConnectionState::Registering, SessionEvent::RegistrationFailed) => {
            ConnectionState::Disconnected
        },
        (ConnectionState::Connecting, SessionEvent::Opened) => ConnectionState::Connected,
        (ConnectionState::Connecting, SessionEvent::ConnectionFailed) => {
            ConnectionState::Disconnected
        },
        (ConnectionState::Connected, SessionEvent::Close) => ConnectionState::Closing,
        (ConnectionState::Closing, SessionEvent::Closed) => ConnectionState::Disconnected,
        _ => state,
    }
}

/// The state of a session that was disconnected and has since seen `events`.
pub open spec fn state_after(events: Seq<SessionEvent>) -> ConnectionState
    decreases events.len(),
{
    if events.len() == 0 {
        ConnectionState::Disconnected
    } else {
        next_state(state_after(events.drop_last()), events.last())
    }
}

/// Whether a sequence of registering and connecting is under way.
pub open spec fn in_flight(state: ConnectionState) -> bool {
    state == ConnectionState::Registering || state == ConnectionState::Connecting
}

/// Whether event `i` of a history asks for a registration and finds the
/// session disconnected, so that a request is handed out.
pub open spec fn issues_request(events: Seq<SessionEvent>, i: int) -> bool {
    &&& 0 <= i < events.len()
    &&& events[i] is Register
    &&& state_after(events.take(i)) == ConnectionState::Disconnected
}

/// Whether event `k` of a history ends a sequence of registering and
/// connecting: the sequence was under way before the event and is not
/// after it.
pub open spec fn ends_sequence(events: Seq<SessionEvent>, k: int) -> bool {
    &&& 0 <= k < events.len()
    &&& in_flight(state_after(events.take(k)))
    &&& !in_flight(state_after(events.take(k + 1)))
}

proof fn lemma_state_after_next(events: Seq<SessionEvent>, k: int)
    requires
        0 <= k < events.len(),
    ensures
        state_after(events.take(k + 1)) == next_state(state_after(events.take(k)), events[k]),
{
    assert(events.take(k + 1).drop_last() =~= events.take(k));
}

proof fn lemma_sequence_ends(events: Seq<SessionEvent>, i: int, m: int)
    requires
        0 <= i < m <= events.len(),
        in_flight(state_after(events.take(i + 1))),
    ensures
        in_flight(state_after(events.take(m))) || exists|k: int|
            i < k < m && #[trigger] ends_sequence(events, k),
    decreases m - i,
{
    if m > i + 1 {
        lemma_sequence_ends(events, i, m - 1);
        if in_flight(state_after(events.take(m - 1))) && !in_flight(state_after(events.take(m))) {
            assert(ends_sequence(events, m - 1));
        }
    }
}

/// Two registrations never overlap: between any two requests that a session
/// hands out, the sequence that the first one began has come to its end, and
/// the session is disconnected again when the second is handed out.
pub proof fn lemma_registrations_do_not_interleave(events: Seq<SessionEvent>, i: int, j: int)
    requires
        i < j,
        issues_request(events, i),
        issues_request(events, j),
    ensures
        in_flight(state_after(events.take(i + 1))),
        exists|k: int| i < k < j && #[trigger] ends_sequence(events, k),
{
    lemma_state_after_next(events, i);
    lemma_sequence_ends(events, i, j);
}

/// How many inbound messages may wait for the application at one time.
pub const INBOUND_CAPACITY: usize = 32;

/// An HTTP POST that is to be sent once.
#[derive(Clone, Debug, PartialEq, Eq)]
pub struct Post<B> {
    pub url: String,
    pub headers: Vec<(String, String)>,
    pub body: B,
}

/// What became of a request.
#[derive(Clone, Debug, PartialEq, Eq)]
pub enum Reply<T> {
    /// The request did not reach the relay, or no answer came back.
    Lost,
    /// The relay answered with `status`; `body` is what the answer's body
    /// decoded to, or nothing where it could not be decoded.
    Answered { status: u16, body: Option<T> },
}

/// How a status is to be taken.
#[derive(Clone, Copy, Debug, PartialEq, Eq, Structural)]
pub enum StatusClass {
    /// The request was taken: a status in 200..=299.
    Success,
    /// The relay does not know the resource: 404.
    NotFound,
    /// Any other status.
    Failure,
}

/// The class of a status.
pub open spec fn status_class(status: u16) -> StatusClass {
    if 200 <= status <= 299 {
        StatusClass::Success
    } else if status == 404 {
        StatusClass::NotFound
    } else {
        StatusClass::Failure
    }
}

/// The header fields of every request: JSON is sent and JSON is accepted.
pub open spec fn json_headers() -> Seq<(Seq<char>, Seq<char>)> {
    seq![("content-type"@, "application/json"@), ("accept"@, "application/json"@)]
}

/// What a registration's reply amounts to: the relay address, or the error.
pub open spec fn registration_outcome(reply: Reply<RegisterResponse>) -> Result<
    Seq<char>,
    RegistrationError,
> {
    match reply {
        Reply::Lost => Err(RegistrationError::Network),
        Reply::Answered { status, body } => {
            if status_class(status) != StatusClass::Success {
                Err(RegistrationError::Status(status))
            } else {
                match body {
                    Some(response) => Ok(response@),
                    None => Err(RegistrationError::Decode),
                }
            }
        },
    }
}

/// What a publication's reply amounts to. The body of the answer is not
/// looked at.
pub open spec fn publication_outcome<T>(reply: Reply<T>) -> Result<(), PublishError> {
    match reply {
        Reply::Lost => Err(PublishError::Network),
        Reply::Answered { status, body } => {
            if status_class(status) != StatusClass::Success {
                Err(PublishError::Status(status))
            } else {
                Ok(())
            }
        },
    }
}

/// How to connect: the address, and how many inbound messages the channel to
/// the application is to hold.
#[derive(Clone, Debug, PartialEq, Eq)]
pub struct ConnectPlan {
    pub url: String,
    pub capacity: usize,
}

/// How an attempt to connect ended.
#[derive(Clone, Copy, Debug, PartialEq, Eq, Structural)]
pub enum Handshake {
    /// The connection stands.
    Established,
    /// The relay was reached but the connection was not agreed on.
    Refused,
    /// The relay was not reached.
    Unreachable,
    /// The socket layer read no websocket address from the text.
    Misaddressed,
}

/// What an attempt to connect amounts to.
pub open spec fn handshake_outcome(handshake: Handshake) -> Result<(), ConnectError> {
    match handshake {
        Handshake::Established => Ok(()),
        Handshake::Refused => Err(ConnectError::Handshake),
        Handshake::Unreachable => Err(ConnectError::Transport),
        Handshake::Misaddressed => Err(ConnectError::InvalidUrl),
    }
}

/// Why the socket layer gave no connection.
#[derive(Clone, Copy, Debug, PartialEq, Eq, Structural)]
pub enum ConnectFailure {
    /// The connection was closed while it was being agreed on.
    ConnectionClosed,
    /// The connection had been closed before.
    AlreadyClosed,
    /// The operating system reported an error: no route, no name, refused.
    Io,
    /// Securing the connection failed.
    Tls,
    /// A message or a buffer was over its limit.
    Capacity,
    /// The relay did not keep to the websocket protocol.
    Protocol,
    /// The write buffer was full.
    WriteBufferFull,
    /// A text was not valid UTF-8.
    Utf8,
    /// The traffic looked like an attack.
    AttackAttempt,
    /// The address was not one to connect to.
    Url,
    /// The relay answered the upgrade with an HTTP error.
    Http,
    /// The upgrade request or its answer was malformed.
    HttpFormat,
}

/// How an attempt to connect ended, given the failure that the socket layer
/// reported, if any. Only a failure of the operating system means that the
/// relay was not reached, and only a failure of the address means that the
/// text was no websocket address; after every other failure the relay was
/// reached and the connection was not agreed on.
pub open spec fn handshake_for(failure: Option<ConnectFailure>) -> Handshake {
    match failure {
        None => Handshake::Established,
        Some(ConnectFailure::Io) => Handshake::Unreachable,
        Some(ConnectFailure::Url) => Handshake::Misaddressed,
        Some(_) => Handshake::Refused,
    }
}

/// How an attempt to connect ended, given the failure that the socket layer
/// reported, if any.
pub fn classify_handshake(failure: Option<ConnectFailure>) -> (handshake: Handshake)
    ensures
        handshake == handshake_for(failure),
{
    match failure {
        None => Handshake::Established,
        Some(ConnectFailure::Io) => Handshake::Unreachable,
        Some(ConnectFailure::Url) => Handshake::Misaddressed,
        Some(ConnectFailure::ConnectionClosed) => Handshake::Refused,
        Some(ConnectFailure::AlreadyClosed) => Handshake::Refused,
        Some(ConnectFailure::Tls) => Handshake::Refused,
        Some(ConnectFailure::Capacity) => Handshake::Refused,
        Some(ConnectFailure::Protocol) => Handshake::Refused,
        Some(ConnectFailure::WriteBufferFull) => Handshake::Refused,
        Some(ConnectFailure::Utf8) => Handshake::Refused,
        Some(ConnectFailure::AttackAttempt) => Handshake::Refused,
        Some(ConnectFailure::Http) => Handshake::Refused,
        Some(ConnectFailure::HttpFormat) => Handshake::Refused,
    }
}

/// The scheme that `url::Url::parse` reads from a text, or nothing where it
/// reads no address.
pub uninterp spec fn parsed_scheme(text: Seq<char>) -> Option<Seq<char>>;

/// Calls `url::Url::parse` on `text` and, where an address comes back, reads
/// its scheme with `Url::scheme`. The contract claims only that the outcome
/// is a function of the text, which it gives the name `parsed_scheme`: which
/// texts are addresses, and with which scheme, is for `url` to say.
#[verifier::external_body]
fn scheme_of(text: &str) -> (scheme: Option<String>)
    ensures
        scheme.deep_view() == parsed_scheme(text@),
{
    match url::Url::parse(text) {
        Ok(address) => Some(address.scheme().to_string()),
        Err(_) => None,
    }
}

/// `serde_json::Value`, a JSON value. Nothing of what it holds is visible
/// here: it is carried to `to_string`.
#[verifier::external_type_specification]
#[verifier::external_body]
pub struct ExJsonValue(serde_json::Value);

/// The compact JSON text that `serde_json` writes for a value.
pub uninterp spec fn json_text(value: serde_json::Value) -> Seq<char>;

/// Calls `to_string` on a `serde_json::Value`, which writes the value as
/// compact JSON through the value's `Display`. The contract claims only that
/// the text is a function of the value, which it gives the name `json_text`.
#[verifier::external_body]
fn text_of(value: &serde_json::Value) -> (text: String)
    ensures
        text@ == json_text(*value),
{
    value.to_string()
}

/// Whether a scheme is one of the two that a websocket address has.
pub open spec fn is_websocket_scheme(scheme: Option<Seq<char>>) -> bool {
    scheme == Some("ws"@) || scheme == Some("wss"@)
}

/// The plan for connecting to `registration_url`, given the scheme that was
/// read from it: an address whose scheme is `ws` or `wss` is connected to as
/// it stands; any other text is no websocket address.
pub fn relay_plan(registration_url: String, scheme: Option<String>) -> (plan: Result<
    ConnectPlan,
    ConnectError,
>)
    ensures
        plan is Ok <==> is_websocket_scheme(scheme.deep_view()),
        plan matches Ok(p) ==> p.url@ == registration_url@ && p.capacity == INBOUND_CAPACITY,
        plan matches Err(e) ==> e == ConnectError::InvalidUrl,
{
    match scheme {
        Some(scheme) => {
            if same_text(scheme.as_str(), "ws") || same_text(scheme.as_str(), "wss") {
                Ok(ConnectPlan { url: registration_url, capacity: INBOUND_CAPACITY })
            } else {
                Err(ConnectError::InvalidUrl)
            }
        },
        None => Err(ConnectError::InvalidUrl),
    }
}

/// One session with the relay, as contracts see it.
pub struct RelaySession {
    pub host: Seq<char>,
    pub port: u16,
    pub user_id: u16,
    pub subscription_groups: Seq<Seq<char>>,
    pub state: ConnectionState,
}

/// The caller's side of one session with the relay at `host` and `port`.
#[derive(Debug)]
pub struct WebSocketClient {
    host: String,
    port: u16,
    user_id: u16,
    subscription_groups: Vec<String>,
    state: ConnectionState,
}

impl View for WebSocketClient {
    type V = RelaySession;

    closed spec fn view(&self) -> RelaySession {
        RelaySession {
            host: self.host@,
            port: self.port,
            user_id: self.user_id,
            subscription_groups: self.subscription_groups.deep_view(),
            state: self.state,
        }
    }
}

/// The header fields of every request.
fn request_headers() -> (headers: Vec<(String, String)>)
    ensures
        headers.deep_view() == json_headers(),
{
    let mut headers: Vec<(String, String)> = Vec::new();
    headers.push((String::from_str("content-type"), String::from_str("application/json")));
    headers.push((String::from_str("accept"), String::from_str("application/json")));
    assert(headers.deep_view() =~= json_headers());
    headers
}

impl WebSocketClient {
    /// A session that has not registered yet.
    pub fn new(host: &str, port: u16, user_id: u16, subscription_groups: Vec<String>) -> (client:
        WebSocketClient)
        ensures
            client@ == (RelaySession {
                host: host@,
                port,
                user_id,
                subscription_groups: subscription_groups.deep_view(),
                state: ConnectionState::Disconnected,
            }),
    {
        WebSocketClient {
            host: String::from_str(host),
            port,
            user_id,
            subscription_groups,
            state: ConnectionState::Disconnected,
        }
    }

    /// Where the session stands.
    pub fn state(&self) -> (state: ConnectionState)
        ensures
            state == self@.state,
    {
        self.state
    }

    /// The host of the relay.
    pub fn host(&self) -> (host: &str)
        ensures
            host@ == self@.host,
    {
        self.host.as_str()
    }

    /// The port of the relay.
    pub fn port(&self) -> (port: u16)
        ensures
            port == self@.port,
    {
        self.port
    }

    /// The identifier under which the session registers.
    pub fn user_id(&self) -> (user_id: u16)
        ensures
            user_id == self@.user_id,
    {
        self.user_id
    }

    /// The groups whose traffic the session asks for.
    pub fn subscription_groups(&self) -> (groups: &Vec<String>)
        ensures
            groups.deep_view() == self@.subscription_groups,
    {
        &self.subscription_groups
    }

    /// How a status is to be taken.
    pub fn review_status(&self, status: u16) -> (class: StatusClass)
        ensures
            class == status_class(status),
    {
        if 200 <= status && status <= 299 {
            StatusClass::Success
        } else if status == 404 {
            StatusClass::NotFound
        } else {
            StatusClass::Failure
        }
    }

    /// Starts a registration. A session that is disconnected hands out the
    /// request to send and waits for its reply; in any other state a sequence
    /// is under way, nothing is handed out and nothing changes.
    pub fn register(&mut self) -> (request: Option<Post<Register>>)
        ensures
            request is Some <==> old(self)@.state == ConnectionState::Disconnected,
            final(self)@ == (RelaySession {
                state: next_state(old(self)@.state, SessionEvent::Register),
                ..old(self)@
            }),
            request matches Some(post) ==> {
                &&& post.url@ == endpoint_url(
                    old(self)@.host,
                    old(self)@.port,
                    RegisterResponse::API_ENDPOINT@,
                )
                &&& post.headers.deep_view() == json_headers()
                &&& post.body@ == (RegisterView {
                    user_id: old(self)@.user_id,
                    groups: old(self)@.subscription_groups,
                })
            },
    {
        if self.state != ConnectionState::Disconnected {
            return None;
        }
        let post = Post {
            url: endpoint_address(self.host.as_str(), self.port, RegisterResponse::API_ENDPOINT),
            headers: request_headers(),
            body: Register { user_id: self.user_id, groups: copy_texts(&self.subscription_groups) },
        };
        self.state = ConnectionState::Registering;
        Some(post)
    }

    /// Takes the reply to the registration that is under way. With an address
    /// the session goes on to connect; with an error it is disconnected again.
    pub fn registered(&mut self, reply: Reply<RegisterResponse>) -> (response: Result<
        RegisterResponse,
        RegistrationError,
    >)
        requires
            old(self)@.state == ConnectionState::Registering,
        ensures
            match response {
                Ok(r) => registration_outcome(reply) == Ok::<Seq<char>, RegistrationError>(r@),
                Err(e) => registration_outcome(reply) == Err::<Seq<char>, RegistrationError>(e),
            },
            final(self)@ == (RelaySession {
                state: next_state(
                    old(self)@.state,
                    if response is Ok {
                        SessionEvent::Registered
                    } else {
                        SessionEvent::RegistrationFailed
                    },
                ),
                ..old(self)@
            }),
    {
        let response = match reply {
            Reply::Lost => Err(RegistrationError::Network),
            Reply::Answered { status, body } => {
                match self.review_status(status) {
                    StatusClass::Success => match body {
                        Some(response) => Ok(response),
                        None => Err(RegistrationError::Decode),
                    },
                    _ => Err(RegistrationError::Status(status)),
                }
            },
        };
        self.state = if response.is_ok() {
            ConnectionState::Connecting
        } else {
            ConnectionState::Disconnected
        };
        response
    }

    /// Plans the connection to the address that the registration gave. An
    /// address that `url::Url::parse` reads with the scheme `ws` or `wss` is
    /// connected to as it stands. Anything else is no websocket address: the
    /// sequence has failed and the session is disconnected.
    pub fn start_ws_client(&mut self, registration_url: String) -> (plan: Result<
        ConnectPlan,
        ConnectError,
    >)
        requires
            old(self)@.state == ConnectionState::Connecting,
        ensures
            plan is Ok <==> is_websocket_scheme(parsed_scheme(registration_url@)),
            plan matches Ok(p) ==> p.url@ == registration_url@ && p.capacity == INBOUND_CAPACITY,
            plan matches Err(e) ==> e == ConnectError::InvalidUrl,
            final(self)@ == (RelaySession {
                state: if plan is Ok {
                    old(self)@.state
                } else {
                    next_state(old(self)@.state, SessionEvent::ConnectionFailed)
                },
                ..old(self)@
            }),
    {
        let scheme = scheme_of(registration_url.as_str());
        let plan = relay_plan(registration_url, scheme);
        if plan.is_err() {
            self.state = ConnectionState::Disconnected;
        }
        plan
    }

    /// Takes the end of the attempt to connect. Where the connection stands,
    /// the session is connected and hands out the reader of its inbound side;
    /// else the session is disconnected.
    pub fn connected(&mut self, handshake: Handshake) -> (reader: Result<
        InboundBridge,
        ConnectError,
    >)
        requires
            old(self)@.state == ConnectionState::Connecting,
        ensures
            match reader {
                Ok(bridge) => handshake_outcome(handshake) is Ok && bridge@
                    == crate::bridge::BridgeState::Reading,
                Err(e) => handshake_outcome(handshake) == Err::<(), ConnectError>(e),
            },
            final(self)@ == (RelaySession {
                state: next_state(
                    old(self)@.state,
                    if reader is Ok {
                        SessionEvent::Opened
                    } else {
                        SessionEvent::ConnectionFailed
                    },
                ),
                ..old(self)@
            }),
    {
        match handshake {
            Handshake::Established => {
                self.state = ConnectionState::Connected;
                Ok(InboundBridge::new())
            },
            Handshake::Refused => {
                self.state = ConnectionState::Disconnected;
                Err(ConnectError::Handshake)
            },
            Handshake::Unreachable => {
                self.state = ConnectionState::Disconnected;
                Err(ConnectError::Transport)
            },
            Handshake::Misaddressed => {
                self.state = ConnectionState::Disconnected;
                Err(ConnectError::InvalidUrl)
            },
        }
    }

    /// Starts to close the connection, at the application's wish or because
    /// the connection broke.
    pub fn close(&mut self)
        requires
            old(self)@.state == ConnectionState::Connected,
        ensures
            final(self)@ == (RelaySession {
                state: next_state(old(self)@.state, SessionEvent::Close),
                ..old(self)@
            }),
    {
        self.state = ConnectionState::Closing;
    }

    /// Ends the closing: the session can register anew.
    pub fn closed(&mut self)
        requires
            old(self)@.state == ConnectionState::Closing,
        ensures
            final(self)@ == (RelaySession {
                state: next_state(old(self)@.state, SessionEvent::Closed),
                ..old(self)@
            }),
    {
        self.state = ConnectionState::Disconnected;
    }

    /// The request that publishes `message`, already written as JSON text, to
    /// `group` in the name of `user_id`.
    pub fn publication(&self, user_id: u16, group: String, message: String) -> (post: Post<Publish>)
        ensures
            post.url@ == endpoint_url(self@.host, self@.port, Publish::API_ENDPOINT@),
            post.headers.deep_view() == json_headers(),
            post.body@ == (PublishView { user_id, group: group@, message: message@ }),
    {
        Post {
            url: endpoint_address(self.host.as_str(), self.port, Publish::API_ENDPOINT),
            headers: request_headers(),
            body: Publish { user_id, group, message },
        }
    }

    /// The request that publishes `message` to `group` in the name of
    /// `user_id`. The payload travels as the compact JSON text that
    /// `serde_json` writes for it. Publishing asks nothing of the session's
    /// state and leaves it as it is.
    pub fn publish(&self, user_id: u16, group: String, message: &serde_json::Value) -> (post: Post<
        Publish,
    >)
        ensures
            post.url@ == endpoint_url(self@.host, self@.port, Publish::API_ENDPOINT@),
            post.headers.deep_view() == json_headers(),
            post.body@ == (PublishView { user_id, group: group@, message: json_text(*message) }),
    {
        self.publication(user_id, group, text_of(message))
    }

    /// What the reply to a publication amounts to.
    pub fn published<T>(&self, reply: &Reply<T>) -> (outcome: Result<(), PublishError>)
        ensures
            outcome == publication_outcome(*reply),
    {
        match reply {
            Reply::Lost => Err(PublishError::Network),
            Reply::Answered { status, body } => {
                match self.review_status(*status) {
                    StatusClass::Success => Ok(()),
                    _ => Err(PublishError::Status(*status)),
                }
            },
        }
    }
}

} // verus!
