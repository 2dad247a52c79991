//! The handshake engine: the decision core of the two-round login exchange.
//!
//! The caller owns the transport. It sends [`hello_request`], hands the next
//! complete message — classified as success or failure, or `None` for a
//! closed stream — to [`process_hello_response`], sends the `login` request
//! that comes back, and hands the next message to
//! [`process_login_response`], which yields the client identifier. Exactly
//! two round trips, no retry.

use crate::hash::{credential_hash, sha1_password_hash};
use crate::params::{heartbeat_fits, is_rendered_with, LoginParams};
use crate::value::{lookup, RpcValue};
use vstd::prelude::*;

verus! {

/// Why a handshake failed.
///
/// A transport error is a failed send or receive, or a stream closed where a
/// response was mandatory. A protocol violation is a success response
/// missing an expected field. An authentication rejection carries the
/// server's error text verbatim.
#[derive(Debug)]
pub enum LoginError {
    Transport(String),
    ProtocolViolation(String),
    AuthenticationRejected(String),
}

/// A request to be transmitted: a method name addressed to a destination
/// (empty for the broker itself), with at most one parameter value.
#[derive(Debug)]
pub struct RpcRequest {
    pub destination: String,
    pub method: String,
    pub params: Option<RpcValue>,
}

/// A received response, already classified: a success carrying its result
/// value, or a failure carrying the server's error text.
#[derive(Debug)]
pub enum Response {
    Success(RpcValue),
    Failure(String),
}

/// The shape of the request that opens the handshake: the method `hello`,
/// no destination, no parameters.
pub open spec fn is_hello_request(rq: RpcRequest) -> bool {
    &&& rq.destination@ == Seq::<char>::empty()
    &&& rq.method@ == "hello"@
    &&& rq.params is None
}

/// The shape of the second-round request for parameters `p` and the server
/// nonce: the method `login`, no destination, and one parameter — the
/// rendering of `p` with the password replaced by its credential hash.
pub open spec fn is_login_request(p: LoginParams, nonce: Seq<char>, rq: RpcRequest) -> bool {
    &&& rq.destination@ == Seq::<char>::empty()
    &&& rq.method@ == "login"@
    &&& rq.params matches Some(v) && is_rendered_with(p, credential_hash(p.password@, nonce), v)
}

/// The `hello` request that opens the handshake.
pub fn hello_request() -> (r: RpcRequest)
    ensures
        is_hello_request(r),
{
    RpcRequest { destination: String::new(), method: "hello".to_owned(), params: None }
}

/// The nonce a `hello` outcome carries: the string under `nonce` in the
/// result mapping. A closed stream counts as an empty response and so
/// carries none; a present non-string value reads as the empty string.
pub open spec fn hello_nonce(resp: Option<Response>) -> Option<Seq<char>> {
    match resp {
        Some(Response::Success(v)) => match v {
            RpcValue::Mapping(m) => match lookup(m.entries@, "nonce"@) {
                Some(nv) => Some(nv.str_view()),
                None => None,
            },
            _ => None,
        },
        _ => None,
    }
}

/// Consume the response to `hello` and build the `login` request.
///
/// A failure response rejects the handshake with the server's error text. A
/// success response (a closed stream counting as an empty one) must carry a
/// nonce, else the handshake fails with `Bad nonce`. With the nonce in
/// hand, the password is replaced by its nonce-salted SHA-1 credential hash
/// and the parameters are rendered into the `login` request, addressed like
/// `hello` to the broker itself.
pub fn process_hello_response(params: &LoginParams, resp: Option<Response>) -> (r: Result<
    RpcRequest,
    LoginError,
>)
    requires
        heartbeat_fits(*params),
    ensures
        resp matches Some(Response::Failure(e)) ==> (r matches Err(
            LoginError::AuthenticationRejected(m),
        ) && m@ == e@),
        !(resp matches Some(Response::Failure(_))) && hello_nonce(resp) is None ==> (r matches Err(
            LoginError::ProtocolViolation(m),
        ) && m@ == "Bad nonce"@),
        hello_nonce(resp) matches Some(nonce) ==> (r matches Ok(rq) && is_login_request(
            *params,
            nonce,
            rq,
        )),
{
    match resp {
        Some(Response::Failure(err)) => Err(LoginError::AuthenticationRejected(err)),
        Some(Response::Success(v)) => match v {
            RpcValue::Mapping(m) => match m.get("nonce") {
                Some(nv) => {
                    let nonce = nv.as_str();
                    Ok(build_login_request(params, nonce))
                },
                None => Err(LoginError::ProtocolViolation("Bad nonce".to_owned())),
            },
            _ => Err(LoginError::ProtocolViolation("Bad nonce".to_owned())),
        },
        None => Err(LoginError::ProtocolViolation("Bad nonce".to_owned())),
    }
}

/// Derive the hashed login parameters for `nonce` and render them into the
/// `login` request.
fn build_login_request(params: &LoginParams, nonce: &str) -> (r: RpcRequest)
    requires
        heartbeat_fits(*params),
    ensures
        is_login_request(*params, nonce@, r),
{
    let hash = sha1_password_hash(params.password.as_str(), nonce);
    let hashed = LoginParams {
        user: params.user.clone(),
        password: hash,
        login_type: params.login_type,
        device_id: params.device_id.clone(),
        mount_point: params.mount_point.clone(),
        heartbeat_interval: params.heartbeat_interval,
    };
    let value = hashed.to_rpcvalue();
    RpcRequest { destination: String::new(), method: "login".to_owned(), params: Some(value) }
}

/// The client identifier a successful `login` result carries: the value
/// under `clientId` read as a signed 32-bit integer, or zero when the key
/// is absent — the server accepted the session without assigning one.
pub open spec fn client_id_of(v: RpcValue) -> i32 {
    match v {
        RpcValue::Mapping(m) => match lookup(m.entries@, "clientId"@) {
            Some(cv) => cv.i32_view(),
            None => 0i32,
        },
        _ => 0i32,
    }
}

/// Consume the response to `login` and yield the client identifier.
///
/// A closed stream here is a hard transport failure: a login response is
/// mandatory. A failure response rejects the handshake with the server's
/// error text. A success response yields its `clientId`, zero when absent.
pub fn process_login_response(resp: Option<Response>) -> (r: Result<i32, LoginError>)
    ensures
        resp is None ==> (r matches Err(LoginError::Transport(m)) && m@ == "socket closed"@),
        resp matches Some(Response::Failure(e)) ==> (r matches Err(
            LoginError::AuthenticationRejected(m),
        ) && m@ == e@),
        resp matches Some(Response::Success(v)) ==> (r matches Ok(id) && id == client_id_of(v)),
{
    match resp {
        None => Err(LoginError::Transport("socket closed".to_owned())),
        Some(Response::Failure(err)) => Err(LoginError::AuthenticationRejected(err)),
        Some(Response::Success(v)) => match &v {
            RpcValue::Mapping(m) => match m.get("clientId") {
                Some(cv) => Ok(cv.as_i32()),
                None => Ok(0),
            },
            _ => Ok(0),
        },
    }
}

/// Where the handshake stands: not yet begun, one of the two waits, or a
/// terminal outcome — authenticated with a client identifier, or failed
/// with its cause.
#[derive(Debug)]
pub enum HandshakeState {
    Start,
    AwaitingNonce,
    AwaitingClientId,
    Authenticated(i32),
    Failed(LoginError),
}

/// What the engine reacts to: the order to begin, or the next complete
/// message — `None` for a closed stream.
#[derive(Debug)]
pub enum HandshakeEvent {
    Begin,
    Message(Option<Response>),
}

/// Drive the handshake one transition: from a state and an event to the
/// next state, with at most one request to transmit.
///
/// The caller performs the action and hands the next message back in. A
/// request is sent only out of `Start` (the `hello`) and out of
/// `AwaitingNonce` on a success response carrying a nonce (the `login`):
/// exactly two round trips on the successful path, and none once a terminal
/// state is reached. An event a state does not expect changes nothing.
pub fn handshake_step(params: &LoginParams, state: HandshakeState, event: HandshakeEvent) -> (r: (
    HandshakeState,
    Option<RpcRequest>,
))
    requires
        heartbeat_fits(*params),
    ensures
        ({
            let (next, action) = r;
            match state {
                HandshakeState::Start => match event {
                    HandshakeEvent::Begin => next is AwaitingNonce && (action matches Some(rq)
                        && is_hello_request(rq)),
                    _ => next == state && action is None,
                },
                HandshakeState::AwaitingNonce => match event {
                    HandshakeEvent::Message(resp) => {
                        &&& (resp matches Some(Response::Failure(e)) ==> next matches
                            HandshakeState::Failed(LoginError::AuthenticationRejected(m)) && m@
                            == e@ && action is None)
                        &&& (!(resp matches Some(Response::Failure(_))) && hello_nonce(resp)
                            is None ==> (next matches HandshakeState::Failed(
                            LoginError::ProtocolViolation(m),
                        ) && m@ == "Bad nonce"@ && action is None))
                        &&& (hello_nonce(resp) matches Some(nonce) ==> next is AwaitingClientId
                            && (action matches Some(rq) && is_login_request(*params, nonce, rq)))
                    },
                    _ => next == state && action is None,
                },
                HandshakeState::AwaitingClientId => match event {
                    HandshakeEvent::Message(resp) => {
                        &&& (resp is None ==> (next matches HandshakeState::Failed(
                            LoginError::Transport(m),
                        ) && m@ == "socket closed"@))
                        &&& (resp matches Some(Response::Failure(e)) ==> next matches
                            HandshakeState::Failed(LoginError::AuthenticationRejected(m)) && m@
                            == e@)
                        &&& (resp matches Some(Response::Success(v)) ==> next
                            == HandshakeState::Authenticated(client_id_of(v)))
                        &&& action is None
                    },
                    _ => next == state && action is None,
                },
                _ => next == state && action is None,
            }
        }),
{
    match (state, event) {
        (HandshakeState::Start, HandshakeEvent::Begin) => (
            HandshakeState::AwaitingNonce,
            Some(hello_request()),
        ),
        (HandshakeState::AwaitingNonce, HandshakeEvent::Message(resp)) => match process_hello_response(
            params,
            resp,
        ) {
            Ok(rq) => (HandshakeState::AwaitingClientId, Some(rq)),
            Err(err) => (HandshakeState::Failed(err), None),
        },
        (HandshakeState::AwaitingClientId, HandshakeEvent::Message(resp)) => match process_login_response(
            resp,
        ) {
            Ok(id) => (HandshakeState::Authenticated(id), None),
            Err(err) => (HandshakeState::Failed(err), None),
        },
        (s, _) => (s, None),
    }
}

} // verus!
