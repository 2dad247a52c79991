//! The handshake engine, driven through whole exchanges: both requests and
//! every classified response outcome.

use rpclogin::handshake::{handshake_step, hello_request, process_hello_response, process_login_response};
use rpclogin::hash::sha1_password_hash;
use rpclogin::{HandshakeEvent, HandshakeState, LoginError, LoginParams, LoginType, Response, RpcMap, RpcValue};

fn params() -> LoginParams {
    LoginParams {
        user: "alice".to_string(),
        password: "secret".to_string(),
        login_type: LoginType::SHA1,
        device_id: String::new(),
        mount_point: String::new(),
        heartbeat_interval: None,
    }
}

fn result_map(key: &str, value: RpcValue) -> Response {
    let mut m = RpcMap::new();
    m.insert(key, value);
    Response::Success(RpcValue::Mapping(m))
}

fn as_map(v: &RpcValue) -> &RpcMap {
    match v {
        RpcValue::Mapping(m) => m,
        _ => panic!("expected a mapping"),
    }
}

#[test]
fn hello_is_a_bare_request_to_the_broker() {
    let rq = hello_request();
    assert_eq!(rq.method, "hello");
    assert_eq!(rq.destination, "");
    assert!(rq.params.is_none());
}

#[test]
fn full_handshake_yields_the_assigned_client_id() {
    let p = params();
    let hello_resp = result_map("nonce", RpcValue::Str("abc123".to_string()));
    let rq = process_hello_response(&p, Some(hello_resp)).expect("login request");
    assert_eq!(rq.method, "login");
    assert_eq!(rq.destination, "");

    // The transmitted password is the nonce-salted hash, not the secret.
    let rendered = rq.params.expect("login request carries its parameters");
    let login = as_map(as_map(&rendered).get("login").unwrap());
    match login.get("password") {
        Some(RpcValue::Str(pw)) => {
            assert_eq!(pw, &sha1_password_hash("secret", "abc123"));
            assert_ne!(pw, "secret");
        }
        other => panic!("expected a hashed password, got {other:?}"),
    }

    let login_resp = result_map("clientId", RpcValue::Int(42));
    assert_eq!(process_login_response(Some(login_resp)).unwrap(), 42);
}

#[test]
fn login_result_without_client_id_yields_zero() {
    let p = params();
    let hello_resp = result_map("nonce", RpcValue::Str("xyz".to_string()));
    let rq = process_hello_response(&p, Some(hello_resp)).expect("login request");
    assert_eq!(rq.method, "login");

    let login_resp = Response::Success(RpcValue::Mapping(RpcMap::new()));
    assert_eq!(process_login_response(Some(login_resp)).unwrap(), 0);
}

#[test]
fn rejected_hello_fails_without_a_login_request() {
    let err = process_hello_response(&params(), Some(Response::Failure("access denied".to_string())));
    match err {
        Err(LoginError::AuthenticationRejected(m)) => assert_eq!(m, "access denied"),
        other => panic!("expected an authentication rejection, got {other:?}"),
    }
}

#[test]
fn hello_result_without_nonce_is_a_protocol_violation() {
    let err = process_hello_response(&params(), Some(Response::Success(RpcValue::Mapping(RpcMap::new()))));
    match err {
        Err(LoginError::ProtocolViolation(m)) => assert_eq!(m, "Bad nonce"),
        other => panic!("expected a protocol violation, got {other:?}"),
    }
}

#[test]
fn closed_stream_at_hello_counts_as_an_empty_response() {
    let err = process_hello_response(&params(), None);
    match err {
        Err(LoginError::ProtocolViolation(m)) => assert_eq!(m, "Bad nonce"),
        other => panic!("expected a protocol violation, got {other:?}"),
    }
}

#[test]
fn non_mapping_hello_result_is_a_protocol_violation() {
    let err = process_hello_response(&params(), Some(Response::Success(RpcValue::Int(5))));
    assert!(matches!(err, Err(LoginError::ProtocolViolation(_))));
}

#[test]
fn closed_stream_at_login_is_a_transport_failure() {
    match process_login_response(None) {
        Err(LoginError::Transport(m)) => assert_eq!(m, "socket closed"),
        other => panic!("expected a transport failure, got {other:?}"),
    }
}

#[test]
fn rejected_login_propagates_the_server_error() {
    let r = process_login_response(Some(Response::Failure("bad credentials".to_string())));
    match r {
        Err(LoginError::AuthenticationRejected(m)) => assert_eq!(m, "bad credentials"),
        other => panic!("expected an authentication rejection, got {other:?}"),
    }
}

#[test]
fn client_id_reads_as_a_signed_32_bit_integer() {
    let unsigned = result_map("clientId", RpcValue::UInt(7));
    assert_eq!(process_login_response(Some(unsigned)).unwrap(), 7);

    let too_large = result_map("clientId", RpcValue::Int(i64::from(i32::MAX) + 1));
    assert_eq!(process_login_response(Some(too_large)).unwrap(), 0);

    let not_numeric = result_map("clientId", RpcValue::Str("42".to_string()));
    assert_eq!(process_login_response(Some(not_numeric)).unwrap(), 0);
}

#[test]
fn state_machine_walks_the_successful_path() {
    let p = params();
    let (state, action) = handshake_step(&p, HandshakeState::Start, HandshakeEvent::Begin);
    assert!(matches!(state, HandshakeState::AwaitingNonce));
    assert_eq!(action.expect("hello goes out").method, "hello");

    let hello_resp = result_map("nonce", RpcValue::Str("abc123".to_string()));
    let (state, action) =
        handshake_step(&p, state, HandshakeEvent::Message(Some(hello_resp)));
    assert!(matches!(state, HandshakeState::AwaitingClientId));
    assert_eq!(action.expect("login goes out").method, "login");

    let login_resp = result_map("clientId", RpcValue::Int(42));
    let (state, action) =
        handshake_step(&p, state, HandshakeEvent::Message(Some(login_resp)));
    assert!(matches!(state, HandshakeState::Authenticated(42)));
    assert!(action.is_none());
}

#[test]
fn state_machine_sends_nothing_after_a_rejected_hello() {
    let p = params();
    let (state, _) = handshake_step(&p, HandshakeState::Start, HandshakeEvent::Begin);
    let rejected = Response::Failure("access denied".to_string());
    let (state, action) =
        handshake_step(&p, state, HandshakeEvent::Message(Some(rejected)));
    match &state {
        HandshakeState::Failed(LoginError::AuthenticationRejected(m)) => assert_eq!(m, "access denied"),
        other => panic!("expected a rejection, got {other:?}"),
    }
    assert!(action.is_none());

    // Terminal states take no further step.
    let (state, action) =
        handshake_step(&p, state, HandshakeEvent::Message(None));
    assert!(matches!(state, HandshakeState::Failed(_)));
    assert!(action.is_none());
}
