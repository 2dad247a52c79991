//! The rendered login request: key presence, omission rules, and the
//! idle-watchdog derivation.

use rpclogin::{Interval, LoginParams, LoginType, RpcMap, RpcValue};

fn params(device_id: &str, mount_point: &str, heartbeat: Option<u64>) -> LoginParams {
    LoginParams {
        user: "alice".to_string(),
        password: "secret".to_string(),
        login_type: LoginType::SHA1,
        device_id: device_id.to_string(),
        mount_point: mount_point.to_string(),
        heartbeat_interval: heartbeat.map(Interval::from_secs),
    }
}

fn as_map(v: &RpcValue) -> &RpcMap {
    match v {
        RpcValue::Mapping(m) => m,
        _ => panic!("expected a mapping"),
    }
}

fn options_of(rendered: &RpcValue) -> &RpcMap {
    let top = as_map(rendered);
    as_map(top.get("options").expect("options present"))
}

fn str_of(v: &RpcValue) -> &str {
    match v {
        RpcValue::Str(s) => s.as_str(),
        _ => panic!("expected a string"),
    }
}

#[test]
fn login_section_carries_user_password_and_type() {
    let rendered = params("", "", None).to_rpcvalue();
    let top = as_map(&rendered);
    let login = as_map(top.get("login").expect("login present"));
    assert_eq!(str_of(login.get("user").unwrap()), "alice");
    assert_eq!(str_of(login.get("password").unwrap()), "secret");
    assert_eq!(str_of(login.get("type").unwrap()), "SHA1");
    assert_eq!(login.len(), 3);
}

#[test]
fn device_omitted_when_both_identities_empty() {
    let rendered = params("", "", Some(60)).to_rpcvalue();
    let options = options_of(&rendered);
    assert!(options.get("device").is_none());
    assert!(!options.contains_key("device"));
}

#[test]
fn device_id_takes_priority_over_mount_point() {
    let rendered = params("dev-7", "/mnt/a", Some(60)).to_rpcvalue();
    let device = as_map(options_of(&rendered).get("device").expect("device present"));
    assert_eq!(str_of(device.get("deviceId").unwrap()), "dev-7");
    assert!(device.get("mountPoint").is_none());
    assert_eq!(device.len(), 1);
}

#[test]
fn mount_point_rendered_when_device_id_empty() {
    let rendered = params("", "/mnt/a", None).to_rpcvalue();
    let device = as_map(options_of(&rendered).get("device").expect("device present"));
    assert_eq!(str_of(device.get("mountPoint").unwrap()), "/mnt/a");
    assert!(device.get("deviceId").is_none());
}

#[test]
fn watchdog_timeout_is_three_times_heartbeat() {
    let rendered = params("", "", Some(60)).to_rpcvalue();
    match options_of(&rendered).get("idleWatchDogTimeOut") {
        Some(RpcValue::UInt(n)) => assert_eq!(*n, 180),
        other => panic!("expected an unsigned watchdog timeout, got {other:?}"),
    }
}

#[test]
fn watchdog_omitted_without_heartbeat() {
    let rendered = params("", "", None).to_rpcvalue();
    let options = options_of(&rendered);
    assert!(options.get("idleWatchDogTimeOut").is_none());
    assert!(options.is_empty());
}

#[test]
fn login_type_wire_forms() {
    assert_eq!(LoginType::PLAIN.to_str(), "PLAIN");
    assert_eq!(LoginType::SHA1.to_str(), "SHA1");
}

#[test]
fn default_params_are_anonymous_sha1_with_minute_heartbeat() {
    let p = LoginParams::default();
    assert_eq!(p.user, "");
    assert_eq!(p.password, "");
    assert_eq!(p.login_type, LoginType::SHA1);
    assert_eq!(p.device_id, "");
    assert_eq!(p.mount_point, "");
    assert_eq!(p.heartbeat_interval, Some(Interval::from_secs(60)));
}
