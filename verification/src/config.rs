//! The persisted client configuration and the decisions of its bootstrap.
//!
//! The record itself, its defaults, and the choices `load_or_default` makes
//! — load an existing file, synthesize and persist defaults, or keep them in
//! memory — are verified here. Reading, parsing and writing the file are the
//! caller's file-system work; their outcomes come back in as plain values.

use vstd::prelude::*;
use vstd::string::StringExecFns;

verus! {

/// The persisted configuration record: connection target, device identity,
/// and heartbeat policy, with the string durations the file format uses.
#[derive(Debug)]
pub struct ClientConfig {
    pub url: String,
    pub device_id: Option<String>,
    pub mount: Option<String>,
    pub heartbeat_interval: String,
    pub reconnect_interval: Option<String>,
}

/// The heartbeat interval a configuration gets when the stored record
/// carries none.
pub fn default_heartbeat() -> (r: String)
    ensures
        r@ == "1m"@,
{
    "1m".to_owned()
}

/// The shape of the default configuration record.
pub open spec fn is_default_config(c: ClientConfig) -> bool {
    &&& c.url@ == "tcp://localhost:3755"@
    &&& c.device_id is None
    &&& c.mount is None
    &&& c.heartbeat_interval@ == "1m"@
    &&& c.reconnect_interval is None
}

impl Default for ClientConfig {
    /// A local TCP broker, no device identity, a one-minute heartbeat.
    fn default() -> (r: Self)
        ensures
            is_default_config(r),
    {
        ClientConfig {
            url: "tcp://localhost:3755".to_owned(),
            device_id: None,
            mount: None,
            heartbeat_interval: default_heartbeat(),
            reconnect_interval: None,
        }
    }
}

/// What the bootstrap does at a path: load the file that exists there,
/// synthesize defaults and persist them, or keep defaults in memory only.
#[derive(Debug, PartialEq, Eq, Structural)]
pub enum BootstrapPlan {
    LoadExisting,
    WriteDefault,
    KeepDefault,
}

/// Decide the bootstrap step. An existing file is always loaded — never
/// silently replaced by defaults; with no file, defaults are persisted
/// exactly when asked to.
pub fn bootstrap_plan(file_exists: bool, create_if_not_exist: bool) -> (r: BootstrapPlan)
    ensures
        r == (if file_exists {
            BootstrapPlan::LoadExisting
        } else if create_if_not_exist {
            BootstrapPlan::WriteDefault
        } else {
            BootstrapPlan::KeepDefault
        }),
{
    if file_exists {
        BootstrapPlan::LoadExisting
    } else if create_if_not_exist {
        BootstrapPlan::WriteDefault
    } else {
        BootstrapPlan::KeepDefault
    }
}

/// The diagnostic a failed load of an existing file surfaces: the file path
/// and the underlying cause, never a silent fallback.
pub open spec fn load_error_text(file_name: Seq<char>, cause: Seq<char>) -> Seq<char> {
    "Cannot read config file: "@ + file_name + " - "@ + cause
}

/// Resolve the outcome of loading an existing configuration file: a parsed
/// record passes through, a read or parse failure becomes a configuration
/// error naming the path and the cause.
pub fn resolve_loaded(file_name: &str, loaded: Result<ClientConfig, String>) -> (r: Result<
    ClientConfig,
    String,
>)
    ensures
        loaded matches Ok(c) ==> (r matches Ok(c2) && c2 == c),
        loaded matches Err(e) ==> (r matches Err(m) && m@ == load_error_text(file_name@, e@)),
{
    match loaded {
        Ok(cfg) => Ok(cfg),
        Err(err) => {
            let mut msg = "Cannot read config file: ".to_owned();
            msg.append(file_name);
            msg.append(" - ");
            msg.append(err.as_str());
            Err(msg)
        },
    }
}

} // verus!
