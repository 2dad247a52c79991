//! Login parameters and their rendering into the generic RPC value model.
//!
//! A [`LoginParams`] value describes how the client authenticates and how it
//! presents the session. [`LoginParams::to_rpcvalue`] projects it into the
//! mapping the `login` request carries; [`is_rendered`] states the exact
//! shape of that projection, and the lemmas below prove the rules the
//! projection follows (device identity priority, omission of empty parts,
//! idle-watchdog derivation).

use crate::value::{lookup, RpcMap, RpcValue};
use crate::value::{lemma_lookup_at, lemma_lookup_none};
use vstd::prelude::*;

verus! {

/// How the password field of the `login` request is derived: transmitted
/// raw, or replaced by a nonce-salted SHA-1 hash.
#[derive(Copy, Clone, Debug, PartialEq, Eq, Structural)]
pub enum LoginType {
    PLAIN,
    SHA1,
}

/// The wire form of each login type.
pub open spec fn login_type_str(t: LoginType) -> Seq<char> {
    match t {
        LoginType::PLAIN => "PLAIN"@,
        LoginType::SHA1 => "SHA1"@,
    }
}

impl LoginType {
    pub fn to_str(&self) -> (r: &str)
        ensures
            r@ == login_type_str(*self),
    {
        match self {
            LoginType::PLAIN => "PLAIN",
            LoginType::SHA1 => "SHA1",
        }
    }
}

/// The kind of transport a connection URL names.
pub enum Scheme {
    Tcp,
    LocalSocket,
}

/// A duration expressed in whole seconds.
///
/// Login parameters carry their heartbeat policy as a plain second count so
/// that the rendering rules can be stated and proved arithmetically.
#[derive(Copy, Clone, Debug, PartialEq, Eq, Structural)]
pub struct Interval {
    pub secs: u64,
}

impl Interval {
    pub fn from_secs(secs: u64) -> (r: Interval)
        ensures
            r.secs == secs,
    {
        Interval { secs }
    }
}

/// How to authenticate and how to present the session: identity,
/// credential, device identity, and heartbeat policy.
///
/// At most one of `device_id` / `mount_point` is transmitted, `device_id`
/// taking priority when both are set.
#[derive(Clone, Debug)]
pub struct LoginParams {
    pub user: String,
    pub password: String,
    pub login_type: LoginType,
    pub device_id: String,
    pub mount_point: String,
    pub heartbeat_interval: Option<Interval>,
}

impl Default for LoginParams {
    /// An anonymous SHA1 login with a one-minute heartbeat.
    fn default() -> (r: Self)
        ensures
            r.user@ == Seq::<char>::empty(),
            r.password@ == Seq::<char>::empty(),
            r.login_type == LoginType::SHA1,
            r.device_id@ == Seq::<char>::empty(),
            r.mount_point@ == Seq::<char>::empty(),
            r.heartbeat_interval == (Some(Interval { secs: 60 })),
    {
        LoginParams {
            user: String::new(),
            password: String::new(),
            login_type: LoginType::SHA1,
            device_id: String::new(),
            mount_point: String::new(),
            heartbeat_interval: Some(Interval { secs: 60 }),
        }
    }
}

/// The keys of a rendered request that share a mapping are pairwise
/// distinct; the rendering proofs lean on that.
proof fn lemma_render_keys_distinct()
    ensures
        "user"@ != "password"@,
        "user"@ != "type"@,
        "password"@ != "type"@,
        "login"@ != "options"@,
        "idleWatchDogTimeOut"@ != "device"@,
        "deviceId"@ != "mountPoint"@,
{
    reveal_strlit("user");
    reveal_strlit("password");
    reveal_strlit("type");
    reveal_strlit("login");
    reveal_strlit("options");
    reveal_strlit("idleWatchDogTimeOut");
    reveal_strlit("device");
    reveal_strlit("deviceId");
    reveal_strlit("mountPoint");
    assert("user"@.len() == 4);
    assert("password"@.len() == 8);
    assert("login"@.len() == 5);
    assert("options"@.len() == 7);
    assert("idleWatchDogTimeOut"@.len() == 19);
    assert("device"@.len() == 6);
    assert("deviceId"@.len() == 8);
    assert("mountPoint"@.len() == 10);
    assert("user"@[0] == 'u');
    assert("type"@[0] == 't');
}

/// Whether the idle-watchdog timeout, three times the heartbeat interval in
/// seconds, fits a 64-bit count. Rendering demands it.
pub open spec fn heartbeat_fits(p: LoginParams) -> bool {
    p.heartbeat_interval matches Some(iv) ==> 3 * iv.secs <= u64::MAX
}

/// Whether the rendered request carries a `device` mapping at all: only
/// when a device identity or a mount point is present.
pub open spec fn has_device_entry(p: LoginParams) -> bool {
    p.device_id@.len() > 0 || p.mount_point@.len() > 0
}

/// One mapping entry binding `key` to the string `val`.
pub open spec fn entry_str(e: (String, RpcValue), key: Seq<char>, val: Seq<char>) -> bool {
    &&& e.0@ == key
    &&& e.1 matches RpcValue::Str(s) && s@ == val
}

/// The `login` section of a rendered request: `user`, `password` and `type`,
/// in that order, with `password` holding the given text.
pub open spec fn is_login_section(p: LoginParams, password: Seq<char>, v: RpcValue) -> bool {
    match v {
        RpcValue::Mapping(m) => {
            &&& m.entries@.len() == 3
            &&& entry_str(m.entries@[0], "user"@, p.user@)
            &&& entry_str(m.entries@[1], "password"@, password)
            &&& entry_str(m.entries@[2], "type"@, login_type_str(p.login_type))
        },
        _ => false,
    }
}

/// The `device` mapping of a rendered request: exactly one entry, a
/// `deviceId` when a device identity is set, else a `mountPoint`.
pub open spec fn is_device_section(p: LoginParams, v: RpcValue) -> bool {
    match v {
        RpcValue::Mapping(m) => {
            &&& m.entries@.len() == 1
            &&& if p.device_id@.len() > 0 {
                entry_str(m.entries@[0], "deviceId"@, p.device_id@)
            } else {
                entry_str(m.entries@[0], "mountPoint"@, p.mount_point@)
            }
        },
        _ => false,
    }
}

/// How many entries the `options` mapping of a rendered request holds.
pub open spec fn options_len(p: LoginParams) -> int {
    (if p.heartbeat_interval is Some {
        1int
    } else {
        0int
    }) + (if has_device_entry(p) {
        1int
    } else {
        0int
    })
}

/// The `options` section of a rendered request: an `idleWatchDogTimeOut` of
/// three times the heartbeat interval when one is set, then a `device`
/// mapping when a device identity or mount point is present — and nothing
/// else: absent data leaves no key behind.
pub open spec fn is_options_section(p: LoginParams, v: RpcValue) -> bool {
    match v {
        RpcValue::Mapping(m) => {
            &&& m.entries@.len() == options_len(p)
            &&& (p.heartbeat_interval matches Some(iv) ==> {
                &&& m.entries@[0].0@ == "idleWatchDogTimeOut"@
                &&& m.entries@[0].1 == RpcValue::UInt((3 * iv.secs) as u64)
            })
            &&& (has_device_entry(p) ==> {
                let di = if p.heartbeat_interval is Some {
                    1int
                } else {
                    0int
                };
                &&& m.entries@[di].0@ == "device"@
                &&& is_device_section(p, m.entries@[di].1)
            })
        },
        _ => false,
    }
}

/// The exact shape of a rendered login request for parameters `p`, with the
/// transmitted password text given separately: a mapping of `login` and
/// `options`, in that order.
pub open spec fn is_rendered_with(p: LoginParams, password: Seq<char>, v: RpcValue) -> bool {
    match v {
        RpcValue::Mapping(m) => {
            &&& m.entries@.len() == 2
            &&& m.entries@[0].0@ == "login"@
            &&& is_login_section(p, password, m.entries@[0].1)
            &&& m.entries@[1].0@ == "options"@
            &&& is_options_section(p, m.entries@[1].1)
        },
        _ => false,
    }
}

/// The exact shape of the rendered login request for parameters `p`, the
/// configured password transmitted as it stands.
pub open spec fn is_rendered(p: LoginParams, v: RpcValue) -> bool {
    is_rendered_with(p, p.password@, v)
}

impl LoginParams {
    /// Render the parameters into the mapping the `login` request carries.
    ///
    /// The projection is pure: equal parameters render to requests of equal
    /// shape, and absent data (no heartbeat, no device identity, no mount
    /// point) leaves no key behind.
    pub fn to_rpcvalue(&self) -> (r: RpcValue)
        requires
            heartbeat_fits(*self),
        ensures
            is_rendered(*self, r),
    {
        proof {
            lemma_render_keys_distinct();
        }
        let mut map = RpcMap::new();
        let mut login = RpcMap::new();
        login.insert("user", RpcValue::Str(self.user.clone()));
        login.insert("password", RpcValue::Str(self.password.clone()));
        login.insert("type", RpcValue::Str(self.login_type.to_str().to_owned()));
        map.insert("login", RpcValue::Mapping(login));
        let mut options = RpcMap::new();
        if let Some(hbi) = self.heartbeat_interval {
            options.insert("idleWatchDogTimeOut", RpcValue::UInt(hbi.secs * 3));
        }
        let mut device = RpcMap::new();
        if !self.device_id.as_str().is_empty() {
            device.insert("deviceId", RpcValue::Str(self.device_id.clone()));
        } else if !self.mount_point.as_str().is_empty() {
            device.insert("mountPoint", RpcValue::Str(self.mount_point.clone()));
        }
        if !device.is_empty() {
            options.insert("device", RpcValue::Mapping(device));
        }
        map.insert("options", RpcValue::Mapping(options));
        RpcValue::Mapping(map)
    }
}

/// The entries of the `options` mapping of a rendered request, for speaking
/// about its keys; empty if the value is not of a rendered shape.
pub open spec fn rendered_options(v: RpcValue) -> Seq<(String, RpcValue)> {
    match v {
        RpcValue::Mapping(m) => if m.entries@.len() == 2 {
            match m.entries@[1].1 {
                RpcValue::Mapping(o) => o.entries@,
                _ => Seq::empty(),
            }
        } else {
            Seq::empty()
        },
        _ => Seq::empty(),
    }
}

/// The entries of the `device` mapping inside the `options` of a rendered
/// request; empty if no such mapping is present.
pub open spec fn rendered_device(v: RpcValue) -> Seq<(String, RpcValue)> {
    match lookup(rendered_options(v), "device"@) {
        Some(RpcValue::Mapping(d)) => d.entries@,
        _ => Seq::empty(),
    }
}

/// Law: with `device_id` and `mount_point` both empty, the rendered
/// request's options mapping contains no `device` key.
pub proof fn lemma_rendered_no_device(p: LoginParams, v: RpcValue)
    requires
        is_rendered(p, v),
        p.device_id@.len() == 0,
        p.mount_point@.len() == 0,
    ensures
        lookup(rendered_options(v), "device"@) is None,
{
    lemma_render_keys_distinct();
    lemma_lookup_none(rendered_options(v), "device"@);
}

/// Law: with a non-empty `device_id`, the rendered `device` mapping binds
/// `deviceId` to it and never binds `mountPoint`, whatever the mount point
/// holds.
pub proof fn lemma_rendered_device_id_priority(p: LoginParams, v: RpcValue)
    requires
        is_rendered(p, v),
        p.device_id@.len() > 0,
    ensures
        lookup(rendered_device(v), "deviceId"@) matches Some(d) && d.str_view() == p.device_id@,
        lookup(rendered_device(v), "mountPoint"@) is None,
{
    lemma_render_keys_distinct();
    let opts = rendered_options(v);
    let di: int = if p.heartbeat_interval is Some {
        1int
    } else {
        0int
    };
    lemma_lookup_at(opts, "device"@, di);
    lemma_lookup_at(rendered_device(v), "deviceId"@, 0);
    lemma_lookup_none(rendered_device(v), "mountPoint"@);
}

/// Law: with an empty `device_id` and a non-empty `mount_point`, the
/// rendered `device` mapping binds `mountPoint` to it.
pub proof fn lemma_rendered_mount_point(p: LoginParams, v: RpcValue)
    requires
        is_rendered(p, v),
        p.device_id@.len() == 0,
        p.mount_point@.len() > 0,
    ensures
        lookup(rendered_device(v), "mountPoint"@) matches Some(d) && d.str_view()
            == p.mount_point@,
{
    lemma_render_keys_distinct();
    let opts = rendered_options(v);
    let di: int = if p.heartbeat_interval is Some {
        1int
    } else {
        0int
    };
    lemma_lookup_at(opts, "device"@, di);
    lemma_lookup_at(rendered_device(v), "mountPoint"@, 0);
}

/// Law: with a heartbeat interval set, the rendered options bind
/// `idleWatchDogTimeOut` to three times the interval in seconds; with none,
/// the key is absent.
pub proof fn lemma_rendered_watchdog(p: LoginParams, v: RpcValue)
    requires
        is_rendered(p, v),
        heartbeat_fits(p),
    ensures
        p.heartbeat_interval matches Some(iv) ==> lookup(
            rendered_options(v),
            "idleWatchDogTimeOut"@,
        ) == Some(RpcValue::UInt((3 * iv.secs) as u64)),
        p.heartbeat_interval is None ==> lookup(rendered_options(v), "idleWatchDogTimeOut"@)
            is None,
{
    lemma_render_keys_distinct();
    if p.heartbeat_interval is Some {
        lemma_lookup_at(rendered_options(v), "idleWatchDogTimeOut"@, 0);
    } else {
        lemma_lookup_none(rendered_options(v), "idleWatchDogTimeOut"@);
    }
}

} // verus!
