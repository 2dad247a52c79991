//! Client-side login handshake for an RPC broker, with the configuration
//! bootstrap that supplies its inputs.
//!
//! The handshake is a two-round challenge-response protocol: the client sends
//! a `hello` request, receives a server nonce, derives a SHA-1 salted
//! credential hash, sends a `login` request carrying the rendered login
//! parameters, and receives a numeric client identifier. The decision logic
//! is pure and verified here; transport and file-system work stay with the
//! caller.

pub mod config;
pub mod handshake;
pub mod hash;
pub mod params;
pub mod value;

pub use config::{BootstrapPlan, ClientConfig};
pub use params::{Interval, LoginParams, LoginType, Scheme};
pub use handshake::{HandshakeEvent, HandshakeState, LoginError, Response, RpcRequest};
pub use value::{RpcMap, RpcValue};
