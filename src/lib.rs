//! Connection engine of a client for a resource-management daemon: the
//! handshake, the framing of commands and the receive state machine.

pub mod context;
pub mod handshake;
pub mod wire;

pub use context::{Action, Event, Phase, RpcContext};
pub use handshake::{check_handshake, check_version, login_url, ConnectError, Opening};
pub use wire::{CloseData, Command, CommandKind, Frame, Inbound, ServerEvent};
