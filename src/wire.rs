//! Frames on the socket, the commands and events they carry, and the
//! codec calls that turn one into the other.

use vstd::prelude::*;
use synapse_rpc::message::{CMessage, SMessage, Version};

verus! {

/// The status and reason of a close frame.
pub struct CloseData {
    pub status_code: u16,
    pub reason: String,
}

/// One message on the socket.
pub enum Frame {
    Text(String),
    Binary(Vec<u8>),
    Ping(Vec<u8>),
    Pong(Vec<u8>),
    Close(Option<CloseData>),
}

/// The commands this engine frames itself.
#[derive(Clone, Copy, PartialEq, Eq, Debug, Structural)]
pub enum CommandKind {
    GetResources,
    Subscribe,
    Unsubscribe,
}

/// A client command that carries a serial and a list of resource ids.
pub struct Command {
    pub kind: CommandKind,
    pub serial: u64,
    pub ids: Vec<String>,
}

/// A list of strings seen as a list of character sequences.
pub open spec fn texts(v: Seq<String>) -> Seq<Seq<char>> {
    v.map_values(|s: String| s@)
}

/// What a server event means to the receive loop.
pub enum ServerEvent {
    Extant(Seq<Seq<char>>),
    Removed(Seq<Seq<char>>),
    Other,
}

/// A decoded server event, with the ids of the two kinds the loop acts on.
pub enum Inbound {
    Extant(Vec<String>),
    Removed(Vec<String>),
    Other,
}

impl View for Inbound {
    type V = ServerEvent;

    open spec fn view(&self) -> ServerEvent {
        match self {
            Inbound::Extant(ids) => ServerEvent::Extant(texts(ids@)),
            Inbound::Removed(ids) => ServerEvent::Removed(texts(ids@)),
            Inbound::Other => ServerEvent::Other,
        }
    }
}

/// The `{major, minor}` version that a handshake text decodes to, if any.
pub uninterp spec fn handshake_version(text: Seq<char>) -> Option<(u16, u16)>;

/// The server event that a text frame decodes to, if any.
pub uninterp spec fn server_event(text: Seq<char>) -> Option<ServerEvent>;

/// The JSON text of a command, if it encodes.
pub uninterp spec fn command_json(kind: CommandKind, serial: u64, ids: Seq<Seq<char>>) -> Option<
    Seq<char>,
>;

/// The URL `url` with the query pair `key=value` appended, if `url` parses.
pub uninterp spec fn query_appended(url: Seq<char>, key: Seq<char>, value: Seq<char>) -> Option<
    Seq<char>,
>;

/// The protocol version this client was built against.
pub open spec fn compiled_version() -> (u16, u16) {
    (0u16, 1u16)
}

/// Relies on synapse_rpc::MAJOR_VERSION and MINOR_VERSION, the protocol
/// version of the schema crate (0.1).
#[verifier::external_body]
pub(crate) fn client_version() -> (r: (u16, u16))
    ensures
        r == compiled_version(),
{
    (synapse_rpc::MAJOR_VERSION, synapse_rpc::MINOR_VERSION)
}

/// Relies on serde_json::from_str for synapse_rpc's `Version`: the result
/// depends on the text alone.
#[verifier::external_body]
pub(crate) fn decode_version(text: &str) -> (r: Result<(u16, u16), String>)
    ensures
        match r {
            Ok(v) => handshake_version(text@) == Some(v),
            Err(_) => handshake_version(text@) is None,
        },
{
    match serde_json::from_str::<Version>(text) {
        Ok(v) => Ok((v.major, v.minor)),
        Err(e) => Err(e.to_string()),
    }
}

/// Relies on serde_json::from_str for synapse_rpc's `SMessage`: the result
/// depends on the text alone; the ids of the two resource events are kept.
#[verifier::external_body]
pub(crate) fn decode_event(text: &str) -> (r: Result<Inbound, String>)
    ensures
        match r {
            Ok(ev) => server_event(text@) == Some(ev@),
            Err(_) => server_event(text@) is None,
        },
{
    match serde_json::from_str::<SMessage>(text) {
        Ok(SMessage::ResourcesExtant { ids, .. }) => {
            Ok(Inbound::Extant(ids.into_iter().map(|id| id.into_owned()).collect()))
        },
        Ok(SMessage::ResourcesRemoved { ids, .. }) => Ok(Inbound::Removed(ids)),
        Ok(_) => Ok(Inbound::Other),
        Err(e) => Err(e.to_string()),
    }
}

/// Relies on serde_json::to_string for synapse_rpc's `CMessage`: the result
/// depends on the command alone.
#[verifier::external_body]
pub(crate) fn encode_command(c: &Command) -> (r: Result<String, String>)
    ensures
        match r {
            Ok(t) => command_json(c.kind, c.serial, texts(c.ids@)) == Some(t@),
            Err(_) => command_json(c.kind, c.serial, texts(c.ids@)) is None,
        },
{
    let (serial, ids) = (c.serial, c.ids.clone());
    let m = match c.kind {
        CommandKind::GetResources => CMessage::GetResources { serial, ids },
        CommandKind::Subscribe => CMessage::Subscribe { serial, ids },
        CommandKind::Unsubscribe => CMessage::Unsubscribe { serial, ids },
    };
    serde_json::to_string(&m).map_err(|e| e.to_string())
}

/// Relies on url::Url::parse, then `query_pairs_mut().append_pair`: the
/// result depends on the three strings alone.
#[verifier::external_body]
pub(crate) fn append_query_pair(url: &str, key: &str, value: &str) -> (r: Option<String>)
    ensures
        match r {
            Some(u) => query_appended(url@, key@, value@) == Some(u@),
            None => query_appended(url@, key@, value@) is None,
        },
{
    let mut u = url::Url::parse(url).ok()?;
    u.query_pairs_mut().append_pair(key, value);
    Some(u.into())
}

} // verus!
