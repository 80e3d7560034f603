//! Opening a connection: the login URL and the version handshake.

use vstd::prelude::*;
use crate::wire::{
    append_query_pair, decode_version, handshake_version, query_appended, Frame,
};

verus! {

/// Why a connection could not be opened.
pub enum ConnectError {
    /// The transport connect failed.
    Connect(String),
    /// The connect, or the first frame, did not come within the deadline.
    Timeout,
    /// Reading the first frame failed.
    Transport(String),
    /// The first frame was not a text frame.
    NonTextHandshake,
    /// The first frame's text is not a version descriptor.
    BadHandshake(String),
    /// The server speaks another major version of the protocol.
    VersionMismatch { server_major: u16, server_minor: u16, client_major: u16, client_minor: u16 },
}

/// How the transport connect and the wait for the first frame came out.
pub enum Opening {
    /// The transport connect failed.
    ConnectFailed(String),
    /// The connect, or the first frame, did not come within the deadline.
    TimedOut,
    /// The socket is open, but reading its first frame failed.
    ReadFailed(String),
    /// The socket is open and this is its first frame.
    FirstFrame(Frame),
}

/// Whether a server at version `(major, _)` is accepted by a client at
/// `(client_major, _)`: the major versions must be equal, minors may differ.
pub open spec fn version_accepted(server_major: u16, client_major: u16) -> bool {
    server_major == client_major
}

/// The outcome of opening, for a client at version `client`.
pub open spec fn handshake_ok(opening: Opening, client: (u16, u16)) -> bool {
    match opening {
        Opening::FirstFrame(Frame::Text(t)) => match handshake_version(t@) {
            Some(v) => version_accepted(v.0, client.0),
            None => false,
        },
        _ => false,
    }
}

/// The error that opening yields, when it is not accepted.
pub open spec fn handshake_error_is(opening: Opening, client: (u16, u16), e: ConnectError) -> bool {
    match opening {
        Opening::ConnectFailed(m) => e == ConnectError::Connect(m),
        Opening::TimedOut => e == ConnectError::Timeout,
        Opening::ReadFailed(m) => e == ConnectError::Transport(m),
        Opening::FirstFrame(Frame::Text(t)) => match handshake_version(t@) {
            Some(v) => e == (ConnectError::VersionMismatch {
                server_major: v.0,
                server_minor: v.1,
                client_major: client.0,
                client_minor: client.1,
            }),
            None => e is BadHandshake,
        },
        Opening::FirstFrame(_) => e == ConnectError::NonTextHandshake,
    }
}

/// Compares a server's version with the client's: accepted when the major
/// versions agree, whatever the minors are.
pub fn check_version(server_major: u16, server_minor: u16, client_major: u16, client_minor: u16)
    -> (r: Result<(), ConnectError>)
    ensures
        r is Ok <==> version_accepted(server_major, client_major),
        r is Err ==> r == Err::<(), ConnectError>(
            ConnectError::VersionMismatch { server_major, server_minor, client_major, client_minor },
        ),
{
    if server_major == client_major {
        Ok(())
    } else {
        Err(ConnectError::VersionMismatch { server_major, server_minor, client_major, client_minor })
    }
}

/// Decides the handshake: the first frame must be a text frame holding a
/// version whose major equals the client's.
pub fn check_handshake(opening: Opening, client_major: u16, client_minor: u16) -> (r: Result<
    (),
    ConnectError,
>)
    ensures
        r is Ok <==> handshake_ok(opening, (client_major, client_minor)),
        match r {
            Err(e) => handshake_error_is(opening, (client_major, client_minor), e),
            Ok(_) => true,
        },
{
    match opening {
        Opening::ConnectFailed(m) => Err(ConnectError::Connect(m)),
        Opening::TimedOut => Err(ConnectError::Timeout),
        Opening::ReadFailed(m) => Err(ConnectError::Transport(m)),
        Opening::FirstFrame(Frame::Text(t)) => match decode_version(t.as_str()) {
            Ok(v) => check_version(v.0, v.1, client_major, client_minor),
            Err(m) => Err(ConnectError::BadHandshake(m)),
        },
        Opening::FirstFrame(_) => Err(ConnectError::NonTextHandshake),
    }
}

/// The URL to connect to: `srv` with the credential appended as the query
/// pair `password=pass`; `None` where `srv` is not a URL.
pub fn login_url(srv: &str, pass: &str) -> (r: Option<String>)
    ensures
        match r {
            Some(u) => query_appended(srv@, "password"@, pass@) == Some(u@),
            None => query_appended(srv@, "password"@, pass@) is None,
        },
{
    append_query_pair(srv, "password", pass)
}

} // verus!
