//! The two WebSocket message representations of the bridge, one per
//! transport, and the explicit translation between them.
use vstd::prelude::*;

verus! {

/// A close frame as the client-side transport carries it.
#[derive(Clone, Debug, PartialEq, Eq)]
pub struct ClientClose {
    pub code: u16,
    pub reason: String,
}

/// A close frame as the upstream-side transport carries it.
#[derive(Clone, Debug, PartialEq, Eq)]
pub struct UpstreamClose {
    pub code: u16,
    pub reason: String,
}

/// A message on the client-side connection.
#[derive(Clone, Debug, PartialEq, Eq)]
pub enum ClientMessage {
    Text(String),
    Binary(Vec<u8>),
    Ping(Vec<u8>),
    Pong(Vec<u8>),
    Close(Option<ClientClose>),
}

/// A message on the upstream-side connection. `Frame` is a raw frame, which
/// has no counterpart on the client side.
#[derive(Clone, Debug, PartialEq, Eq)]
pub enum UpstreamMessage {
    Text(String),
    Binary(Vec<u8>),
    Ping(Vec<u8>),
    Pong(Vec<u8>),
    Close(Option<UpstreamClose>),
    Frame(Vec<u8>),
}

/// Why a message could not be translated.
#[derive(Clone, Copy, Debug, PartialEq, Eq, Structural)]
pub enum TranslateError {
    /// A raw frame reached the translator.
    UnsupportedFrame,
}

/// The upstream-side form of a client message: same variant, same payload.
pub open spec fn upstream_of(m: ClientMessage) -> UpstreamMessage {
    match m {
        ClientMessage::Text(t) => UpstreamMessage::Text(t),
        ClientMessage::Binary(b) => UpstreamMessage::Binary(b),
        ClientMessage::Ping(b) => UpstreamMessage::Ping(b),
        ClientMessage::Pong(b) => UpstreamMessage::Pong(b),
        ClientMessage::Close(Some(c)) => UpstreamMessage::Close(
            Some(UpstreamClose { code: c.code, reason: c.reason }),
        ),
        ClientMessage::Close(None) => UpstreamMessage::Close(None),
    }
}

/// The client-side form of an upstream message; none for a raw frame.
pub open spec fn client_of(m: UpstreamMessage) -> Option<ClientMessage> {
    match m {
        UpstreamMessage::Text(t) => Some(ClientMessage::Text(t)),
        UpstreamMessage::Binary(b) => Some(ClientMessage::Binary(b)),
        UpstreamMessage::Ping(b) => Some(ClientMessage::Ping(b)),
        UpstreamMessage::Pong(b) => Some(ClientMessage::Pong(b)),
        UpstreamMessage::Close(Some(c)) => Some(
            ClientMessage::Close(Some(ClientClose { code: c.code, reason: c.reason })),
        ),
        UpstreamMessage::Close(None) => Some(ClientMessage::Close(None)),
        UpstreamMessage::Frame(_) => None,
    }
}

/// Translates a client message for the upstream connection.
pub fn to_upstream(m: ClientMessage) -> (r: UpstreamMessage)
    ensures
        r == upstream_of(m),
{
    match m {
        ClientMessage::Text(t) => UpstreamMessage::Text(t),
        ClientMessage::Binary(b) => UpstreamMessage::Binary(b),
        ClientMessage::Ping(b) => UpstreamMessage::Ping(b),
        ClientMessage::Pong(b) => UpstreamMessage::Pong(b),
        ClientMessage::Close(Some(c)) => UpstreamMessage::Close(
            Some(UpstreamClose { code: c.code, reason: c.reason }),
        ),
        ClientMessage::Close(None) => UpstreamMessage::Close(None),
    }
}

/// Translates an upstream message for the client connection. A raw frame is
/// reported as an error, never dropped or passed on as another variant.
pub fn to_client(m: UpstreamMessage) -> (r: Result<ClientMessage, TranslateError>)
    ensures
        match client_of(m) {
            Some(c) => r == Ok::<ClientMessage, TranslateError>(c),
            None => r == Err::<ClientMessage, TranslateError>(TranslateError::UnsupportedFrame),
        },
{
    match m {
        UpstreamMessage::Text(t) => Ok(ClientMessage::Text(t)),
        UpstreamMessage::Binary(b) => Ok(ClientMessage::Binary(b)),
        UpstreamMessage::Ping(b) => Ok(ClientMessage::Ping(b)),
        UpstreamMessage::Pong(b) => Ok(ClientMessage::Pong(b)),
        UpstreamMessage::Close(Some(c)) => Ok(
            ClientMessage::Close(Some(ClientClose { code: c.code, reason: c.reason })),
        ),
        UpstreamMessage::Close(None) => Ok(ClientMessage::Close(None)),
        UpstreamMessage::Frame(_) => Err(TranslateError::UnsupportedFrame),
    }
}

/// Translating a client message to the upstream side and back gives the
/// message itself: every variant, close code and reason round-trip exactly.
pub proof fn lemma_client_round_trip(m: ClientMessage)
    ensures
        client_of(upstream_of(m)) == Some(m),
{
}

/// Translating an upstream message other than a raw frame to the client side
/// and back gives the message itself; a raw frame translates to nothing.
pub proof fn lemma_upstream_round_trip(m: UpstreamMessage)
    ensures
        m is Frame <==> client_of(m) is None,
        client_of(m) matches Some(c) ==> upstream_of(c) == m,
{
}

} // verus!
