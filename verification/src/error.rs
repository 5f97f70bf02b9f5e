//! The closed set of failure kinds the transport reports.
//!
//! Every lower-level failure is mapped into this taxonomy; in particular
//! each variant of the WebSocket library's error type has a defined
//! mapping, so no reachable error path is left unhandled.

use vstd::prelude::*;
use vstd::string::StringExecFns;

use async_tungstenite::tungstenite::Error;

use crate::packet::ConnectionId;

verus! {

/// One diagnostic of the WebSocket backend, with its payload reduced to
/// plain values. Each variant mirrors one variant of
/// `async_tungstenite::tungstenite::Error`.
#[derive(Clone, Debug)]
pub enum WsError {
    /// The connection was closed normally.
    ConnectionClosed,
    /// An operation was attempted on an already closed connection.
    AlreadyClosed,
    /// An input/output error, with its description.
    Io(String),
    /// A TLS error, with its description.
    Tls(String),
    /// A buffer capacity or message size limit was exceeded.
    Capacity(String),
    /// A WebSocket protocol violation, with its description.
    Protocol(String),
    /// The message write buffer is full.
    WriteBufferFull,
    /// A UTF-8 coding error in a text frame.
    Utf8,
    /// An attack attempt was detected.
    AttackAttempt,
    /// An invalid URL, with its description.
    Url(String),
    /// The peer rejected the HTTP upgrade: response status and body.
    Http {
        /// The HTTP status code of the rejecting response.
        status: u16,
        /// The response body, where one was present.
        body: Option<Vec<u8>>,
    },
    /// An HTTP formatting error, with its description.
    HttpFormat(String),
}

/// Internal errors used by the transport and its connection manager.
#[derive(Clone, Debug)]
pub enum NetworkError {
    /// An error occurred when accepting a new connection.
    Accept(String),
    /// The connection could not be found.
    ConnectionNotFound(ConnectionId),
    /// A send across a per-connection channel failed because it was closed.
    ChannelClosed(ConnectionId),
    /// An error occurred when trying to listen for connections.
    Listen(String),
    /// An error occurred when trying to connect.
    Connection(String),
    /// Attempted to send data over a closed internal channel.
    SendError,
    /// A value could not be serialized or deserialized.
    Serialization,
    /// The peer rejected the HTTP upgrade: response status and body.
    Http {
        /// The HTTP status code of the rejecting response.
        status: u16,
        /// The response body, where one was present.
        body: Option<Vec<u8>>,
    },
    /// An error occurred in the I/O of an established connection.
    Io(String),
    /// A violation of the connection's protocol.
    Protocol(String),
}

/// The taxonomy kind each backend diagnostic maps to. Failures of the
/// established session map to `Io`, limit and coding violations to
/// `Protocol`, handshake-stage failures to `Connection`, and a rejected
/// HTTP upgrade keeps its status and body.
pub open spec fn ws_maps_to(e: WsError, r: NetworkError) -> bool {
    match e {
        WsError::ConnectionClosed => r matches NetworkError::Io(m)
            && m@ == "Connection closed normally"@,
        WsError::AlreadyClosed => r matches NetworkError::Io(m)
            && m@ == "Trying to work with closed connection"@,
        WsError::Io(d) => r matches NetworkError::Io(m) && m == d,
        WsError::Tls(d) => r matches NetworkError::Connection(m) && m == d,
        WsError::Capacity(d) => r matches NetworkError::Protocol(m) && m == d,
        WsError::Protocol(d) => r matches NetworkError::Protocol(m) && m == d,
        WsError::WriteBufferFull => r matches NetworkError::Io(m)
            && m@ == "Write buffer is full"@,
        WsError::Utf8 => r matches NetworkError::Protocol(m) && m@ == "UTF-8 encoding error"@,
        WsError::AttackAttempt => r matches NetworkError::Protocol(m)
            && m@ == "Attack attempt detected"@,
        WsError::Url(d) => r matches NetworkError::Connection(m) && m == d,
        WsError::Http { status, body } => r == (NetworkError::Http { status, body }),
        WsError::HttpFormat(d) => r matches NetworkError::Connection(m) && m == d,
    }
}

impl NetworkError {
    /// Maps one backend diagnostic into the taxonomy, exactly as
    /// [`ws_maps_to`] says.
    pub fn from_ws(e: WsError) -> (r: NetworkError)
        ensures
            ws_maps_to(e, r),
    {
        match e {
            WsError::ConnectionClosed => NetworkError::Io(
                "Connection closed normally".to_owned(),
            ),
            WsError::AlreadyClosed => NetworkError::Io(
                "Trying to work with closed connection".to_owned(),
            ),
            WsError::Io(m) => NetworkError::Io(m),
            WsError::Tls(m) => NetworkError::Connection(m),
            WsError::Capacity(m) => NetworkError::Protocol(m),
            WsError::Protocol(m) => NetworkError::Protocol(m),
            WsError::WriteBufferFull => NetworkError::Io("Write buffer is full".to_owned()),
            WsError::Utf8 => NetworkError::Protocol("UTF-8 encoding error".to_owned()),
            WsError::AttackAttempt => NetworkError::Protocol(
                "Attack attempt detected".to_owned(),
            ),
            WsError::Url(m) => NetworkError::Connection(m),
            WsError::Http { status, body } => NetworkError::Http { status, body },
            WsError::HttpFormat(m) => NetworkError::Connection(m),
        }
    }

    /// Maps a WebSocket library error into the taxonomy: the value is
    /// reduced to a [`WsError`] and mapped by [`NetworkError::from_ws`].
    pub fn from_handshake_error(e: Error) -> (r: NetworkError)
        ensures
            exists|k: WsError| ws_maps_to(k, r),
    {
        let kind = ws_error_model(e);
        let r = NetworkError::from_ws(kind);
        proof {
            assert(ws_maps_to(kind, r));
        }
        r
    }

    /// A human-readable description of the failure. Every variant names
    /// its kind and carries its context along: the stored diagnostic
    /// text, the connection id in decimal, or the HTTP status in
    /// decimal. The description is never empty.
    pub fn message(&self) -> (r: String)
        ensures
            r@ == self.spec_message(),
            r@.len() > 0,
    {
        proof {
            reveal_strlit("An error occurred when accepting a new connection: ");
            reveal_strlit("Could not find connection with id: ");
            reveal_strlit("Connection closed with id: ");
            reveal_strlit("An error occurred when trying to start listening for new connections: ");
            reveal_strlit("An error occurred when trying to connect: ");
            reveal_strlit("Attempted to send data over closed channel");
            reveal_strlit("Failed to serialize");
            reveal_strlit("The WebSocket upgrade was rejected with an HTTP response, status: ");
            reveal_strlit("An error occurred in the connection I/O: ");
            reveal_strlit("Protocol Error: ");
        }
        match self {
            NetworkError::Accept(m) => {
                "An error occurred when accepting a new connection: ".to_owned().concat(
                    m.as_str(),
                )
            },
            NetworkError::ConnectionNotFound(id) => {
                "Could not find connection with id: ".to_owned().concat(
                    decimal_string(id.id).as_str(),
                )
            },
            NetworkError::ChannelClosed(id) => {
                "Connection closed with id: ".to_owned().concat(decimal_string(id.id).as_str())
            },
            NetworkError::Listen(m) => {
                "An error occurred when trying to start listening for new connections: "
                    .to_owned()
                    .concat(m.as_str())
            },
            NetworkError::Connection(m) => {
                "An error occurred when trying to connect: ".to_owned().concat(m.as_str())
            },
            NetworkError::SendError => "Attempted to send data over closed channel".to_owned(),
            NetworkError::Serialization => "Failed to serialize".to_owned(),
            NetworkError::Http { status, body: _ } => {
                "The WebSocket upgrade was rejected with an HTTP response, status: "
                    .to_owned()
                    .concat(decimal_string(*status as u64).as_str())
            },
            NetworkError::Io(m) => {
                "An error occurred in the connection I/O: ".to_owned().concat(m.as_str())
            },
            NetworkError::Protocol(m) => "Protocol Error: ".to_owned().concat(m.as_str()),
        }
    }

    /// The characters [`NetworkError::message`] returns for each variant.
    pub open spec fn spec_message(&self) -> Seq<char> {
        match self {
            NetworkError::Accept(m) => "An error occurred when accepting a new connection: "@
                + m@,
            NetworkError::ConnectionNotFound(id) => "Could not find connection with id: "@
                + spec_decimal(id.id as nat),
            NetworkError::ChannelClosed(id) => "Connection closed with id: "@ + spec_decimal(
                id.id as nat,
            ),
            NetworkError::Listen(m) => {
                "An error occurred when trying to start listening for new connections: "@ + m@
            },
            NetworkError::Connection(m) => "An error occurred when trying to connect: "@ + m@,
            NetworkError::SendError => "Attempted to send data over closed channel"@,
            NetworkError::Serialization => "Failed to serialize"@,
            NetworkError::Http { status, .. } => {
                "The WebSocket upgrade was rejected with an HTTP response, status: "@
                    + spec_decimal(*status as nat)
            },
            NetworkError::Io(m) => "An error occurred in the connection I/O: "@ + m@,
            NetworkError::Protocol(m) => "Protocol Error: "@ + m@,
        }
    }
}

/// The character for one decimal digit.
pub open spec fn spec_digit(d: nat) -> char {
    if d == 0 {
        '0'
    } else if d == 1 {
        '1'
    } else if d == 2 {
        '2'
    } else if d == 3 {
        '3'
    } else if d == 4 {
        '4'
    } else if d == 5 {
        '5'
    } else if d == 6 {
        '6'
    } else if d == 7 {
        '7'
    } else if d == 8 {
        '8'
    } else {
        '9'
    }
}

/// The decimal rendering of a number: its digits, most significant
/// first, with no leading zero except for the number zero itself.
pub open spec fn spec_decimal(n: nat) -> Seq<char>
    decreases n,
{
    if n < 10 {
        seq![spec_digit(n)]
    } else {
        spec_decimal(n / 10).push(spec_digit(n % 10))
    }
}

/// One decimal digit as a string slice.
fn digit_str(d: u64) -> (r: &'static str)
    requires
        d < 10,
    ensures
        r@ == seq![spec_digit(d as nat)],
{
    proof {
        reveal_strlit("0");
        reveal_strlit("1");
        reveal_strlit("2");
        reveal_strlit("3");
        reveal_strlit("4");
        reveal_strlit("5");
        reveal_strlit("6");
        reveal_strlit("7");
        reveal_strlit("8");
        reveal_strlit("9");
    }
    let r = match d {
        0 => "0",
        1 => "1",
        2 => "2",
        3 => "3",
        4 => "4",
        5 => "5",
        6 => "6",
        7 => "7",
        8 => "8",
        _ => "9",
    };
    proof {
        assert(r@ =~= seq![spec_digit(d as nat)]);
    }
    r
}

/// Renders a number in decimal, exactly as [`spec_decimal`] says.
fn decimal_string(n: u64) -> (r: String)
    ensures
        r@ == spec_decimal(n as nat),
    decreases n,
{
    if n < 10 {
        digit_str(n).to_owned()
    } else {
        let prefix = decimal_string(n / 10);
        let r = prefix.concat(digit_str(n % 10));
        proof {
            assert(r@ =~= spec_decimal(n as nat));
        }
        r
    }
}

#[verifier::external_type_specification]
#[verifier::external_body]
pub struct ExTungsteniteError(Error);

/// Relies on `async_tungstenite::tungstenite::Error`: one arm for each of
/// its variants, moving the diagnostic payload into plain values.
#[verifier::external_body]
fn ws_error_model(e: Error) -> WsError {
    match e {
        Error::ConnectionClosed => WsError::ConnectionClosed,
        Error::AlreadyClosed => WsError::AlreadyClosed,
        Error::Io(err) => WsError::Io(err.to_string()),
        Error::Tls(err) => WsError::Tls(err.to_string()),
        Error::Capacity(err) => WsError::Capacity(err.to_string()),
        Error::Protocol(err) => WsError::Protocol(err.to_string()),
        Error::WriteBufferFull(_) => WsError::WriteBufferFull,
        Error::Utf8 => WsError::Utf8,
        Error::AttackAttempt => WsError::AttackAttempt,
        Error::Url(err) => WsError::Url(err.to_string()),
        Error::Http(resp) => WsError::Http { status: resp.status().as_u16(), body: resp.into_body() },
        Error::HttpFormat(err) => WsError::HttpFormat(err.to_string()),
    }
}

} // verus!
