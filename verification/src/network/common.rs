//! What the server and the client know of the bus: its endpoint, the kind
//! of socket, and the envelope of a message.

use crate::error::{InternalError, Result};
use crate::text::{signed_decimal, signed_decimal_text};
use vstd::prelude::*;

verus! {

/// The socket kind of the server: a dealer that answers.
pub const REP_DEALER: &'static str = "REP_DEALER";

/// The socket kind of a client: a dealer that asks.
pub const REQ_DEALER: &'static str = "REQ_DEALER";

/// The transport of the bus, unless another is asked for.
pub const DEFAULT_TRANSPORT: &'static str = "tcp";

/// The host that the server binds to, unless another is asked for.
pub const DEFAULT_SERVER_HOST: &'static str = "*";

/// The host that a client connects to, unless another is asked for.
pub const DEFAULT_CLIENT_HOST: &'static str = "localhost";

/// The port of the bus, unless another is asked for.
pub const DEFAULT_PORT: i16 = 5555;

/// What is known of one end of the bus before its socket is opened.
#[derive(Debug)]
pub struct NetworkContext {
    /// Where the bus is reached.
    pub endpoint: String,
    /// The kind of the socket.
    pub socket_type_name: String,
}

/// The endpoint `protocol://hostname:port` as text.
pub open spec fn endpoint_text(protocol: Seq<char>, hostname: Seq<char>, port: int) -> Seq<char> {
    protocol + "://"@ + hostname + ":"@ + signed_decimal_text(port)
}

/// Whether the bus layer knows a kind of socket.
pub open spec fn socket_supported(socket_type_name: Seq<char>) -> bool {
    socket_type_name == REP_DEALER@ || socket_type_name == REQ_DEALER@
}

impl NetworkContext {
    /// The endpoint `protocol://hostname:port`.
    pub fn get_endpoint(protocol: &str, hostname: &str, port: i16) -> (endpoint: String)
        ensures
            endpoint@ == endpoint_text(protocol@, hostname@, port as int),
    {
        String::from_str(protocol).concat("://").concat(hostname).concat(":").concat(
            signed_decimal(port as i32).as_str(),
        )
    }

    /// One end of the bus at `endpoint`, with a socket of the given kind.
    /// A kind that the bus layer does not know is refused.
    pub fn new(endpoint: String, socket_type_name: &str) -> (context: Result<NetworkContext>)
        ensures
            socket_supported(socket_type_name@) ==> {
                &&& context is Ok
                &&& context->Ok_0.endpoint == endpoint
                &&& context->Ok_0.socket_type_name@ == socket_type_name@
            },
            !socket_supported(socket_type_name@) ==> {
                &&& context matches Err(InternalError::UnsupportedSocket(kind))
                &&& kind@ == socket_type_name@
            },
    {
        let kind = String::from_str(socket_type_name);
        if kind == String::from_str(REP_DEALER) || kind == String::from_str(REQ_DEALER) {
            Ok(NetworkContext { endpoint, socket_type_name: kind })
        } else {
            Err(InternalError::UnsupportedSocket(kind))
        }
    }
}

/// A message on the bus: the identity of the client that it comes from or
/// goes to, and its body.
#[derive(Debug)]
pub struct Envelope {
    /// The identity of the client.
    pub identity: Vec<u8>,
    /// The body of the message.
    pub payload: Vec<u8>,
}

/// The three frames of a message: the identity, an empty delimiter, and
/// the body.
pub open spec fn envelope_frames(identity: Seq<u8>, payload: Seq<u8>) -> Seq<Seq<u8>> {
    seq![identity, Seq::<u8>::empty(), payload]
}

/// The frames as sequences of bytes.
pub open spec fn frames_view(frames: Seq<Vec<u8>>) -> Seq<Seq<u8>> {
    frames.map_values(|frame: Vec<u8>| frame@)
}

impl Envelope {
    /// The frames of the message, in the order in which they are sent.
    pub fn into_frames(self) -> (frames: Vec<Vec<u8>>)
        ensures
            frames_view(frames@) == envelope_frames(self.identity@, self.payload@),
    {
        let mut frames: Vec<Vec<u8>> = Vec::new();
        frames.push(self.identity);
        frames.push(Vec::new());
        frames.push(self.payload);
        proof {
            assert(frames_view(frames@) =~= envelope_frames(self.identity@, self.payload@));
        }
        frames
    }

    /// The message that three frames hold. The delimiter is not looked
    /// at, as little as the server looks at it.
    pub fn from_frames(identity: Vec<u8>, _delimiter: Vec<u8>, payload: Vec<u8>) -> (envelope:
        Envelope)
        ensures
            envelope.identity == identity,
            envelope.payload == payload,
    {
        Envelope { identity, payload }
    }

    /// The answer to this message with the given body: it goes to the
    /// client that this message has come from.
    pub fn reply(&self, payload: Vec<u8>) -> (envelope: Envelope)
        ensures
            envelope.identity@ == self.identity@,
            envelope.payload == payload,
    {
        let mut identity: Vec<u8> = Vec::new();
        let mut i: usize = 0;
        while i < self.identity.len()
            invariant
                i <= self.identity.len(),
                identity@ == self.identity@.take(i as int),
            decreases self.identity.len() - i,
        {
            identity.push(self.identity[i]);
            proof {
                assert(self.identity@.take(i + 1) == self.identity@.take(i as int).push(
                    self.identity@[i as int],
                ));
            }
            i = i + 1;
        }
        proof {
            assert(self.identity@.take(i as int) == self.identity@);
        }
        Envelope { identity, payload }
    }
}

} // verus!
