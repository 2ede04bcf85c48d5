//! Wire codec of the one-shot greeting protocol.
//!
//! A single protocol identifier is negotiated during stream upgrade; then
//! exactly one frame crosses the stream: a varint length prefix followed by a
//! UTF-8 payload of at most `MAX_MESSAGE_SIZE` bytes. The inbound side
//! decodes one frame to a message; the outbound side encodes one message to
//! a frame. Both directions are pinned to `spec_decode_frame` and
//! `frame_encoding`, and `lemma_frame_round_trip` proves that the two agree.

use vstd::prelude::*;
use vstd::string::StrSliceExecFns;
use vstd::utf8::decode_utf8;
use vstd::utf8::encode_utf8;
use vstd::utf8::encode_utf8_decode_utf8;
use vstd::utf8::encode_utf8_valid_utf8;
use vstd::utf8::valid_utf8;

use crate::varint::lemma_parse_of_encoding;
use crate::varint::parse_varint;
use crate::varint::read_varint;
use crate::varint::varint_encoding;
use crate::varint::write_varint;

verus! {

/// Upper bound, in bytes, of the payload of one frame on the wire.
pub const MAX_MESSAGE_SIZE: usize = 10240;

/// What can go wrong in one one-shot exchange. Local to one connection's
/// exchange: never fatal to the node or to other connections.
#[derive(Clone, Copy, Debug, PartialEq, Eq, Structural)]
pub enum SimpleProtocolError {
    /// The underlying stream failed, ended early, or carried no well-formed
    /// frame.
    TransportReadError,
    /// The frame's payload exceeds `MAX_MESSAGE_SIZE`.
    FrameTooLarge,
    /// The payload bytes are not valid UTF-8.
    DecodeError,
    /// The underlying stream refused the outbound frame.
    WriteError,
}

/// The protocol identifier negotiated during the upgrade handshake.
pub open spec fn spec_protocol_id() -> Seq<char> {
    "/golem/1.0.0"@
}

/// Inbound side of the greeting protocol: reads one frame per upgrade.
#[derive(Clone, Debug)]
pub struct SimpleProtocolConfig {}

impl SimpleProtocolConfig {
    pub fn new() -> (r: SimpleProtocolConfig) {
        SimpleProtocolConfig {}
    }

    /// The identifier offered during protocol negotiation.
    pub fn protocol_info(&self) -> (r: &'static str)
        ensures
            r@ == spec_protocol_id(),
    {
        "/golem/1.0.0"
    }

    /// Decodes the one frame received on an upgraded inbound stream.
    ///
    /// `frame` is everything the stream carried. The result is exactly
    /// `spec_decode_frame(frame@)`: the message when one well-formed frame
    /// within bounds arrived, the matching error otherwise.
    pub fn upgrade_inbound(&self, frame: &[u8]) -> (r: Result<String, SimpleProtocolError>)
        ensures
            r is Ok <==> spec_decode_frame(frame@) is Ok,
            r is Ok ==> r->Ok_0@ == spec_decode_frame(frame@)->Ok_0,
            r is Err ==> r->Err_0 == spec_decode_frame(frame@)->Err_0,
    {
        decode_frame(frame)
    }
}

/// Outbound side of the greeting protocol: one message, sent as one frame.
#[derive(Debug)]
pub struct SimpleProtocolMessage(String);

impl Clone for SimpleProtocolMessage {
    fn clone(&self) -> (r: Self)
        ensures
            r@ == self@,
    {
        SimpleProtocolMessage(self.0.clone())
    }
}

impl View for SimpleProtocolMessage {
    type V = Seq<char>;

    closed spec fn view(&self) -> Seq<char> {
        self.0@
    }
}

impl SimpleProtocolMessage {
    pub fn new(str: String) -> (r: Self)
        ensures
            r@ == str@,
    {
        SimpleProtocolMessage(str)
    }

    /// The message text.
    pub fn text(&self) -> (r: &String)
        ensures
            r@ == self@,
    {
        &self.0
    }

    /// The identifier offered during protocol negotiation.
    pub fn protocol_info(&self) -> (r: &'static str)
        ensures
            r@ == spec_protocol_id(),
    {
        "/golem/1.0.0"
    }

    /// Encodes the message into the one frame written to an upgraded
    /// outbound stream: its UTF-8 bytes behind a varint length prefix.
    ///
    /// A message at or above `MAX_MESSAGE_SIZE` bytes is refused with
    /// `FrameTooLarge` rather than truncated.
    pub fn upgrade_outbound(&self) -> (r: Result<Vec<u8>, SimpleProtocolError>)
        ensures
            encode_utf8(self@).len() < MAX_MESSAGE_SIZE ==> r is Ok && r->Ok_0@ == frame_encoding(
                encode_utf8(self@),
            ),
            encode_utf8(self@).len() >= MAX_MESSAGE_SIZE ==> r is Err && r->Err_0
                == SimpleProtocolError::FrameTooLarge,
    {
        let mut payload: Vec<u8> = self.0.as_str().as_bytes_vec();
        if payload.len() >= MAX_MESSAGE_SIZE {
            return Err(SimpleProtocolError::FrameTooLarge);
        }
        let mut out: Vec<u8> = Vec::new();
        write_varint(payload.len() as u64, &mut out);
        out.append(&mut payload);
        Ok(out)
    }
}

/// Outcome of one one-shot exchange, as surfaced to the owning behaviour.
#[derive(Clone, Debug)]
pub enum SimpleProtocolEvent {
    /// An inbound exchange delivered this message.
    Received(String),
    /// An outbound exchange wrote its message to completion.
    Sent,
}

impl View for SimpleProtocolEvent {
    type V = crate::types::ProtocolEventView;

    open spec fn view(&self) -> crate::types::ProtocolEventView {
        match self {
            SimpleProtocolEvent::Received(message) => crate::types::ProtocolEventView::Received {
                message: message@,
            },
            SimpleProtocolEvent::Sent => crate::types::ProtocolEventView::Sent,
        }
    }
}

/// The frame that carries `payload`: a varint length prefix, then the bytes.
pub open spec fn frame_encoding(payload: Seq<u8>) -> Seq<u8> {
    varint_encoding(payload.len()) + payload
}

/// What decoding a received frame yields: the decoded message when `bytes`
/// is one well-formed frame whose payload is within bounds and valid UTF-8,
/// and otherwise which error — `FrameTooLarge` for an oversized payload,
/// `DecodeError` for bytes that are not UTF-8, `TransportReadError` for a
/// missing or ill-formed prefix or a payload of the wrong length.
pub open spec fn spec_decode_frame(bytes: Seq<u8>) -> Result<Seq<char>, SimpleProtocolError> {
    match parse_varint(bytes) {
        Option::None => Result::Err(SimpleProtocolError::TransportReadError),
        Option::Some((len, k)) => if len > MAX_MESSAGE_SIZE as nat {
            Result::Err(SimpleProtocolError::FrameTooLarge)
        } else if bytes.len() - k != len {
            Result::Err(SimpleProtocolError::TransportReadError)
        } else if !valid_utf8(bytes.skip(k)) {
            Result::Err(SimpleProtocolError::DecodeError)
        } else {
            Result::Ok(decode_utf8(bytes.skip(k)))
        },
    }
}

/// Decodes one received frame, exactly as `spec_decode_frame` says.
pub fn decode_frame(frame: &[u8]) -> (r: Result<String, SimpleProtocolError>)
    ensures
        r is Ok <==> spec_decode_frame(frame@) is Ok,
        r is Ok ==> r->Ok_0@ == spec_decode_frame(frame@)->Ok_0,
        r is Err ==> r->Err_0 == spec_decode_frame(frame@)->Err_0,
{
    match read_varint(frame, MAX_MESSAGE_SIZE as u64) {
        Err(too_large) => {
            if too_large {
                Err(SimpleProtocolError::FrameTooLarge)
            } else {
                Err(SimpleProtocolError::TransportReadError)
            }
        },
        Ok((len, k)) => {
            proof {
                crate::varint::lemma_parse_value_bounds(frame@);
            }
            if frame.len() - k != len as usize {
                return Err(SimpleProtocolError::TransportReadError);
            }
            let payload = vstd::slice::slice_to_vec(
                vstd::slice::slice_subrange(frame, k, frame.len()),
            );
            proof {
                assert(payload@ =~= frame@.skip(k as int));
            }
            match string_from_utf8(payload) {
                Option::Some(message) => Ok(message),
                Option::None => Err(SimpleProtocolError::DecodeError),
            }
        },
    }
}

/// Law: a message under the maximum size survives the round trip — encoding
/// it into a frame and decoding that frame yields the message back, while an
/// oversized message is refused by the encoder (see `upgrade_outbound`).
pub proof fn lemma_frame_round_trip(message: Seq<char>)
    requires
        encode_utf8(message).len() < MAX_MESSAGE_SIZE,
    ensures
        spec_decode_frame(frame_encoding(encode_utf8(message))) == Result::<
            Seq<char>,
            SimpleProtocolError,
        >::Ok(message),
{
    let payload = encode_utf8(message);
    let frame = frame_encoding(payload);
    lemma_parse_of_encoding(payload.len(), payload);
    let k = varint_encoding(payload.len()).len() as int;
    assert(frame.skip(k) =~= payload);
    encode_utf8_valid_utf8(message);
    encode_utf8_decode_utf8(message);
}

/// Relies on `String::from_utf8`: it succeeds exactly on valid UTF-8 input
/// and returns the string whose characters those bytes encode.
#[verifier::external_body]
fn string_from_utf8(bytes: Vec<u8>) -> (r: Option<String>)
    ensures
        r is Some <==> valid_utf8(bytes@),
        r is Some ==> r->0@ == decode_utf8(bytes@),
{
    String::from_utf8(bytes).ok()
}

} // verus!
