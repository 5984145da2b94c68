//! One logical websocket message and what can be read out of it.

use crate::error::WebsocketError;
use vstd::prelude::*;
use vstd::string::StringSliceAdditionalSpecFns;
use vstd::utf8::{decode_utf8, encode_utf8, valid_utf8};

verus! {

/// The largest payload, in bytes, that a control message may carry.
pub const MAX_CONTROL_PAYLOAD: usize = 125;

/// The status code and the reason that a `Close` message may carry.
#[derive(Debug, Clone, PartialEq, Eq)]
struct CloseFrame {
    code: u16,
    reason: String,
}

#[derive(Debug, Clone, PartialEq, Eq)]
enum Payload {
    Text(Vec<u8>),
    Binary(Vec<u8>),
    Ping(Vec<u8>),
    Pong(Vec<u8>),
    Close(Option<CloseFrame>),
}

/// A WebSocket message.
#[derive(Debug, PartialEq, Eq)]
pub struct Message {
    inner: Payload,
}

/// What a [`Message`] is, as a mathematical value.
pub ghost enum MessageView {
    /// The bytes of a text message, which are read as UTF-8 only when the
    /// text is asked for.
    Text(Seq<u8>),
    Binary(Seq<u8>),
    Ping(Seq<u8>),
    Pong(Seq<u8>),
    Close(Option<(u16, Seq<char>)>),
}

impl MessageView {
    /// The bytes that the message hands out as its data: the payload, and
    /// nothing for a `Close`.
    pub open spec fn bytes(self) -> Seq<u8> {
        match self {
            MessageView::Text(b) => b,
            MessageView::Binary(b) => b,
            MessageView::Ping(b) => b,
            MessageView::Pong(b) => b,
            MessageView::Close(_) => Seq::empty(),
        }
    }

    /// The content of the message: as [`Self::bytes`], but for a `Close` with
    /// a reason, whose content is the encoded reason.
    pub open spec fn content(self) -> Seq<u8> {
        match self {
            MessageView::Close(Some(frame)) => encode_utf8(frame.1),
            _ => self.bytes(),
        }
    }

    /// The status code of a `Close` that carries one.
    pub open spec fn code(self) -> Option<u16> {
        match self {
            MessageView::Close(Some(frame)) => Some(frame.0),
            _ => None,
        }
    }

    /// The reason of a `Close` that carries one.
    pub open spec fn reason(self) -> Option<Seq<char>> {
        match self {
            MessageView::Close(Some(frame)) => Some(frame.1),
            _ => None,
        }
    }

    /// Control messages carry at most [`MAX_CONTROL_PAYLOAD`] bytes.
    pub open spec fn within_limits(self) -> bool {
        match self {
            MessageView::Ping(b) => b.len() <= MAX_CONTROL_PAYLOAD,
            MessageView::Pong(b) => b.len() <= MAX_CONTROL_PAYLOAD,
            _ => true,
        }
    }
}

impl View for Message {
    type V = MessageView;

    closed spec fn view(&self) -> MessageView {
        match self.inner {
            Payload::Text(v) => MessageView::Text(v@),
            Payload::Binary(v) => MessageView::Binary(v@),
            Payload::Ping(v) => MessageView::Ping(v@),
            Payload::Pong(v) => MessageView::Pong(v@),
            Payload::Close(None) => MessageView::Close(None),
            Payload::Close(Some(frame)) => MessageView::Close(Some((frame.code, frame.reason@))),
        }
    }
}

/// `core::str::Utf8Error`, the failure of `core::str::from_utf8`. It is
/// carried to [`describe`] and nothing inside it is read.
#[verifier::external_type_specification]
#[verifier::external_body]
pub struct ExUtf8Error(core::str::Utf8Error);

/// `core::str::from_utf8` succeeds exactly on well-formed UTF-8, and the
/// string slice it then returns has the given bytes as its encoding.
pub assume_specification[ core::str::from_utf8 ](v: &[u8]) -> (r: Result<
    &str,
    core::str::Utf8Error,
>)
    ensures
        r is Ok <==> valid_utf8(v@),
        r matches Ok(s) ==> s.spec_bytes() == v@,
;

/// The text that `Utf8Error` displays through `ToString::to_string`. Nothing
/// is claimed of it.
#[verifier::external_body]
fn describe(err: &core::str::Utf8Error) -> (text: String) {
    err.to_string()
}

/// Reads `data` as UTF-8 text, or says why it is none.
fn decode_text(data: &[u8]) -> (r: Result<&str, WebsocketError>)
    ensures
        valid_utf8(data@) ==> r is Ok && r->Ok_0@ == decode_utf8(data@),
        !valid_utf8(data@) ==> r matches Err(WebsocketError::DecodeText(_)),
{
    match core::str::from_utf8(data) {
        Ok(s) => {
            proof {
                vstd::utf8::encode_utf8_decode_utf8(s@);
            }
            Ok(s)
        },
        Err(err) => Err(WebsocketError::DecodeText(describe(&err))),
    }
}

impl Clone for Message {
    fn clone(&self) -> (m: Message)
        ensures
            m@ == self@,
    {
        proof {
            use_type_invariant(self);
        }
        match &self.inner {
            Payload::Text(v) => Message { inner: Payload::Text(v.clone()) },
            Payload::Binary(v) => Message { inner: Payload::Binary(v.clone()) },
            Payload::Ping(v) => Message { inner: Payload::Ping(v.clone()) },
            Payload::Pong(v) => Message { inner: Payload::Pong(v.clone()) },
            Payload::Close(None) => Message { inner: Payload::Close(None) },
            Payload::Close(Some(frame)) => Message {
                inner: Payload::Close(
                    Some(CloseFrame { code: frame.code, reason: frame.reason.clone() }),
                ),
            },
        }
    }
}

impl Message {
    #[verifier::type_invariant]
    spec fn inv(&self) -> bool {
        self@.within_limits()
    }

    /// Create a new `Text` WebSocket message. The bytes are taken as they
    /// are; whether they are well-formed text is decided only when the text
    /// is asked for.
    pub fn text(v: Vec<u8>) -> (m: Message)
        ensures
            m@ == MessageView::Text(v@),
    {
        Message { inner: Payload::Text(v) }
    }

    /// Create a new `Binary` WebSocket message. The bytes are taken as they
    /// are.
    pub fn binary(v: Vec<u8>) -> (m: Message)
        ensures
            m@ == MessageView::Binary(v@),
    {
        Message { inner: Payload::Binary(v) }
    }

    /// Construct a new `Ping` WebSocket message, unless the payload is longer
    /// than [`MAX_CONTROL_PAYLOAD`] bytes.
    pub fn ping(v: Vec<u8>) -> (m: Option<Message>)
        ensures
            v@.len() <= MAX_CONTROL_PAYLOAD ==> m is Some && m->0@ == MessageView::Ping(v@),
            v@.len() > MAX_CONTROL_PAYLOAD ==> m is None,
    {
        if v.len() <= MAX_CONTROL_PAYLOAD {
            Some(Message { inner: Payload::Ping(v) })
        } else {
            None
        }
    }

    /// Construct a new `Pong` WebSocket message, unless the payload is longer
    /// than [`MAX_CONTROL_PAYLOAD`] bytes.
    pub fn pong(v: Vec<u8>) -> (m: Option<Message>)
        ensures
            v@.len() <= MAX_CONTROL_PAYLOAD ==> m is Some && m->0@ == MessageView::Pong(v@),
            v@.len() > MAX_CONTROL_PAYLOAD ==> m is None,
    {
        if v.len() <= MAX_CONTROL_PAYLOAD {
            Some(Message { inner: Payload::Pong(v) })
        } else {
            None
        }
    }

    /// Construct the default `Close` WebSocket message.
    pub fn close() -> (m: Message)
        ensures
            m@ == MessageView::Close(None),
    {
        Message { inner: Payload::Close(None) }
    }

    /// Construct a `Close` WebSocket message with a code and reason.
    pub fn close_with(code: u16, reason: String) -> (m: Message)
        ensures
            m@ == MessageView::Close(Some((code, reason@))),
    {
        Message { inner: Payload::Close(Some(CloseFrame { code, reason })) }
    }

    /// Constructs a `Text` WebSocket message from the outcome of encoding a
    /// value as JSON: the encoded text becomes the message, and a failure
    /// of the encoder is passed on as [`WebsocketError::EncodeJson`].
    pub fn json(encoded: Result<String, String>) -> (r: Result<Message, WebsocketError>)
        ensures
            match encoded {
                Ok(text) => r is Ok && r->Ok_0@ == MessageView::Text(encode_utf8(text@)),
                Err(detail) => r == Err::<Message, WebsocketError>(
                    WebsocketError::EncodeJson(detail),
                ),
            },
    {
        match encoded {
            Ok(text) => Ok(Message::text(text.as_str().as_bytes_vec())),
            Err(detail) => Err(WebsocketError::EncodeJson(detail)),
        }
    }

    /// Takes the outcome of decoding the data of a message as JSON: the
    /// decoded value is passed on, and a failure of the decoder is passed
    /// on as [`WebsocketError::DecodeJson`].
    pub fn decode_json<T>(decoded: Result<T, String>) -> (r: Result<T, WebsocketError>)
        ensures
            match decoded {
                Ok(value) => r == Ok::<T, WebsocketError>(value),
                Err(detail) => r == Err::<T, WebsocketError>(WebsocketError::DecodeJson(detail)),
            },
    {
        match decoded {
            Ok(value) => Ok(value),
            Err(detail) => Err(WebsocketError::DecodeJson(detail)),
        }
    }

    /// Returns true if this message is a `Text` message.
    pub fn is_text(&self) -> (b: bool)
        ensures
            b == (self@ is Text),
    {
        matches!(self.inner, Payload::Text(_))
    }

    /// Returns true if this message is a `Binary` message.
    pub fn is_binary(&self) -> (b: bool)
        ensures
            b == (self@ is Binary),
    {
        matches!(self.inner, Payload::Binary(_))
    }

    /// Returns true if this message a is a `Close` message.
    pub fn is_close(&self) -> (b: bool)
        ensures
            b == (self@ is Close),
    {
        matches!(self.inner, Payload::Close(_))
    }

    /// Returns true if this message is a `Ping` message.
    pub fn is_ping(&self) -> (b: bool)
        ensures
            b == (self@ is Ping),
    {
        matches!(self.inner, Payload::Ping(_))
    }

    /// Returns true if this message is a `Pong` message.
    pub fn is_pong(&self) -> (b: bool)
        ensures
            b == (self@ is Pong),
    {
        matches!(self.inner, Payload::Pong(_))
    }

    /// Get the length of the WebSocket message.
    pub fn len(&self) -> (n: usize)
        ensures
            n == self@.content().len(),
            (self@ is Ping || self@ is Pong) ==> n <= MAX_CONTROL_PAYLOAD,
    {
        proof {
            use_type_invariant(self);
        }
        match &self.inner {
            Payload::Text(v) => v.len(),
            Payload::Binary(v) => v.len(),
            Payload::Ping(v) => v.len(),
            Payload::Pong(v) => v.len(),
            Payload::Close(None) => 0,
            Payload::Close(Some(frame)) => frame.reason.as_str().as_bytes().len(),
        }
    }

    /// Returns true if the WebSocket message has no content.
    /// For example, if the other side of the connection sent an empty string.
    pub fn is_empty(&self) -> (b: bool)
        ensures
            b == (self@.content().len() == 0),
    {
        self.len() == 0
    }

    /// The `Close` code if available.
    pub fn close_code(&self) -> (code: Option<u16>)
        ensures
            code == self@.code(),
    {
        match &self.inner {
            Payload::Close(Some(frame)) => Some(frame.code),
            _ => None,
        }
    }

    /// The `Close` reason if available.
    pub fn close_reason(&self) -> (reason: Option<&str>)
        ensures
            reason is Some == self@.reason() is Some,
            reason matches Some(r) ==> r@ == self@.reason()->0,
    {
        match &self.inner {
            Payload::Close(Some(frame)) => Some(frame.reason.as_str()),
            _ => None,
        }
    }

    /// Attempts to convert the message data as text in `UTF8` format.
    ///
    /// Succeeds exactly when the content is well-formed UTF-8, and then
    /// returns the text that it encodes.
    pub fn as_text(&self) -> (r: Result<&str, WebsocketError>)
        ensures
            valid_utf8(self@.content()) ==> r is Ok && r->Ok_0@ == decode_utf8(self@.content()),
            !valid_utf8(self@.content()) ==> r matches Err(WebsocketError::DecodeText(_)),
    {
        broadcast use vstd::utf8::encode_utf8_valid_utf8, vstd::utf8::encode_utf8_decode_utf8;

        match &self.inner {
            Payload::Text(v) => decode_text(v.as_slice()),
            Payload::Binary(v) => decode_text(v.as_slice()),
            Payload::Ping(v) => decode_text(v.as_slice()),
            Payload::Pong(v) => decode_text(v.as_slice()),
            Payload::Close(None) => {
                proof {
                    reveal_strlit("");
                    assert(""@ =~= Seq::<char>::empty());
                    assert(self@.content() =~= encode_utf8(Seq::<char>::empty())) by {
                        reveal_with_fuel(encode_utf8, 1);
                    }
                }
                Ok("")
            },
            Payload::Close(Some(frame)) => Ok(frame.reason.as_str()),
        }
    }

    /// Return the bytes of this message.
    pub fn as_bytes(&self) -> (b: &[u8])
        ensures
            b@ == self@.bytes(),
    {
        match &self.inner {
            Payload::Text(v) => v.as_slice(),
            Payload::Binary(v) => v.as_slice(),
            Payload::Ping(v) => v.as_slice(),
            Payload::Pong(v) => v.as_slice(),
            Payload::Close(_) => {
                let empty: &[u8] = &[];
                assert(empty@ =~= Seq::<u8>::empty());
                empty
            },
        }
    }

    /// Consumes the message and returns its data as bytes.
    pub fn into_bytes(self) -> (b: Vec<u8>)
        ensures
            b@ == self@.content(),
    {
        match self.inner {
            Payload::Text(v) => v,
            Payload::Binary(v) => v,
            Payload::Ping(v) => v,
            Payload::Pong(v) => v,
            Payload::Close(None) => Vec::new(),
            Payload::Close(Some(frame)) => frame.reason.as_str().as_bytes_vec(),
        }
    }

    /// Consumes the WebSocket message and attempts to converts it to a `String`.
    pub fn into_text(self) -> (r: Result<String, WebsocketError>)
        ensures
            valid_utf8(self@.content()) ==> r is Ok && r->Ok_0@ == decode_utf8(self@.content()),
            !valid_utf8(self@.content()) ==> r matches Err(WebsocketError::DecodeText(_)),
    {
        match self.as_text() {
            Ok(s) => Ok(s.to_owned()),
            Err(e) => Err(e),
        }
    }
}

/// A text message made of the encoding of a string gives back that string:
/// its content is well-formed UTF-8 and decodes to it.
pub proof fn lemma_text_round_trip(s: Seq<char>)
    ensures
        valid_utf8(MessageView::Text(encode_utf8(s)).content()),
        decode_utf8(MessageView::Text(encode_utf8(s)).content()) == s,
        MessageView::Text(encode_utf8(s)).bytes() == encode_utf8(s),
{
    broadcast use vstd::utf8::encode_utf8_valid_utf8, vstd::utf8::encode_utf8_decode_utf8;

}

/// A binary message gives back the bytes it was made of, whatever they are.
pub proof fn lemma_binary_round_trip(b: Seq<u8>)
    ensures
        MessageView::Binary(b).bytes() == b,
        MessageView::Binary(b).content() == b,
{
}

/// A `Close` without code and reason is never the same message as one that
/// carries them, and the two are told apart by asking for the code.
pub proof fn lemma_bare_close_differs(code: u16, reason: Seq<char>)
    ensures
        MessageView::Close(None) != MessageView::Close(Some((code, reason))),
        MessageView::Close(None).code() is None,
        MessageView::Close(None).reason() is None,
        MessageView::Close(Some((code, reason))).code() == Some(code),
        MessageView::Close(Some((code, reason))).reason() == Some(reason),
{
}

} // verus!
