//! The failures that handling a websocket connection can end in.

use vstd::prelude::*;

verus! {

/// What went wrong while upgrading, using or closing a websocket connection.
///
/// Variants that report a failure of the transport or of a decoder carry the
/// description that came with it.
#[derive(Debug, Clone, PartialEq, Eq)]
pub enum WebsocketError {
    /// Taking over the connection after the `101` response failed.
    Upgrade(String),
    /// Failed to receive a message from the websocket connection.
    MessageReceive(String),
    /// Failed to check websocket's ready status to send messages.
    ReadyStatus(String),
    /// Failed to send a message to the websocket connection.
    MessageSend(String),
    /// Failed to flush messages to the websocket connection.
    MessageFlush(String),
    /// Failed to decode message data as text.
    DecodeText(String),
    /// Failed to decode the message data as JSON.
    DecodeJson(String),
    /// Failed to convert a value to JSON.
    EncodeJson(String),
    /// Failed to close the websocket connection.
    WebSocketClose(String),
    /// A message was handed over for sending before readiness was confirmed.
    ReadinessViolation,
    /// The connection is closed; nothing can be sent or received any more.
    Closed,
}

/// Joins two pieces of text with `[&str]::concat`: the result reads `head`
/// followed by `tail`.
#[verifier::external_body]
fn concat(head: &str, tail: &str) -> (joined: String)
    ensures
        joined@ == head@ + tail@,
{
    [head, tail].concat()
}

impl WebsocketError {
    /// The fixed text that introduces this kind of failure.
    pub open spec fn spec_label(&self) -> Seq<char> {
        match self {
            WebsocketError::Upgrade(_) => "Websocket upgrade error: "@,
            WebsocketError::MessageReceive(_) =>
                "Failed to receive a message from the websocket connection: "@,
            WebsocketError::ReadyStatus(_) =>
                "Failed to check websocket's ready status to send messages: "@,
            WebsocketError::MessageSend(_) =>
                "Failed to send a message to the websocket connection: "@,
            WebsocketError::MessageFlush(_) =>
                "Failed to flush messages to the websocket connection: "@,
            WebsocketError::DecodeText(_) => "Failed to decode message data as text: "@,
            WebsocketError::DecodeJson(_) => "Failed to decode the message data as JSON: "@,
            WebsocketError::EncodeJson(_) => "Failed to convert a struct to JSON: "@,
            WebsocketError::WebSocketClose(_) => "Failed to close the websocket connection: "@,
            WebsocketError::ReadinessViolation =>
                "A message was sent before the connection was ready for it"@,
            WebsocketError::Closed => "The websocket connection is closed"@,
        }
    }

    /// The description carried by this failure; empty where it carries none.
    pub open spec fn spec_detail(&self) -> Seq<char> {
        match self {
            WebsocketError::Upgrade(d) => d@,
            WebsocketError::MessageReceive(d) => d@,
            WebsocketError::ReadyStatus(d) => d@,
            WebsocketError::MessageSend(d) => d@,
            WebsocketError::MessageFlush(d) => d@,
            WebsocketError::DecodeText(d) => d@,
            WebsocketError::DecodeJson(d) => d@,
            WebsocketError::EncodeJson(d) => d@,
            WebsocketError::WebSocketClose(d) => d@,
            WebsocketError::ReadinessViolation => Seq::empty(),
            WebsocketError::Closed => Seq::empty(),
        }
    }

    /// The full text of this failure.
    pub open spec fn spec_message(&self) -> Seq<char> {
        "routerify-websocket: "@ + self.spec_label() + self.spec_detail()
    }

    /// The description carried by this failure; empty where it carries none.
    pub fn detail(&self) -> (d: &str)
        ensures
            d@ == self.spec_detail(),
    {
        match self {
            WebsocketError::Upgrade(d) => d.as_str(),
            WebsocketError::MessageReceive(d) => d.as_str(),
            WebsocketError::ReadyStatus(d) => d.as_str(),
            WebsocketError::MessageSend(d) => d.as_str(),
            WebsocketError::MessageFlush(d) => d.as_str(),
            WebsocketError::DecodeText(d) => d.as_str(),
            WebsocketError::DecodeJson(d) => d.as_str(),
            WebsocketError::EncodeJson(d) => d.as_str(),
            WebsocketError::WebSocketClose(d) => d.as_str(),
            WebsocketError::ReadinessViolation => {
                proof {
                    reveal_strlit("");
                }
                assert(""@ =~= Seq::<char>::empty());
                ""
            },
            WebsocketError::Closed => {
                proof {
                    reveal_strlit("");
                }
                assert(""@ =~= Seq::<char>::empty());
                ""
            },
        }
    }

    /// The fixed text that introduces this kind of failure.
    pub fn label(&self) -> (l: &'static str)
        ensures
            l@ == self.spec_label(),
    {
        match self {
            WebsocketError::Upgrade(_) => "Websocket upgrade error: ",
            WebsocketError::MessageReceive(_) =>
                "Failed to receive a message from the websocket connection: ",
            WebsocketError::ReadyStatus(_) =>
                "Failed to check websocket's ready status to send messages: ",
            WebsocketError::MessageSend(_) =>
                "Failed to send a message to the websocket connection: ",
            WebsocketError::MessageFlush(_) =>
                "Failed to flush messages to the websocket connection: ",
            WebsocketError::DecodeText(_) => "Failed to decode message data as text: ",
            WebsocketError::DecodeJson(_) => "Failed to decode the message data as JSON: ",
            WebsocketError::EncodeJson(_) => "Failed to convert a struct to JSON: ",
            WebsocketError::WebSocketClose(_) => "Failed to close the websocket connection: ",
            WebsocketError::ReadinessViolation =>
                "A message was sent before the connection was ready for it",
            WebsocketError::Closed => "The websocket connection is closed",
        }
    }

    /// The full text of this failure: the library's name, what kind of
    /// failure it is, and the description it carries.
    pub fn message(&self) -> (text: String)
        ensures
            text@ == self.spec_message(),
    {
        let head = concat("routerify-websocket: ", self.label());
        let text = concat(head.as_str(), self.detail());
        assert(text@ =~= self.spec_message());
        text
    }
}

} // verus!
