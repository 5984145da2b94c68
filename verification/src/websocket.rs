//! The life cycle of an accepted connection.
//!
//! A [`WebSocket`] does no input or output itself. Whoever drives the
//! transport asks it before each operation whether the operation may go
//! ahead, and reports afterwards how the operation ended; the connection
//! keeps the state and names the failure.

use crate::error::WebsocketError;
use crate::message::{Message, MessageView};
use tokio_tungstenite::tungstenite::protocol;
use vstd::prelude::*;

verus! {

/// The settings of the framing engine, fixed when the handler is registered
/// and shared by every connection it accepts.
#[derive(Debug, Clone, Copy, PartialEq, Eq)]
pub struct WebSocketConfig {
    /// The size of the send queue; `None` is unlimited.
    pub max_send_queue: Option<usize>,
    /// The largest message that is put together from its frames; `None` is
    /// unlimited.
    pub max_message_size: Option<usize>,
    /// The largest payload of a single frame; `None` is unlimited.
    pub max_frame_size: Option<usize>,
    /// Whether frames that the client did not mask are accepted.
    pub accept_unmasked_frames: bool,
}

impl WebSocketConfig {
    /// The settings of a connection for which none were given: an unlimited
    /// send queue, messages of up to 64 MiB, frames of up to 16 MiB, and no
    /// unmasked frames.
    pub open spec fn standard() -> WebSocketConfig {
        WebSocketConfig {
            max_send_queue: None,
            max_message_size: Some(67108864usize),
            max_frame_size: Some(16777216usize),
            accept_unmasked_frames: false,
        }
    }
}

/// The settings that the framing engine starts from, as
/// `tungstenite::protocol::WebSocketConfig::default()` gives them: no limit
/// on the send queue, 64 MiB (`64 << 20`) for a message, 16 MiB
/// (`16 << 20`) for a frame, and unmasked frames refused.
#[verifier::external_body]
fn engine_defaults() -> (config: WebSocketConfig)
    ensures
        config == WebSocketConfig::standard(),
{
    let defaults = protocol::WebSocketConfig::default();
    WebSocketConfig {
        max_send_queue: defaults.max_send_queue,
        max_message_size: defaults.max_message_size,
        max_frame_size: defaults.max_frame_size,
        accept_unmasked_frames: defaults.accept_unmasked_frames,
    }
}

impl Default for WebSocketConfig {
    /// The settings that the framing engine starts from.
    fn default() -> (config: WebSocketConfig)
        ensures
            config == WebSocketConfig::standard(),
    {
        engine_defaults()
    }
}

/// The address of the peer of a connection.
#[derive(Debug, Clone, Copy, PartialEq, Eq)]
pub enum RemoteAddr {
    V4 { octets: [u8; 4], port: u16 },
    V6 { segments: [u16; 8], port: u16 },
}

/// Where a connection stands in its life. It only ever moves forward.
#[derive(Debug, Clone, Copy, PartialEq, Eq)]
pub enum ConnectionState {
    /// Messages go both ways.
    Open,
    /// A `Close` was sent; the peer's answer is awaited.
    Closing,
    /// Nothing can be sent or received any more.
    Closed,
}

impl ConnectionState {
    /// How far along its life a connection in this state is.
    pub open spec fn rank(self) -> int {
        match self {
            ConnectionState::Open => 0,
            ConnectionState::Closing => 1,
            ConnectionState::Closed => 2,
        }
    }
}

/// What can be asked of a connection.
#[derive(Debug, Clone, Copy, PartialEq, Eq)]
pub enum Operation {
    /// Take the next inbound message.
    Receive,
    /// Check that the transport can accept another message.
    Ready,
    /// Hand over one message for sending.
    Send,
    /// Force what was handed over onto the wire.
    Flush,
    /// Complete the closing handshake.
    Close,
}

/// What the transport produced when the next inbound message was asked for.
#[derive(Debug, PartialEq, Eq)]
pub enum Inbound {
    /// A message arrived.
    Message(Message),
    /// The transport or the protocol failed, with this description.
    Failed(String),
    /// The peer closed the connection cleanly; nothing more will arrive.
    End,
}

/// A WebSocket connection as a mathematical value.
pub ghost struct WebSocketView {
    pub state: ConnectionState,
    /// Readiness was confirmed and no message has used it up yet.
    pub ready: bool,
    pub remote_addr: RemoteAddr,
    pub config: WebSocketConfig,
}

impl WebSocketView {
    /// Why the operation may not go ahead, if it may not: everything is
    /// refused once the connection is closed, and a send is refused
    /// unless readiness was confirmed for it.
    pub open spec fn rejects(self, op: Operation) -> Option<WebsocketError> {
        if self.state is Closed {
            Some(WebsocketError::Closed)
        } else if op is Send && !self.ready {
            Some(WebsocketError::ReadinessViolation)
        } else {
            None
        }
    }

    /// The connection once it is closed.
    pub open spec fn closed(self) -> WebSocketView {
        WebSocketView { state: ConnectionState::Closed, ready: false, ..self }
    }

    /// The connection after an operation that was let through has succeeded.
    pub open spec fn after_success(self, op: Operation) -> WebSocketView {
        match op {
            Operation::Receive => self,
            Operation::Ready => WebSocketView { ready: true, ..self },
            Operation::Send => WebSocketView { ready: false, ..self },
            Operation::Flush => self,
            Operation::Close => self.closed(),
        }
    }

    /// The connection after a message has arrived: the peer's `Close`
    /// completes a closing handshake that this side began.
    pub open spec fn after_message(self, m: MessageView) -> WebSocketView {
        if self.state is Closing && m is Close {
            self.closed()
        } else {
            self
        }
    }

    /// The connection after this side has begun the closing handshake.
    pub open spec fn closing(self) -> WebSocketView {
        if self.state is Closed {
            self
        } else {
            WebSocketView { state: ConnectionState::Closing, ready: false, ..self }
        }
    }
}

/// The WebSocket input-output stream: a connection that was taken over
/// after a successful handshake.
#[derive(Debug)]
pub struct WebSocket {
    state: ConnectionState,
    ready: bool,
    remote_addr: RemoteAddr,
    config: WebSocketConfig,
}

impl View for WebSocket {
    type V = WebSocketView;

    closed spec fn view(&self) -> WebSocketView {
        WebSocketView {
            state: self.state,
            ready: self.ready,
            remote_addr: self.remote_addr,
            config: self.config,
        }
    }
}

impl WebSocket {
    /// An open connection to the given peer, with no readiness confirmed.
    pub fn from_raw_socket(remote_addr: RemoteAddr, config: WebSocketConfig) -> (ws: WebSocket)
        ensures
            ws@ == (WebSocketView {
                state: ConnectionState::Open,
                ready: false,
                remote_addr,
                config,
            }),
    {
        WebSocket { state: ConnectionState::Open, ready: false, remote_addr, config }
    }

    /// Get the peer's remote address.
    pub fn remote_addr(&self) -> (addr: RemoteAddr)
        ensures
            addr == self@.remote_addr,
    {
        self.remote_addr
    }

    /// The settings that the connection was accepted with.
    pub fn config(&self) -> (config: WebSocketConfig)
        ensures
            config == self@.config,
    {
        self.config
    }

    /// Where the connection stands in its life.
    pub fn state(&self) -> (state: ConnectionState)
        ensures
            state == self@.state,
    {
        self.state
    }

    /// Whether readiness was confirmed and has not been used up.
    pub fn is_ready(&self) -> (ready: bool)
        ensures
            ready == self@.ready,
    {
        self.ready
    }

    fn is_closed(&self) -> (closed: bool)
        ensures
            closed == (self@.state is Closed),
    {
        match self.state {
            ConnectionState::Closed => true,
            _ => false,
        }
    }

    fn shut(&mut self)
        ensures
            final(self)@ == old(self)@.closed(),
    {
        self.state = ConnectionState::Closed;
        self.ready = false;
    }

    /// Whether the operation may go ahead, to be asked before the transport
    /// is touched for it.
    pub fn permit(&self, op: Operation) -> (r: Result<(), WebsocketError>)
        ensures
            self@.rejects(op) is None ==> r is Ok,
            self@.rejects(op) matches Some(e) ==> r == Err::<(), WebsocketError>(e),
    {
        if self.is_closed() {
            Err(WebsocketError::Closed)
        } else if matches!(op, Operation::Send) && !self.ready {
            Err(WebsocketError::ReadinessViolation)
        } else {
            Ok(())
        }
    }

    /// Takes what the transport produced for the next inbound message.
    ///
    /// On a closed connection this fails with [`WebsocketError::Closed`] and
    /// changes nothing. Otherwise a message is passed on, a failure is
    /// passed on as [`WebsocketError::MessageReceive`] and closes the
    /// connection, and the end of the stream closes it and yields nothing.
    pub fn poll_next(&mut self, event: Inbound) -> (r: Option<Result<Message, WebsocketError>>)
        ensures
            old(self)@.state is Closed ==> final(self)@ == old(self)@ && r == Some(
                Err::<Message, WebsocketError>(WebsocketError::Closed),
            ),
            !(old(self)@.state is Closed) ==> match event {
                Inbound::Message(m) => final(self)@ == old(self)@.after_message(m@) && r == Some(
                    Ok::<Message, WebsocketError>(m),
                ),
                Inbound::Failed(detail) => final(self)@ == old(self)@.closed() && r == Some(
                    Err::<Message, WebsocketError>(WebsocketError::MessageReceive(detail)),
                ),
                Inbound::End => final(self)@ == old(self)@.closed() && r is None,
            },
    {
        if self.is_closed() {
            return Some(Err(WebsocketError::Closed));
        }
        match event {
            Inbound::Message(m) => {
                if matches!(self.state, ConnectionState::Closing) && m.is_close() {
                    self.shut();
                }
                Some(Ok(m))
            },
            Inbound::Failed(detail) => {
                self.shut();
                Some(Err(WebsocketError::MessageReceive(detail)))
            },
            Inbound::End => {
                self.shut();
                None
            },
        }
    }

    /// Takes the outcome of a readiness check.
    ///
    /// On a closed connection this fails with [`WebsocketError::Closed`] and
    /// changes nothing. Otherwise success confirms readiness for one
    /// message, and a failure is passed on as
    /// [`WebsocketError::ReadyStatus`] and closes the connection.
    pub fn poll_ready(&mut self, outcome: Result<(), String>) -> (r: Result<(), WebsocketError>)
        ensures
            old(self)@.state is Closed ==> final(self)@ == old(self)@ && r == Err::<
                (),
                WebsocketError,
            >(WebsocketError::Closed),
            !(old(self)@.state is Closed) ==> match outcome {
                Ok(_) => final(self)@ == old(self)@.after_success(Operation::Ready) && r is Ok,
                Err(detail) => final(self)@ == old(self)@.closed() && r == Err::<
                    (),
                    WebsocketError,
                >(WebsocketError::ReadyStatus(detail)),
            },
    {
        if self.is_closed() {
            return Err(WebsocketError::Closed);
        }
        match outcome {
            Ok(_) => {
                self.ready = true;
                Ok(())
            },
            Err(detail) => {
                self.shut();
                Err(WebsocketError::ReadyStatus(detail))
            },
        }
    }

    /// Decides whether a message may be handed to the transport.
    ///
    /// The message comes back, to be handed over, exactly when the
    /// connection is not closed and readiness was confirmed; the readiness
    /// is then used up. Otherwise nothing changes and the failure says
    /// which of the two was missing.
    pub fn start_send(&mut self, item: Message) -> (r: Result<Message, WebsocketError>)
        ensures
            old(self)@.rejects(Operation::Send) is None ==> final(self)@ == old(
                self,
            )@.after_success(Operation::Send) && r == Ok::<Message, WebsocketError>(item),
            old(self)@.rejects(Operation::Send) matches Some(e) ==> final(self)@ == old(self)@ && r
                == Err::<Message, WebsocketError>(e),
    {
        if self.is_closed() {
            Err(WebsocketError::Closed)
        } else if !self.ready {
            Err(WebsocketError::ReadinessViolation)
        } else {
            self.ready = false;
            Ok(item)
        }
    }

    /// Takes the outcome of handing a message to the transport, which
    /// [`Self::start_send`] allowed.
    ///
    /// On a closed connection this fails with [`WebsocketError::Closed`] and
    /// changes nothing. Otherwise a failure is passed on as
    /// [`WebsocketError::MessageSend`] and closes the connection.
    pub fn complete_send(&mut self, outcome: Result<(), String>) -> (r: Result<(), WebsocketError>)
        ensures
            old(self)@.state is Closed ==> final(self)@ == old(self)@ && r == Err::<
                (),
                WebsocketError,
            >(WebsocketError::Closed),
            !(old(self)@.state is Closed) ==> match outcome {
                Ok(_) => final(self)@ == old(self)@ && r is Ok,
                Err(detail) => final(self)@ == old(self)@.closed() && r == Err::<
                    (),
                    WebsocketError,
                >(WebsocketError::MessageSend(detail)),
            },
    {
        if self.is_closed() {
            return Err(WebsocketError::Closed);
        }
        match outcome {
            Ok(_) => Ok(()),
            Err(detail) => {
                self.shut();
                Err(WebsocketError::MessageSend(detail))
            },
        }
    }

    /// Takes the outcome of a flush.
    ///
    /// On a closed connection this fails with [`WebsocketError::Closed`] and
    /// changes nothing. Otherwise a failure is passed on as
    /// [`WebsocketError::MessageFlush`] and closes the connection.
    pub fn poll_flush(&mut self, outcome: Result<(), String>) -> (r: Result<(), WebsocketError>)
        ensures
            old(self)@.state is Closed ==> final(self)@ == old(self)@ && r == Err::<
                (),
                WebsocketError,
            >(WebsocketError::Closed),
            !(old(self)@.state is Closed) ==> match outcome {
                Ok(_) => final(self)@ == old(self)@.after_success(Operation::Flush) && r is Ok,
                Err(detail) => final(self)@ == old(self)@.closed() && r == Err::<
                    (),
                    WebsocketError,
                >(WebsocketError::MessageFlush(detail)),
            },
    {
        if self.is_closed() {
            return Err(WebsocketError::Closed);
        }
        match outcome {
            Ok(_) => Ok(()),
            Err(detail) => {
                self.shut();
                Err(WebsocketError::MessageFlush(detail))
            },
        }
    }

    /// Takes the outcome of the closing handshake. Whatever it is, the
    /// connection is closed afterwards.
    ///
    /// On a closed connection this fails with [`WebsocketError::Closed`].
    /// Otherwise a failure is passed on as
    /// [`WebsocketError::WebSocketClose`].
    pub fn poll_close(&mut self, outcome: Result<(), String>) -> (r: Result<(), WebsocketError>)
        ensures
            final(self)@ == old(self)@.closed(),
            old(self)@.state is Closed ==> r == Err::<(), WebsocketError>(WebsocketError::Closed),
            !(old(self)@.state is Closed) ==> match outcome {
                Ok(_) => r is Ok,
                Err(detail) => r == Err::<(), WebsocketError>(
                    WebsocketError::WebSocketClose(detail),
                ),
            },
    {
        if self.is_closed() {
            self.shut();
            return Err(WebsocketError::Closed);
        }
        self.shut();
        match outcome {
            Ok(_) => Ok(()),
            Err(detail) => Err(WebsocketError::WebSocketClose(detail)),
        }
    }

    /// Begins to close the connection gracefully: the `Close` message to
    /// send, without code and reason, comes back unless the connection is
    /// closed already. [`Self::poll_close`] completes what this begins.
    pub fn close(&mut self) -> (r: Result<Message, WebsocketError>)
        ensures
            final(self)@ == old(self)@.closing(),
            old(self)@.state is Closed ==> r == Err::<Message, WebsocketError>(
                WebsocketError::Closed,
            ),
            !(old(self)@.state is Closed) ==> r is Ok && r->Ok_0@ == MessageView::Close(None),
    {
        if self.is_closed() {
            return Err(WebsocketError::Closed);
        }
        self.state = ConnectionState::Closing;
        self.ready = false;
        Ok(Message::close())
    }

    /// Begins to close the connection gracefully with a code and reason:
    /// the `Close` message to send comes back unless the connection is
    /// closed already. [`Self::poll_close`] completes what this begins.
    pub fn close_with(&mut self, code: u16, reason: String) -> (r: Result<Message, WebsocketError>)
        ensures
            final(self)@ == old(self)@.closing(),
            old(self)@.state is Closed ==> r == Err::<Message, WebsocketError>(
                WebsocketError::Closed,
            ),
            !(old(self)@.state is Closed) ==> r is Ok && r->Ok_0@ == MessageView::Close(
                Some((code, reason@)),
            ),
    {
        if self.is_closed() {
            return Err(WebsocketError::Closed);
        }
        self.state = ConnectionState::Closing;
        self.ready = false;
        Ok(Message::close_with(code, reason))
    }
}

/// Once closed, a connection refuses every operation as closed.
pub proof fn lemma_closed_refuses_everything(ws: WebSocketView, op: Operation)
    requires
        ws.state is Closed,
    ensures
        ws.rejects(op) == Some(WebsocketError::Closed),
{
}

/// After the closing handshake has completed, every further operation is
/// refused as closed, whatever the connection was before.
pub proof fn lemma_nothing_after_close(ws: WebSocketView, op: Operation)
    ensures
        ws.after_success(Operation::Close).rejects(op) == Some(WebsocketError::Closed),
        ws.closed().rejects(op) == Some(WebsocketError::Closed),
{
}

/// A connection never moves backwards: whatever happens to it, it is at
/// least as far along its life afterwards, and a closed one stays closed.
pub proof fn lemma_state_only_advances(ws: WebSocketView, op: Operation, m: MessageView)
    ensures
        ws.after_success(op).state.rank() >= ws.state.rank(),
        ws.after_message(m).state.rank() >= ws.state.rank(),
        ws.closing().state.rank() >= ws.state.rank(),
        ws.closed().state.rank() >= ws.state.rank(),
        ws.state is Closed ==> ws.after_success(op).state is Closed && ws.after_message(
            m,
        ).state is Closed && ws.closing().state is Closed,
{
}

/// A message can only be handed over after readiness was confirmed, and
/// each confirmation serves for one message.
pub proof fn lemma_readiness_serves_once(ws: WebSocketView)
    requires
        !(ws.state is Closed),
    ensures
        ws.after_success(Operation::Ready).rejects(Operation::Send) is None,
        ws.after_success(Operation::Ready).after_success(Operation::Send).rejects(Operation::Send)
            == Some(WebsocketError::ReadinessViolation),
{
}

} // verus!
