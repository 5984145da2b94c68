//! Server-side WebSocket upgrade: validation of the opening handshake, the
//! response that answers it, the message values exchanged afterwards and the
//! life cycle of an accepted connection.
//!
//! Everything here works on plain values. Reading requests, writing
//! responses and driving the transport belong to the caller.

pub mod error;
pub mod handshake;
pub mod message;
pub mod upgrade;
pub mod websocket;

pub use crate::error::WebsocketError;
pub use crate::message::{Message, MessageView};
pub use crate::upgrade::{upgrade_ws, upgrade_ws_with_config};
pub use crate::websocket::{WebSocket, WebSocketConfig};
