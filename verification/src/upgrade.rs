//! The answer to a request that may ask for a websocket upgrade, and what
//! follows once the connection has been taken over.

use crate::error::WebsocketError;
use crate::handshake::{accept_key_of, extract_upgradable_key, HandshakeHeaders};
use crate::websocket::{ConnectionState, RemoteAddr, WebSocket, WebSocketConfig, WebSocketView};
use vstd::prelude::*;

verus! {

/// The status of a response that refuses the upgrade.
pub const BAD_REQUEST: u16 = 400;

/// The status of a response that grants the upgrade.
pub const SWITCHING_PROTOCOLS: u16 = 101;

/// The response to a request for an upgrade: its status, the three headers
/// of the handshake where they are set, and its body.
#[derive(Debug, Clone, PartialEq, Eq)]
pub struct UpgradeResponse {
    pub status: u16,
    /// `Connection`
    pub connection: Option<String>,
    /// `Upgrade`
    pub upgrade: Option<String>,
    /// `Sec-WebSocket-Accept`
    pub accept: Option<String>,
    pub body: String,
}

impl UpgradeResponse {
    /// The response refuses the upgrade: status 400, none of the headers,
    /// and the fixed body.
    pub open spec fn is_bad_request(&self) -> bool {
        &&& self.status == BAD_REQUEST
        &&& self.connection is None
        &&& self.upgrade is None
        &&& self.accept is None
        &&& self.body@ == "BAD REQUEST: The request is not websocket"@
    }

    /// The response grants the upgrade with the given signature: status
    /// 101, `Connection: Upgrade`, `Upgrade: websocket`, the signature as
    /// `Sec-WebSocket-Accept`, and an empty body.
    pub open spec fn is_switching_protocols(&self, accept: Seq<char>) -> bool {
        &&& self.status == SWITCHING_PROTOCOLS
        &&& self.connection matches Some(c) && c@ == "Upgrade"@
        &&& self.upgrade matches Some(u) && u@ == "websocket"@
        &&& self.accept matches Some(a) && a@ == accept
        &&& self.body@ == Seq::<char>::empty()
    }

    /// The response to a request that is no websocket handshake.
    pub fn bad_request() -> (response: UpgradeResponse)
        ensures
            response.is_bad_request(),
    {
        UpgradeResponse {
            status: BAD_REQUEST,
            connection: None,
            upgrade: None,
            accept: None,
            body: "BAD REQUEST: The request is not websocket".to_owned(),
        }
    }

    /// The response that grants the upgrade with the given signature.
    pub fn switching_protocols(accept: String) -> (response: UpgradeResponse)
        ensures
            response.is_switching_protocols(accept@),
    {
        let body = "".to_owned();
        proof {
            reveal_strlit("");
            assert(body@ =~= Seq::<char>::empty());
        }
        UpgradeResponse {
            status: SWITCHING_PROTOCOLS,
            connection: Some("Upgrade".to_owned()),
            upgrade: Some("websocket".to_owned()),
            accept: Some(accept),
            body,
        }
    }
}

/// What to do with a request: the response to send at once and, where the
/// upgrade was granted, the settings with which to take the connection
/// over once the response has gone out.
#[derive(Debug, Clone, PartialEq, Eq)]
pub struct Upgrade {
    pub response: UpgradeResponse,
    pub takeover: Option<WebSocketConfig>,
}

impl Upgrade {
    /// This is what the given request is due when connections are to be
    /// taken over with the given settings: a request that is no websocket
    /// handshake is refused and no takeover follows; any other is granted
    /// with the signature of its key, and the takeover follows.
    pub open spec fn answers(&self, headers: &HandshakeHeaders, config: WebSocketConfig) -> bool {
        if headers.is_upgrade_request() {
            &&& self.response.is_switching_protocols(accept_key_of(headers.key->0@))
            &&& self.takeover == Some(config)
        } else {
            &&& self.response.is_bad_request()
            &&& self.takeover is None
        }
    }

    /// Puts together the answer to a request from the key that was found in
    /// it, or from the fact that none was, and from the signature of that
    /// key.
    pub fn decide(signature: Option<String>, config: WebSocketConfig) -> (out: Upgrade)
        ensures
            signature is None ==> out.response.is_bad_request() && out.takeover is None,
            signature matches Some(accept) ==> out.response.is_switching_protocols(accept@)
                && out.takeover == Some(config),
    {
        match signature {
            None => Upgrade { response: UpgradeResponse::bad_request(), takeover: None },
            Some(accept) => Upgrade {
                response: UpgradeResponse::switching_protocols(accept),
                takeover: Some(config),
            },
        }
    }
}

/// Answers a request with the given settings for the connection.
///
/// A request that is no websocket handshake is refused, and no takeover
/// follows. Any other is granted with the signature of its key, and the
/// takeover follows with the settings given.
pub fn upgrade_ws_with_config(headers: &HandshakeHeaders, config: WebSocketConfig) -> (out: Upgrade)
    ensures
        out.answers(headers, config),
{
    let signature = match extract_upgradable_key(headers) {
        None => None,
        Some(key) => Some(key.accept()),
    };
    Upgrade::decide(signature, config)
}

/// Answers a request with the default settings for the connection.
pub fn upgrade_ws(headers: &HandshakeHeaders) -> (out: Upgrade)
    ensures
        out.answers(headers, WebSocketConfig::standard()),
{
    upgrade_ws_with_config(headers, WebSocketConfig::default())
}

/// Takes the outcome of the takeover that followed a granted upgrade.
///
/// Where the connection was taken over, an open connection to the peer
/// comes back, for the handler to run on. Where it was not, the failure
/// comes back as [`WebsocketError::Upgrade`], to be reported; no handler
/// runs.
pub fn complete_takeover(
    outcome: Result<(), String>,
    remote_addr: RemoteAddr,
    config: WebSocketConfig,
) -> (r: Result<WebSocket, WebsocketError>)
    ensures
        match outcome {
            Ok(_) => r is Ok && r->Ok_0@ == (WebSocketView {
                state: ConnectionState::Open,
                ready: false,
                remote_addr,
                config,
            }),
            Err(detail) => r == Err::<WebSocket, WebsocketError>(WebsocketError::Upgrade(detail)),
        },
{
    match outcome {
        Ok(_) => Ok(WebSocket::from_raw_socket(remote_addr, config)),
        Err(detail) => Err(WebsocketError::Upgrade(detail)),
    }
}

/// A request that fails any one of the four requirements of the handshake
/// is answered with status 400 and the fixed body, and no takeover follows;
/// a request that meets all four is never answered so.
pub proof fn lemma_refusal(headers: HandshakeHeaders, config: WebSocketConfig, out: Upgrade)
    requires
        out.answers(&headers, config),
    ensures
        !(headers.connection_ok() && headers.upgrade_ok() && headers.version_ok()
            && headers.key_ok()) ==> out.response.status == BAD_REQUEST && out.response.body@
            == "BAD REQUEST: The request is not websocket"@ && out.takeover is None,
        headers.connection_ok() && headers.upgrade_ok() && headers.version_ok() && headers.key_ok()
            ==> out.response.status == SWITCHING_PROTOCOLS && out.takeover == Some(config),
{
}

} // verus!
