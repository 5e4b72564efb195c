//! A verified client library for the Pusher Channels protocol: channel
//! bookkeeping, presence members, configuration, request signing, payload
//! encryption for encrypted channels, the JSON messages of the protocol,
//! and the decisions of a websocket session. Transport and scheduling are
//! left to the caller.
use vstd::prelude::*;

pub mod auth;
pub mod channels;
pub mod client;
pub mod config;
pub mod crypto;
pub mod encryption;
pub mod error;
pub mod events;
pub mod json;
pub mod laws;
pub mod text;
pub mod text_map;
pub mod websocket;

pub use auth::PusherAuth;
pub use channels::{Channel, ChannelList, ChannelType};
pub use client::{ApiRequest, BatchEvent, PusherClient, ConnectionState};
pub use config::{PusherConfig, PusherConfigBuilder};
pub use error::{PusherError, PusherResult};
pub use events::{Event, PresenceData, SystemEvent, SystemEventData};
pub use websocket::{WebSocketCommand, WsSession};

verus! {

} // verus!
