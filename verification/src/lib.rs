//! Talking to a Screeps server over its websocket: the channels to subscribe to, the frames
//! to send, the parsing of the frames received, and the room objects and stores that the
//! server keeps current with partial updates.
//!
//! Each function states what it computes in its contract, and the contracts are proved.
use vstd::prelude::*;

pub mod channel;
pub mod channel_update;
pub mod commands;
pub mod connecting;
pub mod decimal;
pub mod flags;
pub mod json;
pub mod json_value;
pub mod objects;
pub mod parsed_url;
pub mod parsing;
pub mod resources;
pub mod room_map_view;
pub mod room_name;
pub mod store;
pub mod text;
pub mod updatable;
pub mod user_console;

pub use channel::Channel;
pub use commands::Token;
pub use channel_update::ChannelUpdate;
pub use connecting::{transform_url, UrlError};
pub use objects::KnownRoomObject;
pub use parsed_url::ParsedUrl;
pub use parsing::{ParseError, ScreepsMessage, SockjsMessage};
pub use resources::ResourceType;
pub use room_name::{RoomName, RoomNameParseError};
pub use store::{Store, StoreUpdate};

verus! {
} // verus!
