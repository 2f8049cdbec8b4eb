//! Updates that the server sends on subscribed channels.
use vstd::prelude::*;

use crate::channel::{channel_text, Channel, ChannelView};
use crate::json::{json_decode_raw_elements, json_decode_string, json_raw_elements, json_string_value};
use crate::room_name::{parse_room_name, room_name_text, RoomName};
use crate::text::{lemma_find_char, lemma_find_char_at};
use crate::text::{chars_of, find_char, find_char_from, has_prefix, segment_equals, starts_with, string_of};

verus! {

/// An update to a Screeps server channel that has been subscribed to.
///
/// The data of each update is kept as the raw JSON text the server sent; its shape depends on
/// the kind of channel.
#[derive(Clone, Debug)]
pub enum ChannelUpdate {
    /// A 'map view' update of a room. Sent once per tick.
    RoomMapView {
        /// The name of the room this is an update for.
        room_name: RoomName,
        /// The shard the room is in, if any.
        shard_name: Option<String>,
        /// The data: the positions and nondescript types of entities in this room.
        update: String,
    },
    /// An update of objects in a room. Sent once per tick for up to 2 rooms per account.
    /// Other subscribed rooms receive `ChannelUpdate::NoRoomDetail` instead.
    RoomDetail {
        /// The name of the room this is an update for.
        room_name: RoomName,
        /// The shard the room is in, if any.
        shard_name: Option<String>,
        /// The data: all properties of all objects in this room that have changed since the last tick.
        update: String,
    },
    /// The notice sent for a room detail subscription that will not receive an update this tick,
    /// because more than two rooms are subscribed to on the account.
    NoRoomDetail {
        /// The name of the room this is a notification for.
        room_name: RoomName,
        /// The shard the room is in, if any.
        shard_name: Option<String>,
    },
    /// An update on the last tick's CPU and memory usage. Sent once per tick.
    UserCpu {
        /// The user ID this is a cpu/memory update for.
        user_id: String,
        /// The update.
        update: String,
    },
    /// All user script log messages of the last tick, or a script error.
    UserConsole {
        /// The user ID this console update is for.
        user_id: String,
        /// The update.
        update: String,
    },
    /// The user's credit total at the end of the last tick. Sent once per tick.
    UserCredits {
        /// The user ID this credit update is for.
        user_id: String,
        /// The number of credits.
        update: String,
    },
    /// A new message received by a user.
    UserMessage {
        /// The user ID this message update is for.
        user_id: String,
        /// The message update.
        update: String,
    },
    /// A change in a conversation the user is participating in.
    UserConversation {
        /// The user ID of the subscribed user this update is for.
        user_id: String,
        /// The user ID of the other user in the conversation.
        target_user_id: String,
        /// The message update.
        update: String,
    },
    /// Another update that was not accounted for.
    Other {
        /// The string describing what channel this is.
        channel: String,
        /// The update.
        update: String,
    },
}

/// The abstract value of a `ChannelUpdate`: its strings as character sequences.
pub enum ChannelUpdateView {
    RoomMapView { room_name: RoomName, shard_name: Option<Seq<char>>, update: Seq<char> },
    RoomDetail { room_name: RoomName, shard_name: Option<Seq<char>>, update: Seq<char> },
    NoRoomDetail { room_name: RoomName, shard_name: Option<Seq<char>> },
    UserCpu { user_id: Seq<char>, update: Seq<char> },
    UserConsole { user_id: Seq<char>, update: Seq<char> },
    UserCredits { user_id: Seq<char>, update: Seq<char> },
    UserMessage { user_id: Seq<char>, update: Seq<char> },
    UserConversation { user_id: Seq<char>, target_user_id: Seq<char>, update: Seq<char> },
    Other { channel: Seq<char>, update: Seq<char> },
}

/// The characters of an optional string.
pub open spec fn opt_view(o: Option<String>) -> Option<Seq<char>> {
    match o {
        Some(s) => Some(s@),
        None => None,
    }
}

/// The characters of each string of a sequence.
pub open spec fn texts(v: Seq<String>) -> Seq<Seq<char>> {
    v.map_values(|s: String| s@)
}

impl View for ChannelUpdate {
    type V = ChannelUpdateView;

    open spec fn view(&self) -> ChannelUpdateView {
        match self {
            ChannelUpdate::RoomMapView { room_name, shard_name, update } => {
                ChannelUpdateView::RoomMapView {
                    room_name: *room_name,
                    shard_name: opt_view(*shard_name),
                    update: update@,
                }
            },
            ChannelUpdate::RoomDetail { room_name, shard_name, update } => {
                ChannelUpdateView::RoomDetail {
                    room_name: *room_name,
                    shard_name: opt_view(*shard_name),
                    update: update@,
                }
            },
            ChannelUpdate::NoRoomDetail { room_name, shard_name } => {
                ChannelUpdateView::NoRoomDetail {
                    room_name: *room_name,
                    shard_name: opt_view(*shard_name),
                }
            },
            ChannelUpdate::UserCpu { user_id, update } => {
                ChannelUpdateView::UserCpu { user_id: user_id@, update: update@ }
            },
            ChannelUpdate::UserConsole { user_id, update } => {
                ChannelUpdateView::UserConsole { user_id: user_id@, update: update@ }
            },
            ChannelUpdate::UserCredits { user_id, update } => {
                ChannelUpdateView::UserCredits { user_id: user_id@, update: update@ }
            },
            ChannelUpdate::UserMessage { user_id, update } => {
                ChannelUpdateView::UserMessage { user_id: user_id@, update: update@ }
            },
            ChannelUpdate::UserConversation { user_id, target_user_id, update } => {
                ChannelUpdateView::UserConversation {
                    user_id: user_id@,
                    target_user_id: target_user_id@,
                    update: update@,
                }
            },
            ChannelUpdate::Other { channel, update } => {
                ChannelUpdateView::Other { channel: channel@, update: update@ }
            },
        }
    }
}

/// The abstract value of an optional update.
pub open spec fn update_option_view(o: Option<ChannelUpdate>) -> Option<ChannelUpdateView> {
    match o {
        Some(u) => Some(u@),
        None => None,
    }
}

/// The string that a raw JSON element denotes, if it is a string literal written without
/// escapes (the only kind that the server's channel names are read from).
pub open spec fn plain_json_string(raw: Seq<char>) -> Option<Seq<char>> {
    if raw.contains('\\') {
        None
    } else {
        json_string_value(raw)
    }
}

/// Splits `c[start..]` at its first `/` into a shard name and a room name; without a `/`,
/// all of it is the room name.
pub open spec fn shard_and_room(c: Seq<char>, start: int) -> (Option<Seq<char>>, Seq<char>) {
    let i = find_char(c, '/', start);
    if i < c.len() {
        (Some(c.subrange(start, i)), c.subrange(i + 1, c.len() as int))
    } else {
        (None, c.subrange(start, c.len() as int))
    }
}

/// The update of an unrecognized channel `c`: its single payload, kept as is.
pub open spec fn other_update(c: Seq<char>, p: Seq<Seq<char>>) -> Option<ChannelUpdateView> {
    if p.len() == 1 {
        Some(ChannelUpdateView::Other { channel: c, update: p[0] })
    } else {
        None
    }
}

/// The update that arrives on channel `c` with the payload texts `p` (the elements of the
/// update frame after the channel name), if the channel name and the payloads are well formed.
pub open spec fn update_from_channel(c: Seq<char>, p: Seq<Seq<char>>) -> Option<ChannelUpdateView> {
    if starts_with(c, "roomMap2:"@) {
        let (shard, room) = shard_and_room(c, 9);
        match parse_room_name(room) {
            None => None,
            Some(r) => if p.len() == 1 {
                Some(ChannelUpdateView::RoomMapView { room_name: r, shard_name: shard, update: p[0] })
            } else {
                None
            },
        }
    } else if starts_with(c, "room:"@) {
        let (shard, room) = shard_and_room(c, 5);
        match parse_room_name(room) {
            None => None,
            Some(r) => if p.len() == 1 {
                Some(ChannelUpdateView::RoomDetail { room_name: r, shard_name: shard, update: p[0] })
            } else {
                None
            },
        }
    } else if starts_with(c, "err@room:"@) {
        let (shard, room) = shard_and_room(c, 9);
        match parse_room_name(room) {
            None => None,
            Some(r) => if p.len() == 0 {
                None
            } else {
                match plain_json_string(p[0]) {
                    None => None,
                    Some(m) => if m == "subscribe limit reached"@ {
                        if p.len() == 1 {
                            Some(ChannelUpdateView::NoRoomDetail { room_name: r, shard_name: shard })
                        } else {
                            None
                        }
                    } else if p.len() == 2 {
                        Some(ChannelUpdateView::Other { channel: c, update: p[1] })
                    } else {
                        None
                    },
                }
            },
        }
    } else if starts_with(c, "user:"@) {
        let i = find_char(c, '/', 5);
        if i >= c.len() {
            other_update(c, p)
        } else {
            let user_id = c.subrange(5, i);
            let sub = c.subrange(i + 1, c.len() as int);
            if p.len() != 1 {
                None
            } else if sub == "cpu"@ {
                Some(ChannelUpdateView::UserCpu { user_id, update: p[0] })
            } else if sub == "console"@ {
                Some(ChannelUpdateView::UserConsole { user_id, update: p[0] })
            } else if sub == "money"@ {
                Some(ChannelUpdateView::UserCredits { user_id, update: p[0] })
            } else if sub == "newMessage"@ {
                Some(ChannelUpdateView::UserMessage { user_id, update: p[0] })
            } else if starts_with(sub, "message:"@) {
                Some(
                    ChannelUpdateView::UserConversation {
                        user_id,
                        target_user_id: sub.subrange(8, sub.len() as int),
                        update: p[0],
                    },
                )
            } else {
                other_update(c, p)
            }
        }
    } else {
        other_update(c, p)
    }
}

/// The update that the raw elements `els` of an update frame form: a channel name written as
/// a JSON string without escapes, followed by the payloads.
pub open spec fn update_from_elements(els: Seq<Seq<char>>) -> Option<ChannelUpdateView> {
    if els.len() == 0 {
        None
    } else {
        match plain_json_string(els[0]) {
            None => None,
            Some(c) => update_from_channel(c, els.subrange(1, els.len() as int)),
        }
    }
}

/// The update that the text frame `text` carries, if it is a JSON array forming one.
pub open spec fn update_from_text(text: Seq<char>) -> Option<ChannelUpdateView> {
    match json_raw_elements(text) {
        None => None,
        Some(els) => update_from_elements(els),
    }
}

/// How a channel names a room: `shard/room` on a sharded server, otherwise just the room.
pub open spec fn room_channel_name(shard: Option<Seq<char>>, room: RoomName) -> Seq<char> {
    match shard {
        Some(s) => s + seq!['/'] + room_name_text(room),
        None => room_name_text(room),
    }
}

/// The channel that an update belongs to.
pub open spec fn channel_of_update(u: ChannelUpdateView) -> ChannelView {
    match u {
        ChannelUpdateView::RoomMapView { room_name, shard_name, .. } => ChannelView::RoomMapView {
            room_name: room_channel_name(shard_name, room_name),
        },
        ChannelUpdateView::RoomDetail { room_name, shard_name, .. } => ChannelView::RoomDetail {
            room_name: room_channel_name(shard_name, room_name),
        },
        ChannelUpdateView::NoRoomDetail { room_name, shard_name } => ChannelView::RoomDetail {
            room_name: room_channel_name(shard_name, room_name),
        },
        ChannelUpdateView::UserCpu { user_id, .. } => ChannelView::UserCpu { user_id },
        ChannelUpdateView::UserConsole { user_id, .. } => ChannelView::UserConsole { user_id },
        ChannelUpdateView::UserCredits { user_id, .. } => ChannelView::UserCredits { user_id },
        ChannelUpdateView::UserMessage { user_id, .. } => ChannelView::UserMessages { user_id },
        ChannelUpdateView::UserConversation { user_id, target_user_id, .. } => {
            ChannelView::UserConversation { user_id, target_user_id }
        },
        ChannelUpdateView::Other { channel, .. } => ChannelView::Other { channel },
    }
}

/// The shard named in an update, for the updates that belong to a room.
pub open spec fn shard_of_update(u: ChannelUpdateView) -> Option<Seq<char>> {
    match u {
        ChannelUpdateView::RoomMapView { shard_name, .. } => shard_name,
        ChannelUpdateView::RoomDetail { shard_name, .. } => shard_name,
        ChannelUpdateView::NoRoomDetail { shard_name, .. } => shard_name,
        _ => None,
    }
}

/// The room of an update, for the updates that belong to a room.
pub open spec fn room_of_update(u: ChannelUpdateView) -> Option<RoomName> {
    match u {
        ChannelUpdateView::RoomMapView { room_name, .. } => Some(room_name),
        ChannelUpdateView::RoomDetail { room_name, .. } => Some(room_name),
        ChannelUpdateView::NoRoomDetail { room_name, .. } => Some(room_name),
        _ => None,
    }
}

/// The subscribed user of an update, for the updates that belong to a user.
pub open spec fn user_of_update(u: ChannelUpdateView) -> Option<Seq<char>> {
    match u {
        ChannelUpdateView::UserCpu { user_id, .. } => Some(user_id),
        ChannelUpdateView::UserConsole { user_id, .. } => Some(user_id),
        ChannelUpdateView::UserCredits { user_id, .. } => Some(user_id),
        ChannelUpdateView::UserMessage { user_id, .. } => Some(user_id),
        ChannelUpdateView::UserConversation { user_id, .. } => Some(user_id),
        _ => None,
    }
}

/// The characters of an optional string slice.
pub open spec fn opt_str_view(o: Option<&str>) -> Option<Seq<char>> {
    match o {
        Some(s) => Some(s@),
        None => None,
    }
}

/// Decodes a raw JSON element that must be a string literal written without escapes.
fn decode_plain_string(raw: &String) -> (r: Option<String>)
    ensures
        opt_view(r) == plain_json_string(raw@),
{
    let cs = chars_of(raw.as_str());
    let slash = find_char_from(&cs, '\\', 0);
    proof {
        crate::text::lemma_find_char(cs@, '\\', 0);
        if slash < cs@.len() {
            assert(raw@[slash as int] == '\\');
        } else {
            assert forall|j: int| 0 <= j < raw@.len() implies raw@[j] != '\\' by {
                assert(cs@[j] != '\\');
            }
        }
    }
    if slash < cs.len() {
        return None;
    }
    match json_decode_string(raw.as_str()) {
        Ok(s) => Some(s),
        Err(_) => None,
    }
}

/// The shard and room named by `cs[start..]`.
fn room_target(cs: &Vec<char>, start: usize) -> (r: Option<(Option<String>, RoomName)>)
    requires
        start <= cs@.len(),
    ensures
        match parse_room_name(shard_and_room(cs@, start as int).1) {
            None => r is None,
            Some(n) => r matches Some((s, rn)) && rn == n && opt_view(s) == shard_and_room(
                cs@,
                start as int,
            ).0,
        },
{
    let i = find_char_from(cs, '/', start);
    proof {
        crate::text::lemma_find_char(cs@, '/', start as int);
    }
    if i < cs.len() {
        let shard = string_of(cs.as_slice(), start, i);
        match RoomName::from_chars(cs.as_slice(), i + 1, cs.len()) {
            Ok(room) => Some((Some(shard), room)),
            Err(_) => None,
        }
    } else {
        match RoomName::from_chars(cs.as_slice(), start, cs.len()) {
            Ok(room) => Some((None, room)),
            Err(_) => None,
        }
    }
}

/// The update of an unrecognized channel.
fn other(channel: &str, payloads: &Vec<String>) -> (r: Option<ChannelUpdate>)
    ensures
        update_option_view(r) == other_update(channel@, texts(payloads@)),
{
    if payloads.len() == 1 {
        Some(ChannelUpdate::Other { channel: channel.to_owned(), update: payloads[0].clone() })
    } else {
        None
    }
}

/// How a channel names a room: `shard/room` on a sharded server, otherwise just the room.
fn room_channel_string(shard: &Option<String>, room: &RoomName) -> (r: String)
    ensures
        r@ == room_channel_name(opt_view(*shard), *room),
{
    let room_text = room.to_string();
    match shard {
        Some(s) => {
            let mut out = s.clone();
            out.push('/');
            out.push_str(room_text.as_str());
            out
        },
        None => room_text,
    }
}

impl ChannelUpdate {
    /// The shard of the room this update is for, if it is for a room on a sharded server.
    pub fn shard_name(&self) -> (r: Option<&str>)
        ensures
            opt_str_view(r) == shard_of_update(self@),
    {
        match self {
            ChannelUpdate::RoomMapView { shard_name, .. }
            | ChannelUpdate::RoomDetail { shard_name, .. }
            | ChannelUpdate::NoRoomDetail { shard_name, .. } => match shard_name {
                Some(s) => Some(s.as_str()),
                None => None,
            },
            _ => None,
        }
    }

    /// The room this update is for, if it is directly associated with a room.
    pub fn room_name(&self) -> (r: Option<&RoomName>)
        ensures
            match r {
                Some(n) => room_of_update(self@) == Some(*n),
                None => room_of_update(self@) is None,
            },
    {
        match self {
            ChannelUpdate::RoomMapView { room_name, .. }
            | ChannelUpdate::RoomDetail { room_name, .. }
            | ChannelUpdate::NoRoomDetail { room_name, .. } => Some(room_name),
            _ => None,
        }
    }

    /// The subscribed user this update is for, if it is directly associated with one.
    ///
    /// This is always the subscribed user: for message updates, the user receiving the
    /// notification, not the sender.
    pub fn user_id(&self) -> (r: Option<&str>)
        ensures
            opt_str_view(r) == user_of_update(self@),
    {
        match self {
            ChannelUpdate::UserCpu { user_id, .. }
            | ChannelUpdate::UserConsole { user_id, .. }
            | ChannelUpdate::UserMessage { user_id, .. }
            | ChannelUpdate::UserConversation { user_id, .. }
            | ChannelUpdate::UserCredits { user_id, .. } => Some(user_id.as_str()),
            _ => None,
        }
    }

    /// The channel this update is from: subscribing to it or unsubscribing from it concerns
    /// this update's stream.
    pub fn channel(&self) -> (r: Channel)
        ensures
            r@ == channel_of_update(self@),
    {
        match self {
            ChannelUpdate::RoomMapView { room_name, shard_name, .. } => {
                let name = room_channel_string(shard_name, room_name);
                Channel::room_map_view(name.as_str())
            },
            ChannelUpdate::RoomDetail { room_name, shard_name, .. }
            | ChannelUpdate::NoRoomDetail { room_name, shard_name } => {
                let name = room_channel_string(shard_name, room_name);
                Channel::room_detail(name.as_str())
            },
            ChannelUpdate::UserCpu { user_id, .. } => Channel::user_cpu(user_id.as_str()),
            ChannelUpdate::UserConsole { user_id, .. } => Channel::user_console(user_id.as_str()),
            ChannelUpdate::UserCredits { user_id, .. } => Channel::user_credits(user_id.as_str()),
            ChannelUpdate::UserMessage { user_id, .. } => Channel::user_messages(user_id.as_str()),
            ChannelUpdate::UserConversation { user_id, target_user_id, .. } => {
                Channel::user_conversation(user_id.as_str(), target_user_id.as_str())
            },
            ChannelUpdate::Other { channel, .. } => Channel::other(channel.as_str()),
        }
    }

    /// The update that arrives on the channel named `channel` with the raw JSON payload texts
    /// `payloads`, or `None` where the channel name or the payloads are malformed.
    pub fn from_channel(channel: &str, payloads: &Vec<String>) -> (r: Option<ChannelUpdate>)
        ensures
            update_option_view(r) == update_from_channel(channel@, texts(payloads@)),
    {
        let ghost p = texts(payloads@);
        let cs = chars_of(channel);
        proof {
            reveal_strlit("roomMap2:");
            reveal_strlit("room:");
            reveal_strlit("err@room:");
            reveal_strlit("user:");
            reveal_strlit("message:");
        }
        if has_prefix(cs.as_slice(), "roomMap2:") {
            match room_target(&cs, 9) {
                None => None,
                Some((shard_name, room_name)) => if payloads.len() == 1 {
                    Some(ChannelUpdate::RoomMapView { room_name, shard_name, update: payloads[0].clone() })
                } else {
                    None
                },
            }
        } else if has_prefix(cs.as_slice(), "room:") {
            match room_target(&cs, 5) {
                None => None,
                Some((shard_name, room_name)) => if payloads.len() == 1 {
                    Some(ChannelUpdate::RoomDetail { room_name, shard_name, update: payloads[0].clone() })
                } else {
                    None
                },
            }
        } else if has_prefix(cs.as_slice(), "err@room:") {
            match room_target(&cs, 9) {
                None => None,
                Some((shard_name, room_name)) => {
                    if payloads.len() == 0 {
                        return None;
                    }
                    match decode_plain_string(&payloads[0]) {
                        None => None,
                        Some(message) => {
                            let mcs = chars_of(message.as_str());
                            if segment_equals(mcs.as_slice(), 0, mcs.len(), "subscribe limit reached") {
                                proof {
                                    assert(mcs@.subrange(0, mcs@.len() as int) =~= message@);
                                }
                                if payloads.len() == 1 {
                                    Some(ChannelUpdate::NoRoomDetail { room_name, shard_name })
                                } else {
                                    None
                                }
                            } else {
                                proof {
                                    assert(mcs@.subrange(0, mcs@.len() as int) =~= message@);
                                }
                                if payloads.len() == 2 {
                                    Some(
                                        ChannelUpdate::Other {
                                            channel: channel.to_owned(),
                                            update: payloads[1].clone(),
                                        },
                                    )
                                } else {
                                    None
                                }
                            }
                        },
                    }
                },
            }
        } else if has_prefix(cs.as_slice(), "user:") {
            let i = find_char_from(cs.as_slice(), '/', 5);
            proof {
                crate::text::lemma_find_char(cs@, '/', 5);
            }
            if i >= cs.len() {
                return other(channel, payloads);
            }
            if payloads.len() != 1 {
                return None;
            }
            let n = cs.len();
            let user_id = string_of(cs.as_slice(), 5, i);
            if segment_equals(cs.as_slice(), i + 1, n, "cpu") {
                Some(ChannelUpdate::UserCpu { user_id, update: payloads[0].clone() })
            } else if segment_equals(cs.as_slice(), i + 1, n, "console") {
                Some(ChannelUpdate::UserConsole { user_id, update: payloads[0].clone() })
            } else if segment_equals(cs.as_slice(), i + 1, n, "money") {
                Some(ChannelUpdate::UserCredits { user_id, update: payloads[0].clone() })
            } else if segment_equals(cs.as_slice(), i + 1, n, "newMessage") {
                Some(ChannelUpdate::UserMessage { user_id, update: payloads[0].clone() })
            } else {
                let sub = string_of(cs.as_slice(), i + 1, n);
                let subc = chars_of(sub.as_str());
                if has_prefix(subc.as_slice(), "message:") {
                    let target_user_id = string_of(subc.as_slice(), 8, subc.len());
                    Some(
                        ChannelUpdate::UserConversation {
                            user_id,
                            target_user_id,
                            update: payloads[0].clone(),
                        },
                    )
                } else {
                    other(channel, payloads)
                }
            }
        } else {
            other(channel, payloads)
        }
    }

    /// Parses an update frame: a JSON array of the channel name and the update's data.
    /// `None` where the frame is not such an array or names its channel in a malformed way.
    pub fn parse(text: &str) -> (r: Option<ChannelUpdate>)
        ensures
            update_option_view(r) == update_from_text(text@),
    {
        let elements = match json_decode_raw_elements(text) {
            Ok(v) => v,
            Err(_) => {
                return None;
            },
        };
        if elements.len() == 0 {
            return None;
        }
        let channel = match decode_plain_string(&elements[0]) {
            Some(c) => c,
            None => {
                return None;
            },
        };
        let mut payloads: Vec<String> = Vec::new();
        let mut i: usize = 1;
        while i < elements.len()
            invariant
                1 <= i <= elements@.len(),
                payloads@.len() == i - 1,
                texts(payloads@) == texts(elements@).subrange(1, i as int),
            decreases elements.len() - i,
        {
            let e = elements[i].clone();
            let ghost before = payloads@;
            payloads.push(e);
            proof {
                assert(payloads@ == before.push(e));
                assert forall|j: int| 0 <= j < payloads@.len() implies texts(payloads@)[j]
                    == texts(elements@).subrange(1, i + 1)[j] by {
                    if j < before.len() {
                        assert(texts(payloads@)[j] == payloads@[j]@);
                        assert(payloads@[j] == before[j]);
                        assert(texts(before)[j] == texts(elements@).subrange(1, i as int)[j]);
                    } else {
                        assert(payloads@[j] == e);
                        assert(texts(payloads@)[j] == e@);
                        assert(texts(elements@)[i as int] == elements@[i as int]@);
                    }
                }
            }
            i += 1;
            assert(texts(payloads@) =~= texts(elements@).subrange(1, i as int));
        }
        Self::from_channel(channel.as_str(), &payloads)
    }
}


proof fn lemma_room_text_no_slash(r: RoomName)
    ensures
        !room_name_text(r).contains('/'),
{
    crate::decimal::lemma_decimal_text(r.x as nat);
    crate::decimal::lemma_decimal_text(r.y as nat);
    let t = room_name_text(r);
    let xs = crate::decimal::decimal_text(r.x as nat);
    let ys = crate::decimal::decimal_text(r.y as nat);
    assert forall|j: int| 0 <= j < t.len() implies t[j] != '/' by {
        if 1 <= j < 1 + xs.len() {
            assert(t[j] == xs[j - 1]);
            assert(crate::decimal::is_digit(xs[j - 1]));
        } else if 1 + xs.len() < j {
            assert(t[j] == ys[j - 2 - xs.len()]);
            assert(crate::decimal::is_digit(ys[j - 2 - xs.len()]));
        }
    }
}

/// Splitting `prefix + name` after the prefix, where `name` is how a channel names a room,
/// gives back the shard and the canonical room name.
proof fn lemma_split_room_channel(prefix: Seq<char>, shard: Option<Seq<char>>, r: RoomName)
    requires
        shard matches Some(s) ==> !s.contains('/'),
    ensures
        shard_and_room(prefix + room_channel_name(shard, r), prefix.len() as int) == (
            shard,
            room_name_text(r),
        ),
{
    lemma_room_text_no_slash(r);
    let t = prefix + room_channel_name(shard, r);
    let start = prefix.len() as int;
    let rt = room_name_text(r);
    match shard {
        Some(s) => {
            let k = start + s.len();
            assert forall|j: int| start <= j < k implies #[trigger] t[j] != '/' by {
                assert(t[j] == s[j - start]);
            }
            assert(t[k] == '/');
            lemma_find_char_at(t, '/', start, k);
            assert(t.subrange(start, k) =~= s);
            assert(t.subrange(k + 1, t.len() as int) =~= rt);
        },
        None => {
            assert forall|j: int| start <= j < t.len() implies #[trigger] t[j] != '/' by {
                assert(t[j] == rt[j - start]);
            }
            lemma_find_char_at(t, '/', start, t.len() as int);
            assert(t.subrange(start, t.len() as int) =~= rt);
        },
    }
}

/// The shard named in a room channel has no `/` in it.
proof fn lemma_shard_no_slash(c: Seq<char>, start: int)
    requires
        0 <= start <= c.len(),
    ensures
        shard_and_room(c, start).0 matches Some(s) ==> !s.contains('/'),
{
    lemma_find_char(c, '/', start);
    let i = find_char(c, '/', start);
    if i < c.len() {
        let s = c.subrange(start, i);
        assert forall|j: int| 0 <= j < s.len() implies s[j] != '/' by {
            assert(s[j] == c[start + j]);
        }
    }
}

/// The channel that an update on a user channel or an unrecognized channel names is spelled,
/// letter for letter, as the channel it arrived on; subscribing to it subscribes to that very
/// channel. (A room channel's name comes back with the room name in its canonical spelling; see
/// `lemma_update_channel_roundtrip`.)
pub proof fn lemma_update_channel_text(c: Seq<char>, p: Seq<Seq<char>>)
    requires
        update_from_channel(c, p) is Some,
        !(update_from_channel(c, p)->0 is RoomMapView),
        !(update_from_channel(c, p)->0 is RoomDetail),
        !(update_from_channel(c, p)->0 is NoRoomDetail),
    ensures
        channel_text(channel_of_update(update_from_channel(c, p)->0)) == c,
{
    reveal_strlit("roomMap2:");
    reveal_strlit("room:");
    reveal_strlit("err@room:");
    reveal_strlit("user:");
    reveal_strlit("cpu");
    reveal_strlit("console");
    reveal_strlit("money");
    reveal_strlit("newMessage");
    reveal_strlit("message:");
    reveal_strlit("/cpu");
    reveal_strlit("/console");
    reveal_strlit("/money");
    reveal_strlit("/newMessage");
    reveal_strlit("/message:");
    let u = update_from_channel(c, p)->0;
    let t = channel_text(channel_of_update(u));
    if starts_with(c, "roomMap2:"@) || starts_with(c, "room:"@) || starts_with(c, "err@room:"@) {
        assert(t == c);
    } else if starts_with(c, "user:"@) {
        let i = find_char(c, '/', 5);
        lemma_find_char(c, '/', 5);
        if i < c.len() {
            let user_id = c.subrange(5, i);
            let sub = c.subrange(i + 1, c.len() as int);
            assert(c =~= c.take(5) + user_id + seq!['/'] + sub);
            assert(c.take(5) =~= "user:"@);
            if u is Other {
                assert(t == c);
            } else if sub == "cpu"@ {
                assert(t =~= "user:"@ + user_id + ("/cpu"@));
                assert("/cpu"@ =~= seq!['/'] + sub);
                assert(t =~= c);
            } else if sub == "console"@ {
                assert(t =~= "user:"@ + user_id + ("/console"@));
                assert("/console"@ =~= seq!['/'] + sub);
                assert(t =~= c);
            } else if sub == "money"@ {
                assert(t =~= "user:"@ + user_id + ("/money"@));
                assert("/money"@ =~= seq!['/'] + sub);
                assert(t =~= c);
            } else if sub == "newMessage"@ {
                assert(t =~= "user:"@ + user_id + ("/newMessage"@));
                assert("/newMessage"@ =~= seq!['/'] + sub);
                assert(t =~= c);
            } else {
                let target = sub.subrange(8, sub.len() as int);
                assert(sub =~= sub.take(8) + target);
                assert(sub.take(8) =~= "message:"@);
                assert(t =~= "user:"@ + user_id + ("/message:"@) + target);
                assert("/message:"@ =~= seq!['/'] + "message:"@);
                assert(t =~= c);
            }
        } else {
            assert(t == c);
        }
    } else {
        assert(t == c);
    }
}

/// An update names the channel it arrived on: parsing the name of that channel again with the
/// same payloads gives back the same update. User and unrecognized channels come back letter
/// for letter; a room channel comes back with the room name in its canonical spelling.
/// (A subscribe-limit notice, which arrives on `err@room:`, names the room detail channel
/// whose update it stands in for, and is left out here.)
pub proof fn lemma_update_channel_roundtrip(c: Seq<char>, p: Seq<Seq<char>>)
    requires
        update_from_channel(c, p) is Some,
        !(update_from_channel(c, p)->0 is NoRoomDetail),
    ensures
        update_from_channel(channel_text(channel_of_update(update_from_channel(c, p)->0)), p)
            == update_from_channel(c, p),
{
    reveal_strlit("roomMap2:");
    reveal_strlit("room:");
    reveal_strlit("err@room:");
    reveal_strlit("user:");
    reveal_strlit("cpu");
    reveal_strlit("console");
    reveal_strlit("money");
    reveal_strlit("newMessage");
    reveal_strlit("message:");
    reveal_strlit("/cpu");
    reveal_strlit("/console");
    reveal_strlit("/money");
    reveal_strlit("/newMessage");
    reveal_strlit("/message:");
    let u = update_from_channel(c, p)->0;
    let t = channel_text(channel_of_update(u));
    if starts_with(c, "roomMap2:"@) {
        let (shard, room) = shard_and_room(c, 9);
        lemma_shard_no_slash(c, 9);
        let r = parse_room_name(room)->0;
        crate::room_name::lemma_room_name_roundtrip(r);
        lemma_split_room_channel("roomMap2:"@, shard, r);
        assert(t == "roomMap2:"@ + room_channel_name(shard, r));
        assert(t.take(9) =~= "roomMap2:"@);
    } else if starts_with(c, "room:"@) {
        let (shard, room) = shard_and_room(c, 5);
        lemma_shard_no_slash(c, 5);
        let r = parse_room_name(room)->0;
        crate::room_name::lemma_room_name_roundtrip(r);
        lemma_split_room_channel("room:"@, shard, r);
        assert(t == "room:"@ + room_channel_name(shard, r));
        assert(t.take(5) =~= "room:"@);
        assert(t[4] == ':');
        assert(!starts_with(t, "roomMap2:"@)) by {
            if starts_with(t, "roomMap2:"@) {
                assert(t.take(9)[4] == 'M');
            }
        }
    } else if starts_with(c, "err@room:"@) {
        assert(t == c);
    } else if starts_with(c, "user:"@) {
        let i = find_char(c, '/', 5);
        lemma_find_char(c, '/', 5);
        if i < c.len() {
            let user_id = c.subrange(5, i);
            let sub = c.subrange(i + 1, c.len() as int);
            assert(c =~= c.take(5) + user_id + seq!['/'] + sub);
            assert(c.take(5) =~= "user:"@);
            if u is Other {
                assert(t == c);
            } else if sub == "cpu"@ {
                assert(t =~= "user:"@ + user_id + ("/cpu"@));
                assert("/cpu"@ =~= seq!['/'] + sub);
                assert(t =~= c);
            } else if sub == "console"@ {
                assert(t =~= "user:"@ + user_id + ("/console"@));
                assert("/console"@ =~= seq!['/'] + sub);
                assert(t =~= c);
            } else if sub == "money"@ {
                assert(t =~= "user:"@ + user_id + ("/money"@));
                assert("/money"@ =~= seq!['/'] + sub);
                assert(t =~= c);
            } else if sub == "newMessage"@ {
                assert(t =~= "user:"@ + user_id + ("/newMessage"@));
                assert("/newMessage"@ =~= seq!['/'] + sub);
                assert(t =~= c);
            } else {
                let target = sub.subrange(8, sub.len() as int);
                assert(sub =~= sub.take(8) + target);
                assert(sub.take(8) =~= "message:"@);
                assert(t =~= "user:"@ + user_id + ("/message:"@) + target);
                assert("/message:"@ =~= seq!['/'] + "message:"@);
                assert(t =~= c);
            }
        } else {
            assert(t == c);
        }
    } else {
        assert(t == c);
    }
}

/// An update on a user's channel is of the kind that the channel's last part names, for the
/// user that the channel names, and holds the frame's one payload: `cpu` gives a CPU update,
/// `console` a console update, `money` a credits update and `newMessage` a new-message update.
/// Each such update names back the channel it came from.
pub proof fn lemma_user_channel_kind(u: Seq<char>, sub: Seq<char>, p: Seq<char>)
    requires
        !u.contains('/'),
    ensures
        sub == "cpu"@ ==> update_from_channel("user:"@ + u + seq!['/'] + sub, seq![p]) == Some(
            ChannelUpdateView::UserCpu { user_id: u, update: p },
        ),
        sub == "console"@ ==> update_from_channel("user:"@ + u + seq!['/'] + sub, seq![p])
            == Some(ChannelUpdateView::UserConsole { user_id: u, update: p }),
        sub == "money"@ ==> update_from_channel("user:"@ + u + seq!['/'] + sub, seq![p]) == Some(
            ChannelUpdateView::UserCredits { user_id: u, update: p },
        ),
        sub == "newMessage"@ ==> update_from_channel("user:"@ + u + seq!['/'] + sub, seq![p])
            == Some(ChannelUpdateView::UserMessage { user_id: u, update: p }),
        channel_text(channel_of_update(ChannelUpdateView::UserCpu { user_id: u, update: p }))
            == "user:"@ + u + "/cpu"@,
        channel_text(channel_of_update(ChannelUpdateView::UserConsole { user_id: u, update: p }))
            == "user:"@ + u + "/console"@,
        channel_text(channel_of_update(ChannelUpdateView::UserCredits { user_id: u, update: p }))
            == "user:"@ + u + "/money"@,
        channel_text(channel_of_update(ChannelUpdateView::UserMessage { user_id: u, update: p }))
            == "user:"@ + u + "/newMessage"@,
{
    reveal_strlit("roomMap2:");
    reveal_strlit("room:");
    reveal_strlit("err@room:");
    reveal_strlit("user:");
    reveal_strlit("cpu");
    reveal_strlit("console");
    reveal_strlit("money");
    reveal_strlit("newMessage");
    let c = "user:"@ + u + seq!['/'] + sub;
    let k: int = 5 + u.len() as int;
    assert(c.take(5) =~= "user:"@);
    assert(c[0] == 'u');
    assert(!starts_with(c, "roomMap2:"@)) by {
        if starts_with(c, "roomMap2:"@) {
            assert(c.take(9)[0] == "roomMap2:"@[0]);
        }
    }
    assert(!starts_with(c, "room:"@)) by {
        if starts_with(c, "room:"@) {
            assert(c.take(5)[0] == "room:"@[0]);
        }
    }
    assert(!starts_with(c, "err@room:"@)) by {
        if starts_with(c, "err@room:"@) {
            assert(c.take(9)[0] == "err@room:"@[0]);
        }
    }
    assert forall|j: int| 5 <= j < k implies #[trigger] c[j] != '/' by {
        assert(c[j] == u[j - 5]);
    }
    assert(c[k] == '/');
    lemma_find_char_at(c, '/', 5, k);
    assert(c.subrange(5, k) =~= u);
    assert(c.subrange(k + 1, c.len() as int) =~= sub);
    assert(seq![p][0] == p);
}

} // verus!
