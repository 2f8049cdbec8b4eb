//! Channels that a websocket connection can subscribe to.
use vstd::prelude::*;

verus! {

/// Different channels one can subscribe to.
#[derive(Clone, Debug, PartialEq, Eq)]
pub enum Channel {
    /// Server messages.
    ServerMessages,
    /// User CPU and memory usage updates. Sent at the end of each tick.
    UserCpu {
        /// The user ID of the subscription.
        user_id: String,
    },
    /// User message updates. Sent when the user receives any new message.
    UserMessages {
        /// The user ID of the subscription.
        user_id: String,
    },
    /// Specific conversation alerts. Updates when a new message is received from a particular user.
    UserConversation {
        /// The user ID of the connected user.
        user_id: String,
        /// The user ID on the other side of the conversation to listen to.
        target_user_id: String,
    },
    /// User credit alerts. Updates whenever the user's credit changes.
    UserCredits {
        /// The user ID of the subscription.
        user_id: String,
    },
    /// Memory path alerts. Updates whenever this specific memory path changes.
    UserMemoryPath {
        /// The user ID of the subscription.
        user_id: String,
        /// The memory path, separated with '.'.
        path: String,
    },
    /// Console alerts. Updates at the end of every tick with all console messages during that tick.
    UserConsole {
        /// The user ID of the subscription.
        user_id: String,
    },
    /// User active branch changes: updates whenever the active branch changes.
    UserActiveBranch {
        /// The user ID of the subscription.
        user_id: String,
    },
    /// Room overview updates for one room, once per tick.
    RoomMapView {
        /// The room name of the subscription (`shard/room` on sharded servers).
        room_name: String,
    },
    /// Detailed room updates, once per tick, with every room object property that changed.
    ///
    /// Only two such subscriptions per account receive updates on a given tick; the others
    /// receive an error message instead.
    RoomDetail {
        /// The room name of the subscription (`shard/room` on sharded servers).
        room_name: String,
    },
    /// A channel specified by the exact channel id.
    Other {
        /// The channel protocol string.
        channel: String,
    },
}

/// The abstract value of a `Channel`: its strings as character sequences.
pub enum ChannelView {
    ServerMessages,
    UserCpu { user_id: Seq<char> },
    UserMessages { user_id: Seq<char> },
    UserConversation { user_id: Seq<char>, target_user_id: Seq<char> },
    UserCredits { user_id: Seq<char> },
    UserMemoryPath { user_id: Seq<char>, path: Seq<char> },
    UserConsole { user_id: Seq<char> },
    UserActiveBranch { user_id: Seq<char> },
    RoomMapView { room_name: Seq<char> },
    RoomDetail { room_name: Seq<char> },
    Other { channel: Seq<char> },
}

impl View for Channel {
    type V = ChannelView;

    open spec fn view(&self) -> ChannelView {
        match self {
            Channel::ServerMessages => ChannelView::ServerMessages,
            Channel::UserCpu { user_id } => ChannelView::UserCpu { user_id: user_id@ },
            Channel::UserMessages { user_id } => ChannelView::UserMessages { user_id: user_id@ },
            Channel::UserConversation { user_id, target_user_id } => ChannelView::UserConversation {
                user_id: user_id@,
                target_user_id: target_user_id@,
            },
            Channel::UserCredits { user_id } => ChannelView::UserCredits { user_id: user_id@ },
            Channel::UserMemoryPath { user_id, path } => ChannelView::UserMemoryPath {
                user_id: user_id@,
                path: path@,
            },
            Channel::UserConsole { user_id } => ChannelView::UserConsole { user_id: user_id@ },
            Channel::UserActiveBranch { user_id } => ChannelView::UserActiveBranch {
                user_id: user_id@,
            },
            Channel::RoomMapView { room_name } => ChannelView::RoomMapView { room_name: room_name@ },
            Channel::RoomDetail { room_name } => ChannelView::RoomDetail { room_name: room_name@ },
            Channel::Other { channel } => ChannelView::Other { channel: channel@ },
        }
    }
}

/// The protocol name of a channel, as the server spells it.
pub open spec fn channel_text(c: ChannelView) -> Seq<char> {
    match c {
        ChannelView::ServerMessages => "server-message"@,
        ChannelView::UserCpu { user_id } => "user:"@ + user_id + "/cpu"@,
        ChannelView::UserMessages { user_id } => "user:"@ + user_id + "/newMessage"@,
        ChannelView::UserConversation { user_id, target_user_id } => "user:"@ + user_id
            + "/message:"@ + target_user_id,
        ChannelView::UserCredits { user_id } => "user:"@ + user_id + "/money"@,
        ChannelView::UserMemoryPath { user_id, path } => "user:"@ + user_id + "/memory/"@ + path,
        ChannelView::UserConsole { user_id } => "user:"@ + user_id + "/console"@,
        ChannelView::UserActiveBranch { user_id } => "user:"@ + user_id + "/set-active-branch"@,
        ChannelView::RoomMapView { room_name } => "roomMap2:"@ + room_name,
        ChannelView::RoomDetail { room_name } => "room:"@ + room_name,
        ChannelView::Other { channel } => channel,
    }
}

impl Channel {
    /// The protocol name of this channel, as the server spells it.
    pub open spec fn text(&self) -> Seq<char> {
        channel_text(self@)
    }

    /// Creates a channel subscribing to server messages.
    pub fn server_messages() -> (r: Self)
        ensures
            r@ == ChannelView::ServerMessages,
    {
        Channel::ServerMessages
    }

    /// Creates a channel subscribing to a user's CPU and memory.
    pub fn user_cpu(user_id: &str) -> (r: Self)
        ensures
            r@ == (ChannelView::UserCpu { user_id: user_id@ }),
    {
        Channel::UserCpu { user_id: user_id.to_owned() }
    }

    /// Creates a channel subscribing to a user's new message notifications.
    pub fn user_messages(user_id: &str) -> (r: Self)
        ensures
            r@ == (ChannelView::UserMessages { user_id: user_id@ }),
    {
        Channel::UserMessages { user_id: user_id.to_owned() }
    }

    /// Creates a channel subscribing to new messages in a user's specific conversation.
    pub fn user_conversation(user_id: &str, target_user_id: &str) -> (r: Self)
        ensures
            r@ == (ChannelView::UserConversation {
                user_id: user_id@,
                target_user_id: target_user_id@,
            }),
    {
        Channel::UserConversation {
            user_id: user_id.to_owned(),
            target_user_id: target_user_id.to_owned(),
        }
    }

    /// Creates a channel subscribing to a user's credit count.
    pub fn user_credits(user_id: &str) -> (r: Self)
        ensures
            r@ == (ChannelView::UserCredits { user_id: user_id@ }),
    {
        Channel::UserCredits { user_id: user_id.to_owned() }
    }

    /// Creates a channel subscribing to a path in a user's memory.
    pub fn user_memory_path(user_id: &str, path: &str) -> (r: Self)
        ensures
            r@ == (ChannelView::UserMemoryPath { user_id: user_id@, path: path@ }),
    {
        Channel::UserMemoryPath { user_id: user_id.to_owned(), path: path.to_owned() }
    }

    /// Creates a channel subscribing to a user's console output.
    pub fn user_console(user_id: &str) -> (r: Self)
        ensures
            r@ == (ChannelView::UserConsole { user_id: user_id@ }),
    {
        Channel::UserConsole { user_id: user_id.to_owned() }
    }

    /// Creates a channel subscribing to when a user's active code branch changes.
    pub fn user_active_branch(user_id: &str) -> (r: Self)
        ensures
            r@ == (ChannelView::UserActiveBranch { user_id: user_id@ }),
    {
        Channel::UserActiveBranch { user_id: user_id.to_owned() }
    }

    /// Creates a channel subscribing to map-view updates of a room.
    pub fn room_map_view(room_name: &str) -> (r: Self)
        ensures
            r@ == (ChannelView::RoomMapView { room_name: room_name@ }),
    {
        Channel::RoomMapView { room_name: room_name.to_owned() }
    }

    /// Creates a channel subscribing to detailed updates of a room's contents.
    ///
    /// Only two such subscriptions per account receive updates on a given tick.
    pub fn room_detail(room_name: &str) -> (r: Self)
        ensures
            r@ == (ChannelView::RoomDetail { room_name: room_name@ }),
    {
        Channel::RoomDetail { room_name: room_name.to_owned() }
    }

    /// Creates a channel using the fully specified channel name.
    pub fn other(channel: &str) -> (r: Self)
        ensures
            r@ == (ChannelView::Other { channel: channel@ }),
    {
        Channel::Other { channel: channel.to_owned() }
    }

    /// Appends the channel's protocol name to `start` (no space is added between them).
    pub fn chain_and_complete_message(&self, start: &str) -> (r: String)
        ensures
            r@ == start@ + self.text(),
    {
        let mut out = start.to_owned();
        match self {
            Channel::ServerMessages => {
                out.push_str("server-message");
            },
            Channel::UserCpu { user_id } => {
                out.push_str("user:");
                out.push_str(user_id.as_str());
                out.push_str("/cpu");
            },
            Channel::UserMessages { user_id } => {
                out.push_str("user:");
                out.push_str(user_id.as_str());
                out.push_str("/newMessage");
            },
            Channel::UserConversation { user_id, target_user_id } => {
                out.push_str("user:");
                out.push_str(user_id.as_str());
                out.push_str("/message:");
                out.push_str(target_user_id.as_str());
            },
            Channel::UserCredits { user_id } => {
                out.push_str("user:");
                out.push_str(user_id.as_str());
                out.push_str("/money");
            },
            Channel::UserMemoryPath { user_id, path } => {
                out.push_str("user:");
                out.push_str(user_id.as_str());
                out.push_str("/memory/");
                out.push_str(path.as_str());
            },
            Channel::UserConsole { user_id } => {
                out.push_str("user:");
                out.push_str(user_id.as_str());
                out.push_str("/console");
            },
            Channel::UserActiveBranch { user_id } => {
                out.push_str("user:");
                out.push_str(user_id.as_str());
                out.push_str("/set-active-branch");
            },
            Channel::RoomMapView { room_name } => {
                out.push_str("roomMap2:");
                out.push_str(room_name.as_str());
            },
            Channel::RoomDetail { room_name } => {
                out.push_str("room:");
                out.push_str(room_name.as_str());
            },
            Channel::Other { channel } => {
                out.push_str(channel.as_str());
            },
        }
        out
    }

    /// The protocol name of this channel, as a new `String`.
    pub fn to_string(&self) -> (r: String)
        ensures
            r@ == self.text(),
    {
        proof {
            reveal_strlit("");
        }
        let r = self.chain_and_complete_message("");
        assert(r@ =~= self.text());
        r
    }
}

} // verus!
