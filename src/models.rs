//! The payloads of gateway events, each read from the JSON tree of a frame.
use vstd::prelude::*;
use crate::json::Json;

verus! {

/// The identifier of a user.
pub struct UserId(pub String);

/// The identifier of a message.
pub struct MessageId(pub String);

/// The identifier of a channel.
pub struct ChannelId(pub String);

/// The identifier of a server.
pub struct ServerId(pub String);

/// The identifier of a custom emoji.
pub struct EmojiId(pub String);

/// The identifier of a role within a server.
pub struct RoleId(pub String);

/// A message posted in a channel.
pub struct Message {
    pub id: MessageId,
    pub author: UserId,
    pub channel_id: ChannelId,
    pub content: String,
    pub nonce: Option<String>,
}

impl Message {
    pub open spec fn wire_ok(j: Json) -> bool {
        &&& j.str_at("_id"@) is Some
        &&& j.str_at("author"@) is Some
        &&& j.str_at("channel"@) is Some
        &&& j.str_at("content"@) is Some
    }

    pub open spec fn read_from(self, j: Json) -> bool {
        &&& self.id.0@ == j.str_at("_id"@)->0
        &&& self.author.0@ == j.str_at("author"@)->0
        &&& self.channel_id.0@ == j.str_at("channel"@)->0
        &&& self.content@ == j.str_at("content"@)->0
        &&& match self.nonce {
            Some(n) => j.str_at("nonce"@) == Some(n@),
            None => j.str_at("nonce"@) is None,
        }
    }

    /// Reads a message; the nonce is optional, the rest is required.
    pub fn from_json(j: &Json) -> (r: Option<Self>)
        ensures
            r is Some <==> Self::wire_ok(*j),
            r matches Some(p) ==> p.read_from(*j),
    {
        let id = match j.str_field("_id") {
            Some(s) => s,
            None => return None,
        };
        let author = match j.str_field("author") {
            Some(s) => s,
            None => return None,
        };
        let channel = match j.str_field("channel") {
            Some(s) => s,
            None => return None,
        };
        let content = match j.str_field("content") {
            Some(s) => s,
            None => return None,
        };
        let nonce = j.str_field("nonce");
        Some(Message {
            id: MessageId(id),
            author: UserId(author),
            channel_id: ChannelId(channel),
            content,
            nonce,
        })
    }
}

/// The server and user a member update is about.
pub struct ServerMemberUpdateIds {
    pub server_id: ServerId,
    pub user_id: UserId,
}

/// A member of a server was changed.
pub struct ServerMemberUpdate {
    pub ids: ServerMemberUpdateIds,
    pub data: Json,
    pub clear: Option<Json>,
}

impl ServerMemberUpdate {
    pub open spec fn wire_ok(j: Json) -> bool {
        &&& j.field("id"@) matches Some(ids) && ids.str_at("server"@) is Some && ids.str_at(
            "user"@,
        ) is Some
        &&& j.field("data"@) is Some
    }

    pub open spec fn read_from(self, j: Json) -> bool {
        &&& self.ids.server_id.0@ == j.field("id"@)->0.str_at("server"@)->0
        &&& self.ids.user_id.0@ == j.field("id"@)->0.str_at("user"@)->0
        &&& self.data == j.field("data"@)->0
        &&& self.clear == j.field("clear"@)
    }

    /// Reads the update; `id` must be an object holding the server and the
    /// user.
    pub fn from_json(j: Json) -> (r: Option<Self>)
        ensures
            r is Some <==> Self::wire_ok(j),
            r matches Some(p) ==> p.read_from(j),
    {
        let (server, user) = match j.get("id") {
            Some(ids) => match (ids.str_field("server"), ids.str_field("user")) {
                (Some(s), Some(u)) => (s, u),
                _ => return None,
            },
            None => return None,
        };
        proof {
            reveal_strlit("data");
            reveal_strlit("clear");
            assert("data"@.len() != "clear"@.len());
        }
        let (data, clear) = j.take2("data", "clear");
        let data = match data {
            Some(v) => v,
            None => return None,
        };
        Some(ServerMemberUpdate {
            ids: ServerMemberUpdateIds { server_id: ServerId(server), user_id: UserId(user) },
            data,
            clear,
        })
    }
}

/// The owner of a bot account.
pub struct Bot {
    pub owner: String,
}

/// A user listed in the ready payload.
pub struct ReadyUsers {
    pub user_id: String,
    pub username: String,
    pub bot: Option<Bot>,
}

impl ReadyUsers {
    pub open spec fn wire_ok(j: Json) -> bool {
        j.str_at("_id"@) is Some && j.str_at("username"@) is Some
    }

    /// The owner named by the `bot` object, if there is one.
    pub open spec fn bot_owner(j: Json) -> Option<Seq<char>> {
        match j.field("bot"@) {
            Some(b) => b.str_at("owner"@),
            None => None,
        }
    }

    pub open spec fn read_from(self, j: Json) -> bool {
        &&& self.user_id@ == j.str_at("_id"@)->0
        &&& self.username@ == j.str_at("username"@)->0
        &&& match self.bot {
            Some(b) => Self::bot_owner(j) == Some(b.owner@),
            None => Self::bot_owner(j) is None,
        }
    }

    pub fn from_json(j: &Json) -> (r: Option<Self>)
        ensures
            r is Some <==> Self::wire_ok(*j),
            r matches Some(p) ==> p.read_from(*j),
    {
        let user_id = match j.str_field("_id") {
            Some(s) => s,
            None => return None,
        };
        let username = match j.str_field("username") {
            Some(s) => s,
            None => return None,
        };
        let bot = match j.get("bot") {
            Some(b) => match b.str_field("owner") {
                Some(owner) => Some(Bot { owner }),
                None => None,
            },
            None => None,
        };
        Some(ReadyUsers { user_id, username, bot })
    }
}

/// The server and user that identify a membership.
pub struct ReadyMembersIdentifiers {
    pub server_id: String,
    pub user_id: String,
}

/// A membership listed in the ready payload.
pub struct ReadyMembers {
    pub id_strings: ReadyMembersIdentifiers,
}

impl ReadyMembers {
    pub open spec fn wire_ok(j: Json) -> bool {
        j.field("_id"@) matches Some(ids) && ids.str_at("server"@) is Some && ids.str_at("user"@) is Some
    }

    pub open spec fn read_from(self, j: Json) -> bool {
        &&& self.id_strings.server_id@ == j.field("_id"@)->0.str_at("server"@)->0
        &&& self.id_strings.user_id@ == j.field("_id"@)->0.str_at("user"@)->0
    }

    pub fn from_json(j: &Json) -> (r: Option<Self>)
        ensures
            r is Some <==> Self::wire_ok(*j),
            r matches Some(p) ==> p.read_from(*j),
    {
        match j.get("_id") {
            Some(ids) => match (ids.str_field("server"), ids.str_field("user")) {
                (Some(server_id), Some(user_id)) => Some(
                    ReadyMembers { id_strings: ReadyMembersIdentifiers { server_id, user_id } },
                ),
                _ => None,
            },
            None => None,
        }
    }
}

/// Whether every element of the array under `key` is a readable user.
pub open spec fn users_ok(j: Json) -> bool {
    j.field("users"@) matches Some(Json::Array(a)) && forall|i: int|
        0 <= i < a@.len() ==> ReadyUsers::wire_ok(#[trigger] a@[i])
}

/// Whether every element of the `members` array is a readable membership.
pub open spec fn members_ok(j: Json) -> bool {
    j.field("members"@) matches Some(Json::Array(a)) && forall|i: int|
        0 <= i < a@.len() ==> ReadyMembers::wire_ok(#[trigger] a@[i])
}

fn read_users(items: &Vec<Json>) -> (r: Option<Vec<ReadyUsers>>)
    ensures
        r is Some <==> forall|i: int| 0 <= i < items@.len() ==> ReadyUsers::wire_ok(#[trigger] items@[i]),
        r matches Some(v) ==> v@.len() == items@.len() && forall|i: int|
            0 <= i < items@.len() ==> (#[trigger] v@[i]).read_from(items@[i]),
{
    let mut out: Vec<ReadyUsers> = Vec::new();
    let mut i: usize = 0;
    while i < items.len()
        invariant
            i <= items@.len(),
            out@.len() == i,
            forall|k: int| 0 <= k < i ==> ReadyUsers::wire_ok(#[trigger] items@[k]),
            forall|k: int| 0 <= k < i ==> (#[trigger] out@[k]).read_from(items@[k]),
        decreases items@.len() - i,
    {
        match ReadyUsers::from_json(&items[i]) {
            Some(u) => out.push(u),
            None => return None,
        }
        i += 1;
    }
    Some(out)
}

fn read_members(items: &Vec<Json>) -> (r: Option<Vec<ReadyMembers>>)
    ensures
        r is Some <==> forall|i: int| 0 <= i < items@.len() ==> ReadyMembers::wire_ok(#[trigger] items@[i]),
        r matches Some(v) ==> v@.len() == items@.len() && forall|i: int|
            0 <= i < items@.len() ==> (#[trigger] v@[i]).read_from(items@[i]),
{
    let mut out: Vec<ReadyMembers> = Vec::new();
    let mut i: usize = 0;
    while i < items.len()
        invariant
            i <= items@.len(),
            out@.len() == i,
            forall|k: int| 0 <= k < i ==> ReadyMembers::wire_ok(#[trigger] items@[k]),
            forall|k: int| 0 <= k < i ==> (#[trigger] out@[k]).read_from(items@[k]),
        decreases items@.len() - i,
    {
        match ReadyMembers::from_json(&items[i]) {
            Some(m) => out.push(m),
            None => return None,
        }
        i += 1;
    }
    Some(out)
}

/// The first payload after authentication: every user, channel, server
/// and membership the account can see.
pub struct Ready {
    pub users: Vec<ReadyUsers>,
    pub channels: Vec<Json>,
    pub servers: Vec<Json>,
    pub members: Vec<ReadyMembers>,
}

impl Ready {
    pub open spec fn wire_ok(j: Json) -> bool {
        &&& users_ok(j)
        &&& members_ok(j)
        &&& j.field("channels"@) matches Some(Json::Array(_))
        &&& j.field("servers"@) matches Some(Json::Array(_))
    }

    pub open spec fn read_from(self, j: Json) -> bool {
        &&& j.field("users"@) matches Some(Json::Array(a)) && self.users@.len() == a@.len()
            && forall|i: int| 0 <= i < a@.len() ==> (#[trigger] self.users@[i]).read_from(a@[i])
        &&& j.field("members"@) matches Some(Json::Array(a)) && self.members@.len() == a@.len()
            && forall|i: int| 0 <= i < a@.len() ==> (#[trigger] self.members@[i]).read_from(a@[i])
        &&& j.field("channels"@) == Some(Json::Array(self.channels))
        &&& j.field("servers"@) == Some(Json::Array(self.servers))
    }

    /// Reads the ready payload: four arrays, with every user and
    /// membership readable.
    pub fn from_json(j: Json) -> (r: Option<Self>)
        ensures
            r is Some <==> Self::wire_ok(j),
            r matches Some(p) ==> p.read_from(j),
    {
        let users = match j.get("users") {
            Some(Json::Array(a)) => match read_users(a) {
                Some(v) => v,
                None => return None,
            },
            _ => return None,
        };
        let members = match j.get("members") {
            Some(Json::Array(a)) => match read_members(a) {
                Some(v) => v,
                None => return None,
            },
            _ => return None,
        };
        proof {
            reveal_strlit("channels");
            reveal_strlit("servers");
            assert("channels"@.len() != "servers"@.len());
        }
        let (channels, servers) = j.take2("channels", "servers");
        match (channels, servers) {
            (Some(Json::Array(channels)), Some(Json::Array(servers))) => Some(
                Ready { users, channels, servers, members },
            ),
            _ => None,
        }
    }
}

/// A message was deleted.
pub struct MessageDelete {
    pub id: MessageId,
    pub channel: ChannelId,
}

impl MessageDelete {
    /// Whether a frame carries what this event needs.
    pub open spec fn wire_ok(j: Json) -> bool {
        j.str_at("id"@) is Some && j.str_at("channel"@) is Some
    }

    /// Whether this event holds what the frame carries.
    pub open spec fn read_from(self, j: Json) -> bool {
        self.id.0@ == j.str_at("id"@)->0
            && self.channel.0@ == j.str_at("channel"@)->0
    }

    /// Reads the event from a frame; `None` when a field is missing or is
    /// not a string.
    pub fn from_json(j: &Json) -> (r: Option<Self>)
        ensures
            r is Some <==> Self::wire_ok(*j),
            r matches Some(p) ==> p.read_from(*j),
    {
        let id = match j.str_field("id") {
            Some(s) => s,
            None => return None,
        };
        let channel = match j.str_field("channel") {
            Some(s) => s,
            None => return None,
        };
        Some(MessageDelete { id: MessageId(id), channel: ChannelId(channel) })
    }
}

/// A reaction was added to a message.
pub struct MessageReact {
    pub message_id: MessageId,
    pub channel_id: ChannelId,
    pub user_id: UserId,
    pub emoji: EmojiId,
}

impl MessageReact {
    /// Whether a frame carries what this event needs.
    pub open spec fn wire_ok(j: Json) -> bool {
        j.str_at("id"@) is Some && j.str_at("channel_id"@) is Some && j.str_at("user_id"@) is Some && j.str_at("emoji_id"@) is Some
    }

    /// Whether this event holds what the frame carries.
    pub open spec fn read_from(self, j: Json) -> bool {
        self.message_id.0@ == j.str_at("id"@)->0
            && self.channel_id.0@ == j.str_at("channel_id"@)->0
            && self.user_id.0@ == j.str_at("user_id"@)->0
            && self.emoji.0@ == j.str_at("emoji_id"@)->0
    }

    /// Reads the event from a frame; `None` when a field is missing or is
    /// not a string.
    pub fn from_json(j: &Json) -> (r: Option<Self>)
        ensures
            r is Some <==> Self::wire_ok(*j),
            r matches Some(p) ==> p.read_from(*j),
    {
        let message_id = match j.str_field("id") {
            Some(s) => s,
            None => return None,
        };
        let channel_id = match j.str_field("channel_id") {
            Some(s) => s,
            None => return None,
        };
        let user_id = match j.str_field("user_id") {
            Some(s) => s,
            None => return None,
        };
        let emoji = match j.str_field("emoji_id") {
            Some(s) => s,
            None => return None,
        };
        Some(MessageReact { message_id: MessageId(message_id), channel_id: ChannelId(channel_id), user_id: UserId(user_id), emoji: EmojiId(emoji) })
    }
}

/// A reaction was removed from a message.
pub struct MessageUnreact {
    pub message_id: MessageId,
    pub channel_id: ChannelId,
    pub user_id: UserId,
    pub emoji: EmojiId,
}

impl MessageUnreact {
    /// Whether a frame carries what this event needs.
    pub open spec fn wire_ok(j: Json) -> bool {
        j.str_at("id"@) is Some && j.str_at("channel_id"@) is Some && j.str_at("user_id"@) is Some && j.str_at("emoji_id"@) is Some
    }

    /// Whether this event holds what the frame carries.
    pub open spec fn read_from(self, j: Json) -> bool {
        self.message_id.0@ == j.str_at("id"@)->0
            && self.channel_id.0@ == j.str_at("channel_id"@)->0
            && self.user_id.0@ == j.str_at("user_id"@)->0
            && self.emoji.0@ == j.str_at("emoji_id"@)->0
    }

    /// Reads the event from a frame; `None` when a field is missing or is
    /// not a string.
    pub fn from_json(j: &Json) -> (r: Option<Self>)
        ensures
            r is Some <==> Self::wire_ok(*j),
            r matches Some(p) ==> p.read_from(*j),
    {
        let message_id = match j.str_field("id") {
            Some(s) => s,
            None => return None,
        };
        let channel_id = match j.str_field("channel_id") {
            Some(s) => s,
            None => return None,
        };
        let user_id = match j.str_field("user_id") {
            Some(s) => s,
            None => return None,
        };
        let emoji = match j.str_field("emoji_id") {
            Some(s) => s,
            None => return None,
        };
        Some(MessageUnreact { message_id: MessageId(message_id), channel_id: ChannelId(channel_id), user_id: UserId(user_id), emoji: EmojiId(emoji) })
    }
}

/// All reactions of one emoji were removed from a message.
pub struct MessageRemoveReactions {
    pub message_id: MessageId,
    pub channel_id: ChannelId,
    pub emoji: EmojiId,
}

impl MessageRemoveReactions {
    /// Whether a frame carries what this event needs.
    pub open spec fn wire_ok(j: Json) -> bool {
        j.str_at("id"@) is Some && j.str_at("channel_id"@) is Some && j.str_at("emoji_id"@) is Some
    }

    /// Whether this event holds what the frame carries.
    pub open spec fn read_from(self, j: Json) -> bool {
        self.message_id.0@ == j.str_at("id"@)->0
            && self.channel_id.0@ == j.str_at("channel_id"@)->0
            && self.emoji.0@ == j.str_at("emoji_id"@)->0
    }

    /// Reads the event from a frame; `None` when a field is missing or is
    /// not a string.
    pub fn from_json(j: &Json) -> (r: Option<Self>)
        ensures
            r is Some <==> Self::wire_ok(*j),
            r matches Some(p) ==> p.read_from(*j),
    {
        let message_id = match j.str_field("id") {
            Some(s) => s,
            None => return None,
        };
        let channel_id = match j.str_field("channel_id") {
            Some(s) => s,
            None => return None,
        };
        let emoji = match j.str_field("emoji_id") {
            Some(s) => s,
            None => return None,
        };
        Some(MessageRemoveReactions { message_id: MessageId(message_id), channel_id: ChannelId(channel_id), emoji: EmojiId(emoji) })
    }
}

/// A channel was created.
pub struct ChannelCreate {
    pub channel_id: ChannelId,
}

impl ChannelCreate {
    /// Whether a frame carries what this event needs.
    pub open spec fn wire_ok(j: Json) -> bool {
        j.str_at("id"@) is Some
    }

    /// Whether this event holds what the frame carries.
    pub open spec fn read_from(self, j: Json) -> bool {
        self.channel_id.0@ == j.str_at("id"@)->0
    }

    /// Reads the event from a frame; `None` when a field is missing or is
    /// not a string.
    pub fn from_json(j: &Json) -> (r: Option<Self>)
        ensures
            r is Some <==> Self::wire_ok(*j),
            r matches Some(p) ==> p.read_from(*j),
    {
        let channel_id = match j.str_field("id") {
            Some(s) => s,
            None => return None,
        };
        Some(ChannelCreate { channel_id: ChannelId(channel_id) })
    }
}

/// A channel was deleted.
pub struct ChannelDelete {
    pub channel_id: ChannelId,
}

impl ChannelDelete {
    /// Whether a frame carries what this event needs.
    pub open spec fn wire_ok(j: Json) -> bool {
        j.str_at("id"@) is Some
    }

    /// Whether this event holds what the frame carries.
    pub open spec fn read_from(self, j: Json) -> bool {
        self.channel_id.0@ == j.str_at("id"@)->0
    }

    /// Reads the event from a frame; `None` when a field is missing or is
    /// not a string.
    pub fn from_json(j: &Json) -> (r: Option<Self>)
        ensures
            r is Some <==> Self::wire_ok(*j),
            r matches Some(p) ==> p.read_from(*j),
    {
        let channel_id = match j.str_field("id") {
            Some(s) => s,
            None => return None,
        };
        Some(ChannelDelete { channel_id: ChannelId(channel_id) })
    }
}

/// A user joined a group channel.
pub struct ChannelGroupJoin {
    pub channel_id: ChannelId,
    pub user_id: UserId,
}

impl ChannelGroupJoin {
    /// Whether a frame carries what this event needs.
    pub open spec fn wire_ok(j: Json) -> bool {
        j.str_at("id"@) is Some && j.str_at("user"@) is Some
    }

    /// Whether this event holds what the frame carries.
    pub open spec fn read_from(self, j: Json) -> bool {
        self.channel_id.0@ == j.str_at("id"@)->0
            && self.user_id.0@ == j.str_at("user"@)->0
    }

    /// Reads the event from a frame; `None` when a field is missing or is
    /// not a string.
    pub fn from_json(j: &Json) -> (r: Option<Self>)
        ensures
            r is Some <==> Self::wire_ok(*j),
            r matches Some(p) ==> p.read_from(*j),
    {
        let channel_id = match j.str_field("id") {
            Some(s) => s,
            None => return None,
        };
        let user_id = match j.str_field("user") {
            Some(s) => s,
            None => return None,
        };
        Some(ChannelGroupJoin { channel_id: ChannelId(channel_id), user_id: UserId(user_id) })
    }
}

/// A user left a group channel.
pub struct ChannelGroupLeave {
    pub channel_id: ChannelId,
    pub user_id: UserId,
}

impl ChannelGroupLeave {
    /// Whether a frame carries what this event needs.
    pub open spec fn wire_ok(j: Json) -> bool {
        j.str_at("id"@) is Some && j.str_at("user"@) is Some
    }

    /// Whether this event holds what the frame carries.
    pub open spec fn read_from(self, j: Json) -> bool {
        self.channel_id.0@ == j.str_at("id"@)->0
            && self.user_id.0@ == j.str_at("user"@)->0
    }

    /// Reads the event from a frame; `None` when a field is missing or is
    /// not a string.
    pub fn from_json(j: &Json) -> (r: Option<Self>)
        ensures
            r is Some <==> Self::wire_ok(*j),
            r matches Some(p) ==> p.read_from(*j),
    {
        let channel_id = match j.str_field("id") {
            Some(s) => s,
            None => return None,
        };
        let user_id = match j.str_field("user") {
            Some(s) => s,
            None => return None,
        };
        Some(ChannelGroupLeave { channel_id: ChannelId(channel_id), user_id: UserId(user_id) })
    }
}

/// A user started typing in a channel.
pub struct ChannelStartTyping {
    pub channel_id: ChannelId,
    pub user_id: UserId,
}

impl ChannelStartTyping {
    /// Whether a frame carries what this event needs.
    pub open spec fn wire_ok(j: Json) -> bool {
        j.str_at("id"@) is Some && j.str_at("user"@) is Some
    }

    /// Whether this event holds what the frame carries.
    pub open spec fn read_from(self, j: Json) -> bool {
        self.channel_id.0@ == j.str_at("id"@)->0
            && self.user_id.0@ == j.str_at("user"@)->0
    }

    /// Reads the event from a frame; `None` when a field is missing or is
    /// not a string.
    pub fn from_json(j: &Json) -> (r: Option<Self>)
        ensures
            r is Some <==> Self::wire_ok(*j),
            r matches Some(p) ==> p.read_from(*j),
    {
        let channel_id = match j.str_field("id") {
            Some(s) => s,
            None => return None,
        };
        let user_id = match j.str_field("user") {
            Some(s) => s,
            None => return None,
        };
        Some(ChannelStartTyping { channel_id: ChannelId(channel_id), user_id: UserId(user_id) })
    }
}

/// A user stopped typing in a channel.
pub struct ChannelStopTyping {
    pub channel_id: ChannelId,
    pub user_id: UserId,
}

impl ChannelStopTyping {
    /// Whether a frame carries what this event needs.
    pub open spec fn wire_ok(j: Json) -> bool {
        j.str_at("id"@) is Some && j.str_at("user"@) is Some
    }

    /// Whether this event holds what the frame carries.
    pub open spec fn read_from(self, j: Json) -> bool {
        self.channel_id.0@ == j.str_at("id"@)->0
            && self.user_id.0@ == j.str_at("user"@)->0
    }

    /// Reads the event from a frame; `None` when a field is missing or is
    /// not a string.
    pub fn from_json(j: &Json) -> (r: Option<Self>)
        ensures
            r is Some <==> Self::wire_ok(*j),
            r matches Some(p) ==> p.read_from(*j),
    {
        let channel_id = match j.str_field("id") {
            Some(s) => s,
            None => return None,
        };
        let user_id = match j.str_field("user") {
            Some(s) => s,
            None => return None,
        };
        Some(ChannelStopTyping { channel_id: ChannelId(channel_id), user_id: UserId(user_id) })
    }
}

/// A user marked a channel read up to a message.
pub struct ChannelAck {
    pub channel_id: ChannelId,
    pub user_id: UserId,
    pub message_id: MessageId,
}

impl ChannelAck {
    /// Whether a frame carries what this event needs.
    pub open spec fn wire_ok(j: Json) -> bool {
        j.str_at("id"@) is Some && j.str_at("user"@) is Some && j.str_at("message_id"@) is Some
    }

    /// Whether this event holds what the frame carries.
    pub open spec fn read_from(self, j: Json) -> bool {
        self.channel_id.0@ == j.str_at("id"@)->0
            && self.user_id.0@ == j.str_at("user"@)->0
            && self.message_id.0@ == j.str_at("message_id"@)->0
    }

    /// Reads the event from a frame; `None` when a field is missing or is
    /// not a string.
    pub fn from_json(j: &Json) -> (r: Option<Self>)
        ensures
            r is Some <==> Self::wire_ok(*j),
            r matches Some(p) ==> p.read_from(*j),
    {
        let channel_id = match j.str_field("id") {
            Some(s) => s,
            None => return None,
        };
        let user_id = match j.str_field("user") {
            Some(s) => s,
            None => return None,
        };
        let message_id = match j.str_field("message_id") {
            Some(s) => s,
            None => return None,
        };
        Some(ChannelAck { channel_id: ChannelId(channel_id), user_id: UserId(user_id), message_id: MessageId(message_id) })
    }
}

/// A server was deleted.
pub struct ServerDelete {
    pub server_id: ServerId,
}

impl ServerDelete {
    /// Whether a frame carries what this event needs.
    pub open spec fn wire_ok(j: Json) -> bool {
        j.str_at("id"@) is Some
    }

    /// Whether this event holds what the frame carries.
    pub open spec fn read_from(self, j: Json) -> bool {
        self.server_id.0@ == j.str_at("id"@)->0
    }

    /// Reads the event from a frame; `None` when a field is missing or is
    /// not a string.
    pub fn from_json(j: &Json) -> (r: Option<Self>)
        ensures
            r is Some <==> Self::wire_ok(*j),
            r matches Some(p) ==> p.read_from(*j),
    {
        let server_id = match j.str_field("id") {
            Some(s) => s,
            None => return None,
        };
        Some(ServerDelete { server_id: ServerId(server_id) })
    }
}

/// A user joined a server.
pub struct ServerMemberJoin {
    pub server_id: ServerId,
    pub user_id: UserId,
}

impl ServerMemberJoin {
    /// Whether a frame carries what this event needs.
    pub open spec fn wire_ok(j: Json) -> bool {
        j.str_at("id"@) is Some && j.str_at("user"@) is Some
    }

    /// Whether this event holds what the frame carries.
    pub open spec fn read_from(self, j: Json) -> bool {
        self.server_id.0@ == j.str_at("id"@)->0
            && self.user_id.0@ == j.str_at("user"@)->0
    }

    /// Reads the event from a frame; `None` when a field is missing or is
    /// not a string.
    pub fn from_json(j: &Json) -> (r: Option<Self>)
        ensures
            r is Some <==> Self::wire_ok(*j),
            r matches Some(p) ==> p.read_from(*j),
    {
        let server_id = match j.str_field("id") {
            Some(s) => s,
            None => return None,
        };
        let user_id = match j.str_field("user") {
            Some(s) => s,
            None => return None,
        };
        Some(ServerMemberJoin { server_id: ServerId(server_id), user_id: UserId(user_id) })
    }
}

/// A user left a server.
pub struct ServerMemberLeave {
    pub server_id: ServerId,
    pub user_id: UserId,
}

impl ServerMemberLeave {
    /// Whether a frame carries what this event needs.
    pub open spec fn wire_ok(j: Json) -> bool {
        j.str_at("id"@) is Some && j.str_at("user"@) is Some
    }

    /// Whether this event holds what the frame carries.
    pub open spec fn read_from(self, j: Json) -> bool {
        self.server_id.0@ == j.str_at("id"@)->0
            && self.user_id.0@ == j.str_at("user"@)->0
    }

    /// Reads the event from a frame; `None` when a field is missing or is
    /// not a string.
    pub fn from_json(j: &Json) -> (r: Option<Self>)
        ensures
            r is Some <==> Self::wire_ok(*j),
            r matches Some(p) ==> p.read_from(*j),
    {
        let server_id = match j.str_field("id") {
            Some(s) => s,
            None => return None,
        };
        let user_id = match j.str_field("user") {
            Some(s) => s,
            None => return None,
        };
        Some(ServerMemberLeave { server_id: ServerId(server_id), user_id: UserId(user_id) })
    }
}

/// A role of a server was deleted.
pub struct ServerRoleDelete {
    pub server_id: ServerId,
    pub role_id: RoleId,
}

impl ServerRoleDelete {
    /// Whether a frame carries what this event needs.
    pub open spec fn wire_ok(j: Json) -> bool {
        j.str_at("id"@) is Some && j.str_at("role_id"@) is Some
    }

    /// Whether this event holds what the frame carries.
    pub open spec fn read_from(self, j: Json) -> bool {
        self.server_id.0@ == j.str_at("id"@)->0
            && self.role_id.0@ == j.str_at("role_id"@)->0
    }

    /// Reads the event from a frame; `None` when a field is missing or is
    /// not a string.
    pub fn from_json(j: &Json) -> (r: Option<Self>)
        ensures
            r is Some <==> Self::wire_ok(*j),
            r matches Some(p) ==> p.read_from(*j),
    {
        let server_id = match j.str_field("id") {
            Some(s) => s,
            None => return None,
        };
        let role_id = match j.str_field("role_id") {
            Some(s) => s,
            None => return None,
        };
        Some(ServerRoleDelete { server_id: ServerId(server_id), role_id: RoleId(role_id) })
    }
}

/// A custom emoji was deleted.
pub struct EmojiDelete {
    pub emoji: EmojiId,
}

impl EmojiDelete {
    /// Whether a frame carries what this event needs.
    pub open spec fn wire_ok(j: Json) -> bool {
        j.str_at("id"@) is Some
    }

    /// Whether this event holds what the frame carries.
    pub open spec fn read_from(self, j: Json) -> bool {
        self.emoji.0@ == j.str_at("id"@)->0
    }

    /// Reads the event from a frame; `None` when a field is missing or is
    /// not a string.
    pub fn from_json(j: &Json) -> (r: Option<Self>)
        ensures
            r is Some <==> Self::wire_ok(*j),
            r matches Some(p) ==> p.read_from(*j),
    {
        let emoji = match j.str_field("id") {
            Some(s) => s,
            None => return None,
        };
        Some(EmojiDelete { emoji: EmojiId(emoji) })
    }
}

/// A message was edited; `data` holds the changed fields.
pub struct MessageUpdate {
    pub id: MessageId,
    pub channel: ChannelId,
    pub data: Json,
}

impl MessageUpdate {
    /// Whether a frame carries what this event needs.
    pub open spec fn wire_ok(j: Json) -> bool {
        j.str_at("id"@) is Some && j.str_at("channel"@) is Some && j.field("data"@) is Some
    }

    /// Whether this event holds what the frame carries.
    pub open spec fn read_from(self, j: Json) -> bool {
        self.id.0@ == j.str_at("id"@)->0
            && self.channel.0@ == j.str_at("channel"@)->0
            && self.data == j.field("data"@)->0
    }

    /// Reads the event from a frame; `None` when a required field is
    /// missing or an identifier is not a string.
    pub fn from_json(j: Json) -> (r: Option<Self>)
        ensures
            r is Some <==> Self::wire_ok(j),
            r matches Some(p) ==> p.read_from(j),
    {
        let id = match j.str_field("id") {
            Some(s) => s,
            None => return None,
        };
        let channel = match j.str_field("channel") {
            Some(s) => s,
            None => return None,
        };
        let data = j.take("data");
        let data = match data {
            Some(v) => v,
            None => return None,
        };
        Some(MessageUpdate { id: MessageId(id), channel: ChannelId(channel), data })
    }
}

/// A channel was changed; `data` holds the changed fields and `clear` the ones removed.
pub struct ChannelUpdate {
    pub channel_id: ChannelId,
    pub data: Json,
    pub clear: Option<Json>,
}

impl ChannelUpdate {
    /// Whether a frame carries what this event needs.
    pub open spec fn wire_ok(j: Json) -> bool {
        j.str_at("id"@) is Some && j.field("data"@) is Some
    }

    /// Whether this event holds what the frame carries.
    pub open spec fn read_from(self, j: Json) -> bool {
        self.channel_id.0@ == j.str_at("id"@)->0
            && self.data == j.field("data"@)->0
            && self.clear == j.field("clear"@)
    }

    /// Reads the event from a frame; `None` when a required field is
    /// missing or an identifier is not a string.
    pub fn from_json(j: Json) -> (r: Option<Self>)
        ensures
            r is Some <==> Self::wire_ok(j),
            r matches Some(p) ==> p.read_from(j),
    {
        let channel_id = match j.str_field("id") {
            Some(s) => s,
            None => return None,
        };
        proof {
            reveal_strlit("data");
            reveal_strlit("clear");
            assert("data"@.len() != "clear"@.len());
        }
        let (data, clear) = j.take2("data", "clear");
        let data = match data {
            Some(v) => v,
            None => return None,
        };
        Some(ChannelUpdate { channel_id: ChannelId(channel_id), data, clear })
    }
}

/// A server was changed; `data` holds the changed fields and `clear` the ones removed.
pub struct ServerUpdate {
    pub server_id: ServerId,
    pub data: Json,
    pub clear: Option<Json>,
}

impl ServerUpdate {
    /// Whether a frame carries what this event needs.
    pub open spec fn wire_ok(j: Json) -> bool {
        j.str_at("id"@) is Some && j.field("data"@) is Some
    }

    /// Whether this event holds what the frame carries.
    pub open spec fn read_from(self, j: Json) -> bool {
        self.server_id.0@ == j.str_at("id"@)->0
            && self.data == j.field("data"@)->0
            && self.clear == j.field("clear"@)
    }

    /// Reads the event from a frame; `None` when a required field is
    /// missing or an identifier is not a string.
    pub fn from_json(j: Json) -> (r: Option<Self>)
        ensures
            r is Some <==> Self::wire_ok(j),
            r matches Some(p) ==> p.read_from(j),
    {
        let server_id = match j.str_field("id") {
            Some(s) => s,
            None => return None,
        };
        proof {
            reveal_strlit("data");
            reveal_strlit("clear");
            assert("data"@.len() != "clear"@.len());
        }
        let (data, clear) = j.take2("data", "clear");
        let data = match data {
            Some(v) => v,
            None => return None,
        };
        Some(ServerUpdate { server_id: ServerId(server_id), data, clear })
    }
}

/// A role of a server was changed.
pub struct ServerRoleUpdate {
    pub server_id: ServerId,
    pub role_id: RoleId,
    pub data: Json,
    pub clear: Option<Json>,
}

impl ServerRoleUpdate {
    /// Whether a frame carries what this event needs.
    pub open spec fn wire_ok(j: Json) -> bool {
        j.str_at("id"@) is Some && j.str_at("role_id"@) is Some && j.field("data"@) is Some
    }

    /// Whether this event holds what the frame carries.
    pub open spec fn read_from(self, j: Json) -> bool {
        self.server_id.0@ == j.str_at("id"@)->0
            && self.role_id.0@ == j.str_at("role_id"@)->0
            && self.data == j.field("data"@)->0
            && self.clear == j.field("clear"@)
    }

    /// Reads the event from a frame; `None` when a required field is
    /// missing or an identifier is not a string.
    pub fn from_json(j: Json) -> (r: Option<Self>)
        ensures
            r is Some <==> Self::wire_ok(j),
            r matches Some(p) ==> p.read_from(j),
    {
        let server_id = match j.str_field("id") {
            Some(s) => s,
            None => return None,
        };
        let role_id = match j.str_field("role_id") {
            Some(s) => s,
            None => return None,
        };
        proof {
            reveal_strlit("data");
            reveal_strlit("clear");
            assert("data"@.len() != "clear"@.len());
        }
        let (data, clear) = j.take2("data", "clear");
        let data = match data {
            Some(v) => v,
            None => return None,
        };
        Some(ServerRoleUpdate { server_id: ServerId(server_id), role_id: RoleId(role_id), data, clear })
    }
}

/// A user was changed; `data` holds the changed fields and `clear` the ones removed.
pub struct UserUpdate {
    pub user_id: UserId,
    pub data: Json,
    pub clear: Option<Json>,
}

impl UserUpdate {
    /// Whether a frame carries what this event needs.
    pub open spec fn wire_ok(j: Json) -> bool {
        j.str_at("id"@) is Some && j.field("data"@) is Some
    }

    /// Whether this event holds what the frame carries.
    pub open spec fn read_from(self, j: Json) -> bool {
        self.user_id.0@ == j.str_at("id"@)->0
            && self.data == j.field("data"@)->0
            && self.clear == j.field("clear"@)
    }

    /// Reads the event from a frame; `None` when a required field is
    /// missing or an identifier is not a string.
    pub fn from_json(j: Json) -> (r: Option<Self>)
        ensures
            r is Some <==> Self::wire_ok(j),
            r matches Some(p) ==> p.read_from(j),
    {
        let user_id = match j.str_field("id") {
            Some(s) => s,
            None => return None,
        };
        proof {
            reveal_strlit("data");
            reveal_strlit("clear");
            assert("data"@.len() != "clear"@.len());
        }
        let (data, clear) = j.take2("data", "clear");
        let data = match data {
            Some(v) => v,
            None => return None,
        };
        Some(UserUpdate { user_id: UserId(user_id), data, clear })
    }
}

/// The relationship with a user changed.
pub struct UserRelationship {
    pub user_id: UserId,
    pub user: Json,
    pub status: Json,
}

impl UserRelationship {
    /// Whether a frame carries what this event needs.
    pub open spec fn wire_ok(j: Json) -> bool {
        j.str_at("id"@) is Some && j.field("user"@) is Some && j.field("status"@) is Some
    }

    /// Whether this event holds what the frame carries.
    pub open spec fn read_from(self, j: Json) -> bool {
        self.user_id.0@ == j.str_at("id"@)->0
            && self.user == j.field("user"@)->0
            && self.status == j.field("status"@)->0
    }

    /// Reads the event from a frame; `None` when a required field is
    /// missing or an identifier is not a string.
    pub fn from_json(j: Json) -> (r: Option<Self>)
        ensures
            r is Some <==> Self::wire_ok(j),
            r matches Some(p) ==> p.read_from(j),
    {
        let user_id = match j.str_field("id") {
            Some(s) => s,
            None => return None,
        };
        proof {
            reveal_strlit("user");
            reveal_strlit("status");
            assert("user"@.len() != "status"@.len());
        }
        let (user, status) = j.take2("user", "status");
        let user = match user {
            Some(v) => v,
            None => return None,
        };
        let status = match status {
            Some(v) => v,
            None => return None,
        };
        Some(UserRelationship { user_id: UserId(user_id), user, status })
    }
}

/// The reply to joining a voice channel: the credential for the voice
/// relay.
pub struct VoiceChannel {
    pub token: String,
}

impl VoiceChannel {
    pub fn from_json(j: &Json) -> (r: Option<Self>)
        ensures
            match r {
                Some(v) => j.str_at("token"@) == Some(v.token@),
                None => j.str_at("token"@) is None,
            },
    {
        match j.str_field("token") {
            Some(token) => Some(VoiceChannel { token }),
            None => None,
        }
    }
}

/// The name and avatar a message is posted under in place of the author's.
pub struct CreateMasqueradeMessage {
    pub name: Option<String>,
    pub avatar: Option<String>,
}

impl CreateMasqueradeMessage {
    /// A masquerade with neither name nor avatar set.
    pub fn new() -> (r: Self)
        ensures
            r.name is None && r.avatar is None,
    {
        CreateMasqueradeMessage { name: None, avatar: None }
    }

    /// Sets the displayed name.
    pub fn name(&mut self, name: &str)
        ensures
            final(self).name matches Some(n) && n@ == name@,
            final(self).avatar == old(self).avatar,
    {
        self.name = Some(name.to_owned());
    }

    /// Sets the displayed avatar.
    pub fn avatar(&mut self, avatar: &str)
        ensures
            final(self).avatar matches Some(a) && a@ == avatar@,
            final(self).name == old(self).name,
    {
        self.avatar = Some(avatar.to_owned());
    }
}

} // verus!
