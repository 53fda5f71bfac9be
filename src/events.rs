//! Gateway events: the tag table, the decoded event union, and dispatch
//! of each event to the one handler bound to its kind.
use vstd::prelude::*;
use crate::json::{json_parse, same_text, Json};
use crate::models::{ChannelAck, ChannelCreate, ChannelDelete, ChannelGroupJoin, ChannelGroupLeave, ChannelStartTyping, ChannelStopTyping, ChannelUpdate, Message, MessageDelete, MessageReact, MessageRemoveReactions, MessageUnreact, MessageUpdate, Ready, ServerDelete, ServerMemberJoin, ServerMemberLeave, ServerMemberUpdate, ServerRoleDelete, ServerRoleUpdate, ServerUpdate, UserRelationship, UserUpdate};

verus! {

/// Every message kind of the gateway protocol, named by its wire tag.
#[derive(Clone, Copy, Debug, PartialEq, Eq, Structural)]
pub enum GatewayEvent {
    Authenticate,
    Authenticated,
    BeginTyping,
    Bulk,
    ChannelAck,
    ChannelCreate,
    ChannelDelete,
    ChannelGroupJoin,
    ChannelGroupLeave,
    ChannelStartTyping,
    ChannelStopTyping,
    ChannelUpdate,
    EmojiCreate,
    EmojiDelete,
    EndTyping,
    Error,
    Message,
    MessageAppend,
    MessageDelete,
    MessageReact,
    MessageRemoveReactions,
    MessageUnreact,
    MessageUpdate,
    Ping,
    Pong,
    Ready,
    ServerCreate,
    ServerDelete,
    ServerMemberJoin,
    ServerMemberLeave,
    ServerMemberUpdate,
    ServerRoleDelete,
    ServerRoleUpdate,
    ServerUpdate,
    UserRelationship,
    UserUpdate,
}

impl GatewayEvent {
    /// The wire tag of each kind: the one table of tags.
    pub open spec fn tag_spec(self) -> Seq<char> {
        match self {
            GatewayEvent::Authenticate => "Authenticate"@,
            GatewayEvent::Authenticated => "Authenticated"@,
            GatewayEvent::BeginTyping => "BeginTyping"@,
            GatewayEvent::Bulk => "Bulk"@,
            GatewayEvent::ChannelAck => "ChannelAck"@,
            GatewayEvent::ChannelCreate => "ChannelCreate"@,
            GatewayEvent::ChannelDelete => "ChannelDelete"@,
            GatewayEvent::ChannelGroupJoin => "ChannelGroupJoin"@,
            GatewayEvent::ChannelGroupLeave => "ChannelGroupLeave"@,
            GatewayEvent::ChannelStartTyping => "ChannelStartTyping"@,
            GatewayEvent::ChannelStopTyping => "ChannelStopTyping"@,
            GatewayEvent::ChannelUpdate => "ChannelUpdate"@,
            GatewayEvent::EmojiCreate => "EmojiCreate"@,
            GatewayEvent::EmojiDelete => "EmojiDelete"@,
            GatewayEvent::EndTyping => "EndTyping"@,
            GatewayEvent::Error => "Error"@,
            GatewayEvent::Message => "Message"@,
            GatewayEvent::MessageAppend => "MessageAppend"@,
            GatewayEvent::MessageDelete => "MessageDelete"@,
            GatewayEvent::MessageReact => "MessageReact"@,
            GatewayEvent::MessageRemoveReactions => "MessageRemoveReactions"@,
            GatewayEvent::MessageUnreact => "MessageUnreact"@,
            GatewayEvent::MessageUpdate => "MessageUpdate"@,
            GatewayEvent::Ping => "Ping"@,
            GatewayEvent::Pong => "Pong"@,
            GatewayEvent::Ready => "Ready"@,
            GatewayEvent::ServerCreate => "ServerCreate"@,
            GatewayEvent::ServerDelete => "ServerDelete"@,
            GatewayEvent::ServerMemberJoin => "ServerMemberJoin"@,
            GatewayEvent::ServerMemberLeave => "ServerMemberLeave"@,
            GatewayEvent::ServerMemberUpdate => "ServerMemberUpdate"@,
            GatewayEvent::ServerRoleDelete => "ServerRoleDelete"@,
            GatewayEvent::ServerRoleUpdate => "ServerRoleUpdate"@,
            GatewayEvent::ServerUpdate => "ServerUpdate"@,
            GatewayEvent::UserRelationship => "UserRelationship"@,
            GatewayEvent::UserUpdate => "UserUpdate"@,
        }
    }

    /// The wire tag of this kind.
    pub fn tag(&self) -> (r: &'static str)
        ensures
            r@ == self.tag_spec(),
    {
        match self {
            GatewayEvent::Authenticate => "Authenticate",
            GatewayEvent::Authenticated => "Authenticated",
            GatewayEvent::BeginTyping => "BeginTyping",
            GatewayEvent::Bulk => "Bulk",
            GatewayEvent::ChannelAck => "ChannelAck",
            GatewayEvent::ChannelCreate => "ChannelCreate",
            GatewayEvent::ChannelDelete => "ChannelDelete",
            GatewayEvent::ChannelGroupJoin => "ChannelGroupJoin",
            GatewayEvent::ChannelGroupLeave => "ChannelGroupLeave",
            GatewayEvent::ChannelStartTyping => "ChannelStartTyping",
            GatewayEvent::ChannelStopTyping => "ChannelStopTyping",
            GatewayEvent::ChannelUpdate => "ChannelUpdate",
            GatewayEvent::EmojiCreate => "EmojiCreate",
            GatewayEvent::EmojiDelete => "EmojiDelete",
            GatewayEvent::EndTyping => "EndTyping",
            GatewayEvent::Error => "Error",
            GatewayEvent::Message => "Message",
            GatewayEvent::MessageAppend => "MessageAppend",
            GatewayEvent::MessageDelete => "MessageDelete",
            GatewayEvent::MessageReact => "MessageReact",
            GatewayEvent::MessageRemoveReactions => "MessageRemoveReactions",
            GatewayEvent::MessageUnreact => "MessageUnreact",
            GatewayEvent::MessageUpdate => "MessageUpdate",
            GatewayEvent::Ping => "Ping",
            GatewayEvent::Pong => "Pong",
            GatewayEvent::Ready => "Ready",
            GatewayEvent::ServerCreate => "ServerCreate",
            GatewayEvent::ServerDelete => "ServerDelete",
            GatewayEvent::ServerMemberJoin => "ServerMemberJoin",
            GatewayEvent::ServerMemberLeave => "ServerMemberLeave",
            GatewayEvent::ServerMemberUpdate => "ServerMemberUpdate",
            GatewayEvent::ServerRoleDelete => "ServerRoleDelete",
            GatewayEvent::ServerRoleUpdate => "ServerRoleUpdate",
            GatewayEvent::ServerUpdate => "ServerUpdate",
            GatewayEvent::UserRelationship => "UserRelationship",
            GatewayEvent::UserUpdate => "UserUpdate",
        }
    }

    /// Every kind, each once.
    pub fn all() -> (r: Vec<GatewayEvent>)
        ensures
            r@.len() == 36,
            forall|k: GatewayEvent| #[trigger] r@.contains(k),
    {
        let r = vec![GatewayEvent::Authenticate, GatewayEvent::Authenticated, GatewayEvent::BeginTyping, GatewayEvent::Bulk, GatewayEvent::ChannelAck, GatewayEvent::ChannelCreate, GatewayEvent::ChannelDelete, GatewayEvent::ChannelGroupJoin, GatewayEvent::ChannelGroupLeave, GatewayEvent::ChannelStartTyping, GatewayEvent::ChannelStopTyping, GatewayEvent::ChannelUpdate, GatewayEvent::EmojiCreate, GatewayEvent::EmojiDelete, GatewayEvent::EndTyping, GatewayEvent::Error, GatewayEvent::Message, GatewayEvent::MessageAppend, GatewayEvent::MessageDelete, GatewayEvent::MessageReact, GatewayEvent::MessageRemoveReactions, GatewayEvent::MessageUnreact, GatewayEvent::MessageUpdate, GatewayEvent::Ping, GatewayEvent::Pong, GatewayEvent::Ready, GatewayEvent::ServerCreate, GatewayEvent::ServerDelete, GatewayEvent::ServerMemberJoin, GatewayEvent::ServerMemberLeave, GatewayEvent::ServerMemberUpdate, GatewayEvent::ServerRoleDelete, GatewayEvent::ServerRoleUpdate, GatewayEvent::ServerUpdate, GatewayEvent::UserRelationship, GatewayEvent::UserUpdate];
        proof {
            assert(r@[0] == GatewayEvent::Authenticate);
            assert(r@[1] == GatewayEvent::Authenticated);
            assert(r@[2] == GatewayEvent::BeginTyping);
            assert(r@[3] == GatewayEvent::Bulk);
            assert(r@[4] == GatewayEvent::ChannelAck);
            assert(r@[5] == GatewayEvent::ChannelCreate);
            assert(r@[6] == GatewayEvent::ChannelDelete);
            assert(r@[7] == GatewayEvent::ChannelGroupJoin);
            assert(r@[8] == GatewayEvent::ChannelGroupLeave);
            assert(r@[9] == GatewayEvent::ChannelStartTyping);
            assert(r@[10] == GatewayEvent::ChannelStopTyping);
            assert(r@[11] == GatewayEvent::ChannelUpdate);
            assert(r@[12] == GatewayEvent::EmojiCreate);
            assert(r@[13] == GatewayEvent::EmojiDelete);
            assert(r@[14] == GatewayEvent::EndTyping);
            assert(r@[15] == GatewayEvent::Error);
            assert(r@[16] == GatewayEvent::Message);
            assert(r@[17] == GatewayEvent::MessageAppend);
            assert(r@[18] == GatewayEvent::MessageDelete);
            assert(r@[19] == GatewayEvent::MessageReact);
            assert(r@[20] == GatewayEvent::MessageRemoveReactions);
            assert(r@[21] == GatewayEvent::MessageUnreact);
            assert(r@[22] == GatewayEvent::MessageUpdate);
            assert(r@[23] == GatewayEvent::Ping);
            assert(r@[24] == GatewayEvent::Pong);
            assert(r@[25] == GatewayEvent::Ready);
            assert(r@[26] == GatewayEvent::ServerCreate);
            assert(r@[27] == GatewayEvent::ServerDelete);
            assert(r@[28] == GatewayEvent::ServerMemberJoin);
            assert(r@[29] == GatewayEvent::ServerMemberLeave);
            assert(r@[30] == GatewayEvent::ServerMemberUpdate);
            assert(r@[31] == GatewayEvent::ServerRoleDelete);
            assert(r@[32] == GatewayEvent::ServerRoleUpdate);
            assert(r@[33] == GatewayEvent::ServerUpdate);
            assert(r@[34] == GatewayEvent::UserRelationship);
            assert(r@[35] == GatewayEvent::UserUpdate);
            assert forall|k: GatewayEvent| #[trigger] r@.contains(k) by {
                match k {
                    GatewayEvent::Authenticate => assert(r@[0] == k),
                    GatewayEvent::Authenticated => assert(r@[1] == k),
                    GatewayEvent::BeginTyping => assert(r@[2] == k),
                    GatewayEvent::Bulk => assert(r@[3] == k),
                    GatewayEvent::ChannelAck => assert(r@[4] == k),
                    GatewayEvent::ChannelCreate => assert(r@[5] == k),
                    GatewayEvent::ChannelDelete => assert(r@[6] == k),
                    GatewayEvent::ChannelGroupJoin => assert(r@[7] == k),
                    GatewayEvent::ChannelGroupLeave => assert(r@[8] == k),
                    GatewayEvent::ChannelStartTyping => assert(r@[9] == k),
                    GatewayEvent::ChannelStopTyping => assert(r@[10] == k),
                    GatewayEvent::ChannelUpdate => assert(r@[11] == k),
                    GatewayEvent::EmojiCreate => assert(r@[12] == k),
                    GatewayEvent::EmojiDelete => assert(r@[13] == k),
                    GatewayEvent::EndTyping => assert(r@[14] == k),
                    GatewayEvent::Error => assert(r@[15] == k),
                    GatewayEvent::Message => assert(r@[16] == k),
                    GatewayEvent::MessageAppend => assert(r@[17] == k),
                    GatewayEvent::MessageDelete => assert(r@[18] == k),
                    GatewayEvent::MessageReact => assert(r@[19] == k),
                    GatewayEvent::MessageRemoveReactions => assert(r@[20] == k),
                    GatewayEvent::MessageUnreact => assert(r@[21] == k),
                    GatewayEvent::MessageUpdate => assert(r@[22] == k),
                    GatewayEvent::Ping => assert(r@[23] == k),
                    GatewayEvent::Pong => assert(r@[24] == k),
                    GatewayEvent::Ready => assert(r@[25] == k),
                    GatewayEvent::ServerCreate => assert(r@[26] == k),
                    GatewayEvent::ServerDelete => assert(r@[27] == k),
                    GatewayEvent::ServerMemberJoin => assert(r@[28] == k),
                    GatewayEvent::ServerMemberLeave => assert(r@[29] == k),
                    GatewayEvent::ServerMemberUpdate => assert(r@[30] == k),
                    GatewayEvent::ServerRoleDelete => assert(r@[31] == k),
                    GatewayEvent::ServerRoleUpdate => assert(r@[32] == k),
                    GatewayEvent::ServerUpdate => assert(r@[33] == k),
                    GatewayEvent::UserRelationship => assert(r@[34] == k),
                    GatewayEvent::UserUpdate => assert(r@[35] == k),
                }
            }
        }
        r
    }
}

/// The kind a wire tag names, if it names one.
pub open spec fn kind_of_tag(t: Seq<char>) -> Option<GatewayEvent> {
    if t == "Authenticate"@ {
        Some(GatewayEvent::Authenticate)
    } else if t == "Authenticated"@ {
        Some(GatewayEvent::Authenticated)
    } else if t == "BeginTyping"@ {
        Some(GatewayEvent::BeginTyping)
    } else if t == "Bulk"@ {
        Some(GatewayEvent::Bulk)
    } else if t == "ChannelAck"@ {
        Some(GatewayEvent::ChannelAck)
    } else if t == "ChannelCreate"@ {
        Some(GatewayEvent::ChannelCreate)
    } else if t == "ChannelDelete"@ {
        Some(GatewayEvent::ChannelDelete)
    } else if t == "ChannelGroupJoin"@ {
        Some(GatewayEvent::ChannelGroupJoin)
    } else if t == "ChannelGroupLeave"@ {
        Some(GatewayEvent::ChannelGroupLeave)
    } else if t == "ChannelStartTyping"@ {
        Some(GatewayEvent::ChannelStartTyping)
    } else if t == "ChannelStopTyping"@ {
        Some(GatewayEvent::ChannelStopTyping)
    } else if t == "ChannelUpdate"@ {
        Some(GatewayEvent::ChannelUpdate)
    } else if t == "EmojiCreate"@ {
        Some(GatewayEvent::EmojiCreate)
    } else if t == "EmojiDelete"@ {
        Some(GatewayEvent::EmojiDelete)
    } else if t == "EndTyping"@ {
        Some(GatewayEvent::EndTyping)
    } else if t == "Error"@ {
        Some(GatewayEvent::Error)
    } else if t == "Message"@ {
        Some(GatewayEvent::Message)
    } else if t == "MessageAppend"@ {
        Some(GatewayEvent::MessageAppend)
    } else if t == "MessageDelete"@ {
        Some(GatewayEvent::MessageDelete)
    } else if t == "MessageReact"@ {
        Some(GatewayEvent::MessageReact)
    } else if t == "MessageRemoveReactions"@ {
        Some(GatewayEvent::MessageRemoveReactions)
    } else if t == "MessageUnreact"@ {
        Some(GatewayEvent::MessageUnreact)
    } else if t == "MessageUpdate"@ {
        Some(GatewayEvent::MessageUpdate)
    } else if t == "Ping"@ {
        Some(GatewayEvent::Ping)
    } else if t == "Pong"@ {
        Some(GatewayEvent::Pong)
    } else if t == "Ready"@ {
        Some(GatewayEvent::Ready)
    } else if t == "ServerCreate"@ {
        Some(GatewayEvent::ServerCreate)
    } else if t == "ServerDelete"@ {
        Some(GatewayEvent::ServerDelete)
    } else if t == "ServerMemberJoin"@ {
        Some(GatewayEvent::ServerMemberJoin)
    } else if t == "ServerMemberLeave"@ {
        Some(GatewayEvent::ServerMemberLeave)
    } else if t == "ServerMemberUpdate"@ {
        Some(GatewayEvent::ServerMemberUpdate)
    } else if t == "ServerRoleDelete"@ {
        Some(GatewayEvent::ServerRoleDelete)
    } else if t == "ServerRoleUpdate"@ {
        Some(GatewayEvent::ServerRoleUpdate)
    } else if t == "ServerUpdate"@ {
        Some(GatewayEvent::ServerUpdate)
    } else if t == "UserRelationship"@ {
        Some(GatewayEvent::UserRelationship)
    } else if t == "UserUpdate"@ {
        Some(GatewayEvent::UserUpdate)
    } else {
        None
    }
}

/// Each kind's tag names that kind and no other: a frame tagged with a
/// kind's tag is classified as exactly that kind.
pub proof fn lemma_tag_names_kind(k: GatewayEvent)
    ensures
        kind_of_tag(k.tag_spec()) == Some(k),
{
    reveal_strlit("Authenticate");
    assert("Authenticate"@.len() == 12);
    reveal_strlit("Authenticated");
    assert("Authenticated"@.len() == 13);
    reveal_strlit("BeginTyping");
    assert("BeginTyping"@.len() == 11);
    reveal_strlit("Bulk");
    assert("Bulk"@.len() == 4);
    reveal_strlit("ChannelAck");
    assert("ChannelAck"@.len() == 10);
    reveal_strlit("ChannelCreate");
    assert("ChannelCreate"@.len() == 13);
    reveal_strlit("ChannelDelete");
    assert("ChannelDelete"@.len() == 13);
    reveal_strlit("ChannelGroupJoin");
    assert("ChannelGroupJoin"@.len() == 16);
    reveal_strlit("ChannelGroupLeave");
    assert("ChannelGroupLeave"@.len() == 17);
    reveal_strlit("ChannelStartTyping");
    assert("ChannelStartTyping"@.len() == 18);
    reveal_strlit("ChannelStopTyping");
    assert("ChannelStopTyping"@.len() == 17);
    reveal_strlit("ChannelUpdate");
    assert("ChannelUpdate"@.len() == 13);
    reveal_strlit("EmojiCreate");
    assert("EmojiCreate"@.len() == 11);
    reveal_strlit("EmojiDelete");
    assert("EmojiDelete"@.len() == 11);
    reveal_strlit("EndTyping");
    assert("EndTyping"@.len() == 9);
    reveal_strlit("Error");
    assert("Error"@.len() == 5);
    reveal_strlit("Message");
    assert("Message"@.len() == 7);
    reveal_strlit("MessageAppend");
    assert("MessageAppend"@.len() == 13);
    reveal_strlit("MessageDelete");
    assert("MessageDelete"@.len() == 13);
    reveal_strlit("MessageReact");
    assert("MessageReact"@.len() == 12);
    reveal_strlit("MessageRemoveReactions");
    assert("MessageRemoveReactions"@.len() == 22);
    reveal_strlit("MessageUnreact");
    assert("MessageUnreact"@.len() == 14);
    reveal_strlit("MessageUpdate");
    assert("MessageUpdate"@.len() == 13);
    reveal_strlit("Ping");
    assert("Ping"@.len() == 4);
    reveal_strlit("Pong");
    assert("Pong"@.len() == 4);
    reveal_strlit("Ready");
    assert("Ready"@.len() == 5);
    reveal_strlit("ServerCreate");
    assert("ServerCreate"@.len() == 12);
    reveal_strlit("ServerDelete");
    assert("ServerDelete"@.len() == 12);
    reveal_strlit("ServerMemberJoin");
    assert("ServerMemberJoin"@.len() == 16);
    reveal_strlit("ServerMemberLeave");
    assert("ServerMemberLeave"@.len() == 17);
    reveal_strlit("ServerMemberUpdate");
    assert("ServerMemberUpdate"@.len() == 18);
    reveal_strlit("ServerRoleDelete");
    assert("ServerRoleDelete"@.len() == 16);
    reveal_strlit("ServerRoleUpdate");
    assert("ServerRoleUpdate"@.len() == 16);
    reveal_strlit("ServerUpdate");
    assert("ServerUpdate"@.len() == 12);
    reveal_strlit("UserRelationship");
    assert("UserRelationship"@.len() == 16);
    reveal_strlit("UserUpdate");
    assert("UserUpdate"@.len() == 10);
    match k {
        GatewayEvent::ChannelCreate => {
            assert("ChannelCreate"@[0] != "Authenticated"@[0]);
        },
        GatewayEvent::ChannelDelete => {
            assert("ChannelDelete"@[0] != "Authenticated"@[0]);
            assert("ChannelDelete"@[7] != "ChannelCreate"@[7]);
        },
        GatewayEvent::ChannelStopTyping => {
            assert("ChannelStopTyping"@[7] != "ChannelGroupLeave"@[7]);
        },
        GatewayEvent::ChannelUpdate => {
            assert("ChannelUpdate"@[0] != "Authenticated"@[0]);
            assert("ChannelUpdate"@[7] != "ChannelCreate"@[7]);
            assert("ChannelUpdate"@[7] != "ChannelDelete"@[7]);
        },
        GatewayEvent::EmojiCreate => {
            assert("EmojiCreate"@[0] != "BeginTyping"@[0]);
        },
        GatewayEvent::EmojiDelete => {
            assert("EmojiDelete"@[0] != "BeginTyping"@[0]);
            assert("EmojiDelete"@[5] != "EmojiCreate"@[5]);
        },
        GatewayEvent::MessageAppend => {
            assert("MessageAppend"@[0] != "Authenticated"@[0]);
            assert("MessageAppend"@[0] != "ChannelCreate"@[0]);
            assert("MessageAppend"@[0] != "ChannelDelete"@[0]);
            assert("MessageAppend"@[0] != "ChannelUpdate"@[0]);
        },
        GatewayEvent::MessageDelete => {
            assert("MessageDelete"@[0] != "Authenticated"@[0]);
            assert("MessageDelete"@[0] != "ChannelCreate"@[0]);
            assert("MessageDelete"@[0] != "ChannelDelete"@[0]);
            assert("MessageDelete"@[0] != "ChannelUpdate"@[0]);
            assert("MessageDelete"@[7] != "MessageAppend"@[7]);
        },
        GatewayEvent::MessageReact => {
            assert("MessageReact"@[0] != "Authenticate"@[0]);
        },
        GatewayEvent::MessageUpdate => {
            assert("MessageUpdate"@[0] != "Authenticated"@[0]);
            assert("MessageUpdate"@[0] != "ChannelCreate"@[0]);
            assert("MessageUpdate"@[0] != "ChannelDelete"@[0]);
            assert("MessageUpdate"@[0] != "ChannelUpdate"@[0]);
            assert("MessageUpdate"@[7] != "MessageAppend"@[7]);
            assert("MessageUpdate"@[7] != "MessageDelete"@[7]);
        },
        GatewayEvent::Ping => {
            assert("Ping"@[0] != "Bulk"@[0]);
        },
        GatewayEvent::Pong => {
            assert("Pong"@[0] != "Bulk"@[0]);
            assert("Pong"@[1] != "Ping"@[1]);
        },
        GatewayEvent::Ready => {
            assert("Ready"@[0] != "Error"@[0]);
        },
        GatewayEvent::ServerCreate => {
            assert("ServerCreate"@[0] != "Authenticate"@[0]);
            assert("ServerCreate"@[0] != "MessageReact"@[0]);
        },
        GatewayEvent::ServerDelete => {
            assert("ServerDelete"@[0] != "Authenticate"@[0]);
            assert("ServerDelete"@[0] != "MessageReact"@[0]);
            assert("ServerDelete"@[6] != "ServerCreate"@[6]);
        },
        GatewayEvent::ServerMemberJoin => {
            assert("ServerMemberJoin"@[0] != "ChannelGroupJoin"@[0]);
        },
        GatewayEvent::ServerMemberLeave => {
            assert("ServerMemberLeave"@[0] != "ChannelGroupLeave"@[0]);
            assert("ServerMemberLeave"@[0] != "ChannelStopTyping"@[0]);
        },
        GatewayEvent::ServerMemberUpdate => {
            assert("ServerMemberUpdate"@[0] != "ChannelStartTyping"@[0]);
        },
        GatewayEvent::ServerRoleDelete => {
            assert("ServerRoleDelete"@[0] != "ChannelGroupJoin"@[0]);
            assert("ServerRoleDelete"@[6] != "ServerMemberJoin"@[6]);
        },
        GatewayEvent::ServerRoleUpdate => {
            assert("ServerRoleUpdate"@[0] != "ChannelGroupJoin"@[0]);
            assert("ServerRoleUpdate"@[6] != "ServerMemberJoin"@[6]);
            assert("ServerRoleUpdate"@[10] != "ServerRoleDelete"@[10]);
        },
        GatewayEvent::ServerUpdate => {
            assert("ServerUpdate"@[0] != "Authenticate"@[0]);
            assert("ServerUpdate"@[0] != "MessageReact"@[0]);
            assert("ServerUpdate"@[6] != "ServerCreate"@[6]);
            assert("ServerUpdate"@[6] != "ServerDelete"@[6]);
        },
        GatewayEvent::UserRelationship => {
            assert("UserRelationship"@[0] != "ChannelGroupJoin"@[0]);
            assert("UserRelationship"@[0] != "ServerMemberJoin"@[0]);
            assert("UserRelationship"@[0] != "ServerRoleDelete"@[0]);
            assert("UserRelationship"@[0] != "ServerRoleUpdate"@[0]);
        },
        GatewayEvent::UserUpdate => {
            assert("UserUpdate"@[0] != "ChannelAck"@[0]);
        },
        _ => {},
    }
}

/// Two kinds with the same tag are the same kind.
pub proof fn lemma_tags_distinct(a: GatewayEvent, b: GatewayEvent)
    requires
        a.tag_spec() == b.tag_spec(),
    ensures
        a == b,
{
    lemma_tag_names_kind(a);
    lemma_tag_names_kind(b);
}

impl GatewayEvent {
    /// The kind a wire tag names; `None` for a tag outside the table.
    pub fn from_tag(tag: &str) -> (r: Option<GatewayEvent>)
        ensures
            r == kind_of_tag(tag@),
    {
        let kinds = GatewayEvent::all();
        let mut i: usize = 0;
        while i < kinds.len()
            invariant
                i <= kinds@.len(),
                forall|k: int| 0 <= k < i ==> (#[trigger] kinds@[k]).tag_spec() != tag@,
            decreases kinds@.len() - i,
        {
            let k = kinds[i];
            if same_text(k.tag(), tag) {
                proof {
                    lemma_tag_names_kind(k);
                }
                return Some(k);
            }
            i += 1;
        }
        proof {
            if kind_of_tag(tag@) is Some {
                let k = kind_of_tag(tag@)->0;
                assert(k.tag_spec() == tag@) by {
                    lemma_tag_names_kind(k);
                    kind_of_tag_sound(tag@);
                }
                assert(kinds@.contains(k));
            }
        }
        None
    }
}

/// A kind that `kind_of_tag` returns has that tag.
proof fn kind_of_tag_sound(t: Seq<char>)
    ensures
        kind_of_tag(t) matches Some(k) ==> k.tag_spec() == t,
{
}

/// Whether the gateway delivers this kind to a handler.
pub open spec fn handled(k: GatewayEvent) -> bool {
    match k {
        GatewayEvent::Authenticated => true,
        GatewayEvent::ChannelAck => true,
        GatewayEvent::ChannelCreate => true,
        GatewayEvent::ChannelDelete => true,
        GatewayEvent::ChannelGroupJoin => true,
        GatewayEvent::ChannelGroupLeave => true,
        GatewayEvent::ChannelStartTyping => true,
        GatewayEvent::ChannelStopTyping => true,
        GatewayEvent::ChannelUpdate => true,
        GatewayEvent::Message => true,
        GatewayEvent::MessageDelete => true,
        GatewayEvent::MessageReact => true,
        GatewayEvent::MessageRemoveReactions => true,
        GatewayEvent::MessageUnreact => true,
        GatewayEvent::MessageUpdate => true,
        GatewayEvent::Pong => true,
        GatewayEvent::Ready => true,
        GatewayEvent::ServerDelete => true,
        GatewayEvent::ServerMemberJoin => true,
        GatewayEvent::ServerMemberLeave => true,
        GatewayEvent::ServerMemberUpdate => true,
        GatewayEvent::ServerRoleDelete => true,
        GatewayEvent::ServerRoleUpdate => true,
        GatewayEvent::ServerUpdate => true,
        GatewayEvent::UserRelationship => true,
        GatewayEvent::UserUpdate => true,
        _ => false,
    }
}

/// A decoded inbound event; a tag without a handler is kept as `Unknown`.
pub enum Event {
    Authenticated,
    ChannelAck(ChannelAck),
    ChannelCreate(ChannelCreate),
    ChannelDelete(ChannelDelete),
    ChannelGroupJoin(ChannelGroupJoin),
    ChannelGroupLeave(ChannelGroupLeave),
    ChannelStartTyping(ChannelStartTyping),
    ChannelStopTyping(ChannelStopTyping),
    ChannelUpdate(ChannelUpdate),
    Message(Message),
    MessageDelete(MessageDelete),
    MessageReact(MessageReact),
    MessageRemoveReactions(MessageRemoveReactions),
    MessageUnreact(MessageUnreact),
    MessageUpdate(MessageUpdate),
    Pong,
    Ready(Ready),
    ServerDelete(ServerDelete),
    ServerMemberJoin(ServerMemberJoin),
    ServerMemberLeave(ServerMemberLeave),
    ServerMemberUpdate(ServerMemberUpdate),
    ServerRoleDelete(ServerRoleDelete),
    ServerRoleUpdate(ServerRoleUpdate),
    ServerUpdate(ServerUpdate),
    UserRelationship(UserRelationship),
    UserUpdate(UserUpdate),
    Unknown(String),
}

impl Event {
    /// The kind of the event; `None` for an unknown tag.
    pub open spec fn kind(self) -> Option<GatewayEvent> {
        match self {
            Event::Authenticated => Some(GatewayEvent::Authenticated),
            Event::ChannelAck(_) => Some(GatewayEvent::ChannelAck),
            Event::ChannelCreate(_) => Some(GatewayEvent::ChannelCreate),
            Event::ChannelDelete(_) => Some(GatewayEvent::ChannelDelete),
            Event::ChannelGroupJoin(_) => Some(GatewayEvent::ChannelGroupJoin),
            Event::ChannelGroupLeave(_) => Some(GatewayEvent::ChannelGroupLeave),
            Event::ChannelStartTyping(_) => Some(GatewayEvent::ChannelStartTyping),
            Event::ChannelStopTyping(_) => Some(GatewayEvent::ChannelStopTyping),
            Event::ChannelUpdate(_) => Some(GatewayEvent::ChannelUpdate),
            Event::Message(_) => Some(GatewayEvent::Message),
            Event::MessageDelete(_) => Some(GatewayEvent::MessageDelete),
            Event::MessageReact(_) => Some(GatewayEvent::MessageReact),
            Event::MessageRemoveReactions(_) => Some(GatewayEvent::MessageRemoveReactions),
            Event::MessageUnreact(_) => Some(GatewayEvent::MessageUnreact),
            Event::MessageUpdate(_) => Some(GatewayEvent::MessageUpdate),
            Event::Pong => Some(GatewayEvent::Pong),
            Event::Ready(_) => Some(GatewayEvent::Ready),
            Event::ServerDelete(_) => Some(GatewayEvent::ServerDelete),
            Event::ServerMemberJoin(_) => Some(GatewayEvent::ServerMemberJoin),
            Event::ServerMemberLeave(_) => Some(GatewayEvent::ServerMemberLeave),
            Event::ServerMemberUpdate(_) => Some(GatewayEvent::ServerMemberUpdate),
            Event::ServerRoleDelete(_) => Some(GatewayEvent::ServerRoleDelete),
            Event::ServerRoleUpdate(_) => Some(GatewayEvent::ServerRoleUpdate),
            Event::ServerUpdate(_) => Some(GatewayEvent::ServerUpdate),
            Event::UserRelationship(_) => Some(GatewayEvent::UserRelationship),
            Event::UserUpdate(_) => Some(GatewayEvent::UserUpdate),
            Event::Unknown(_) => None,
        }
    }
}

/// Whether a frame carries what an event of kind `k` needs.
pub open spec fn payload_ok(k: GatewayEvent, j: Json) -> bool {
    match k {
        GatewayEvent::Authenticated => true,
        GatewayEvent::ChannelAck => ChannelAck::wire_ok(j),
        GatewayEvent::ChannelCreate => ChannelCreate::wire_ok(j),
        GatewayEvent::ChannelDelete => ChannelDelete::wire_ok(j),
        GatewayEvent::ChannelGroupJoin => ChannelGroupJoin::wire_ok(j),
        GatewayEvent::ChannelGroupLeave => ChannelGroupLeave::wire_ok(j),
        GatewayEvent::ChannelStartTyping => ChannelStartTyping::wire_ok(j),
        GatewayEvent::ChannelStopTyping => ChannelStopTyping::wire_ok(j),
        GatewayEvent::ChannelUpdate => ChannelUpdate::wire_ok(j),
        GatewayEvent::Message => Message::wire_ok(j),
        GatewayEvent::MessageDelete => MessageDelete::wire_ok(j),
        GatewayEvent::MessageReact => MessageReact::wire_ok(j),
        GatewayEvent::MessageRemoveReactions => MessageRemoveReactions::wire_ok(j),
        GatewayEvent::MessageUnreact => MessageUnreact::wire_ok(j),
        GatewayEvent::MessageUpdate => MessageUpdate::wire_ok(j),
        GatewayEvent::Pong => true,
        GatewayEvent::Ready => Ready::wire_ok(j),
        GatewayEvent::ServerDelete => ServerDelete::wire_ok(j),
        GatewayEvent::ServerMemberJoin => ServerMemberJoin::wire_ok(j),
        GatewayEvent::ServerMemberLeave => ServerMemberLeave::wire_ok(j),
        GatewayEvent::ServerMemberUpdate => ServerMemberUpdate::wire_ok(j),
        GatewayEvent::ServerRoleDelete => ServerRoleDelete::wire_ok(j),
        GatewayEvent::ServerRoleUpdate => ServerRoleUpdate::wire_ok(j),
        GatewayEvent::ServerUpdate => ServerUpdate::wire_ok(j),
        GatewayEvent::UserRelationship => UserRelationship::wire_ok(j),
        GatewayEvent::UserUpdate => UserUpdate::wire_ok(j),
        _ => false,
    }
}

/// Whether the event holds what the frame carries.
pub open spec fn event_reads(e: Event, j: Json) -> bool {
    match e {
        Event::Authenticated => true,
        Event::ChannelAck(p) => p.read_from(j),
        Event::ChannelCreate(p) => p.read_from(j),
        Event::ChannelDelete(p) => p.read_from(j),
        Event::ChannelGroupJoin(p) => p.read_from(j),
        Event::ChannelGroupLeave(p) => p.read_from(j),
        Event::ChannelStartTyping(p) => p.read_from(j),
        Event::ChannelStopTyping(p) => p.read_from(j),
        Event::ChannelUpdate(p) => p.read_from(j),
        Event::Message(p) => p.read_from(j),
        Event::MessageDelete(p) => p.read_from(j),
        Event::MessageReact(p) => p.read_from(j),
        Event::MessageRemoveReactions(p) => p.read_from(j),
        Event::MessageUnreact(p) => p.read_from(j),
        Event::MessageUpdate(p) => p.read_from(j),
        Event::Pong => true,
        Event::Ready(p) => p.read_from(j),
        Event::ServerDelete(p) => p.read_from(j),
        Event::ServerMemberJoin(p) => p.read_from(j),
        Event::ServerMemberLeave(p) => p.read_from(j),
        Event::ServerMemberUpdate(p) => p.read_from(j),
        Event::ServerRoleDelete(p) => p.read_from(j),
        Event::ServerRoleUpdate(p) => p.read_from(j),
        Event::ServerUpdate(p) => p.read_from(j),
        Event::UserRelationship(p) => p.read_from(j),
        Event::UserUpdate(p) => p.read_from(j),
        Event::Unknown(t) => j.str_at("type"@) == Some(t@),
    }
}

/// What a frame decodes to.
pub enum Decoded {
    /// A frame with a tag: a handled kind with its payload, or `Unknown`.
    Event(Event),
    /// A frame of a handled kind whose payload does not have its shape.
    Malformed(GatewayEvent),
    /// Text that is not a JSON object with a string tag.
    Invalid,
}

/// What a JSON frame decodes to: no tag is `Invalid`; a tag without a
/// handler is `Unknown`; a handled kind is that event when the payload has
/// its shape, and `Malformed` when it has not.
pub open spec fn decoded_from(r: Decoded, j: Json) -> bool {
    match j.str_at("type"@) {
        None => r is Invalid,
        Some(t) => match kind_of_tag(t) {
            Some(k) => if !handled(k) {
                r matches Decoded::Event(Event::Unknown(s)) && s@ == t
            } else if payload_ok(k, j) {
                r matches Decoded::Event(e) && e.kind() == Some(k) && event_reads(e, j)
            } else {
                r == Decoded::Malformed(k)
            },
            None => r matches Decoded::Event(Event::Unknown(s)) && s@ == t,
        },
    }
}

/// Decodes the JSON tree of one frame: the tag selects the payload shape
/// to read.
pub fn decode_value(j: Json) -> (r: Decoded)
    ensures
        decoded_from(r, j),
{
    let tag = match j.str_field("type") {
        Some(t) => t,
        None => return Decoded::Invalid,
    };
    let kind = GatewayEvent::from_tag(tag.as_str());
    match kind {
            Some(GatewayEvent::Authenticated) => Decoded::Event(Event::Authenticated),
            Some(GatewayEvent::ChannelAck) => match ChannelAck::from_json(&j) {
                Some(p) => Decoded::Event(Event::ChannelAck(p)),
                None => Decoded::Malformed(GatewayEvent::ChannelAck),
            },
            Some(GatewayEvent::ChannelCreate) => match ChannelCreate::from_json(&j) {
                Some(p) => Decoded::Event(Event::ChannelCreate(p)),
                None => Decoded::Malformed(GatewayEvent::ChannelCreate),
            },
            Some(GatewayEvent::ChannelDelete) => match ChannelDelete::from_json(&j) {
                Some(p) => Decoded::Event(Event::ChannelDelete(p)),
                None => Decoded::Malformed(GatewayEvent::ChannelDelete),
            },
            Some(GatewayEvent::ChannelGroupJoin) => match ChannelGroupJoin::from_json(&j) {
                Some(p) => Decoded::Event(Event::ChannelGroupJoin(p)),
                None => Decoded::Malformed(GatewayEvent::ChannelGroupJoin),
            },
            Some(GatewayEvent::ChannelGroupLeave) => match ChannelGroupLeave::from_json(&j) {
                Some(p) => Decoded::Event(Event::ChannelGroupLeave(p)),
                None => Decoded::Malformed(GatewayEvent::ChannelGroupLeave),
            },
            Some(GatewayEvent::ChannelStartTyping) => match ChannelStartTyping::from_json(&j) {
                Some(p) => Decoded::Event(Event::ChannelStartTyping(p)),
                None => Decoded::Malformed(GatewayEvent::ChannelStartTyping),
            },
            Some(GatewayEvent::ChannelStopTyping) => match ChannelStopTyping::from_json(&j) {
                Some(p) => Decoded::Event(Event::ChannelStopTyping(p)),
                None => Decoded::Malformed(GatewayEvent::ChannelStopTyping),
            },
            Some(GatewayEvent::ChannelUpdate) => match ChannelUpdate::from_json(j) {
                Some(p) => Decoded::Event(Event::ChannelUpdate(p)),
                None => Decoded::Malformed(GatewayEvent::ChannelUpdate),
            },
            Some(GatewayEvent::Message) => match Message::from_json(&j) {
                Some(p) => Decoded::Event(Event::Message(p)),
                None => Decoded::Malformed(GatewayEvent::Message),
            },
            Some(GatewayEvent::MessageDelete) => match MessageDelete::from_json(&j) {
                Some(p) => Decoded::Event(Event::MessageDelete(p)),
                None => Decoded::Malformed(GatewayEvent::MessageDelete),
            },
            Some(GatewayEvent::MessageReact) => match MessageReact::from_json(&j) {
                Some(p) => Decoded::Event(Event::MessageReact(p)),
                None => Decoded::Malformed(GatewayEvent::MessageReact),
            },
            Some(GatewayEvent::MessageRemoveReactions) => match MessageRemoveReactions::from_json(&j) {
                Some(p) => Decoded::Event(Event::MessageRemoveReactions(p)),
                None => Decoded::Malformed(GatewayEvent::MessageRemoveReactions),
            },
            Some(GatewayEvent::MessageUnreact) => match MessageUnreact::from_json(&j) {
                Some(p) => Decoded::Event(Event::MessageUnreact(p)),
                None => Decoded::Malformed(GatewayEvent::MessageUnreact),
            },
            Some(GatewayEvent::MessageUpdate) => match MessageUpdate::from_json(j) {
                Some(p) => Decoded::Event(Event::MessageUpdate(p)),
                None => Decoded::Malformed(GatewayEvent::MessageUpdate),
            },
            Some(GatewayEvent::Pong) => Decoded::Event(Event::Pong),
            Some(GatewayEvent::Ready) => match Ready::from_json(j) {
                Some(p) => Decoded::Event(Event::Ready(p)),
                None => Decoded::Malformed(GatewayEvent::Ready),
            },
            Some(GatewayEvent::ServerDelete) => match ServerDelete::from_json(&j) {
                Some(p) => Decoded::Event(Event::ServerDelete(p)),
                None => Decoded::Malformed(GatewayEvent::ServerDelete),
            },
            Some(GatewayEvent::ServerMemberJoin) => match ServerMemberJoin::from_json(&j) {
                Some(p) => Decoded::Event(Event::ServerMemberJoin(p)),
                None => Decoded::Malformed(GatewayEvent::ServerMemberJoin),
            },
            Some(GatewayEvent::ServerMemberLeave) => match ServerMemberLeave::from_json(&j) {
                Some(p) => Decoded::Event(Event::ServerMemberLeave(p)),
                None => Decoded::Malformed(GatewayEvent::ServerMemberLeave),
            },
            Some(GatewayEvent::ServerMemberUpdate) => match ServerMemberUpdate::from_json(j) {
                Some(p) => Decoded::Event(Event::ServerMemberUpdate(p)),
                None => Decoded::Malformed(GatewayEvent::ServerMemberUpdate),
            },
            Some(GatewayEvent::ServerRoleDelete) => match ServerRoleDelete::from_json(&j) {
                Some(p) => Decoded::Event(Event::ServerRoleDelete(p)),
                None => Decoded::Malformed(GatewayEvent::ServerRoleDelete),
            },
            Some(GatewayEvent::ServerRoleUpdate) => match ServerRoleUpdate::from_json(j) {
                Some(p) => Decoded::Event(Event::ServerRoleUpdate(p)),
                None => Decoded::Malformed(GatewayEvent::ServerRoleUpdate),
            },
            Some(GatewayEvent::ServerUpdate) => match ServerUpdate::from_json(j) {
                Some(p) => Decoded::Event(Event::ServerUpdate(p)),
                None => Decoded::Malformed(GatewayEvent::ServerUpdate),
            },
            Some(GatewayEvent::UserRelationship) => match UserRelationship::from_json(j) {
                Some(p) => Decoded::Event(Event::UserRelationship(p)),
                None => Decoded::Malformed(GatewayEvent::UserRelationship),
            },
            Some(GatewayEvent::UserUpdate) => match UserUpdate::from_json(j) {
                Some(p) => Decoded::Event(Event::UserUpdate(p)),
                None => Decoded::Malformed(GatewayEvent::UserUpdate),
            },
            _ => Decoded::Event(Event::Unknown(tag)),
    }
}

/// Decodes one text frame; text that is not JSON is `Invalid`.
pub fn decode_frame(text: &str) -> (r: Decoded)
    ensures
        match json_parse(text@) {
            Some(j) => decoded_from(r, j),
            None => r is Invalid,
        },
{
    match Json::parse(text) {
        Some(j) => decode_value(j),
        None => Decoded::Invalid,
    }
}

/// What a handler is given beside the payload: the session credential and
/// the raw frame.
pub struct Context {
    pub token: String,
    pub json: String,
}

impl Context {
    pub fn new(token: &str, json: &str) -> (r: Context)
        ensures
            r.token@ == token@,
            r.json@ == json@,
    {
        Context { token: token.to_owned(), json: json.to_owned() }
    }
}

/// One callback per handled kind; each does nothing unless implemented,
/// so a consumer implements only what it needs.
pub trait EventHandler {
    fn authenticated(&mut self, context: &Context) {
    }

    fn channel_ack(&mut self, context: &Context, payload: &ChannelAck) {
    }

    fn channel_create(&mut self, context: &Context, payload: &ChannelCreate) {
    }

    fn channel_delete(&mut self, context: &Context, payload: &ChannelDelete) {
    }

    fn channel_group_join(&mut self, context: &Context, payload: &ChannelGroupJoin) {
    }

    fn channel_group_leave(&mut self, context: &Context, payload: &ChannelGroupLeave) {
    }

    fn channel_start_typing(&mut self, context: &Context, payload: &ChannelStartTyping) {
    }

    fn channel_stop_typing(&mut self, context: &Context, payload: &ChannelStopTyping) {
    }

    fn channel_update(&mut self, context: &Context, payload: &ChannelUpdate) {
    }

    fn on_message(&mut self, context: &Context, payload: &Message) {
    }

    fn message_delete(&mut self, context: &Context, payload: &MessageDelete) {
    }

    fn message_react(&mut self, context: &Context, payload: &MessageReact) {
    }

    fn message_remove_reactions(&mut self, context: &Context, payload: &MessageRemoveReactions) {
    }

    fn message_unreact(&mut self, context: &Context, payload: &MessageUnreact) {
    }

    fn message_update(&mut self, context: &Context, payload: &MessageUpdate) {
    }

    fn pong(&mut self, context: &Context) {
    }

    fn ready(&mut self, context: &Context, payload: &Ready) {
    }

    fn server_delete(&mut self, context: &Context, payload: &ServerDelete) {
    }

    fn server_member_join(&mut self, context: &Context, payload: &ServerMemberJoin) {
    }

    fn server_member_leave(&mut self, context: &Context, payload: &ServerMemberLeave) {
    }

    fn server_member_update(&mut self, context: &Context, payload: &ServerMemberUpdate) {
    }

    fn server_role_delete(&mut self, context: &Context, payload: &ServerRoleDelete) {
    }

    fn server_role_update(&mut self, context: &Context, payload: &ServerRoleUpdate) {
    }

    fn server_update(&mut self, context: &Context, payload: &ServerUpdate) {
    }

    fn user_relationship(&mut self, context: &Context, payload: &UserRelationship) {
    }

    fn user_update(&mut self, context: &Context, payload: &UserUpdate) {
    }
}

/// Invokes the one callback bound to the event's kind, once, and returns
/// that kind; an unknown event invokes none.
pub fn dispatch<H: EventHandler>(handler: &mut H, context: &Context, event: &Event) -> (r: Option<GatewayEvent>)
    ensures
        r == event.kind(),
{
    match event {
        Event::Authenticated => {
            handler.authenticated(context);
            Some(GatewayEvent::Authenticated)
        },
        Event::ChannelAck(p) => {
            handler.channel_ack(context, p);
            Some(GatewayEvent::ChannelAck)
        },
        Event::ChannelCreate(p) => {
            handler.channel_create(context, p);
            Some(GatewayEvent::ChannelCreate)
        },
        Event::ChannelDelete(p) => {
            handler.channel_delete(context, p);
            Some(GatewayEvent::ChannelDelete)
        },
        Event::ChannelGroupJoin(p) => {
            handler.channel_group_join(context, p);
            Some(GatewayEvent::ChannelGroupJoin)
        },
        Event::ChannelGroupLeave(p) => {
            handler.channel_group_leave(context, p);
            Some(GatewayEvent::ChannelGroupLeave)
        },
        Event::ChannelStartTyping(p) => {
            handler.channel_start_typing(context, p);
            Some(GatewayEvent::ChannelStartTyping)
        },
        Event::ChannelStopTyping(p) => {
            handler.channel_stop_typing(context, p);
            Some(GatewayEvent::ChannelStopTyping)
        },
        Event::ChannelUpdate(p) => {
            handler.channel_update(context, p);
            Some(GatewayEvent::ChannelUpdate)
        },
        Event::Message(p) => {
            handler.on_message(context, p);
            Some(GatewayEvent::Message)
        },
        Event::MessageDelete(p) => {
            handler.message_delete(context, p);
            Some(GatewayEvent::MessageDelete)
        },
        Event::MessageReact(p) => {
            handler.message_react(context, p);
            Some(GatewayEvent::MessageReact)
        },
        Event::MessageRemoveReactions(p) => {
            handler.message_remove_reactions(context, p);
            Some(GatewayEvent::MessageRemoveReactions)
        },
        Event::MessageUnreact(p) => {
            handler.message_unreact(context, p);
            Some(GatewayEvent::MessageUnreact)
        },
        Event::MessageUpdate(p) => {
            handler.message_update(context, p);
            Some(GatewayEvent::MessageUpdate)
        },
        Event::Pong => {
            handler.pong(context);
            Some(GatewayEvent::Pong)
        },
        Event::Ready(p) => {
            handler.ready(context, p);
            Some(GatewayEvent::Ready)
        },
        Event::ServerDelete(p) => {
            handler.server_delete(context, p);
            Some(GatewayEvent::ServerDelete)
        },
        Event::ServerMemberJoin(p) => {
            handler.server_member_join(context, p);
            Some(GatewayEvent::ServerMemberJoin)
        },
        Event::ServerMemberLeave(p) => {
            handler.server_member_leave(context, p);
            Some(GatewayEvent::ServerMemberLeave)
        },
        Event::ServerMemberUpdate(p) => {
            handler.server_member_update(context, p);
            Some(GatewayEvent::ServerMemberUpdate)
        },
        Event::ServerRoleDelete(p) => {
            handler.server_role_delete(context, p);
            Some(GatewayEvent::ServerRoleDelete)
        },
        Event::ServerRoleUpdate(p) => {
            handler.server_role_update(context, p);
            Some(GatewayEvent::ServerRoleUpdate)
        },
        Event::ServerUpdate(p) => {
            handler.server_update(context, p);
            Some(GatewayEvent::ServerUpdate)
        },
        Event::UserRelationship(p) => {
            handler.user_relationship(context, p);
            Some(GatewayEvent::UserRelationship)
        },
        Event::UserUpdate(p) => {
            handler.user_update(context, p);
            Some(GatewayEvent::UserUpdate)
        },
        Event::Unknown(_) => None,
    }
}

} // verus!
