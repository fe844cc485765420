//! The chat-domain records the persistent store owns — conversations,
//! messages, configuration requests — and the pure shaping of a stored
//! conversation into the context window a completion call carries.

use vstd::prelude::*;
use vstd::string::*;
use crate::adapter::{ApiConfig, ApiProvider, ChatMessage, msg_views};

verus! {

/// Who spoke a message.
#[derive(PartialEq, Eq, Structural, Clone, Copy, Debug)]
pub enum MessageRole {
    User,
    Assistant,
}

/// The wire name of a role.
pub open spec fn spec_role_name(r: MessageRole) -> Seq<char> {
    match r {
        MessageRole::User => "user"@,
        MessageRole::Assistant => "assistant"@,
    }
}

impl MessageRole {
    /// The wire name of this role.
    pub fn name(&self) -> (r: &'static str)
        ensures
            r@ == spec_role_name(*self),
    {
        match self {
            MessageRole::User => "user",
            MessageRole::Assistant => "assistant",
        }
    }
}

/// One stored conversation. Timestamps are kept as the store renders
/// them.
pub struct Chat {
    pub id: String,
    pub title: String,
    pub api_config_id: Option<String>,
    pub created_at: String,
    pub updated_at: String,
}

/// One stored message of a conversation.
pub struct Message {
    pub id: String,
    pub chat_id: String,
    pub content: String,
    pub role: MessageRole,
    pub created_at: String,
}

/// A conversation with its most recent message, for listing.
pub struct ChatWithLastMessage {
    pub id: String,
    pub title: String,
    pub api_config_id: Option<String>,
    pub api_config_name: Option<String>,
    pub created_at: String,
    pub updated_at: String,
    pub last_message: Option<String>,
    pub last_message_time: Option<String>,
    pub unread_count: i64,
}

/// What a caller hands in to open a conversation.
pub struct CreateChatRequest {
    pub title: String,
    pub api_config_id: Option<String>,
}

/// What a caller hands in to append a message.
pub struct CreateMessageRequest {
    pub chat_id: String,
    pub content: String,
    pub role: MessageRole,
}

/// What a caller hands in to retitle a conversation.
pub struct UpdateChatRequest {
    pub title: String,
    pub api_config_id: Option<String>,
}

/// What a caller hands in to create an API configuration. The sampling
/// temperature is kept in hundredths.
pub struct CreateApiConfigRequest {
    pub name: String,
    pub provider: ApiProvider,
    pub api_key: String,
    pub base_url: Option<String>,
    pub model: String,
    pub temperature_centi: u32,
    pub max_tokens: Option<u32>,
    pub is_default: bool,
}

/// What a caller hands in to change an API configuration.
pub struct UpdateApiConfigRequest {
    pub name: String,
    pub api_key: String,
    pub base_url: Option<String>,
    pub model: String,
    pub temperature_centi: u32,
    pub max_tokens: Option<u32>,
    pub is_default: bool,
}

/// At most one configuration carries the default flag.
pub open spec fn single_default(configs: Seq<ApiConfig>) -> bool {
    forall|i: int, j: int|
        0 <= i < j < configs.len() && configs[i].is_default ==> !configs[j].is_default
}

/// Marks the chosen configuration as the default and clears the flag on
/// every other one — the write-time rule that keeps at most one
/// configuration default. Every other field of every configuration is
/// left as it was.
pub fn mark_default(configs: &mut Vec<ApiConfig>, chosen: usize)
    requires
        chosen < old(configs)@.len(),
    ensures
        final(configs)@.len() == old(configs)@.len(),
        forall|k: int|
            0 <= k < final(configs)@.len() ==> {
                &&& final(configs)@[k].is_default == (k == chosen)
                &&& final(configs)@[k].id == old(configs)@[k].id
                &&& final(configs)@[k].name == old(configs)@[k].name
                &&& final(configs)@[k].provider == old(configs)@[k].provider
                &&& final(configs)@[k].api_key == old(configs)@[k].api_key
                &&& final(configs)@[k].base_url == old(configs)@[k].base_url
                &&& final(configs)@[k].model == old(configs)@[k].model
                &&& final(configs)@[k].temperature_centi == old(configs)@[k].temperature_centi
                &&& final(configs)@[k].max_tokens == old(configs)@[k].max_tokens
            },
        single_default(final(configs)@),
{
    let ghost orig = configs@;
    let n = configs.len();
    let mut out: Vec<ApiConfig> = Vec::new();
    let mut i: usize = 0;
    proof {
        assert(configs@ =~= orig.skip(0));
    }
    while i < n
        invariant
            out@.len() == i,
            i <= n,
            n == orig.len(),
            configs@ == orig.skip(i as int),
            forall|k: int|
                0 <= k < i ==> {
                    &&& out@[k].is_default == (k == chosen)
                    &&& out@[k].id == orig[k].id
                    &&& out@[k].name == orig[k].name
                    &&& out@[k].provider == orig[k].provider
                    &&& out@[k].api_key == orig[k].api_key
                    &&& out@[k].base_url == orig[k].base_url
                    &&& out@[k].model == orig[k].model
                    &&& out@[k].temperature_centi == orig[k].temperature_centi
                    &&& out@[k].max_tokens == orig[k].max_tokens
                },
        decreases n - i,
    {
        let c = configs.remove(0);
        proof {
            assert(configs@ =~= orig.skip(i + 1 as int));
            assert(c == orig[i as int]);
        }
        let flagged = ApiConfig { is_default: i == chosen, ..c };
        out.push(flagged);
        i += 1;
    }
    proof {
        assert forall|a: int, b: int|
            0 <= a < b < out@.len() && out@[a].is_default implies !out@[b].is_default by {
            assert(out@[a].id == orig[a].id);
            assert(out@[b].id == orig[b].id);
            assert(out@[a].is_default == (a == chosen));
            assert(out@[b].is_default == (b == chosen));
        }
    }
    *configs = out;
    proof {
        assert(orig == old(configs)@);
    }
}

/// The tail of a conversation that a completion call carries: the last
/// ten messages, in order.
pub open spec fn spec_window(ms: Seq<Message>) -> Seq<Message> {
    if ms.len() <= 10 {
        ms
    } else {
        ms.skip(ms.len() - 10)
    }
}

/// The role/content pair one stored message contributes.
pub open spec fn spec_context_entry(m: Message) -> (Seq<char>, Seq<char>) {
    (spec_role_name(m.role), m.content@)
}

/// Shapes a stored conversation into the context window of a completion
/// call: the last ten messages, each reduced to its wire role name and
/// text.
pub fn build_context_window(messages: &Vec<Message>) -> (r: Vec<ChatMessage>)
    ensures
        msg_views(r@) == spec_window(messages@).map_values(
            |m: Message| spec_context_entry(m),
        ),
{
    let n = messages.len();
    let start: usize = if n > 10 {
        n - 10
    } else {
        0
    };
    let ghost win = spec_window(messages@);
    proof {
        if n > 10 {
            assert(win =~= messages@.skip(start as int));
        } else {
            assert(win =~= messages@.skip(0));
        }
    }
    let mut r: Vec<ChatMessage> = Vec::new();
    let mut i: usize = start;
    proof {
        assert(msg_views(r@) =~= win.map_values(|m: Message| spec_context_entry(m)).take(0));
    }
    while i < n
        invariant
            n == messages@.len(),
            start <= i <= n,
            win == messages@.skip(start as int),
            win.len() == n - start,
            msg_views(r@) == win.map_values(|m: Message| spec_context_entry(m)).take(
                i - start as int,
            ),
        decreases n - i,
    {
        let m = &messages[i];
        let entry = ChatMessage {
            role: String::from_str(m.role.name()),
            content: m.content.clone(),
        };
        proof {
            let ghost mapped = win.map_values(|mm: Message| spec_context_entry(mm));
            assert(msg_views(r@.push(entry)) =~= msg_views(r@).push((entry.role@, entry.content@)));
            assert(win[i - start] == messages@[i as int]);
            assert(mapped.take(i - start + 1) =~= mapped.take(i - start).push(
                mapped[i - start],
            ));
        }
        r.push(entry);
        i += 1;
    }
    proof {
        let ghost mapped = win.map_values(|mm: Message| spec_context_entry(mm));
        assert(mapped.take(n - start) =~= mapped);
    }
    r
}

} // verus!
