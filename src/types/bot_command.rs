//! Bot commands and the scopes they apply to.
use crate::json::{
    as_str, json_text, lemma_members_text_front, lookup, member, string_text, members_of, nat_text, push_member, push_nat, str_is, Json, JsonValue,
};
use crate::types::chat::{chat_id_json, chat_id_of_json, ChatId, ChatIdView};
use vstd::prelude::*;

verus! {

/// Fewest characters in a command name.
pub const MIN_NAME_LEN: usize = 1;

/// Most characters in a command name.
pub const MAX_NAME_LEN: usize = 32;

/// Fewest characters in a command description.
pub const MIN_DESCRIPTION_LEN: usize = 3;

/// Most characters in a command description.
pub const MAX_DESCRIPTION_LEN: usize = 256;

/// The model of a bot command.
pub struct BotCommandView {
    pub name: Seq<char>,
    pub description: Seq<char>,
}

/// A command of the bot, with its description.
#[derive(Debug)]
pub struct BotCommand {
    command: String,
    description: String,
}

impl View for BotCommand {
    type V = BotCommandView;

    closed spec fn view(&self) -> BotCommandView {
        BotCommandView { name: self.command@, description: self.description@ }
    }
}

/// Why a bot command could not be made.
#[derive(Debug, Clone, Copy, PartialEq, Eq, Structural)]
pub enum BotCommandError {
    /// The name has this many characters, outside `1..=32`.
    BadNameLen(usize),
    /// The description has this many characters, outside `3..=256`.
    BadDescriptionLen(usize),
}

/// Whether a name length is accepted.
pub open spec fn name_len_ok(n: nat) -> bool {
    MIN_NAME_LEN <= n <= MAX_NAME_LEN
}

/// Whether a description length is accepted.
pub open spec fn description_len_ok(n: nat) -> bool {
    MIN_DESCRIPTION_LEN <= n <= MAX_DESCRIPTION_LEN
}

/// The outcome of making a command from a name and a description.
pub open spec fn bot_command_result(name: Seq<char>, description: Seq<char>) -> Result<
    BotCommandView,
    BotCommandError,
> {
    if !name_len_ok(name.len()) {
        Err(BotCommandError::BadNameLen(name.len() as usize))
    } else if !description_len_ok(description.len()) {
        Err(BotCommandError::BadDescriptionLen(description.len() as usize))
    } else {
        Ok(BotCommandView { name, description })
    }
}

/// The JSON of a bot command.
pub open spec fn bot_command_json(c: BotCommandView) -> Json {
    Json::Object(seq![("command"@, Json::Str(c.name)), ("description"@, Json::Str(c.description))])
}

/// The bot command a JSON value holds.
pub open spec fn bot_command_of_json(j: Json) -> Option<BotCommandView> {
    match (as_str(member(j, "command"@)), as_str(member(j, "description"@))) {
        (Some(name), Some(description)) => Some(BotCommandView { name, description }),
        _ => None,
    }
}

impl BotCommand {
    /// A command with a name of 1 to 32 characters and a description of 3
    /// to 256 characters; other lengths are refused with the length found.
    pub fn new(name: &str, description: &str) -> (r: Result<BotCommand, BotCommandError>)
        ensures
            match (r, bot_command_result(name@, description@)) {
                (Ok(c), Ok(v)) => c@ == v,
                (Err(e), Err(f)) => e == f,
                _ => false,
            },
    {
        let name_len = name.unicode_len();
        let description_len = description.unicode_len();
        if name_len < MIN_NAME_LEN || name_len > MAX_NAME_LEN {
            Err(BotCommandError::BadNameLen(name_len))
        } else if description_len < MIN_DESCRIPTION_LEN || description_len > MAX_DESCRIPTION_LEN {
            Err(BotCommandError::BadDescriptionLen(description_len))
        } else {
            Ok(BotCommand { command: String::from_str(name), description: String::from_str(description) })
        }
    }

    /// The command name.
    pub fn name(&self) -> (r: &str)
        ensures
            r@ == self@.name,
    {
        self.command.as_str()
    }

    /// The command description.
    pub fn description(&self) -> (r: &str)
        ensures
            r@ == self@.description,
    {
        self.description.as_str()
    }

    /// The JSON value of the command.
    pub fn to_json(&self) -> (r: JsonValue)
        ensures
            r@ == bot_command_json(self@),
    {
        let mut m: Vec<(String, JsonValue)> = Vec::new();
        push_member(&mut m, "command", JsonValue::Str(self.command.clone()));
        push_member(&mut m, "description", JsonValue::Str(self.description.clone()));
        assert(members_of(m@) =~= seq![("command"@, Json::Str(self@.name)), ("description"@, Json::Str(self@.description))]);
        JsonValue::Object(m)
    }

    /// The command a JSON value holds.  Lengths are not checked here: the
    /// server is trusted to send commands it accepted.
    pub fn from_json(j: &JsonValue) -> (r: Option<BotCommand>)
        ensures
            match bot_command_of_json(j@) {
                Some(v) => r is Some && r->0@ == v,
                None => r is None,
            },
    {
        match (j.get_str("command"), j.get_str("description")) {
            (Some(command), Some(description)) => Some(BotCommand { command, description }),
            _ => None,
        }
    }
}

/// The first words of the message for each kind of error.
pub open spec fn error_text(e: BotCommandError) -> Seq<char> {
    match e {
        BotCommandError::BadNameLen(n) => "command name can have a length of 1 up to 32 characters, got "@
            + nat_text(n as nat),
        BotCommandError::BadDescriptionLen(n) =>
            "command description can have a length of 3 up to 256 characters, got "@ + nat_text(
            n as nat),
    }
}

impl BotCommandError {
    /// A message saying which length was wrong and what is accepted.
    pub fn to_string(&self) -> (r: String)
        ensures
            r@ == error_text(*self),
    {
        match self {
            BotCommandError::BadNameLen(n) => {
                let mut s = String::from_str("command name can have a length of 1 up to 32 characters, got ");
                push_nat(&mut s, *n as u64);
                s
            },
            BotCommandError::BadDescriptionLen(n) => {
                let mut s = String::from_str(
                    "command description can have a length of 3 up to 256 characters, got ",
                );
                push_nat(&mut s, *n as u64);
                s
            },
        }
    }
}

/// The model of a command scope.
pub enum BotCommandScopeView {
    Default,
    AllPrivateChats,
    AllGroupChats,
    AllChatAdministrators,
    Chat { chat_id: ChatIdView },
    ChatAdministrators { chat_id: ChatIdView },
    ChatMember { chat_id: ChatIdView, user_id: i64 },
}

/// Where a list of bot commands applies.
#[derive(Debug)]
pub enum BotCommandScope {
    /// Everywhere no narrower scope has commands.
    Default,
    /// All private chats.
    AllPrivateChats,
    /// All group and supergroup chats.
    AllGroupChats,
    /// All administrators of group and supergroup chats.
    AllChatAdministrators,
    /// One chat.
    Chat { chat_id: ChatId },
    /// The administrators of one group or supergroup chat.
    ChatAdministrators { chat_id: ChatId },
    /// One member of a group or supergroup chat.
    ChatMember { chat_id: ChatId, user_id: i64 },
}

impl View for BotCommandScope {
    type V = BotCommandScopeView;

    open spec fn view(&self) -> BotCommandScopeView {
        match self {
            BotCommandScope::Default => BotCommandScopeView::Default,
            BotCommandScope::AllPrivateChats => BotCommandScopeView::AllPrivateChats,
            BotCommandScope::AllGroupChats => BotCommandScopeView::AllGroupChats,
            BotCommandScope::AllChatAdministrators => BotCommandScopeView::AllChatAdministrators,
            BotCommandScope::Chat { chat_id } => BotCommandScopeView::Chat { chat_id: chat_id@ },
            BotCommandScope::ChatAdministrators { chat_id } => BotCommandScopeView::ChatAdministrators {
                chat_id: chat_id@,
            },
            BotCommandScope::ChatMember { chat_id, user_id } => BotCommandScopeView::ChatMember {
                chat_id: chat_id@,
                user_id: *user_id,
            },
        }
    }
}

/// The discriminator of each scope.
pub open spec fn scope_type(s: BotCommandScopeView) -> Seq<char> {
    match s {
        BotCommandScopeView::Default => "default"@,
        BotCommandScopeView::AllPrivateChats => "all_private_chats"@,
        BotCommandScopeView::AllGroupChats => "all_group_chats"@,
        BotCommandScopeView::AllChatAdministrators => "all_chat_administrators"@,
        BotCommandScopeView::Chat { .. } => "chat"@,
        BotCommandScopeView::ChatAdministrators { .. } => "chat_administrators"@,
        BotCommandScopeView::ChatMember { .. } => "chat_member"@,
    }
}

/// The JSON of a scope: `type` first, then the scope's own fields.
pub open spec fn scope_json(s: BotCommandScopeView) -> Json {
    let t = ("type"@, Json::Str(scope_type(s)));
    match s {
        BotCommandScopeView::Chat { chat_id } => Json::Object(
            seq![t, ("chat_id"@, chat_id_json(chat_id))],
        ),
        BotCommandScopeView::ChatAdministrators { chat_id } => Json::Object(
            seq![t, ("chat_id"@, chat_id_json(chat_id))],
        ),
        BotCommandScopeView::ChatMember { chat_id, user_id } => Json::Object(
            seq![t, ("chat_id"@, chat_id_json(chat_id)), ("user_id"@, Json::Int(user_id as int))],
        ),
        _ => Json::Object(seq![t]),
    }
}

/// The chat member `chat_id` of a JSON object.
pub open spec fn chat_id_member(j: Json) -> Option<ChatIdView> {
    match member(j, "chat_id"@) {
        Some(c) => chat_id_of_json(c),
        None => None,
    }
}

/// The scope a JSON value holds, chosen by its `type` member.
pub open spec fn scope_of_json(j: Json) -> Option<BotCommandScopeView> {
    match as_str(member(j, "type"@)) {
        Some(t) => if t == "default"@ {
            Some(BotCommandScopeView::Default)
        } else if t == "all_private_chats"@ {
            Some(BotCommandScopeView::AllPrivateChats)
        } else if t == "all_group_chats"@ {
            Some(BotCommandScopeView::AllGroupChats)
        } else if t == "all_chat_administrators"@ {
            Some(BotCommandScopeView::AllChatAdministrators)
        } else if t == "chat"@ {
            match chat_id_member(j) {
                Some(chat_id) => Some(BotCommandScopeView::Chat { chat_id }),
                None => None,
            }
        } else if t == "chat_administrators"@ {
            match chat_id_member(j) {
                Some(chat_id) => Some(BotCommandScopeView::ChatAdministrators { chat_id }),
                None => None,
            }
        } else if t == "chat_member"@ {
            match (chat_id_member(j), member(j, "user_id"@)) {
                (Some(chat_id), Some(Json::Int(u))) => if i64::MIN <= u <= i64::MAX {
                    Some(BotCommandScopeView::ChatMember { chat_id, user_id: u as i64 })
                } else {
                    None
                },
                _ => None,
            }
        } else {
            None
        },
        None => None,
    }
}

impl BotCommandScope {
    /// The scope of one chat.
    pub fn chat(chat_id: ChatId) -> (r: BotCommandScope)
        ensures
            r@ == (BotCommandScopeView::Chat { chat_id: chat_id@ }),
    {
        BotCommandScope::Chat { chat_id }
    }

    /// The scope of the administrators of one chat.
    pub fn chat_administrators(chat_id: ChatId) -> (r: BotCommandScope)
        ensures
            r@ == (BotCommandScopeView::ChatAdministrators { chat_id: chat_id@ }),
    {
        BotCommandScope::ChatAdministrators { chat_id }
    }

    /// The scope of one member of a chat.
    pub fn chat_member(chat_id: ChatId, user_id: i64) -> (r: BotCommandScope)
        ensures
            r@ == (BotCommandScopeView::ChatMember { chat_id: chat_id@, user_id }),
    {
        BotCommandScope::ChatMember { chat_id, user_id }
    }

    /// The JSON value of the scope.
    pub fn to_json(&self) -> (r: JsonValue)
        ensures
            r@ == scope_json(self@),
    {
        let mut m: Vec<(String, JsonValue)> = Vec::new();
        let t = match self {
            BotCommandScope::Default => "default",
            BotCommandScope::AllPrivateChats => "all_private_chats",
            BotCommandScope::AllGroupChats => "all_group_chats",
            BotCommandScope::AllChatAdministrators => "all_chat_administrators",
            BotCommandScope::Chat { .. } => "chat",
            BotCommandScope::ChatAdministrators { .. } => "chat_administrators",
            BotCommandScope::ChatMember { .. } => "chat_member",
        };
        push_member(&mut m, "type", JsonValue::Str(String::from_str(t)));
        match self {
            BotCommandScope::Chat { chat_id } => {
                push_member(&mut m, "chat_id", chat_id.to_json());
            },
            BotCommandScope::ChatAdministrators { chat_id } => {
                push_member(&mut m, "chat_id", chat_id.to_json());
            },
            BotCommandScope::ChatMember { chat_id, user_id } => {
                push_member(&mut m, "chat_id", chat_id.to_json());
                push_member(&mut m, "user_id", JsonValue::Int(*user_id));
            },
            _ => {},
        }
        proof {
            let expected = match scope_json(self@) {
                Json::Object(ms) => ms,
                _ => seq![],
            };
            assert(members_of(m@) =~= expected);
        }
        JsonValue::Object(m)
    }

    /// The scope a JSON value holds.
    pub fn from_json(j: &JsonValue) -> (r: Option<BotCommandScope>)
        ensures
            match scope_of_json(j@) {
                Some(v) => r is Some && r->0@ == v,
                None => r is None,
            },
    {
        let t = match j.get_str("type") {
            Some(t) => t,
            None => {
                return None;
            },
        };
        if str_is(&t, "default") {
            Some(BotCommandScope::Default)
        } else if str_is(&t, "all_private_chats") {
            Some(BotCommandScope::AllPrivateChats)
        } else if str_is(&t, "all_group_chats") {
            Some(BotCommandScope::AllGroupChats)
        } else if str_is(&t, "all_chat_administrators") {
            Some(BotCommandScope::AllChatAdministrators)
        } else if str_is(&t, "chat") {
            match chat_id_of(j) {
                Some(chat_id) => Some(BotCommandScope::Chat { chat_id }),
                None => None,
            }
        } else if str_is(&t, "chat_administrators") {
            match chat_id_of(j) {
                Some(chat_id) => Some(BotCommandScope::ChatAdministrators { chat_id }),
                None => None,
            }
        } else if str_is(&t, "chat_member") {
            match (chat_id_of(j), j.get("user_id")) {
                (Some(chat_id), Some(JsonValue::Int(u))) => Some(
                    BotCommandScope::ChatMember { chat_id, user_id: *u },
                ),
                _ => None,
            }
        } else {
            None
        }
    }
}

fn chat_id_of(j: &JsonValue) -> (r: Option<ChatId>)
    ensures
        match chat_id_member(j@) {
            Some(c) => r is Some && r->0@ == c,
            None => r is None,
        },
{
    match j.get("chat_id") {
        Some(c) => ChatId::from_json(c),
        None => None,
    }
}

/// A chat identifier decodes from its own JSON to itself.
pub proof fn lemma_chat_id_round_trip(c: ChatIdView)
    ensures
        chat_id_of_json(chat_id_json(c)) == Some(c),
{
}

/// A bot command decodes from its own JSON to itself.
pub proof fn lemma_bot_command_round_trip(c: BotCommandView)
    ensures
        bot_command_of_json(bot_command_json(c)) == Some(c),
{
    reveal_strlit("command");
    reveal_strlit("description");
    assert("command"@.len() == 7 && "description"@.len() == 11);
    let ms = bot_command_json(c)->Object_0;
    assert(ms.drop_last() =~= seq![("command"@, Json::Str(c.name))]);
    assert(lookup(ms, "command"@) == lookup(ms.drop_last(), "command"@));
}

/// The JSON of every scope has the member `type` holding the scope's
/// discriminator, and decodes back to the same scope.
pub proof fn lemma_scope_round_trip(s: BotCommandScopeView)
    ensures
        member(scope_json(s), "type"@) == Some(Json::Str(scope_type(s))),
        scope_of_json(scope_json(s)) == Some(s),
{
    reveal_strlit("type");
    reveal_strlit("chat_id");
    reveal_strlit("user_id");
    reveal_strlit("default");
    reveal_strlit("all_private_chats");
    reveal_strlit("all_group_chats");
    reveal_strlit("all_chat_administrators");
    reveal_strlit("chat");
    reveal_strlit("chat_administrators");
    reveal_strlit("chat_member");
    assert("type"@.len() == 4 && "chat_id"@.len() == 7 && "user_id"@.len() == 7);
    assert("chat_id"@[0] != "user_id"@[0]);
    assert("default"@.len() == 7 && "all_private_chats"@.len() == 17 && "all_group_chats"@.len()
        == 15 && "all_chat_administrators"@.len() == 23 && "chat"@.len() == 4
        && "chat_administrators"@.len() == 19 && "chat_member"@.len() == 11);
    let j = scope_json(s);
    match s {
        BotCommandScopeView::Chat { chat_id } => {
            let ms = j->Object_0;
            assert(ms.drop_last() =~= seq![("type"@, Json::Str(scope_type(s)))]);
            assert(lookup(ms, "type"@) == lookup(ms.drop_last(), "type"@));
        },
        BotCommandScopeView::ChatAdministrators { chat_id } => {
            let ms = j->Object_0;
            assert(ms.drop_last() =~= seq![("type"@, Json::Str(scope_type(s)))]);
            assert(lookup(ms, "type"@) == lookup(ms.drop_last(), "type"@));
        },
        BotCommandScopeView::ChatMember { chat_id, user_id } => {
            let ms = j->Object_0;
            let ms1 = ms.drop_last();
            assert(ms1 =~= seq![("type"@, Json::Str(scope_type(s))), ("chat_id"@, chat_id_json(chat_id))]);
            assert(ms1.drop_last() =~= seq![("type"@, Json::Str(scope_type(s)))]);
            assert(lookup(ms, "type"@) == lookup(ms1, "type"@));
            assert(lookup(ms1, "type"@) == lookup(ms1.drop_last(), "type"@));
            assert(lookup(ms, "chat_id"@) == lookup(ms1, "chat_id"@));
        },
        _ => {},
    }
}

/// The text of every scope begins with its discriminator:
/// `{"type":"<discriminator>"`.
pub proof fn lemma_scope_text(s: BotCommandScopeView)
    ensures
        ({
            let prefix = seq!['{'] + string_text("type"@) + seq![':'] + string_text(scope_type(s));
            json_text(scope_json(s)).take(prefix.len() as int) == prefix
        }),
{
    let ms = scope_json(s)->Object_0;
    lemma_members_text_front(ms);
    let prefix = seq!['{'] + string_text("type"@) + seq![':'] + string_text(scope_type(s));
    let rest = if ms.len() == 1 {
        Seq::<char>::empty()
    } else {
        seq![','] + crate::json::members_text(ms.skip(1))
    };
    assert(json_text(scope_json(s)) =~= prefix + rest + seq!['}']);
    assert((prefix + rest + seq!['}']).take(prefix.len() as int) =~= prefix);
}

impl PartialEq for BotCommandScope {
    fn eq(&self, other: &BotCommandScope) -> (r: bool)
        ensures
            r == (self@ == other@),
    {
        match (self, other) {
            (BotCommandScope::Default, BotCommandScope::Default) => true,
            (BotCommandScope::AllPrivateChats, BotCommandScope::AllPrivateChats) => true,
            (BotCommandScope::AllGroupChats, BotCommandScope::AllGroupChats) => true,
            (BotCommandScope::AllChatAdministrators, BotCommandScope::AllChatAdministrators) => true,
            (BotCommandScope::Chat { chat_id: a }, BotCommandScope::Chat { chat_id: b }) => *a == *b,
            (
                BotCommandScope::ChatAdministrators { chat_id: a },
                BotCommandScope::ChatAdministrators { chat_id: b },
            ) => *a == *b,
            (
                BotCommandScope::ChatMember { chat_id: a, user_id: x },
                BotCommandScope::ChatMember { chat_id: b, user_id: y },
            ) => *a == *b && *x == *y,
            _ => false,
        }
    }
}

impl vstd::std_specs::cmp::PartialEqSpecImpl for BotCommandScope {
    open spec fn obeys_eq_spec() -> bool {
        true
    }

    open spec fn eq_spec(&self, other: &BotCommandScope) -> bool {
        self@ == other@
    }
}

} // verus!
