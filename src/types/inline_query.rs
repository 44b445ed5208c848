//! Inline queries and the results users choose from them.
use crate::json::{as_str, member, opt_member_str, opt_view, str_is, Json, JsonValue};
use crate::types::location::{opt_location, Location, LocationView};
use crate::types::user::{user_of_json, User, UserView};
use vstd::prelude::*;

verus! {

/// The kind of chat an inline query was sent from.
#[derive(Clone, Copy, Debug, PartialEq, Eq, Structural)]
pub enum InlineQueryChatType {
    /// The private chat with the sender of the query.
    Sender,
    Private,
    Group,
    Supergroup,
    Channel,
}

/// The chat type a JSON string names.
pub open spec fn chat_type_of_name(s: Seq<char>) -> Option<InlineQueryChatType> {
    if s == "sender"@ {
        Some(InlineQueryChatType::Sender)
    } else if s == "private"@ {
        Some(InlineQueryChatType::Private)
    } else if s == "group"@ {
        Some(InlineQueryChatType::Group)
    } else if s == "supergroup"@ {
        Some(InlineQueryChatType::Supergroup)
    } else if s == "channel"@ {
        Some(InlineQueryChatType::Channel)
    } else {
        None
    }
}

/// An optional chat type member: absent or `null` gives `Some(None)`.
pub open spec fn opt_chat_type(j: Json) -> Option<Option<InlineQueryChatType>> {
    match member(j, "chat_type"@) {
        None => Some(None),
        Some(Json::Null) => Some(None),
        Some(Json::Str(s)) => match chat_type_of_name(s) {
            Some(t) => Some(Some(t)),
            None => None,
        },
        _ => None,
    }
}

fn chat_type_from_json(j: &JsonValue) -> (r: Option<Option<InlineQueryChatType>>)
    ensures
        r == opt_chat_type(j@),
{
    match j.get("chat_type") {
        None => Some(None),
        Some(JsonValue::Null) => Some(None),
        Some(JsonValue::Str(s)) => {
            if str_is(s, "sender") {
                Some(Some(InlineQueryChatType::Sender))
            } else if str_is(s, "private") {
                Some(Some(InlineQueryChatType::Private))
            } else if str_is(s, "group") {
                Some(Some(InlineQueryChatType::Group))
            } else if str_is(s, "supergroup") {
                Some(Some(InlineQueryChatType::Supergroup))
            } else if str_is(s, "channel") {
                Some(Some(InlineQueryChatType::Channel))
            } else {
                None
            }
        },
        _ => None,
    }
}

/// The model of an inline query.
pub struct InlineQueryView {
    pub id: Seq<char>,
    pub from: UserView,
    pub query: Seq<char>,
    pub offset: Seq<char>,
    pub chat_type: Option<InlineQueryChatType>,
    pub location: Option<LocationView>,
}

/// An incoming inline query.
#[derive(Clone, Debug)]
pub struct InlineQuery {
    /// Identifier of the query.
    pub id: String,
    /// The sender.
    pub from: User,
    /// Text of the query, up to 512 characters.
    pub query: String,
    /// Offset of the results to return, as the bot controls it.
    pub offset: String,
    /// The kind of chat the query came from, when known.
    pub chat_type: Option<InlineQueryChatType>,
    /// The sender's location, for bots that ask for it.
    pub location: Option<Location>,
}

/// The view of an optional location.
pub open spec fn opt_location_view(o: Option<Location>) -> Option<LocationView> {
    match o {
        Some(l) => Some(l@),
        None => None,
    }
}

impl View for InlineQuery {
    type V = InlineQueryView;

    open spec fn view(&self) -> InlineQueryView {
        InlineQueryView {
            id: self.id@,
            from: self.from@,
            query: self.query@,
            offset: self.offset@,
            chat_type: self.chat_type,
            location: opt_location_view(self.location),
        }
    }
}

/// The user member `from`.
pub open spec fn from_member(j: Json) -> Option<UserView> {
    match member(j, "from"@) {
        Some(u) => user_of_json(u),
        None => None,
    }
}

fn user_member(j: &JsonValue) -> (r: Option<User>)
    ensures
        match from_member(j@) {
            Some(v) => r is Some && r->0@ == v,
            None => r is None,
        },
{
    match j.get("from") {
        Some(u) => User::from_json(u),
        None => None,
    }
}

/// The inline query a JSON object holds.
pub open spec fn inline_query_of_json(j: Json) -> Option<InlineQueryView> {
    match (
        as_str(member(j, "id"@)),
        from_member(j),
        as_str(member(j, "query"@)),
        as_str(member(j, "offset"@)),
        opt_chat_type(j),
        opt_location(j, "location"@),
    ) {
        (Some(id), Some(from), Some(query), Some(offset), Some(chat_type), Some(location)) => Some(
            InlineQueryView { id, from, query, offset, chat_type, location },
        ),
        _ => None,
    }
}

impl InlineQuery {
    /// The inline query a JSON value holds.
    pub fn from_json(j: &JsonValue) -> (r: Option<InlineQuery>)
        ensures
            match inline_query_of_json(j@) {
                Some(v) => r is Some && r->0@ == v,
                None => r is None,
            },
    {
        match (
            j.get_str("id"),
            user_member(j),
            j.get_str("query"),
            j.get_str("offset"),
            chat_type_from_json(j),
            Location::from_member(j, "location"),
        ) {
            (Some(id), Some(from), Some(query), Some(offset), Some(chat_type), Some(location)) => Some(
                InlineQuery { id, from, query, offset, chat_type, location },
            ),
            _ => None,
        }
    }
}

/// The model of a chosen inline result.
pub struct ChosenInlineResultView {
    pub result_id: Seq<char>,
    pub from: UserView,
    pub location: Option<LocationView>,
    pub inline_message_id: Option<Seq<char>>,
    pub query: Seq<char>,
}

/// A result of an inline query that a user chose and sent to their chat.
#[derive(Clone, Debug)]
pub struct ChosenInlineResult {
    /// Identifier of the result chosen.
    pub result_id: String,
    /// The user who chose it.
    pub from: User,
    /// The sender's location, for bots that ask for it.
    pub location: Option<Location>,
    /// Identifier of the message sent, when it has an inline keyboard.
    pub inline_message_id: Option<String>,
    /// The query that gave the result.
    pub query: String,
}

impl View for ChosenInlineResult {
    type V = ChosenInlineResultView;

    open spec fn view(&self) -> ChosenInlineResultView {
        ChosenInlineResultView {
            result_id: self.result_id@,
            from: self.from@,
            location: opt_location_view(self.location),
            inline_message_id: opt_view(self.inline_message_id),
            query: self.query@,
        }
    }
}

/// The chosen result a JSON object holds.
pub open spec fn chosen_result_of_json(j: Json) -> Option<ChosenInlineResultView> {
    match (
        as_str(member(j, "result_id"@)),
        from_member(j),
        opt_location(j, "location"@),
        opt_member_str(j, "inline_message_id"@),
        as_str(member(j, "query"@)),
    ) {
        (Some(result_id), Some(from), Some(location), Some(inline_message_id), Some(query)) => Some(
            ChosenInlineResultView { result_id, from, location, inline_message_id, query },
        ),
        _ => None,
    }
}

impl ChosenInlineResult {
    /// The chosen result a JSON value holds.
    pub fn from_json(j: &JsonValue) -> (r: Option<ChosenInlineResult>)
        ensures
            match chosen_result_of_json(j@) {
                Some(v) => r is Some && r->0@ == v,
                None => r is None,
            },
    {
        match (
            j.get_str("result_id"),
            user_member(j),
            Location::from_member(j, "location"),
            j.get_opt_str("inline_message_id"),
            j.get_str("query"),
        ) {
            (Some(result_id), Some(from), Some(location), Some(inline_message_id), Some(query)) => Some(
                ChosenInlineResult { result_id, from, location, inline_message_id, query },
            ),
            _ => None,
        }
    }
}

} // verus!
