//! Chat identifiers.
use crate::json::{int_text, JsonValue, Json, push_int};
use vstd::prelude::*;

verus! {

/// The model of a chat identifier.
pub enum ChatIdView {
    Id(i64),
    Username(Seq<char>),
}

/// A chat: by numeric identifier or by `@username`.
#[derive(Debug)]
pub enum ChatId {
    Id(i64),
    Username(String),
}

impl View for ChatId {
    type V = ChatIdView;

    open spec fn view(&self) -> ChatIdView {
        match self {
            ChatId::Id(n) => ChatIdView::Id(*n),
            ChatId::Username(s) => ChatIdView::Username(s@),
        }
    }
}

/// The JSON of a chat identifier: a number or a string.
pub open spec fn chat_id_json(c: ChatIdView) -> Json {
    match c {
        ChatIdView::Id(n) => Json::Int(n as int),
        ChatIdView::Username(s) => Json::Str(s),
    }
}

/// The chat identifier a JSON value denotes.
pub open spec fn chat_id_of_json(j: Json) -> Option<ChatIdView> {
    match j {
        Json::Int(n) => if i64::MIN <= n <= i64::MAX {
            Some(ChatIdView::Id(n as i64))
        } else {
            None
        },
        Json::Str(s) => Some(ChatIdView::Username(s)),
        _ => None,
    }
}

/// The text of a chat identifier in a form field.
pub open spec fn chat_id_text(c: ChatIdView) -> Seq<char> {
    match c {
        ChatIdView::Id(n) => int_text(n as int),
        ChatIdView::Username(s) => s,
    }
}

impl ChatId {
    /// A chat by its `@username`.
    pub fn username(name: &str) -> (r: ChatId)
        ensures
            r@ == ChatIdView::Username(name@),
    {
        ChatId::Username(String::from_str(name))
    }

    /// A copy of the identifier.
    pub fn duplicate(&self) -> (r: ChatId)
        ensures
            r@ == self@,
    {
        match self {
            ChatId::Id(n) => ChatId::Id(*n),
            ChatId::Username(s) => ChatId::Username(s.clone()),
        }
    }

    /// The JSON value of the identifier.
    pub fn to_json(&self) -> (r: JsonValue)
        ensures
            r@ == chat_id_json(self@),
    {
        match self {
            ChatId::Id(n) => JsonValue::Int(*n),
            ChatId::Username(s) => JsonValue::Str(s.clone()),
        }
    }

    /// The identifier a JSON value denotes.
    pub fn from_json(j: &JsonValue) -> (r: Option<ChatId>)
        ensures
            match chat_id_of_json(j@) {
                Some(c) => r is Some && r->0@ == c,
                None => r is None,
            },
    {
        match j {
            JsonValue::Int(n) => Some(ChatId::Id(*n)),
            JsonValue::Str(s) => Some(ChatId::Username(s.clone())),
            _ => None,
        }
    }

    /// The identifier as form text: the number in decimal, or the username.
    pub fn to_text(&self) -> (r: String)
        ensures
            r@ == chat_id_text(self@),
    {
        match self {
            ChatId::Id(n) => {
                let mut s = String::new();
                push_int(&mut s, *n);
                assert(s@ =~= int_text(*n as int));
                s
            },
            ChatId::Username(s) => s.clone(),
        }
    }
}

impl PartialEq for ChatId {
    fn eq(&self, other: &ChatId) -> (r: bool)
        ensures
            r == (self@ == other@),
    {
        match (self, other) {
            (ChatId::Id(a), ChatId::Id(b)) => *a == *b,
            (ChatId::Username(a), ChatId::Username(b)) => *a == *b,
            _ => false,
        }
    }
}

impl vstd::std_specs::cmp::PartialEqSpecImpl for ChatId {
    open spec fn obeys_eq_spec() -> bool {
        true
    }

    open spec fn eq_spec(&self, other: &ChatId) -> bool {
        self@ == other@
    }
}

impl From<i64> for ChatId {
    fn from(id: i64) -> (r: ChatId)
        ensures
            r@ == ChatIdView::Id(id),
    {
        ChatId::Id(id)
    }
}

impl vstd::std_specs::convert::FromSpecImpl<i64> for ChatId {
    open spec fn obeys_from_spec() -> bool {
        true
    }

    open spec fn from_spec(id: i64) -> ChatId {
        ChatId::Id(id)
    }
}

} // verus!
