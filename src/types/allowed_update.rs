//! The kinds of updates a bot can ask to receive.
use crate::json::{items_of, push_item, Json, JsonValue};
use vstd::prelude::*;

verus! {

/// A kind of update.
#[derive(Clone, Copy, Debug, PartialEq, Eq, Structural, Hash)]
pub enum AllowedUpdate {
    Message,
    EditedMessage,
    ChannelPost,
    EditedChannelPost,
    InlineQuery,
    ChosenInlineResult,
    CallbackQuery,
    ShippingQuery,
    PreCheckoutQuery,
    Poll,
    PollAnswer,
    MyChatMember,
    ChatMember,
}

/// The API's name of each kind.
pub open spec fn update_name(u: AllowedUpdate) -> Seq<char> {
    match u {
        AllowedUpdate::Message => "message"@,
        AllowedUpdate::EditedMessage => "edited_message"@,
        AllowedUpdate::ChannelPost => "channel_post"@,
        AllowedUpdate::EditedChannelPost => "edited_channel_post"@,
        AllowedUpdate::InlineQuery => "inline_query"@,
        AllowedUpdate::ChosenInlineResult => "chosen_inline_result"@,
        AllowedUpdate::CallbackQuery => "callback_query"@,
        AllowedUpdate::ShippingQuery => "shipping_query"@,
        AllowedUpdate::PreCheckoutQuery => "pre_checkout_query"@,
        AllowedUpdate::Poll => "poll"@,
        AllowedUpdate::PollAnswer => "poll_answer"@,
        AllowedUpdate::MyChatMember => "my_chat_member"@,
        AllowedUpdate::ChatMember => "chat_member"@,
    }
}

impl AllowedUpdate {
    /// The API's name of the kind.
    pub fn name(&self) -> (r: &'static str)
        ensures
            r@ == update_name(*self),
    {
        match self {
            AllowedUpdate::Message => "message",
            AllowedUpdate::EditedMessage => "edited_message",
            AllowedUpdate::ChannelPost => "channel_post",
            AllowedUpdate::EditedChannelPost => "edited_channel_post",
            AllowedUpdate::InlineQuery => "inline_query",
            AllowedUpdate::ChosenInlineResult => "chosen_inline_result",
            AllowedUpdate::CallbackQuery => "callback_query",
            AllowedUpdate::ShippingQuery => "shipping_query",
            AllowedUpdate::PreCheckoutQuery => "pre_checkout_query",
            AllowedUpdate::Poll => "poll",
            AllowedUpdate::PollAnswer => "poll_answer",
            AllowedUpdate::MyChatMember => "my_chat_member",
            AllowedUpdate::ChatMember => "chat_member",
        }
    }
}

/// `s` with `u` added at the end unless already there.
pub open spec fn add_update(s: Seq<AllowedUpdate>, u: AllowedUpdate) -> Seq<AllowedUpdate> {
    if s.contains(u) {
        s
    } else {
        s.push(u)
    }
}

/// The distinct kinds of `s`, each where it first occurs.
pub open spec fn dedup(s: Seq<AllowedUpdate>) -> Seq<AllowedUpdate>
    decreases s.len(),
{
    if s.len() == 0 {
        seq![]
    } else {
        add_update(dedup(s.drop_last()), s.last())
    }
}

/// The JSON array of the names of `s`.
pub open spec fn updates_json(s: Seq<AllowedUpdate>) -> Json {
    Json::Array(s.map_values(|u: AllowedUpdate| Json::Str(update_name(u))))
}

/// `s` with `u` added unless already there.
pub fn add_allowed(s: &mut Vec<AllowedUpdate>, u: AllowedUpdate)
    ensures
        final(s)@ == add_update(old(s)@, u),
{
    let mut i: usize = 0;
    while i < s.len()
        invariant
            i <= s@.len(),
            forall|k: int| 0 <= k < i ==> s@[k] != u,
        decreases s.len() - i,
    {
        if s[i] == u {
            assert(s@.contains(u));
            return;
        }
        i += 1;
    }
    assert(!s@.contains(u));
    s.push(u);
}

/// The distinct kinds of `updates`, in the order they first occur.
pub fn distinct(updates: Vec<AllowedUpdate>) -> (r: Vec<AllowedUpdate>)
    ensures
        r@ == dedup(updates@),
{
    let mut r: Vec<AllowedUpdate> = Vec::new();
    let mut i: usize = 0;
    while i < updates.len()
        invariant
            i <= updates@.len(),
            r@ == dedup(updates@.take(i as int)),
        decreases updates.len() - i,
    {
        add_allowed(&mut r, updates[i]);
        assert(updates@.take(i as int + 1).drop_last() =~= updates@.take(i as int));
        i += 1;
    }
    assert(updates@.take(updates@.len() as int) =~= updates@);
    r
}

/// The JSON array of the names of `s`.
pub fn updates_to_json(s: &Vec<AllowedUpdate>) -> (r: JsonValue)
    ensures
        r@ == updates_json(s@),
{
    let mut items: Vec<JsonValue> = Vec::new();
    let mut i: usize = 0;
    while i < s.len()
        invariant
            i <= s@.len(),
            items_of(items@) == s@.take(i as int).map_values(
                |u: AllowedUpdate| Json::Str(update_name(u)),
            ),
        decreases s.len() - i,
    {
        push_item(&mut items, JsonValue::Str(String::from_str(s[i].name())));
        assert(s@.take(i as int + 1).map_values(|u: AllowedUpdate| Json::Str(update_name(u)))
            =~= s@.take(i as int).map_values(|u: AllowedUpdate| Json::Str(update_name(u))).push(
            Json::Str(update_name(s@[i as int])),
        ));
        i += 1;
    }
    assert(s@.take(s@.len() as int) =~= s@);
    JsonValue::Array(items)
}

} // verus!
