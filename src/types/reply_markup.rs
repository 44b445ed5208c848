//! Reply markup: the interface shown to the user with a message.
use crate::json::{json_text, members_of, opt_bool, opt_text, opt_view, optional, push_member, render, Json, JsonValue};
use vstd::prelude::*;

verus! {

/// The model of a force-reply markup.
pub struct ForceReplyView {
    pub force_reply: bool,
    pub input_field_placeholder: Option<Seq<char>>,
    pub selective: Option<bool>,
}

/// Shows a reply interface to the user, as if they had chosen to reply
/// to the bot's message.
#[derive(Clone, Debug)]
pub struct ForceReply {
    force_reply: bool,
    input_field_placeholder: Option<String>,
    selective: Option<bool>,
}

impl View for ForceReply {
    type V = ForceReplyView;

    closed spec fn view(&self) -> ForceReplyView {
        ForceReplyView {
            force_reply: self.force_reply,
            input_field_placeholder: opt_view(self.input_field_placeholder),
            selective: self.selective,
        }
    }
}

/// The JSON of a force-reply markup; absent options are left out.
pub open spec fn force_reply_json(f: ForceReplyView) -> Json {
    Json::Object(
        seq![("force_reply"@, Json::Bool(f.force_reply))] + optional(
            "input_field_placeholder"@,
            opt_text(f.input_field_placeholder),
        ) + optional("selective"@, opt_bool(f.selective)),
    )
}

impl ForceReply {
    /// A markup with `force_reply` set as given and no options.
    pub fn new(force_reply: bool) -> (r: ForceReply)
        ensures
            r@ == (ForceReplyView { force_reply, input_field_placeholder: None, selective: None }),
    {
        ForceReply { force_reply, input_field_placeholder: None, selective: None }
    }

    /// The placeholder shown in the input field; 1-64 characters.
    pub fn input_field_placeholder(self, value: &str) -> (r: ForceReply)
        ensures
            r@ == (ForceReplyView { input_field_placeholder: Some(value@), ..self@ }),
    {
        ForceReply { input_field_placeholder: Some(String::from_str(value)), ..self }
    }

    /// Whether to force a reply from some users only: those mentioned in
    /// the text, and the sender of the message replied to.
    pub fn selective(self, selective: bool) -> (r: ForceReply)
        ensures
            r@ == (ForceReplyView { selective: Some(selective), ..self@ }),
    {
        ForceReply { selective: Some(selective), ..self }
    }

    /// The JSON value of the markup.
    pub fn to_json(&self) -> (r: JsonValue)
        ensures
            r@ == force_reply_json(self@),
    {
        let mut m: Vec<(String, JsonValue)> = Vec::new();
        push_member(&mut m, "force_reply", JsonValue::Bool(self.force_reply));
        if let Some(p) = &self.input_field_placeholder {
            push_member(&mut m, "input_field_placeholder", JsonValue::Str(p.clone()));
        }
        if let Some(s) = self.selective {
            push_member(&mut m, "selective", JsonValue::Bool(s));
        }
        assert(members_of(m@) =~= force_reply_json(self@)->Object_0);
        JsonValue::Object(m)
    }
}

/// The model of a reply markup.
pub enum ReplyMarkupView {
    ForceReply(ForceReplyView),
}

/// The interface options sent with a message.
#[derive(Clone, Debug)]
pub enum ReplyMarkup {
    ForceReply(ForceReply),
}

impl View for ReplyMarkup {
    type V = ReplyMarkupView;

    open spec fn view(&self) -> ReplyMarkupView {
        match self {
            ReplyMarkup::ForceReply(f) => ReplyMarkupView::ForceReply(f@),
        }
    }
}

/// The JSON of a reply markup.
pub open spec fn reply_markup_json(m: ReplyMarkupView) -> Json {
    match m {
        ReplyMarkupView::ForceReply(f) => force_reply_json(f),
    }
}

/// Why a reply markup could not be encoded.
#[derive(Clone, Copy, Debug, PartialEq, Eq, Structural)]
pub enum ReplyMarkupError {
    /// The markup has no JSON form.
    Unencodable,
}

impl ReplyMarkup {
    /// The JSON value of the markup.
    pub fn to_json(&self) -> (r: JsonValue)
        ensures
            r@ == reply_markup_json(self@),
    {
        match self {
            ReplyMarkup::ForceReply(f) => f.to_json(),
        }
    }

    /// The JSON text of the markup.  Every markup of this crate has one,
    /// so the result is always `Ok`.
    pub fn serialize(&self) -> (r: Result<String, ReplyMarkupError>)
        ensures
            r matches Ok(s) && s@ == json_text(reply_markup_json(self@)),
    {
        Ok(render(&self.to_json()))
    }
}

impl From<ForceReply> for ReplyMarkup {
    fn from(f: ForceReply) -> (r: ReplyMarkup)
        ensures
            r == ReplyMarkup::ForceReply(f),
    {
        ReplyMarkup::ForceReply(f)
    }
}

impl vstd::std_specs::convert::FromSpecImpl<ForceReply> for ReplyMarkup {
    open spec fn obeys_from_spec() -> bool {
        true
    }

    open spec fn from_spec(f: ForceReply) -> ReplyMarkup {
        ReplyMarkup::ForceReply(f)
    }
}

} // verus!
