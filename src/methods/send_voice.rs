//! Sending a voice message.
use crate::json::{int_text, json_text};
use crate::request::{
    bool_str, bool_text, int_string, BodyView, Form, FormValue, FormValueView, InputFile,
    InputFileView, Request, RequestView,
};
use crate::types::chat::{chat_id_text, ChatId, ChatIdView};
use crate::types::parse_mode::{parse_mode_name, ParseMode};
use crate::types::reply_markup::{reply_markup_json, ReplyMarkup, ReplyMarkupError};
use crate::types::text::{entities_json, serialize_text_entities, TextEntity, TextEntityError};
use vstd::prelude::*;

verus! {

/// The fields of a voice message with only its chat and its file.
pub open spec fn send_voice_fields(chat_id: ChatIdView, voice: InputFileView) -> Map<
    Seq<char>,
    FormValueView,
> {
    Map::empty().insert("chat_id"@, FormValueView::Text(chat_id_text(chat_id))).insert(
        "voice"@,
        FormValueView::File(voice),
    )
}

/// The request that sends a voice message with these fields.
pub open spec fn send_voice_request(fields: Map<Seq<char>, FormValueView>) -> RequestView {
    RequestView { name: "sendVoice"@, body: BodyView::Form(fields) }
}

/// The fields after setting caption entities with JSON text `entities`:
/// the parse mode is dropped.
pub open spec fn with_caption_entities(
    fields: Map<Seq<char>, FormValueView>,
    entities: Seq<char>,
) -> Map<Seq<char>, FormValueView> {
    fields.insert("caption_entities"@, FormValueView::Text(entities)).remove("parse_mode"@)
}

/// The fields after setting the parse mode: the caption entities are dropped.
pub open spec fn with_parse_mode(fields: Map<Seq<char>, FormValueView>, mode: ParseMode) -> Map<
    Seq<char>,
    FormValueView,
> {
    fields.insert("parse_mode"@, FormValueView::Text(parse_mode_name(mode))).remove(
        "caption_entities"@,
    )
}

/// Parse mode and caption entities exclude each other: whichever is set
/// last is the one present, the other is absent, and setting either twice
/// is the same as setting it once.
pub proof fn lemma_caption_format_exclusive(
    fields: Map<Seq<char>, FormValueView>,
    entities: Seq<char>,
    mode: ParseMode,
)
    ensures
        with_parse_mode(with_caption_entities(fields, entities), mode).contains_key("parse_mode"@),
        !with_parse_mode(with_caption_entities(fields, entities), mode).contains_key(
            "caption_entities"@,
        ),
        with_caption_entities(with_parse_mode(fields, mode), entities).contains_key(
            "caption_entities"@,
        ),
        !with_caption_entities(with_parse_mode(fields, mode), entities).contains_key("parse_mode"@),
        with_parse_mode(with_parse_mode(fields, mode), mode) == with_parse_mode(fields, mode),
        with_caption_entities(with_caption_entities(fields, entities), entities)
            == with_caption_entities(fields, entities),
{
    reveal_strlit("parse_mode");
    reveal_strlit("caption_entities");
    assert("parse_mode"@.len() != "caption_entities"@.len());
    assert(with_parse_mode(with_parse_mode(fields, mode), mode) =~= with_parse_mode(fields, mode));
    assert(with_caption_entities(with_caption_entities(fields, entities), entities)
        =~= with_caption_entities(fields, entities));
}

/// Sends an audio file that clients play as a voice message (OGG with OPUS).
#[derive(Debug)]
pub struct SendVoice {
    form: Form,
}

impl View for SendVoice {
    type V = Map<Seq<char>, FormValueView>;

    closed spec fn view(&self) -> Map<Seq<char>, FormValueView> {
        self.form@
    }
}

impl SendVoice {
    /// A voice message of `voice` to the chat `chat_id`, with no options.
    pub fn new(chat_id: ChatId, voice: InputFile) -> (r: SendVoice)
        ensures
            r@ == send_voice_fields(chat_id@, voice@),
    {
        let mut form = Form::new();
        form.insert_field("chat_id", FormValue::Text(chat_id.to_text()));
        form.insert_field("voice", FormValue::File(voice));
        SendVoice { form }
    }

    /// The caption, 0-1024 characters.
    pub fn caption(self, value: &str) -> (r: SendVoice)
        ensures
            r@ == self@.insert("caption"@, FormValueView::Text(value@)),
    {
        let mut form = self.form;
        form.insert_field("caption", FormValue::Text(String::from_str(value)));
        SendVoice { form }
    }

    /// The entities of the caption; any parse mode is dropped.
    pub fn caption_entities(self, value: &[TextEntity]) -> (r: Result<SendVoice, TextEntityError>)
        ensures
            r matches Ok(m) && m@ == with_caption_entities(
                self@,
                json_text(entities_json(value@.map_values(|e: TextEntity| e@))),
            ),
    {
        let mut form = self.form;
        match serialize_text_entities(value) {
            Ok(text) => {
                form.insert_field("caption_entities", FormValue::Text(text));
                form.remove_field("parse_mode");
                Ok(SendVoice { form })
            },
            Err(e) => Err(e),
        }
    }

    /// The parse mode of the caption; any caption entities are dropped.
    pub fn parse_mode(self, value: ParseMode) -> (r: SendVoice)
        ensures
            r@ == with_parse_mode(self@, value),
    {
        let mut form = self.form;
        form.insert_field("parse_mode", FormValue::Text(String::from_str(value.name())));
        form.remove_field("caption_entities");
        SendVoice { form }
    }

    /// The duration in seconds.
    pub fn duration(self, value: i64) -> (r: SendVoice)
        ensures
            r@ == self@.insert("duration"@, FormValueView::Text(int_text(value as int))),
    {
        let mut form = self.form;
        form.insert_field("duration", FormValue::Text(int_string(value)));
        SendVoice { form }
    }

    /// Sends the message silently: users get a notification without sound.
    pub fn disable_notification(self, value: bool) -> (r: SendVoice)
        ensures
            r@ == self@.insert("disable_notification"@, FormValueView::Text(bool_text(value))),
    {
        let mut form = self.form;
        form.insert_field("disable_notification", FormValue::Text(String::from_str(bool_str(value))));
        SendVoice { form }
    }

    /// The message this one replies to.
    pub fn reply_to_message_id(self, value: i64) -> (r: SendVoice)
        ensures
            r@ == self@.insert("reply_to_message_id"@, FormValueView::Text(int_text(value as int))),
    {
        let mut form = self.form;
        form.insert_field("reply_to_message_id", FormValue::Text(int_string(value)));
        SendVoice { form }
    }

    /// Whether to send the message even when the message replied to is missing.
    pub fn allow_sending_without_reply(self, value: bool) -> (r: SendVoice)
        ensures
            r@ == self@.insert("allow_sending_without_reply"@, FormValueView::Text(bool_text(value))),
    {
        let mut form = self.form;
        form.insert_field(
            "allow_sending_without_reply",
            FormValue::Text(String::from_str(bool_str(value))),
        );
        SendVoice { form }
    }

    /// The interface options shown with the message.
    pub fn reply_markup(self, value: ReplyMarkup) -> (r: Result<SendVoice, ReplyMarkupError>)
        ensures
            r matches Ok(m) && m@ == self@.insert(
                "reply_markup"@,
                FormValueView::Text(json_text(reply_markup_json(value@))),
            ),
    {
        let mut form = self.form;
        match value.serialize() {
            Ok(text) => {
                form.insert_field("reply_markup", FormValue::Text(text));
                Ok(SendVoice { form })
            },
            Err(e) => Err(e),
        }
    }

    /// The request: a form sent to `sendVoice`.
    pub fn into_request(self) -> (r: Request)
        ensures
            r@ == send_voice_request(self@),
    {
        Request::form("sendVoice", self.form)
    }
}

} // verus!
