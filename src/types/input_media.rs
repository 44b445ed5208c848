//! Media sent as part of an album or an edit.
use crate::json::{members_of, opt_bool, opt_text, opt_view, optional, push_member, Json, JsonValue};
use crate::types::parse_mode::{parse_mode_name, ParseMode};
use vstd::prelude::*;

verus! {

/// The model of a document's media options.
pub struct InputMediaDocumentView {
    pub caption: Option<Seq<char>>,
    pub parse_mode: Option<ParseMode>,
    pub disable_content_type_detection: Option<bool>,
}

/// A parse mode as a JSON string, when present.
pub open spec fn opt_parse_mode(p: Option<ParseMode>) -> Option<Json> {
    match p {
        Some(m) => Some(Json::Str(parse_mode_name(m))),
        None => None,
    }
}

/// The JSON of a document's options; absent options are left out.
pub open spec fn input_media_document_json(v: InputMediaDocumentView) -> Json {
    Json::Object(
        optional("caption"@, opt_text(v.caption)) + optional(
            "parse_mode"@,
            opt_parse_mode(v.parse_mode),
        ) + optional("disable_content_type_detection"@, opt_bool(v.disable_content_type_detection)),
    )
}

/// A general file to be sent.
#[derive(Clone, Debug)]
pub struct InputMediaDocument {
    caption: Option<String>,
    parse_mode: Option<ParseMode>,
    disable_content_type_detection: Option<bool>,
}

impl View for InputMediaDocument {
    type V = InputMediaDocumentView;

    closed spec fn view(&self) -> InputMediaDocumentView {
        InputMediaDocumentView {
            caption: opt_view(self.caption),
            parse_mode: self.parse_mode,
            disable_content_type_detection: self.disable_content_type_detection,
        }
    }
}

impl Default for InputMediaDocument {
    fn default() -> (r: InputMediaDocument)
        ensures
            r@ == (InputMediaDocumentView {
                caption: None,
                parse_mode: None,
                disable_content_type_detection: None,
            }),
    {
        InputMediaDocument { caption: None, parse_mode: None, disable_content_type_detection: None }
    }
}

impl InputMediaDocument {
    /// The caption, 0-1024 characters.
    pub fn caption(self, caption: &str) -> (r: InputMediaDocument)
        ensures
            r@ == (InputMediaDocumentView { caption: Some(caption@), ..self@ }),
    {
        InputMediaDocument { caption: Some(String::from_str(caption)), ..self }
    }

    /// The parse mode of the caption.
    pub fn parse_mode(self, parse_mode: ParseMode) -> (r: InputMediaDocument)
        ensures
            r@ == (InputMediaDocumentView { parse_mode: Some(parse_mode), ..self@ }),
    {
        InputMediaDocument { parse_mode: Some(parse_mode), ..self }
    }

    /// Turns off the server's detection of the content type of an upload.
    pub fn disable_content_type_detection(self, value: bool) -> (r: InputMediaDocument)
        ensures
            r@ == (InputMediaDocumentView { disable_content_type_detection: Some(value), ..self@ }),
    {
        InputMediaDocument { disable_content_type_detection: Some(value), ..self }
    }

    /// The JSON value of the options.
    pub fn to_json(&self) -> (r: JsonValue)
        ensures
            r@ == input_media_document_json(self@),
    {
        let mut m: Vec<(String, JsonValue)> = Vec::new();
        if let Some(c) = &self.caption {
            push_member(&mut m, "caption", JsonValue::Str(c.clone()));
        }
        if let Some(p) = self.parse_mode {
            push_member(&mut m, "parse_mode", JsonValue::Str(String::from_str(p.name())));
        }
        if let Some(b) = self.disable_content_type_detection {
            push_member(&mut m, "disable_content_type_detection", JsonValue::Bool(b));
        }
        assert(members_of(m@) =~= input_media_document_json(self@)->Object_0);
        JsonValue::Object(m)
    }
}

} // verus!
