//! Formatting entities and text that carries them.
use crate::json::{
    as_i64, as_str, items_of, member, members_of, opt_member_str, push_item, push_member, render,
    str_is, json_text, Json, JsonValue,
};
use vstd::prelude::*;

verus! {

/// The model of an entity kind.
pub enum TextEntityKindView {
    Bold,
    Italic,
    Underline,
    Strikethrough,
    Spoiler,
    Code,
    Pre { language: Option<Seq<char>> },
    TextLink { url: Seq<char> },
    Mention,
    Hashtag,
    Cashtag,
    BotCommand,
    Url,
    Email,
    PhoneNumber,
}

/// What an entity marks in the text.
#[derive(Clone, Debug)]
pub enum TextEntityKind {
    Bold,
    Italic,
    Underline,
    Strikethrough,
    Spoiler,
    Code,
    /// A preformatted block, with the language of its code if known.
    Pre { language: Option<String> },
    /// A clickable text with a URL.
    TextLink { url: String },
    Mention,
    Hashtag,
    Cashtag,
    BotCommand,
    Url,
    Email,
    PhoneNumber,
}

impl View for TextEntityKind {
    type V = TextEntityKindView;

    open spec fn view(&self) -> TextEntityKindView {
        match self {
            TextEntityKind::Bold => TextEntityKindView::Bold,
            TextEntityKind::Italic => TextEntityKindView::Italic,
            TextEntityKind::Underline => TextEntityKindView::Underline,
            TextEntityKind::Strikethrough => TextEntityKindView::Strikethrough,
            TextEntityKind::Spoiler => TextEntityKindView::Spoiler,
            TextEntityKind::Code => TextEntityKindView::Code,
            TextEntityKind::Pre { language } => TextEntityKindView::Pre {
                language: match language {
                    Some(l) => Some(l@),
                    None => None,
                },
            },
            TextEntityKind::TextLink { url } => TextEntityKindView::TextLink { url: url@ },
            TextEntityKind::Mention => TextEntityKindView::Mention,
            TextEntityKind::Hashtag => TextEntityKindView::Hashtag,
            TextEntityKind::Cashtag => TextEntityKindView::Cashtag,
            TextEntityKind::BotCommand => TextEntityKindView::BotCommand,
            TextEntityKind::Url => TextEntityKindView::Url,
            TextEntityKind::Email => TextEntityKindView::Email,
            TextEntityKind::PhoneNumber => TextEntityKindView::PhoneNumber,
        }
    }
}

/// The API's name of each kind.
pub open spec fn kind_name(k: TextEntityKindView) -> Seq<char> {
    match k {
        TextEntityKindView::Bold => "bold"@,
        TextEntityKindView::Italic => "italic"@,
        TextEntityKindView::Underline => "underline"@,
        TextEntityKindView::Strikethrough => "strikethrough"@,
        TextEntityKindView::Spoiler => "spoiler"@,
        TextEntityKindView::Code => "code"@,
        TextEntityKindView::Pre { .. } => "pre"@,
        TextEntityKindView::TextLink { .. } => "text_link"@,
        TextEntityKindView::Mention => "mention"@,
        TextEntityKindView::Hashtag => "hashtag"@,
        TextEntityKindView::Cashtag => "cashtag"@,
        TextEntityKindView::BotCommand => "bot_command"@,
        TextEntityKindView::Url => "url"@,
        TextEntityKindView::Email => "email"@,
        TextEntityKindView::PhoneNumber => "phone_number"@,
    }
}

/// The model of an entity: its kind and the range it covers, in UTF-16
/// code units.
pub struct TextEntityView {
    pub kind: TextEntityKindView,
    pub offset: u32,
    pub length: u32,
}

/// A formatting entity over a range of a text.
#[derive(Clone, Debug)]
pub struct TextEntity {
    kind: TextEntityKind,
    offset: u32,
    length: u32,
}

impl View for TextEntity {
    type V = TextEntityView;

    closed spec fn view(&self) -> TextEntityView {
        TextEntityView { kind: self.kind@, offset: self.offset, length: self.length }
    }
}

/// Why entities could not be read or placed.
#[derive(Clone, Copy, Debug, PartialEq, Eq, Structural)]
pub enum TextEntityError {
    /// An entity lacks its type, offset or length, or one has the wrong kind of value.
    Malformed,
    /// An entity has a type this crate does not know.
    UnknownType,
    /// A text link has no URL.
    NoUrl,
    /// A list of entities is present but empty.
    EmptyList,
    /// An entity reaches past the end of its text.
    OutOfText,
}

/// The JSON of an entity: `type`, `offset`, `length`, then the kind's own fields.
pub open spec fn entity_json(e: TextEntityView) -> Json {
    let base = seq![
        ("type"@, Json::Str(kind_name(e.kind))),
        ("offset"@, Json::Int(e.offset as int)),
        ("length"@, Json::Int(e.length as int)),
    ];
    Json::Object(
        match e.kind {
            TextEntityKindView::Pre { language: Some(l) } => base.push(("language"@, Json::Str(l))),
            TextEntityKindView::TextLink { url } => base.push(("url"@, Json::Str(url))),
            _ => base,
        },
    )
}

/// The JSON array of a list of entities.
pub open spec fn entities_json(s: Seq<TextEntityView>) -> Json {
    Json::Array(s.map_values(|e: TextEntityView| entity_json(e)))
}

/// A `u32` held by a JSON number.
pub open spec fn as_u32(j: Option<Json>) -> Option<u32> {
    match as_i64(j) {
        Some(n) => if 0 <= n <= u32::MAX {
            Some(n as u32)
        } else {
            None
        },
        None => None,
    }
}

/// The kind named `t`, with the extra members of `j` that it needs.
pub open spec fn kind_of_json(t: Seq<char>, j: Json) -> Result<TextEntityKindView, TextEntityError> {
    if t == "bold"@ {
        Ok(TextEntityKindView::Bold)
    } else if t == "italic"@ {
        Ok(TextEntityKindView::Italic)
    } else if t == "underline"@ {
        Ok(TextEntityKindView::Underline)
    } else if t == "strikethrough"@ {
        Ok(TextEntityKindView::Strikethrough)
    } else if t == "spoiler"@ {
        Ok(TextEntityKindView::Spoiler)
    } else if t == "code"@ {
        Ok(TextEntityKindView::Code)
    } else if t == "pre"@ {
        match opt_member_str(j, "language"@) {
            Some(language) => Ok(TextEntityKindView::Pre { language }),
            None => Err(TextEntityError::Malformed),
        }
    } else if t == "text_link"@ {
        match as_str(member(j, "url"@)) {
            Some(url) => Ok(TextEntityKindView::TextLink { url }),
            None => Err(TextEntityError::NoUrl),
        }
    } else if t == "mention"@ {
        Ok(TextEntityKindView::Mention)
    } else if t == "hashtag"@ {
        Ok(TextEntityKindView::Hashtag)
    } else if t == "cashtag"@ {
        Ok(TextEntityKindView::Cashtag)
    } else if t == "bot_command"@ {
        Ok(TextEntityKindView::BotCommand)
    } else if t == "url"@ {
        Ok(TextEntityKindView::Url)
    } else if t == "email"@ {
        Ok(TextEntityKindView::Email)
    } else if t == "phone_number"@ {
        Ok(TextEntityKindView::PhoneNumber)
    } else {
        Err(TextEntityError::UnknownType)
    }
}

/// The entity a JSON value holds.
pub open spec fn entity_of_json(j: Json) -> Result<TextEntityView, TextEntityError> {
    match (as_str(member(j, "type"@)), as_u32(member(j, "offset"@)), as_u32(member(j, "length"@))) {
        (Some(t), Some(offset), Some(length)) => match kind_of_json(t, j) {
            Ok(kind) => Ok(TextEntityView { kind, offset, length }),
            Err(e) => Err(e),
        },
        _ => Err(TextEntityError::Malformed),
    }
}

/// The number of UTF-16 code units of a text.
pub open spec fn utf16_len(s: Seq<char>) -> nat
    decreases s.len(),
{
    if s.len() == 0 {
        0
    } else {
        utf16_len(s.drop_last()) + if (s.last() as u32) > 0xffff {
            2nat
        } else {
            1nat
        }
    }
}

/// Whether an entity lies within a text of `n` UTF-16 code units.
pub open spec fn entity_fits(e: TextEntityView, n: nat) -> bool {
    e.offset + e.length <= n
}

/// The entities a list of JSON values holds, each within a text of `n`
/// code units; the first error met, reading from the front, otherwise.
pub open spec fn entities_of_json(items: Seq<Json>, n: nat) -> Result<Seq<TextEntityView>, TextEntityError>
    decreases items.len(),
{
    if items.len() == 0 {
        Ok(seq![])
    } else {
        match entities_of_json(items.drop_last(), n) {
            Err(e) => Err(e),
            Ok(s) => match entity_of_json(items.last()) {
                Err(e) => Err(e),
                Ok(x) => if entity_fits(x, n) {
                    Ok(s.push(x))
                } else {
                    Err(TextEntityError::OutOfText)
                },
            },
        }
    }
}

/// The entities of a text as its JSON gives them: absent or `null` for
/// none, else a non-empty array of entities within the text.
pub open spec fn text_entities_of_json(data: Seq<char>, j: Option<Json>) -> Result<
    Option<Seq<TextEntityView>>,
    TextEntityError,
> {
    match j {
        None => Ok(None),
        Some(Json::Null) => Ok(None),
        Some(Json::Array(items)) => if items.len() == 0 {
            Err(TextEntityError::EmptyList)
        } else {
            match entities_of_json(items, utf16_len(data)) {
                Ok(s) => Ok(Some(s)),
                Err(e) => Err(e),
            }
        },
        _ => Err(TextEntityError::Malformed),
    }
}

impl TextEntity {
    /// An entity of kind `kind` over `range`.
    pub fn new(kind: TextEntityKind, range: core::ops::Range<u32>) -> (r: TextEntity)
        requires
            range.start <= range.end,
        ensures
            r@ == (TextEntityView {
                kind: kind@,
                offset: range.start,
                length: (range.end - range.start) as u32,
            }),
    {
        TextEntity { kind, offset: range.start, length: range.end - range.start }
    }

    /// Bold text over `range`.
    pub fn bold(range: core::ops::Range<u32>) -> (r: TextEntity)
        requires
            range.start <= range.end,
        ensures
            r@ == (TextEntityView {
                kind: TextEntityKindView::Bold,
                offset: range.start,
                length: (range.end - range.start) as u32,
            }),
    {
        TextEntity::new(TextEntityKind::Bold, range)
    }

    /// Italic text over `range`.
    pub fn italic(range: core::ops::Range<u32>) -> (r: TextEntity)
        requires
            range.start <= range.end,
        ensures
            r@ == (TextEntityView {
                kind: TextEntityKindView::Italic,
                offset: range.start,
                length: (range.end - range.start) as u32,
            }),
    {
        TextEntity::new(TextEntityKind::Italic, range)
    }

    /// A link to `url` over `range`.
    pub fn text_link(range: core::ops::Range<u32>, url: &str) -> (r: TextEntity)
        requires
            range.start <= range.end,
        ensures
            r@ == (TextEntityView {
                kind: TextEntityKindView::TextLink { url: url@ },
                offset: range.start,
                length: (range.end - range.start) as u32,
            }),
    {
        TextEntity::new(TextEntityKind::TextLink { url: String::from_str(url) }, range)
    }

    /// The kind of the entity.
    pub fn kind(&self) -> (r: &TextEntityKind)
        ensures
            r@ == self@.kind,
    {
        &self.kind
    }

    /// The first code unit covered.
    pub fn offset(&self) -> (r: u32)
        ensures
            r == self@.offset,
    {
        self.offset
    }

    /// The number of code units covered.
    pub fn length(&self) -> (r: u32)
        ensures
            r == self@.length,
    {
        self.length
    }

    /// The JSON value of the entity.
    pub fn to_json(&self) -> (r: JsonValue)
        ensures
            r@ == entity_json(self@),
    {
        let mut m: Vec<(String, JsonValue)> = Vec::new();
        let t = match &self.kind {
            TextEntityKind::Bold => "bold",
            TextEntityKind::Italic => "italic",
            TextEntityKind::Underline => "underline",
            TextEntityKind::Strikethrough => "strikethrough",
            TextEntityKind::Spoiler => "spoiler",
            TextEntityKind::Code => "code",
            TextEntityKind::Pre { .. } => "pre",
            TextEntityKind::TextLink { .. } => "text_link",
            TextEntityKind::Mention => "mention",
            TextEntityKind::Hashtag => "hashtag",
            TextEntityKind::Cashtag => "cashtag",
            TextEntityKind::BotCommand => "bot_command",
            TextEntityKind::Url => "url",
            TextEntityKind::Email => "email",
            TextEntityKind::PhoneNumber => "phone_number",
        };
        push_member(&mut m, "type", JsonValue::Str(String::from_str(t)));
        push_member(&mut m, "offset", JsonValue::Int(self.offset as i64));
        push_member(&mut m, "length", JsonValue::Int(self.length as i64));
        match &self.kind {
            TextEntityKind::Pre { language: Some(l) } => {
                push_member(&mut m, "language", JsonValue::Str(l.clone()));
            },
            TextEntityKind::TextLink { url } => {
                push_member(&mut m, "url", JsonValue::Str(url.clone()));
            },
            _ => {},
        }
        assert(members_of(m@) =~= entity_json(self@)->Object_0);
        JsonValue::Object(m)
    }
}

fn u32_of(j: Option<&JsonValue>) -> (r: Option<u32>)
    ensures
        r == as_u32(
            match j {
                Some(v) => Some(v@),
                None => None,
            },
        ),
{
    match j {
        Some(JsonValue::Int(n)) => if 0 <= *n && *n <= u32::MAX as i64 {
            Some(*n as u32)
        } else {
            None
        },
        _ => None,
    }
}

fn kind_from_json(t: &String, j: &JsonValue) -> (r: Result<TextEntityKind, TextEntityError>)
    ensures
        match (r, kind_of_json(t@, j@)) {
            (Ok(k), Ok(v)) => k@ == v,
            (Err(e), Err(f)) => e == f,
            _ => false,
        },
{
    if str_is(t, "bold") {
        Ok(TextEntityKind::Bold)
    } else if str_is(t, "italic") {
        Ok(TextEntityKind::Italic)
    } else if str_is(t, "underline") {
        Ok(TextEntityKind::Underline)
    } else if str_is(t, "strikethrough") {
        Ok(TextEntityKind::Strikethrough)
    } else if str_is(t, "spoiler") {
        Ok(TextEntityKind::Spoiler)
    } else if str_is(t, "code") {
        Ok(TextEntityKind::Code)
    } else if str_is(t, "pre") {
        match j.get_opt_str("language") {
            Some(language) => Ok(TextEntityKind::Pre { language }),
            None => Err(TextEntityError::Malformed),
        }
    } else if str_is(t, "text_link") {
        match j.get_str("url") {
            Some(url) => Ok(TextEntityKind::TextLink { url }),
            None => Err(TextEntityError::NoUrl),
        }
    } else if str_is(t, "mention") {
        Ok(TextEntityKind::Mention)
    } else if str_is(t, "hashtag") {
        Ok(TextEntityKind::Hashtag)
    } else if str_is(t, "cashtag") {
        Ok(TextEntityKind::Cashtag)
    } else if str_is(t, "bot_command") {
        Ok(TextEntityKind::BotCommand)
    } else if str_is(t, "url") {
        Ok(TextEntityKind::Url)
    } else if str_is(t, "email") {
        Ok(TextEntityKind::Email)
    } else if str_is(t, "phone_number") {
        Ok(TextEntityKind::PhoneNumber)
    } else {
        Err(TextEntityError::UnknownType)
    }
}

impl TextEntity {
    /// The entity a JSON value holds.
    pub fn from_json(j: &JsonValue) -> (r: Result<TextEntity, TextEntityError>)
        ensures
            match (r, entity_of_json(j@)) {
                (Ok(e), Ok(v)) => e@ == v,
                (Err(e), Err(f)) => e == f,
                _ => false,
            },
    {
        match (j.get_str("type"), u32_of(j.get("offset")), u32_of(j.get("length"))) {
            (Some(t), Some(offset), Some(length)) => match kind_from_json(&t, j) {
                Ok(kind) => Ok(TextEntity { kind, offset, length }),
                Err(e) => Err(e),
            },
            _ => Err(TextEntityError::Malformed),
        }
    }
}

/// A bound above the end of any entity: offsets and lengths are `u32`.
pub const UTF16_CAP: u64 = 0x2_0000_0000;

/// The UTF-16 length of a text, counted up to `UTF16_CAP`.
pub open spec fn capped_len(s: Seq<char>) -> nat {
    if utf16_len(s) < UTF16_CAP {
        utf16_len(s)
    } else {
        UTF16_CAP as nat
    }
}

proof fn lemma_utf16_len_prefix(s: Seq<char>, i: int)
    requires
        0 <= i <= s.len(),
    ensures
        utf16_len(s.take(i)) <= utf16_len(s),
    decreases s.len() - i,
{
    if i < s.len() {
        assert(s.take(i + 1).drop_last() =~= s.take(i));
        lemma_utf16_len_prefix(s, i + 1);
    } else {
        assert(s.take(i) =~= s);
    }
}

/// Whether entities fit is the same against the length and the capped length.
proof fn lemma_entities_capped(items: Seq<Json>, s: Seq<char>)
    ensures
        entities_of_json(items, capped_len(s)) == entities_of_json(items, utf16_len(s)),
    decreases items.len(),
{
    if items.len() > 0 {
        lemma_entities_capped(items.drop_last(), s);
    }
}

/// The UTF-16 length of `s`, counted up to `UTF16_CAP`.
pub fn utf16_length(s: &str) -> (r: u64)
    ensures
        r == capped_len(s@),
{
    let n = s.unicode_len();
    let mut count: u64 = 0;
    let mut i: usize = 0;
    while i < n
        invariant
            n == s@.len(),
            i <= n,
            count == utf16_len(s@.take(i as int)),
            count < UTF16_CAP,
        decreases n - i,
    {
        let c = s.get_char(i);
        assert(s@.take(i as int + 1).drop_last() =~= s@.take(i as int));
        if (c as u32) > 0xffff {
            count += 2;
        } else {
            count += 1;
        }
        i += 1;
        if count >= UTF16_CAP {
            proof {
                lemma_utf16_len_prefix(s@, i as int);
            }
            return UTF16_CAP;
        }
    }
    assert(s@.take(n as int) =~= s@);
    count
}

/// The model of a text with its entities.
pub struct TextView {
    pub data: Seq<char>,
    pub entities: Option<Seq<TextEntityView>>,
}

/// A text and the entities that format it.
#[derive(Clone, Debug)]
pub struct Text {
    pub data: String,
    pub entities: Option<Vec<TextEntity>>,
}

impl View for Text {
    type V = TextView;

    open spec fn view(&self) -> TextView {
        TextView {
            data: self.data@,
            entities: match self.entities {
                Some(v) => Some(v@.map_values(|e: TextEntity| e@)),
                None => None,
            },
        }
    }
}

fn entities_from_json(items: &Vec<JsonValue>, n: u64) -> (r: Result<Vec<TextEntity>, TextEntityError>)
    ensures
        match (r, entities_of_json(items@.map_values(|j: JsonValue| j@), n as nat)) {
            (Ok(v), Ok(s)) => v@.map_values(|e: TextEntity| e@) == s,
            (Err(e), Err(f)) => e == f,
            _ => false,
        },
{
    let ghost js = items@.map_values(|j: JsonValue| j@);
    let mut out: Vec<TextEntity> = Vec::new();
    let mut i: usize = 0;
    assert(js.take(0) =~= seq![]);
    assert(out@.map_values(|e: TextEntity| e@) =~= seq![]);
    while i < items.len()
        invariant
            i <= items@.len(),
            js == items@.map_values(|j: JsonValue| j@),
            entities_of_json(js.take(i as int), n as nat) == Ok::<Seq<TextEntityView>, TextEntityError>(
                out@.map_values(|e: TextEntity| e@),
            ),
        decreases items.len() - i,
    {
        let ghost t = js.take(i as int + 1);
        proof {
            assert(t.drop_last() =~= js.take(i as int));
            assert(t.last() == items@[i as int]@);
        }
        match TextEntity::from_json(&items[i]) {
            Ok(e) => {
                if (e.offset as u64) + (e.length as u64) <= n {
                    let ghost before = out@;
                    out.push(e);
                    assert(out@.map_values(|e: TextEntity| e@) =~= before.map_values(
                        |e: TextEntity| e@,
                    ).push(e@));
                } else {
                    proof {
                        lemma_entities_error_stays(js, i as int + 1, n as nat);
                    }
                    return Err(TextEntityError::OutOfText);
                }
            },
            Err(e) => {
                proof {
                    lemma_entities_error_stays(js, i as int + 1, n as nat);
                }
                return Err(e);
            },
        }
        i += 1;
    }
    assert(js.take(items@.len() as int) =~= js);
    Ok(out)
}

/// Once reading a prefix fails, reading the whole list fails the same way.
proof fn lemma_entities_error_stays(items: Seq<Json>, k: int, n: nat)
    requires
        0 <= k <= items.len(),
        entities_of_json(items.take(k), n) is Err,
    ensures
        entities_of_json(items, n) == entities_of_json(items.take(k), n),
    decreases items.len() - k,
{
    if k < items.len() {
        let t = items.take(k + 1);
        assert(t.drop_last() =~= items.take(k));
        lemma_entities_error_stays(items, k + 1, n);
    } else {
        assert(items.take(k) =~= items);
    }
}

impl Text {
    /// A text from its characters and, if present, the JSON list of its
    /// entities, which must be non-empty and lie within the text.
    pub fn from_raw(data: String, entities: Option<&JsonValue>) -> (r: Result<Text, TextEntityError>)
        ensures
            match (
                r,
                text_entities_of_json(
                    data@,
                    match entities {
                        Some(j) => Some(j@),
                        None => None,
                    },
                ),
            ) {
                (Ok(t), Ok(es)) => t@ == (TextView { data: data@, entities: es }),
                (Err(e), Err(f)) => e == f,
                _ => false,
            },
    {
        match entities {
            None => Ok(Text { data, entities: None }),
            Some(JsonValue::Null) => Ok(Text { data, entities: None }),
            Some(JsonValue::Array(items)) => {
                if items.len() == 0 {
                    proof {
                        assert(items@.map_values(|j: JsonValue| j@).len() == 0);
                    }
                    return Err(TextEntityError::EmptyList);
                }
                let n = utf16_length(data.as_str());
                proof {
                    lemma_entities_capped(items@.map_values(|j: JsonValue| j@), data@);
                    crate::json::lemma_items_of(items@);
                    assert(items_of(items@) =~= items@.map_values(|j: JsonValue| j@));
                }
                match entities_from_json(items, n) {
                    Ok(v) => Ok(Text { data, entities: Some(v) }),
                    Err(e) => Err(e),
                }
            },
            Some(_) => Err(TextEntityError::Malformed),
        }
    }
}

/// The JSON array of a list of entities.
pub fn entities_to_json(entities: &[TextEntity]) -> (r: JsonValue)
    ensures
        r@ == entities_json(entities@.map_values(|e: TextEntity| e@)),
{
    let mut items: Vec<JsonValue> = Vec::new();
    let mut i: usize = 0;
    while i < entities.len()
        invariant
            i <= entities@.len(),
            items_of(items@) == entities@.take(i as int).map_values(|e: TextEntity| entity_json(e@)),
        decreases entities.len() - i,
    {
        push_item(&mut items, entities[i].to_json());
        assert(entities@.take(i as int + 1).map_values(|e: TextEntity| entity_json(e@))
            =~= entities@.take(i as int).map_values(|e: TextEntity| entity_json(e@)).push(
            entity_json(entities@[i as int]@),
        ));
        i += 1;
    }
    assert(entities@.take(entities@.len() as int) =~= entities@);
    assert(entities@.map_values(|e: TextEntity| entity_json(e@)) =~= entities@.map_values(
        |e: TextEntity| e@,
    ).map_values(|e: TextEntityView| entity_json(e)));
    JsonValue::Array(items)
}

/// The JSON text of a list of entities, as sent in a form field.  Every
/// entity has a JSON form, so the result is always `Ok`.
pub fn serialize_text_entities(entities: &[TextEntity]) -> (r: Result<String, TextEntityError>)
    ensures
        r matches Ok(s) && s@ == json_text(entities_json(entities@.map_values(|e: TextEntity| e@))),
{
    Ok(render(&entities_to_json(entities)))
}

} // verus!
