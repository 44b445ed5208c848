//! The content of a message sent as the result of an inline query.
use crate::json::{
    decimal_json, members_of, opt_bool, opt_decimal, opt_int, opt_text, opt_view, optional,
    push_member, Decimal, Json, JsonValue,
};
use crate::types::input_media::opt_parse_mode;
use crate::types::parse_mode::ParseMode;
use crate::types::text::{entities_json, entities_to_json, TextEntity, TextEntityView};
use vstd::prelude::*;

verus! {

/// The model of a contact message.
pub struct ContactView {
    pub phone_number: Seq<char>,
    pub first_name: Seq<char>,
    pub last_name: Option<Seq<char>>,
    pub vcard: Option<Seq<char>>,
}

/// The JSON of a contact message; absent options are left out.
pub open spec fn contact_json(v: ContactView) -> Json {
    Json::Object(
        seq![("phone_number"@, Json::Str(v.phone_number)), ("first_name"@, Json::Str(v.first_name))]
            + optional("last_name"@, opt_text(v.last_name)) + optional("vcard"@, opt_text(v.vcard)),
    )
}

/// A contact message.
#[derive(Clone, Debug)]
pub struct InputMessageContentContact {
    phone_number: String,
    first_name: String,
    last_name: Option<String>,
    vcard: Option<String>,
}

impl View for InputMessageContentContact {
    type V = ContactView;

    closed spec fn view(&self) -> ContactView {
        ContactView {
            phone_number: self.phone_number@,
            first_name: self.first_name@,
            last_name: opt_view(self.last_name),
            vcard: opt_view(self.vcard),
        }
    }
}

impl InputMessageContentContact {
    /// A contact with a phone number and a first name, and no options.
    pub fn new(phone_number: &str, first_name: &str) -> (r: InputMessageContentContact)
        ensures
            r@ == (ContactView {
                phone_number: phone_number@,
                first_name: first_name@,
                last_name: None,
                vcard: None,
            }),
    {
        InputMessageContentContact {
            phone_number: String::from_str(phone_number),
            first_name: String::from_str(first_name),
            last_name: None,
            vcard: None,
        }
    }

    /// The contact's last name.
    pub fn last_name(self, last_name: &str) -> (r: InputMessageContentContact)
        ensures
            r@ == (ContactView { last_name: Some(last_name@), ..self@ }),
    {
        InputMessageContentContact { last_name: Some(String::from_str(last_name)), ..self }
    }

    /// More about the contact as a vCard, 0-2048 bytes.
    pub fn vcard(self, vcard: &str) -> (r: InputMessageContentContact)
        ensures
            r@ == (ContactView { vcard: Some(vcard@), ..self@ }),
    {
        InputMessageContentContact { vcard: Some(String::from_str(vcard)), ..self }
    }

    /// The JSON value of the content.
    pub fn to_json(&self) -> (r: JsonValue)
        ensures
            r@ == contact_json(self@),
    {
        let mut m: Vec<(String, JsonValue)> = Vec::new();
        push_member(&mut m, "phone_number", JsonValue::Str(self.phone_number.clone()));
        push_member(&mut m, "first_name", JsonValue::Str(self.first_name.clone()));
        if let Some(s) = &self.last_name {
            push_member(&mut m, "last_name", JsonValue::Str(s.clone()));
        }
        if let Some(s) = &self.vcard {
            push_member(&mut m, "vcard", JsonValue::Str(s.clone()));
        }
        assert(members_of(m@) =~= contact_json(self@)->Object_0);
        JsonValue::Object(m)
    }
}

/// The model of a text message.
pub struct TextContentView {
    pub message_text: Seq<char>,
    pub entities: Option<Seq<TextEntityView>>,
    pub parse_mode: Option<ParseMode>,
    pub disable_web_page_preview: Option<bool>,
}

/// A present list of entities as a JSON array.
pub open spec fn opt_entities(o: Option<Seq<TextEntityView>>) -> Option<Json> {
    match o {
        Some(s) => Some(entities_json(s)),
        None => None,
    }
}

/// The JSON of a text message; absent options are left out.
pub open spec fn text_content_json(v: TextContentView) -> Json {
    Json::Object(
        seq![("message_text"@, Json::Str(v.message_text))] + optional(
            "entities"@,
            opt_entities(v.entities),
        ) + optional("parse_mode"@, opt_parse_mode(v.parse_mode)) + optional(
            "disable_web_page_preview"@,
            opt_bool(v.disable_web_page_preview),
        ),
    )
}

/// The text content after setting entities: the parse mode is dropped.
pub open spec fn content_with_entities(v: TextContentView, entities: Seq<TextEntityView>) -> TextContentView {
    TextContentView { entities: Some(entities), parse_mode: None, ..v }
}

/// The text content after setting the parse mode: the entities are dropped.
pub open spec fn content_with_parse_mode(v: TextContentView, mode: ParseMode) -> TextContentView {
    TextContentView { parse_mode: Some(mode), entities: None, ..v }
}

/// Entities and parse mode of a text message exclude each other: whichever
/// is set last is present, the other absent, and setting either twice is
/// the same as setting it once.
pub proof fn lemma_text_format_exclusive(
    v: TextContentView,
    entities: Seq<TextEntityView>,
    mode: ParseMode,
)
    ensures
        content_with_parse_mode(content_with_entities(v, entities), mode).parse_mode == Some(mode),
        content_with_parse_mode(content_with_entities(v, entities), mode).entities is None,
        content_with_entities(content_with_parse_mode(v, mode), entities).entities == Some(entities),
        content_with_entities(content_with_parse_mode(v, mode), entities).parse_mode is None,
        content_with_parse_mode(content_with_parse_mode(v, mode), mode) == content_with_parse_mode(
            v,
            mode,
        ),
        content_with_entities(content_with_entities(v, entities), entities) == content_with_entities(
            v,
            entities,
        ),
{
}

/// A text message.
#[derive(Clone, Debug)]
pub struct InputMessageContentText {
    message_text: String,
    entities: Option<Vec<TextEntity>>,
    parse_mode: Option<ParseMode>,
    disable_web_page_preview: Option<bool>,
}

impl View for InputMessageContentText {
    type V = TextContentView;

    closed spec fn view(&self) -> TextContentView {
        TextContentView {
            message_text: self.message_text@,
            entities: match self.entities {
                Some(v) => Some(v@.map_values(|e: TextEntity| e@)),
                None => None,
            },
            parse_mode: self.parse_mode,
            disable_web_page_preview: self.disable_web_page_preview,
        }
    }
}

impl InputMessageContentText {
    /// A text message of 1-4096 characters, with no options.
    pub fn new(message_text: &str) -> (r: InputMessageContentText)
        ensures
            r@ == (TextContentView {
                message_text: message_text@,
                entities: None,
                parse_mode: None,
                disable_web_page_preview: None,
            }),
    {
        InputMessageContentText {
            message_text: String::from_str(message_text),
            entities: None,
            parse_mode: None,
            disable_web_page_preview: None,
        }
    }

    /// The entities of the text; any parse mode is dropped.
    pub fn entities(self, entities: Vec<TextEntity>) -> (r: InputMessageContentText)
        ensures
            r@ == content_with_entities(self@, entities@.map_values(|e: TextEntity| e@)),
    {
        InputMessageContentText { entities: Some(entities), parse_mode: None, ..self }
    }

    /// The parse mode of the text; any entities are dropped.
    pub fn parse_mode(self, parse_mode: ParseMode) -> (r: InputMessageContentText)
        ensures
            r@ == content_with_parse_mode(self@, parse_mode),
    {
        InputMessageContentText { parse_mode: Some(parse_mode), entities: None, ..self }
    }

    /// Turns off link previews for links in the message.
    pub fn disable_web_page_preview(self, disable_web_page_preview: bool) -> (r: InputMessageContentText)
        ensures
            r@ == (TextContentView { disable_web_page_preview: Some(disable_web_page_preview), ..self@ }),
    {
        InputMessageContentText { disable_web_page_preview: Some(disable_web_page_preview), ..self }
    }

    /// The JSON value of the content.
    pub fn to_json(&self) -> (r: JsonValue)
        ensures
            r@ == text_content_json(self@),
    {
        let mut m: Vec<(String, JsonValue)> = Vec::new();
        push_member(&mut m, "message_text", JsonValue::Str(self.message_text.clone()));
        if let Some(es) = &self.entities {
            push_member(&mut m, "entities", entities_to_json(es.as_slice()));
        }
        if let Some(p) = self.parse_mode {
            push_member(&mut m, "parse_mode", JsonValue::Str(String::from_str(p.name())));
        }
        if let Some(b) = self.disable_web_page_preview {
            push_member(&mut m, "disable_web_page_preview", JsonValue::Bool(b));
        }
        assert(members_of(m@) =~= text_content_json(self@)->Object_0);
        JsonValue::Object(m)
    }
}

/// The model of a location message.
pub struct LocationContentView {
    pub latitude: Decimal,
    pub longitude: Decimal,
    pub horizontal_accuracy: Option<Decimal>,
    pub live_period: Option<i64>,
    pub heading: Option<i64>,
    pub proximity_alert_radius: Option<i64>,
}

/// The JSON of a location message; absent options are left out.
pub open spec fn location_content_json(v: LocationContentView) -> Json {
    Json::Object(
        seq![("latitude"@, decimal_json(v.latitude)), ("longitude"@, decimal_json(v.longitude))]
            + optional("horizontal_accuracy"@, opt_decimal(v.horizontal_accuracy)) + optional(
            "live_period"@,
            opt_int(v.live_period),
        ) + optional("heading"@, opt_int(v.heading)) + optional(
            "proximity_alert_radius"@,
            opt_int(v.proximity_alert_radius),
        ),
    )
}

/// A location message.
#[derive(Clone, Copy, Debug)]
pub struct InputMessageContentLocation {
    latitude: Decimal,
    longitude: Decimal,
    horizontal_accuracy: Option<Decimal>,
    live_period: Option<i64>,
    heading: Option<i64>,
    proximity_alert_radius: Option<i64>,
}

impl View for InputMessageContentLocation {
    type V = LocationContentView;

    closed spec fn view(&self) -> LocationContentView {
        LocationContentView {
            latitude: self.latitude,
            longitude: self.longitude,
            horizontal_accuracy: self.horizontal_accuracy,
            live_period: self.live_period,
            heading: self.heading,
            proximity_alert_radius: self.proximity_alert_radius,
        }
    }
}

impl InputMessageContentLocation {
    /// A location, in degrees, with no options.
    pub fn new(latitude: Decimal, longitude: Decimal) -> (r: InputMessageContentLocation)
        ensures
            r@ == (LocationContentView {
                latitude,
                longitude,
                horizontal_accuracy: None,
                live_period: None,
                heading: None,
                proximity_alert_radius: None,
            }),
    {
        InputMessageContentLocation {
            latitude,
            longitude,
            horizontal_accuracy: None,
            live_period: None,
            heading: None,
            proximity_alert_radius: None,
        }
    }

    /// The radius of uncertainty, in meters; 0-1500.
    pub fn horizontal_accuracy(self, horizontal_accuracy: Decimal) -> (r: InputMessageContentLocation)
        ensures
            r@ == (LocationContentView { horizontal_accuracy: Some(horizontal_accuracy), ..self@ }),
    {
        InputMessageContentLocation { horizontal_accuracy: Some(horizontal_accuracy), ..self }
    }

    /// Seconds for which the location can be updated, 60-86400.
    pub fn live_period(self, live_period: i64) -> (r: InputMessageContentLocation)
        ensures
            r@ == (LocationContentView { live_period: Some(live_period), ..self@ }),
    {
        InputMessageContentLocation { live_period: Some(live_period), ..self }
    }

    /// For a live location, the direction of movement in degrees, 1-360.
    pub fn heading(self, heading: i64) -> (r: InputMessageContentLocation)
        ensures
            r@ == (LocationContentView { heading: Some(heading), ..self@ }),
    {
        InputMessageContentLocation { heading: Some(heading), ..self }
    }

    /// For a live location, the distance in meters for proximity alerts, 1-100000.
    pub fn proximity_alert_radius(self, proximity_alert_radius: i64) -> (r: InputMessageContentLocation)
        ensures
            r@ == (LocationContentView { proximity_alert_radius: Some(proximity_alert_radius), ..self@ }),
    {
        InputMessageContentLocation { proximity_alert_radius: Some(proximity_alert_radius), ..self }
    }

    /// The JSON value of the content.
    pub fn to_json(&self) -> (r: JsonValue)
        ensures
            r@ == location_content_json(self@),
    {
        let mut m: Vec<(String, JsonValue)> = Vec::new();
        push_member(&mut m, "latitude", JsonValue::Decimal(self.latitude));
        push_member(&mut m, "longitude", JsonValue::Decimal(self.longitude));
        if let Some(d) = self.horizontal_accuracy {
            push_member(&mut m, "horizontal_accuracy", JsonValue::Decimal(d));
        }
        if let Some(n) = self.live_period {
            push_member(&mut m, "live_period", JsonValue::Int(n));
        }
        if let Some(n) = self.heading {
            push_member(&mut m, "heading", JsonValue::Int(n));
        }
        if let Some(n) = self.proximity_alert_radius {
            push_member(&mut m, "proximity_alert_radius", JsonValue::Int(n));
        }
        assert(members_of(m@) =~= location_content_json(self@)->Object_0);
        JsonValue::Object(m)
    }
}

/// The model of a venue message.
pub struct VenueContentView {
    pub latitude: Decimal,
    pub longitude: Decimal,
    pub title: Seq<char>,
    pub address: Seq<char>,
    pub foursquare_id: Option<Seq<char>>,
    pub foursquare_type: Option<Seq<char>>,
    pub google_place_id: Option<Seq<char>>,
    pub google_place_type: Option<Seq<char>>,
}

/// The JSON of a venue message; absent options are left out.
pub open spec fn venue_content_json(v: VenueContentView) -> Json {
    Json::Object(
        seq![
            ("latitude"@, decimal_json(v.latitude)),
            ("longitude"@, decimal_json(v.longitude)),
            ("title"@, Json::Str(v.title)),
            ("address"@, Json::Str(v.address)),
        ] + optional("foursquare_id"@, opt_text(v.foursquare_id)) + optional(
            "foursquare_type"@,
            opt_text(v.foursquare_type),
        ) + optional("google_place_id"@, opt_text(v.google_place_id)) + optional(
            "google_place_type"@,
            opt_text(v.google_place_type),
        ),
    )
}

/// A venue message.
#[derive(Clone, Debug)]
pub struct InputMessageContentVenue {
    latitude: Decimal,
    longitude: Decimal,
    title: String,
    address: String,
    foursquare_id: Option<String>,
    foursquare_type: Option<String>,
    google_place_id: Option<String>,
    google_place_type: Option<String>,
}

impl View for InputMessageContentVenue {
    type V = VenueContentView;

    closed spec fn view(&self) -> VenueContentView {
        VenueContentView {
            latitude: self.latitude,
            longitude: self.longitude,
            title: self.title@,
            address: self.address@,
            foursquare_id: opt_view(self.foursquare_id),
            foursquare_type: opt_view(self.foursquare_type),
            google_place_id: opt_view(self.google_place_id),
            google_place_type: opt_view(self.google_place_type),
        }
    }
}

impl InputMessageContentVenue {
    /// A venue at a location, in degrees, with its name and address, and no options.
    pub fn new(latitude: Decimal, longitude: Decimal, title: &str, address: &str) -> (r: InputMessageContentVenue)
        ensures
            r@ == (VenueContentView {
                latitude,
                longitude,
                title: title@,
                address: address@,
                foursquare_id: None,
                foursquare_type: None,
                google_place_id: None,
                google_place_type: None,
            }),
    {
        InputMessageContentVenue {
            latitude,
            longitude,
            title: String::from_str(title),
            address: String::from_str(address),
            foursquare_id: None,
            foursquare_type: None,
            google_place_id: None,
            google_place_type: None,
        }
    }

    /// The Foursquare identifier of the venue.
    pub fn foursquare_id(self, foursquare_id: &str) -> (r: InputMessageContentVenue)
        ensures
            r@ == (VenueContentView { foursquare_id: Some(foursquare_id@), ..self@ }),
    {
        InputMessageContentVenue { foursquare_id: Some(String::from_str(foursquare_id)), ..self }
    }

    /// The Foursquare type of the venue, such as `food/icecream`.
    pub fn foursquare_type(self, foursquare_type: &str) -> (r: InputMessageContentVenue)
        ensures
            r@ == (VenueContentView { foursquare_type: Some(foursquare_type@), ..self@ }),
    {
        InputMessageContentVenue { foursquare_type: Some(String::from_str(foursquare_type)), ..self }
    }

    /// The Google Places identifier of the venue.
    pub fn google_place_id(self, google_place_id: &str) -> (r: InputMessageContentVenue)
        ensures
            r@ == (VenueContentView { google_place_id: Some(google_place_id@), ..self@ }),
    {
        InputMessageContentVenue { google_place_id: Some(String::from_str(google_place_id)), ..self }
    }

    /// The Google Places type of the venue.
    pub fn google_place_type(self, google_place_type: &str) -> (r: InputMessageContentVenue)
        ensures
            r@ == (VenueContentView { google_place_type: Some(google_place_type@), ..self@ }),
    {
        InputMessageContentVenue { google_place_type: Some(String::from_str(google_place_type)), ..self }
    }

    /// The JSON value of the content.
    pub fn to_json(&self) -> (r: JsonValue)
        ensures
            r@ == venue_content_json(self@),
    {
        let mut m: Vec<(String, JsonValue)> = Vec::new();
        push_member(&mut m, "latitude", JsonValue::Decimal(self.latitude));
        push_member(&mut m, "longitude", JsonValue::Decimal(self.longitude));
        push_member(&mut m, "title", JsonValue::Str(self.title.clone()));
        push_member(&mut m, "address", JsonValue::Str(self.address.clone()));
        if let Some(s) = &self.foursquare_id {
            push_member(&mut m, "foursquare_id", JsonValue::Str(s.clone()));
        }
        if let Some(s) = &self.foursquare_type {
            push_member(&mut m, "foursquare_type", JsonValue::Str(s.clone()));
        }
        if let Some(s) = &self.google_place_id {
            push_member(&mut m, "google_place_id", JsonValue::Str(s.clone()));
        }
        if let Some(s) = &self.google_place_type {
            push_member(&mut m, "google_place_type", JsonValue::Str(s.clone()));
        }
        assert(members_of(m@) =~= venue_content_json(self@)->Object_0);
        JsonValue::Object(m)
    }
}

/// The model of a message content.
pub enum InputMessageContentView {
    Contact(ContactView),
    Location(LocationContentView),
    Text(TextContentView),
    Venue(VenueContentView),
}

/// The content of a message sent as the result of an inline query.
#[derive(Clone, Debug)]
pub enum InputMessageContent {
    Contact(InputMessageContentContact),
    Location(InputMessageContentLocation),
    Text(InputMessageContentText),
    Venue(InputMessageContentVenue),
}

impl View for InputMessageContent {
    type V = InputMessageContentView;

    open spec fn view(&self) -> InputMessageContentView {
        match self {
            InputMessageContent::Contact(c) => InputMessageContentView::Contact(c@),
            InputMessageContent::Location(c) => InputMessageContentView::Location(c@),
            InputMessageContent::Text(c) => InputMessageContentView::Text(c@),
            InputMessageContent::Venue(c) => InputMessageContentView::Venue(c@),
        }
    }
}

/// The JSON of a message content: that of the content itself, with no tag.
pub open spec fn message_content_json(v: InputMessageContentView) -> Json {
    match v {
        InputMessageContentView::Contact(c) => contact_json(c),
        InputMessageContentView::Location(c) => location_content_json(c),
        InputMessageContentView::Text(c) => text_content_json(c),
        InputMessageContentView::Venue(c) => venue_content_json(c),
    }
}

impl InputMessageContent {
    /// The JSON value of the content.
    pub fn to_json(&self) -> (r: JsonValue)
        ensures
            r@ == message_content_json(self@),
    {
        match self {
            InputMessageContent::Contact(c) => c.to_json(),
            InputMessageContent::Location(c) => c.to_json(),
            InputMessageContent::Text(c) => c.to_json(),
            InputMessageContent::Venue(c) => c.to_json(),
        }
    }
}

impl From<InputMessageContentContact> for InputMessageContent {
    fn from(c: InputMessageContentContact) -> (r: InputMessageContent)
        ensures
            r == InputMessageContent::Contact(c),
    {
        InputMessageContent::Contact(c)
    }
}

impl vstd::std_specs::convert::FromSpecImpl<InputMessageContentContact> for InputMessageContent {
    open spec fn obeys_from_spec() -> bool {
        true
    }

    open spec fn from_spec(c: InputMessageContentContact) -> InputMessageContent {
        InputMessageContent::Contact(c)
    }
}

impl From<InputMessageContentLocation> for InputMessageContent {
    fn from(c: InputMessageContentLocation) -> (r: InputMessageContent)
        ensures
            r == InputMessageContent::Location(c),
    {
        InputMessageContent::Location(c)
    }
}

impl vstd::std_specs::convert::FromSpecImpl<InputMessageContentLocation> for InputMessageContent {
    open spec fn obeys_from_spec() -> bool {
        true
    }

    open spec fn from_spec(c: InputMessageContentLocation) -> InputMessageContent {
        InputMessageContent::Location(c)
    }
}

impl From<InputMessageContentText> for InputMessageContent {
    fn from(c: InputMessageContentText) -> (r: InputMessageContent)
        ensures
            r == InputMessageContent::Text(c),
    {
        InputMessageContent::Text(c)
    }
}

impl vstd::std_specs::convert::FromSpecImpl<InputMessageContentText> for InputMessageContent {
    open spec fn obeys_from_spec() -> bool {
        true
    }

    open spec fn from_spec(c: InputMessageContentText) -> InputMessageContent {
        InputMessageContent::Text(c)
    }
}

impl From<InputMessageContentVenue> for InputMessageContent {
    fn from(c: InputMessageContentVenue) -> (r: InputMessageContent)
        ensures
            r == InputMessageContent::Venue(c),
    {
        InputMessageContent::Venue(c)
    }
}

impl vstd::std_specs::convert::FromSpecImpl<InputMessageContentVenue> for InputMessageContent {
    open spec fn obeys_from_spec() -> bool {
        true
    }

    open spec fn from_spec(c: InputMessageContentVenue) -> InputMessageContent {
        InputMessageContent::Venue(c)
    }
}

} // verus!
