use tgbot::{
    render, BotCommand, BotCommandError, BotCommandScope, ChatId, ChosenInlineResult, Decimal,
    ForceReply, Game, GameError, GameHighScore, InlineQuery, InlineQueryChatType, InputMediaDocument,
    InputMessageContent, InputMessageContentContact, InputMessageContentLocation,
    InputMessageContentText, InputMessageContentVenue, JsonValue, ParseMode, ReplyMarkup, TextEntity,
    TextEntityError,
};

fn from_serde(v: &serde_json::Value) -> JsonValue {
    match v {
        serde_json::Value::Null => JsonValue::Null,
        serde_json::Value::Bool(b) => JsonValue::Bool(*b),
        serde_json::Value::Number(n) => match n.as_i64() {
            Some(i) => JsonValue::Int(i),
            None => {
                let text = n.to_string();
                let (whole, frac) = text.split_once('.').unwrap_or((&text, ""));
                let digits: i64 = format!("{}{}", whole, frac).parse().unwrap();
                JsonValue::Decimal(Decimal { digits, scale: frac.len() as u8 })
            }
        },
        serde_json::Value::String(s) => JsonValue::Str(s.clone()),
        serde_json::Value::Array(items) => JsonValue::Array(items.iter().map(from_serde).collect()),
        serde_json::Value::Object(members) => {
            JsonValue::Object(members.iter().map(|(k, v)| (k.clone(), from_serde(v))).collect())
        }
    }
}

fn parse(text: &str) -> JsonValue {
    from_serde(&serde_json::from_str(text).unwrap())
}

fn to_serde(v: &JsonValue) -> serde_json::Value {
    serde_json::from_str(&render(v)).unwrap()
}

#[test]
fn new_bot_command() {
    let err = BotCommand::new("", "description").unwrap_err().to_string();
    assert_eq!(err, "command name can have a length of 1 up to 32 characters, got 0");
    let err = BotCommand::new(&"2".repeat(33), "description").unwrap_err().to_string();
    assert_eq!(err, "command name can have a length of 1 up to 32 characters, got 33");
    let err = BotCommand::new("name", "d").unwrap_err().to_string();
    assert_eq!(err, "command description can have a length of 3 up to 256 characters, got 1");
    let err = BotCommand::new("name", &"d".repeat(257)).unwrap_err().to_string();
    assert_eq!(err, "command description can have a length of 3 up to 256 characters, got 257");
}

#[test]
fn bot_command_length_bounds() {
    assert!(BotCommand::new("a", "abc").is_ok());
    assert!(BotCommand::new(&"a".repeat(32), &"d".repeat(256)).is_ok());
    assert_eq!(BotCommand::new(&"a".repeat(33), "abc").unwrap_err(), BotCommandError::BadNameLen(33));
    assert_eq!(BotCommand::new("", "abc").unwrap_err(), BotCommandError::BadNameLen(0));
    assert_eq!(BotCommand::new("a", "ab").unwrap_err(), BotCommandError::BadDescriptionLen(2));
    assert_eq!(
        BotCommand::new("a", &"d".repeat(257)).unwrap_err(),
        BotCommandError::BadDescriptionLen(257)
    );
    assert_eq!(BotCommand::new("", "").unwrap_err(), BotCommandError::BadNameLen(0));
}

#[test]
fn bot_command_counts_characters() {
    let command = BotCommand::new(&"é".repeat(32), "ééé").unwrap();
    assert_eq!(command.name(), "é".repeat(32));
    assert_eq!(command.description(), "ééé");
}

#[test]
fn bot_command_json_round_trip() {
    let command = BotCommand::new("start", "Start the bot").unwrap();
    let json = command.to_json();
    assert_eq!(render(&json), r#"{"command":"start","description":"Start the bot"}"#);
    let back = BotCommand::from_json(&parse(&render(&json))).unwrap();
    assert_eq!(back.name(), "start");
    assert_eq!(back.description(), "Start the bot");
    assert!(BotCommand::from_json(&parse(r#"{"command":"start"}"#)).is_none());
}

#[test]
fn bot_command_scope() {
    for (scope, scope_type) in [
        (BotCommandScope::Default, "default"),
        (BotCommandScope::AllPrivateChats, "all_private_chats"),
        (BotCommandScope::AllGroupChats, "all_group_chats"),
        (BotCommandScope::AllChatAdministrators, "all_chat_administrators"),
        (BotCommandScope::chat(ChatId::from(1)), "chat"),
        (BotCommandScope::chat_administrators(ChatId::from(1)), "chat_administrators"),
        (BotCommandScope::chat_member(ChatId::from(1), 1), "chat_member"),
    ] {
        let serialized_scope = render(&scope.to_json());
        let value: serde_json::Value = serde_json::from_str(&serialized_scope).unwrap();
        assert_eq!(value["type"], scope_type);
        let parsed_scope = BotCommandScope::from_json(&from_serde(&value)).unwrap();
        assert_eq!(scope, parsed_scope);
    }
}

#[test]
fn bot_command_scope_text() {
    let scope = BotCommandScope::chat_member(ChatId::username("@group"), 7);
    assert_eq!(render(&scope.to_json()), r#"{"type":"chat_member","chat_id":"@group","user_id":7}"#);
    assert!(BotCommandScope::from_json(&parse(r#"{"type":"unknown"}"#)).is_none());
    assert!(BotCommandScope::from_json(&parse(r#"{"type":"chat"}"#)).is_none());
    assert!(BotCommandScope::chat(ChatId::from(1)) != BotCommandScope::chat(ChatId::from(2)));
}

#[test]
fn deserialize_game_full() {
    let game = Game::from_json(&parse(
        r#"{
            "title": "title",
            "description": "description",
            "photo": [
                {
                    "file_id": "photo file id",
                    "file_unique_id": "photo unique file id",
                    "width": 200,
                    "height": 200
                }
            ],
            "text": "text",
            "animation": {
                "file_id": "animation file id",
                "file_unique_id": "animation unique file id",
                "width": 200,
                "height": 200,
                "duration": 24
            }
        }"#,
    ))
    .unwrap();
    assert_eq!(game.title, "title");
    assert_eq!(game.description, "description");
    assert_eq!(game.photo.len(), 1);
    assert_eq!(game.photo[0].file_id, "photo file id");
    assert_eq!(game.photo[0].file_unique_id, "photo unique file id");
    assert_eq!(game.text.unwrap().data, "text");
    let animation = game.animation.unwrap();
    assert_eq!(animation.file_id, "animation file id");
    assert_eq!(animation.file_unique_id, "animation unique file id");
}

#[test]
fn deserialize_game_partial() {
    let game = Game::from_json(&parse(r#"{"title": "title", "description": "description", "photo": []}"#)).unwrap();
    assert_eq!(game.title, "title");
    assert_eq!(game.description, "description");
    assert_eq!(game.photo.len(), 0);
    assert!(game.text.is_none());
    assert!(game.animation.is_none());
}

#[test]
fn deserialize_game_high_score() {
    let score = GameHighScore::from_json(&parse(
        r#"{"position": 1, "user": {"id": 2, "first_name": "test", "is_bot": false}, "score": 3}"#,
    ))
    .unwrap();
    assert_eq!(score.position, 1);
    assert_eq!(score.user.id, 2);
    assert_eq!(score.score, 3);
}

#[test]
fn game_text_with_entities() {
    let game = Game::from_json(&parse(
        r#"{"title": "t", "description": "d", "photo": [], "text": "hello 😀 world",
            "text_entities": [{"type": "bold", "offset": 0, "length": 5},
                              {"type": "text_link", "offset": 6, "length": 8, "url": "https://x"}]}"#,
    ))
    .unwrap();
    let text = game.text.unwrap();
    assert_eq!(text.data, "hello 😀 world");
    let entities = text.entities.unwrap();
    assert_eq!(entities.len(), 2);
    assert_eq!(entities[1].offset(), 6);
    assert_eq!(entities[1].length(), 8);
}

fn game_error(entities: &str) -> GameError {
    let text = format!(
        r#"{{"title": "t", "description": "d", "photo": [], "text": "hello 😀", "text_entities": {}}}"#,
        entities
    );
    Game::from_json(&parse(&text)).unwrap_err()
}

#[test]
fn game_text_entity_errors() {
    assert_eq!(game_error("[]"), GameError::TextEntities(TextEntityError::EmptyList));
    assert_eq!(
        game_error(r#"[{"type": "bold", "offset": 0, "length": 9}]"#),
        GameError::TextEntities(TextEntityError::OutOfText)
    );
    assert!(Game::from_json(&parse(
        r#"{"title": "t", "description": "d", "photo": [], "text": "hello 😀",
            "text_entities": [{"type": "bold", "offset": 0, "length": 8}]}"#
    ))
    .is_ok());
    assert_eq!(
        game_error(r#"[{"type": "text_link", "offset": 0, "length": 1}]"#),
        GameError::TextEntities(TextEntityError::NoUrl)
    );
    assert_eq!(
        game_error(r#"[{"type": "blink", "offset": 0, "length": 1}]"#),
        GameError::TextEntities(TextEntityError::UnknownType)
    );
    assert_eq!(
        game_error(r#"[{"type": "bold", "offset": -1, "length": 1}]"#),
        GameError::TextEntities(TextEntityError::Malformed)
    );
    assert_eq!(game_error(r#""bold""#), GameError::TextEntities(TextEntityError::Malformed));
    assert_eq!(
        Game::from_json(&parse(r#"{"title": "t", "description": "d"}"#)).unwrap_err(),
        GameError::Malformed
    );
}

#[test]
fn serialize_contact() {
    let value = to_serde(
        &InputMessageContent::from(
            InputMessageContentContact::new("+79001231212", "Vasya").last_name("Pupkin").vcard("vcard"),
        )
        .to_json(),
    );
    let expected: serde_json::Value = serde_json::from_str(
        r#"{"phone_number": "+79001231212", "first_name": "Vasya", "last_name": "Pupkin", "vcard": "vcard"}"#,
    )
    .unwrap();
    assert_eq!(value, expected);

    let value = to_serde(&InputMessageContent::from(InputMessageContentContact::new("+79001231212", "Vasya")).to_json());
    let expected: serde_json::Value =
        serde_json::from_str(r#"{"phone_number": "+79001231212", "first_name": "Vasya"}"#).unwrap();
    assert_eq!(value, expected);
}

#[test]
fn serialize_location() {
    let val = to_serde(
        &InputMessageContent::from(
            InputMessageContentLocation::new(Decimal { digits: 11, scale: 1 }, Decimal { digits: 21, scale: 1 })
                .horizontal_accuracy(Decimal { digits: 15, scale: 1 })
                .live_period(100)
                .heading(90)
                .proximity_alert_radius(100),
        )
        .to_json(),
    );
    assert_eq!(val.get("latitude").unwrap().as_f64().unwrap().round(), 1.0);
    assert_eq!(val.get("longitude").unwrap().as_f64().unwrap().round(), 2.0);
    assert_eq!(val.get("horizontal_accuracy").unwrap().as_f64().unwrap(), 1.5);
    assert_eq!(val.get("live_period").unwrap().as_i64().unwrap(), 100);
    assert_eq!(val.get("heading").unwrap().as_i64().unwrap(), 90);
    assert_eq!(val.get("proximity_alert_radius").unwrap().as_i64().unwrap(), 100);

    let val = to_serde(
        &InputMessageContent::from(InputMessageContentLocation::new(
            Decimal { digits: 11, scale: 1 },
            Decimal { digits: 21, scale: 1 },
        ))
        .to_json(),
    );
    assert_eq!(val.get("latitude").unwrap().as_f64().unwrap().round(), 1.0);
    assert_eq!(val.get("longitude").unwrap().as_f64().unwrap().round(), 2.0);
    assert!(val.get("horizontal_accuracy").is_none());
    assert!(val.get("live_period").is_none());
    assert!(val.get("heading").is_none());
    assert!(val.get("proximity_alert_radius").is_none());
}

#[test]
fn serialize_text() {
    let value = to_serde(
        &InputMessageContent::from(
            InputMessageContentText::new("text")
                .entities(vec![TextEntity::bold(0..10)])
                .parse_mode(ParseMode::Html)
                .disable_web_page_preview(true),
        )
        .to_json(),
    );
    let expected: serde_json::Value = serde_json::from_str(
        r#"{"message_text": "text", "parse_mode": "HTML", "disable_web_page_preview": true}"#,
    )
    .unwrap();
    assert_eq!(value, expected);

    let value = to_serde(
        &InputMessageContent::from(
            InputMessageContentText::new("text")
                .parse_mode(ParseMode::Markdown)
                .entities(vec![TextEntity::bold(0..10)]),
        )
        .to_json(),
    );
    let expected: serde_json::Value = serde_json::from_str(
        r#"{"message_text": "text", "entities": [{"type": "bold", "offset": 0, "length": 10}]}"#,
    )
    .unwrap();
    assert_eq!(value, expected);
}

#[test]
fn serialize_venue() {
    let val = to_serde(
        &InputMessageContent::from(
            InputMessageContentVenue::new(
                Decimal { digits: 11, scale: 1 },
                Decimal { digits: 21, scale: 1 },
                "title",
                "addr",
            )
            .foursquare_id("f-id")
            .foursquare_type("f-type")
            .google_place_id("g-id")
            .google_place_type("g-type"),
        )
        .to_json(),
    );
    assert_eq!(val.get("latitude").unwrap().as_f64().unwrap().round(), 1.0);
    assert_eq!(val.get("longitude").unwrap().as_f64().unwrap().round(), 2.0);
    assert_eq!(val.get("title").unwrap().as_str().unwrap(), "title");
    assert_eq!(val.get("address").unwrap().as_str().unwrap(), "addr");
    assert_eq!(val.get("foursquare_id").unwrap().as_str().unwrap(), "f-id");
    assert_eq!(val.get("foursquare_type").unwrap().as_str().unwrap(), "f-type");
    assert_eq!(val.get("google_place_id").unwrap().as_str().unwrap(), "g-id");
    assert_eq!(val.get("google_place_type").unwrap().as_str().unwrap(), "g-type");

    let val = to_serde(
        &InputMessageContent::from(InputMessageContentVenue::new(
            Decimal { digits: 11, scale: 1 },
            Decimal { digits: 21, scale: 1 },
            "title",
            "addr",
        ))
        .to_json(),
    );
    assert_eq!(val.get("latitude").unwrap().as_f64().unwrap().round(), 1.0);
    assert_eq!(val.get("longitude").unwrap().as_f64().unwrap().round(), 2.0);
    assert_eq!(val.get("title").unwrap().as_str().unwrap(), "title");
    assert_eq!(val.get("address").unwrap().as_str().unwrap(), "addr");
    assert!(val.get("foursquare_id").is_none());
    assert!(val.get("foursquare_type").is_none());
    assert!(val.get("google_place_id").is_none());
    assert!(val.get("google_place_type").is_none());
}

#[test]
fn deserialize_inline_query() {
    let data = InlineQuery::from_json(&parse(
        r#"{
            "id": "query id",
            "from": {"id": 1, "first_name": "test", "is_bot": false},
            "location": {"latitude": 2.1, "longitude": 3.0},
            "query": "query string",
            "offset": "query offset",
            "chat_type": "private"
        }"#,
    ))
    .unwrap();
    assert_eq!(data.id, "query id");
    assert_eq!(data.from.id, 1);
    assert_eq!(data.location.unwrap().latitude, Decimal { digits: 21, scale: 1 });
    assert_eq!(data.query, "query string");
    assert_eq!(data.offset, "query offset");
    assert_eq!(data.chat_type.unwrap(), InlineQueryChatType::Private);
}

#[test]
fn deserialize_chosen_inline_result() {
    let data = ChosenInlineResult::from_json(&parse(
        r#"{
            "result_id": "result id",
            "from": {"id": 1, "first_name": "test", "is_bot": false},
            "location": {"latitude": 2.1, "longitude": 3.0},
            "inline_message_id": "imi",
            "query": "q"
        }"#,
    ))
    .unwrap();
    assert_eq!(data.result_id, "result id");
    assert_eq!(data.from.id, 1);
    assert_eq!(data.location.unwrap().latitude, Decimal { digits: 21, scale: 1 });
    assert_eq!(data.inline_message_id.unwrap(), "imi");
    assert_eq!(data.query, "q");
}

#[test]
fn inline_query_rejects_unknown_chat_type() {
    let query = r#"{"id": "i", "from": {"id": 1, "first_name": "t", "is_bot": false},
                    "query": "q", "offset": "", "chat_type": "galaxy"}"#;
    assert!(InlineQuery::from_json(&parse(query)).is_none());
}

#[test]
fn document_serialize() {
    let value = to_serde(
        &InputMediaDocument::default()
            .caption("caption")
            .parse_mode(ParseMode::Markdown)
            .disable_content_type_detection(true)
            .to_json(),
    );
    let expected: serde_json::Value = serde_json::from_str(
        r#"{"caption": "caption", "parse_mode": "Markdown", "disable_content_type_detection": true}"#,
    )
    .unwrap();
    assert_eq!(value, expected);
    assert_eq!(render(&InputMediaDocument::default().to_json()), "{}");
}

#[test]
fn force_reply_serialize() {
    let markup: ReplyMarkup = ForceReply::new(true).into();
    assert_eq!(render(&markup.to_json()), r#"{"force_reply":true}"#);

    let markup: ReplyMarkup = ForceReply::new(true).selective(true).input_field_placeholder("placeholder").into();
    let value = to_serde(&markup.to_json());
    let expected: serde_json::Value = serde_json::from_str(
        r#"{"force_reply": true, "selective": true, "input_field_placeholder": "placeholder"}"#,
    )
    .unwrap();
    assert_eq!(value, expected);

    let markup: ReplyMarkup = ForceReply::new(true).selective(false).into();
    assert_eq!(render(&markup.to_json()), r#"{"force_reply":true,"selective":false}"#);
}

#[test]
fn user_round_trip() {
    let user = tgbot::User {
        id: 5,
        is_bot: true,
        first_name: "Ann".to_string(),
        last_name: Some("Lee".to_string()),
        username: Some("ann_bot".to_string()),
        language_code: Some("en".to_string()),
    };
    let text = render(&user.to_json());
    assert_eq!(
        text,
        r#"{"id":5,"is_bot":true,"first_name":"Ann","last_name":"Lee","username":"ann_bot","language_code":"en"}"#
    );
    let back = tgbot::User::from_json(&parse(&text)).unwrap();
    assert_eq!(back.id, 5);
    assert!(back.is_bot);
    assert_eq!(back.first_name, "Ann");
    assert_eq!(back.last_name.unwrap(), "Lee");
    assert_eq!(back.username.unwrap(), "ann_bot");
    assert_eq!(back.language_code.unwrap(), "en");
}

#[test]
fn high_score_round_trip() {
    let score = GameHighScore::from_json(&parse(
        r#"{"position": 1, "user": {"id": 2, "first_name": "test", "is_bot": false}, "score": 3}"#,
    ))
    .unwrap();
    let text = render(&score.to_json());
    assert_eq!(text, r#"{"position":1,"user":{"id":2,"is_bot":false,"first_name":"test"},"score":3}"#);
    let back = GameHighScore::from_json(&parse(&text)).unwrap();
    assert_eq!(back.position, 1);
    assert_eq!(back.user.id, 2);
    assert_eq!(back.score, 3);
    assert!(GameHighScore::from_json(&parse(r#"{"position": 1, "score": 3}"#)).is_none());
}

#[test]
fn scope_text_starts_with_type() {
    let text = render(&BotCommandScope::chat(ChatId::from(-5)).to_json());
    assert_eq!(text, r#"{"type":"chat","chat_id":-5}"#);
    assert!(render(&BotCommandScope::Default.to_json()).starts_with(r#"{"type":"default""#));
}

#[test]
fn utf16_length_counts_surrogate_pairs() {
    assert_eq!(tgbot::types::text::utf16_length("a😀b"), 4);
    assert_eq!(tgbot::types::text::utf16_length(""), 0);
    assert_eq!(tgbot::types::text::utf16_length("é"), 1);
}

#[test]
fn text_from_raw_without_entities() {
    let text = tgbot::Text::from_raw("plain".to_string(), None).unwrap();
    assert_eq!(text.data, "plain");
    assert!(text.entities.is_none());
    let text = tgbot::Text::from_raw("plain".to_string(), Some(&JsonValue::Null)).unwrap();
    assert!(text.entities.is_none());
}
