use tgbot::{
    AllowedUpdate, ChatId, DeleteWebhook, ForceReply, GetUpdates, GetWebhookInfo, InputFile,
    ParseMode, Request, RequestBody, RequestMethod, SendVoice, SetWebhook, TextEntity,
};

fn form_text(request: Request, name: &str) -> Option<String> {
    match request.into_body() {
        RequestBody::Form(form) => form.get_field(name).and_then(|v| v.get_text()).map(|s| s.to_string()),
        _ => None,
    }
}

fn json_body(request: Request) -> String {
    match request.into_body() {
        RequestBody::Json(data) => data,
        data => panic!("Unexpected request data: {:?}", data),
    }
}

fn sorted_updates(data: &serde_json::Value) -> Vec<String> {
    let mut updates: Vec<String> = data["allowed_updates"]
        .as_array()
        .unwrap()
        .iter()
        .map(|x| x.as_str().unwrap().to_string())
        .collect();
    updates.sort_unstable();
    updates
}

fn all_nine() -> Vec<String> {
    vec![
        "callback_query",
        "channel_post",
        "chosen_inline_result",
        "edited_channel_post",
        "edited_message",
        "inline_query",
        "message",
        "pre_checkout_query",
        "shipping_query",
    ]
    .into_iter()
    .map(|s| s.to_string())
    .collect()
}

#[test]
fn send_voice() {
    let request = SendVoice::new(ChatId::from(1), InputFile::file_id("file-id"))
        .caption("caption")
        .parse_mode(ParseMode::Markdown)
        .duration(100)
        .disable_notification(true)
        .reply_to_message_id(1)
        .allow_sending_without_reply(true)
        .reply_markup(ForceReply::new(true).into())
        .unwrap()
        .into_request();
    assert_eq!(request.get_method(), RequestMethod::Post);
    assert_eq!(request.build_url("base-url", "token"), "base-url/bottoken/sendVoice");
    if let RequestBody::Form(form) = request.into_body() {
        assert_eq!(form.get_field("chat_id").unwrap().get_text().unwrap(), "1");
        assert!(form.get_field("voice").unwrap().get_file().is_some());
        assert_eq!(form.get_field("caption").unwrap().get_text().unwrap(), "caption");
        assert_eq!(form.get_field("parse_mode").unwrap().get_text().unwrap(), "Markdown");
        assert_eq!(form.get_field("duration").unwrap().get_text().unwrap(), "100");
        assert_eq!(form.get_field("disable_notification").unwrap().get_text().unwrap(), "true");
        assert_eq!(form.get_field("reply_to_message_id").unwrap().get_text().unwrap(), "1");
        assert_eq!(form.get_field("allow_sending_without_reply").unwrap().get_text().unwrap(), "true");
        assert_eq!(
            form.get_field("reply_markup").unwrap().get_text().unwrap(),
            r#"{"force_reply":true}"#
        );
    } else {
        panic!("Unexpected request body");
    }
}

#[test]
fn send_voice_caption() {
    let method = SendVoice::new(ChatId::from(1), InputFile::file_id("file-id")).parse_mode(ParseMode::Markdown);
    assert_eq!(form_text(method.into_request(), "parse_mode").unwrap(), "Markdown");
    let method = SendVoice::new(ChatId::from(1), InputFile::file_id("file-id"))
        .parse_mode(ParseMode::Markdown)
        .caption_entities(&[TextEntity::bold(0..10)])
        .unwrap();
    let request = method.into_request();
    match request.into_body() {
        RequestBody::Form(form) => {
            assert!(form.get_field("parse_mode").is_none());
            let caption_entities = form.get_field("caption_entities").unwrap().get_text().unwrap();
            let value: serde_json::Value = serde_json::from_str(caption_entities).unwrap();
            let expected: serde_json::Value =
                serde_json::from_str(r#"[{"type": "bold", "offset":0, "length": 10}]"#).unwrap();
            assert_eq!(value, expected);
        }
        _ => panic!("Unexpected request body"),
    }
}

#[test]
fn send_voice_minimal_fields() {
    let request = SendVoice::new(ChatId::from(-100), InputFile::url("https://example.com/a.ogg")).into_request();
    assert_eq!(request.get_method(), RequestMethod::Post);
    assert_eq!(request.get_method_name(), "sendVoice");
    match request.into_body() {
        RequestBody::Form(form) => {
            assert_eq!(form.len(), 2);
            assert_eq!(form.get_field("chat_id").unwrap().get_text().unwrap(), "-100");
            assert!(form.get_field("voice").unwrap().get_file().is_some());
            assert!(form.get_field("caption").is_none());
        }
        _ => panic!("Unexpected request body"),
    }
}

#[test]
fn send_voice_username_chat() {
    let request = SendVoice::new(ChatId::username("@channel"), InputFile::file_id("f")).into_request();
    assert_eq!(form_text(request, "chat_id").unwrap(), "@channel");
}

#[test]
fn send_voice_entities_then_parse_mode() {
    let request = SendVoice::new(ChatId::from(1), InputFile::file_id("f"))
        .caption_entities(&[TextEntity::bold(0..10)])
        .unwrap()
        .parse_mode(ParseMode::Html)
        .parse_mode(ParseMode::Html)
        .into_request();
    match request.into_body() {
        RequestBody::Form(form) => {
            assert!(form.get_field("caption_entities").is_none());
            assert_eq!(form.get_field("parse_mode").unwrap().get_text().unwrap(), "HTML");
            assert_eq!(form.len(), 3);
        }
        _ => panic!("Unexpected request body"),
    }
}

#[test]
fn send_voice_repeated_field_replaces() {
    let request = SendVoice::new(ChatId::from(1), InputFile::file_id("f"))
        .duration(5)
        .duration(7)
        .disable_notification(false)
        .into_request();
    match request.into_body() {
        RequestBody::Form(form) => {
            assert_eq!(form.len(), 4);
            assert_eq!(form.get_field("duration").unwrap().get_text().unwrap(), "7");
            assert_eq!(form.get_field("disable_notification").unwrap().get_text().unwrap(), "false");
        }
        _ => panic!("Unexpected request body"),
    }
}

#[test]
fn get_updates() {
    let request = GetUpdates::default().into_request();
    assert_eq!(request.get_method(), RequestMethod::Post);
    assert_eq!(request.build_url("base-url", "token"), "base-url/bottoken/getUpdates");
    assert_eq!(json_body(request), "{}");

    let updates = vec![
        AllowedUpdate::Message,
        AllowedUpdate::Message,
        AllowedUpdate::EditedMessage,
        AllowedUpdate::ChannelPost,
        AllowedUpdate::EditedChannelPost,
        AllowedUpdate::ChosenInlineResult,
    ];
    let request = GetUpdates::default()
        .offset(0)
        .limit(10)
        .timeout(10)
        .allowed_updates(updates)
        .add_allowed_update(AllowedUpdate::InlineQuery)
        .add_allowed_update(AllowedUpdate::CallbackQuery)
        .add_allowed_update(AllowedUpdate::PreCheckoutQuery)
        .add_allowed_update(AllowedUpdate::ShippingQuery)
        .into_request();
    let data: serde_json::Value = serde_json::from_str(&json_body(request)).unwrap();
    assert_eq!(data["offset"], 0);
    assert_eq!(data["limit"], 10);
    assert_eq!(data["timeout"], 10);
    assert_eq!(sorted_updates(&data), all_nine());

    let request = GetUpdates::default().add_allowed_update(AllowedUpdate::Message).into_request();
    let data: serde_json::Value = serde_json::from_str(&json_body(request)).unwrap();
    assert_eq!(data["allowed_updates"].as_array().unwrap().len(), 1);
}

#[test]
fn get_updates_exact_text() {
    let request = GetUpdates::default()
        .limit(5)
        .allowed_updates(vec![AllowedUpdate::Message, AllowedUpdate::Poll, AllowedUpdate::Message])
        .add_allowed_update(AllowedUpdate::Poll)
        .into_request();
    assert_eq!(json_body(request), r#"{"limit":5,"allowed_updates":["message","poll"]}"#);
}

#[test]
fn set_webhook() {
    let request = SetWebhook::new("url").into_request();
    assert_eq!(request.get_method(), RequestMethod::Post);
    assert_eq!(request.build_url("base-url", "token"), "base-url/bottoken/setWebhook");
    assert_eq!(json_body(request), r#"{"url":"url"}"#);

    let updates = vec![
        AllowedUpdate::Message,
        AllowedUpdate::Message,
        AllowedUpdate::EditedMessage,
        AllowedUpdate::ChannelPost,
        AllowedUpdate::EditedChannelPost,
        AllowedUpdate::ChosenInlineResult,
    ];
    let request = SetWebhook::new("url")
        .certificate("cert")
        .ip_address("127.0.0.1")
        .max_connections(10)
        .allowed_updates(updates)
        .add_allowed_update(AllowedUpdate::InlineQuery)
        .add_allowed_update(AllowedUpdate::CallbackQuery)
        .add_allowed_update(AllowedUpdate::PreCheckoutQuery)
        .add_allowed_update(AllowedUpdate::ShippingQuery)
        .drop_pending_updates(true)
        .into_request();
    assert_eq!(request.get_method(), RequestMethod::Post);
    assert_eq!(request.build_url("base-url", "token"), "base-url/bottoken/setWebhook");
    let data: serde_json::Value = serde_json::from_str(&json_body(request)).unwrap();
    assert_eq!(data["certificate"], "cert");
    assert_eq!(data["ip_address"], "127.0.0.1");
    assert_eq!(data["max_connections"], 10);
    assert_eq!(data["drop_pending_updates"], true);
    assert_eq!(sorted_updates(&data), all_nine());

    let request = SetWebhook::new("url").add_allowed_update(AllowedUpdate::Message).into_request();
    let data: serde_json::Value = serde_json::from_str(&json_body(request)).unwrap();
    assert_eq!(data["allowed_updates"].as_array().unwrap().len(), 1);
}

#[test]
fn set_webhook_escapes_url() {
    let request = SetWebhook::new("https://h/\"q\"\\").into_request();
    assert_eq!(json_body(request), r#"{"url":"https://h/\"q\"\\"}"#);
}

#[test]
fn delete_webhook() {
    let request = DeleteWebhook::default().into_request();
    assert_eq!(request.get_method(), RequestMethod::Get);
    assert_eq!(request.build_url("base-url", "token"), "base-url/bottoken/deleteWebhook");
    match request.into_body() {
        RequestBody::Empty => {}
        data => panic!("Unexpected request data: {:?}", data),
    }

    let request = DeleteWebhook::default().drop_pending_updates(false).into_request();
    assert_eq!(request.get_method(), RequestMethod::Post);
    assert_eq!(request.build_url("base-url", "token"), "base-url/bottoken/deleteWebhook");
    match request.into_body() {
        RequestBody::Json(data) => {
            assert_eq!(data, r#"{"drop_pending_updates":false}"#);
        }
        data => panic!("Unexpected request data: {:?}", data),
    }
}

#[test]
fn delete_webhook_true_is_post() {
    let request = DeleteWebhook::default().drop_pending_updates(true).into_request();
    assert_eq!(request.get_method(), RequestMethod::Post);
    assert_eq!(json_body(request), r#"{"drop_pending_updates":true}"#);
}

#[test]
fn get_webhook_info() {
    let request = GetWebhookInfo.into_request();
    assert_eq!(request.get_method(), RequestMethod::Get);
    assert_eq!(request.build_url("base-url", "token"), "base-url/bottoken/getWebhookInfo");
    match request.into_body() {
        RequestBody::Empty => {}
        data => panic!("Unexpected request data: {:?}", data),
    }
}
