//! One builder per API method, each converting into a request.
pub mod send_voice;
pub mod updates;

use crate::request::{method_of, BodyView, InputFileView, RequestMethod};
use crate::types::chat::ChatIdView;
use crate::json::{json_text, Json};
use self::send_voice::{send_voice_fields, send_voice_request};
use self::updates::{
    delete_webhook_request, get_updates_json, get_updates_request, get_webhook_info_request,
    set_webhook_json, set_webhook_request, GetUpdatesView, SetWebhookView,
};
use vstd::prelude::*;

verus! {

/// Built from its required parameters alone, each method makes a request
/// with its own name, the verb it needs, and no parameter beyond the
/// required ones: a voice message is a POST form of exactly `chat_id` and
/// `voice`; long polling a POST of `{}`; a webhook setting a POST of the
/// URL alone; removing the webhook and asking for its status are GETs
/// without body.
pub proof fn lemma_minimal_requests(chat_id: ChatIdView, voice: InputFileView, url: Seq<char>)
    ensures
        ({
            let r = send_voice_request(send_voice_fields(chat_id, voice));
            &&& r.name == "sendVoice"@
            &&& method_of(r.body) == RequestMethod::Post
            &&& r.body matches BodyView::Form(f) && f.dom() == set!["chat_id"@, "voice"@]
        }),
        ({
            let r = get_updates_request(
                GetUpdatesView { offset: None, limit: None, timeout: None, allowed_updates: None },
            );
            &&& r.name == "getUpdates"@
            &&& method_of(r.body) == RequestMethod::Post
            &&& r.body == BodyView::Json(seq!['{', '}'])
        }),
        ({
            let r = set_webhook_request(
                SetWebhookView {
                    url,
                    certificate: None,
                    ip_address: None,
                    max_connections: None,
                    allowed_updates: None,
                    drop_pending_updates: None,
                },
            );
            &&& r.name == "setWebhook"@
            &&& method_of(r.body) == RequestMethod::Post
        }),
        set_webhook_json(
            SetWebhookView {
                url,
                certificate: None,
                ip_address: None,
                max_connections: None,
                allowed_updates: None,
                drop_pending_updates: None,
            },
        ) == Json::Object(seq![("url"@, Json::Str(url))]),
        delete_webhook_request(None).name == "deleteWebhook"@,
        method_of(delete_webhook_request(None).body) == RequestMethod::Get,
        delete_webhook_request(None).body == BodyView::Empty,
        get_webhook_info_request().name == "getWebhookInfo"@,
        method_of(get_webhook_info_request().body) == RequestMethod::Get,
        get_webhook_info_request().body == BodyView::Empty,
{
    let f = send_voice_fields(chat_id, voice);
    assert(f.dom() =~= set!["chat_id"@, "voice"@]);
    let g = get_updates_json(
        GetUpdatesView { offset: None, limit: None, timeout: None, allowed_updates: None },
    );
    assert(g->Object_0 =~= seq![]);
    assert(json_text(g) =~= seq!['{', '}']);
    let w = set_webhook_json(
        SetWebhookView {
            url,
            certificate: None,
            ip_address: None,
            max_connections: None,
            allowed_updates: None,
            drop_pending_updates: None,
        },
    );
    assert(w->Object_0 =~= seq![("url"@, Json::Str(url))]);
}

/// Removing the webhook is a GET exactly when no option was set: the verb
/// depends on whether `drop_pending_updates` was given, not on its value.
pub proof fn lemma_delete_webhook_verb(drop_pending_updates: Option<bool>)
    ensures
        method_of(delete_webhook_request(drop_pending_updates).body) == if drop_pending_updates is None {
            RequestMethod::Get
        } else {
            RequestMethod::Post
        },
{
}

} // verus!
