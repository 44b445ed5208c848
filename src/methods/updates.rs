//! Receiving updates: long polling and webhooks.
use crate::json::{
    json_text, members_of, opt_bool, opt_int, opt_text, opt_view, optional, push_member, Json,
    JsonValue,
};
use crate::request::{BodyView, Request, RequestView};
use crate::types::allowed_update::{
    add_allowed, add_update, dedup, distinct, updates_json, updates_to_json, AllowedUpdate,
};
use vstd::prelude::*;

verus! {

/// A list of update kinds as JSON, when present.
pub open spec fn opt_updates(o: Option<Seq<AllowedUpdate>>) -> Option<Json> {
    match o {
        Some(s) => Some(updates_json(s)),
        None => None,
    }
}

/// The list after adding `u`: a list of `u` alone when there was none.
pub open spec fn with_update(o: Option<Seq<AllowedUpdate>>, u: AllowedUpdate) -> Option<
    Seq<AllowedUpdate>,
> {
    match o {
        Some(s) => Some(add_update(s, u)),
        None => Some(seq![u]),
    }
}

fn add_to(o: Option<Vec<AllowedUpdate>>, u: AllowedUpdate) -> (r: Option<Vec<AllowedUpdate>>)
    ensures
        match r {
            Some(v) => with_update(
                match o {
                    Some(w) => Some(w@),
                    None => None,
                },
                u,
            ) == Some(v@),
            None => false,
        },
{
    match o {
        Some(mut v) => {
            add_allowed(&mut v, u);
            Some(v)
        },
        None => {
            let mut v: Vec<AllowedUpdate> = Vec::new();
            v.push(u);
            assert(v@ =~= seq![u]);
            Some(v)
        },
    }
}

/// The view of an optional list of update kinds.
pub open spec fn opt_list(o: Option<Vec<AllowedUpdate>>) -> Option<Seq<AllowedUpdate>> {
    match o {
        Some(v) => Some(v@),
        None => None,
    }
}

fn opt_updates_to_json(o: &Option<Vec<AllowedUpdate>>) -> (r: Option<JsonValue>)
    ensures
        match r {
            Some(j) => opt_updates(opt_list(*o)) == Some(j@),
            None => opt_list(*o) is None,
        },
{
    match o {
        Some(v) => Some(updates_to_json(v)),
        None => None,
    }
}

/// The model of a long-polling request.
pub struct GetUpdatesView {
    pub offset: Option<i64>,
    pub limit: Option<i64>,
    pub timeout: Option<i64>,
    pub allowed_updates: Option<Seq<AllowedUpdate>>,
}

/// The JSON parameters of a long-polling request; absent options are left out.
pub open spec fn get_updates_json(v: GetUpdatesView) -> Json {
    Json::Object(
        optional("offset"@, opt_int(v.offset)) + optional("limit"@, opt_int(v.limit)) + optional(
            "timeout"@,
            opt_int(v.timeout),
        ) + optional("allowed_updates"@, opt_updates(v.allowed_updates)),
    )
}

/// The long-polling request: JSON parameters sent to `getUpdates`.
pub open spec fn get_updates_request(v: GetUpdatesView) -> RequestView {
    RequestView { name: "getUpdates"@, body: BodyView::Json(json_text(get_updates_json(v))) }
}

/// Receives updates by long polling.
#[derive(Clone, Debug)]
pub struct GetUpdates {
    offset: Option<i64>,
    limit: Option<i64>,
    timeout: Option<i64>,
    allowed_updates: Option<Vec<AllowedUpdate>>,
}

impl View for GetUpdates {
    type V = GetUpdatesView;

    closed spec fn view(&self) -> GetUpdatesView {
        GetUpdatesView {
            offset: self.offset,
            limit: self.limit,
            timeout: self.timeout,
            allowed_updates: opt_list(self.allowed_updates),
        }
    }
}

impl Default for GetUpdates {
    fn default() -> (r: GetUpdates)
        ensures
            r@ == (GetUpdatesView { offset: None, limit: None, timeout: None, allowed_updates: None }),
    {
        GetUpdates { offset: None, limit: None, timeout: None, allowed_updates: None }
    }
}

impl GetUpdates {
    /// The identifier of the first update to return: one more than the
    /// highest identifier received so far.  A negative offset counts from
    /// the end of the queue.
    pub fn offset(self, offset: i64) -> (r: GetUpdates)
        ensures
            r@ == (GetUpdatesView { offset: Some(offset), ..self@ }),
    {
        GetUpdates { offset: Some(offset), ..self }
    }

    /// The most updates to return, 1-100.
    pub fn limit(self, limit: i64) -> (r: GetUpdates)
        ensures
            r@ == (GetUpdatesView { limit: Some(limit), ..self@ }),
    {
        GetUpdates { limit: Some(limit), ..self }
    }

    /// The long-polling timeout, in seconds.
    pub fn timeout(self, timeout: i64) -> (r: GetUpdates)
        ensures
            r@ == (GetUpdatesView { timeout: Some(timeout), ..self@ }),
    {
        GetUpdates { timeout: Some(timeout), ..self }
    }

    /// The kinds of updates to receive; repeated kinds count once.
    pub fn allowed_updates(self, allowed_updates: Vec<AllowedUpdate>) -> (r: GetUpdates)
        ensures
            r@ == (GetUpdatesView { allowed_updates: Some(dedup(allowed_updates@)), ..self@ }),
    {
        GetUpdates { allowed_updates: Some(distinct(allowed_updates)), ..self }
    }

    /// Adds one kind of updates to receive.
    pub fn add_allowed_update(self, allowed_update: AllowedUpdate) -> (r: GetUpdates)
        ensures
            r@ == (GetUpdatesView {
                allowed_updates: with_update(self@.allowed_updates, allowed_update),
                ..self@
            }),
    {
        let GetUpdates { offset, limit, timeout, allowed_updates } = self;
        GetUpdates { offset, limit, timeout, allowed_updates: add_to(allowed_updates, allowed_update) }
    }

    /// The JSON parameters.
    pub fn to_json(&self) -> (r: JsonValue)
        ensures
            r@ == get_updates_json(self@),
    {
        let mut m: Vec<(String, JsonValue)> = Vec::new();
        if let Some(n) = self.offset {
            push_member(&mut m, "offset", JsonValue::Int(n));
        }
        if let Some(n) = self.limit {
            push_member(&mut m, "limit", JsonValue::Int(n));
        }
        if let Some(n) = self.timeout {
            push_member(&mut m, "timeout", JsonValue::Int(n));
        }
        if let Some(j) = opt_updates_to_json(&self.allowed_updates) {
            push_member(&mut m, "allowed_updates", j);
        }
        assert(members_of(m@) =~= get_updates_json(self@)->Object_0);
        JsonValue::Object(m)
    }

    /// The request: JSON parameters sent to `getUpdates`.
    pub fn into_request(self) -> (r: Request)
        ensures
            r@ == get_updates_request(self@),
    {
        Request::json("getUpdates", &self.to_json())
    }
}

/// The model of a webhook setting.
pub struct SetWebhookView {
    pub url: Seq<char>,
    pub certificate: Option<Seq<char>>,
    pub ip_address: Option<Seq<char>>,
    pub max_connections: Option<i64>,
    pub allowed_updates: Option<Seq<AllowedUpdate>>,
    pub drop_pending_updates: Option<bool>,
}

/// The JSON parameters of a webhook setting: `url`, then the options given.
pub open spec fn set_webhook_json(v: SetWebhookView) -> Json {
    Json::Object(
        seq![("url"@, Json::Str(v.url))] + optional("certificate"@, opt_text(v.certificate))
            + optional("ip_address"@, opt_text(v.ip_address)) + optional(
            "max_connections"@,
            opt_int(v.max_connections),
        ) + optional("allowed_updates"@, opt_updates(v.allowed_updates)) + optional(
            "drop_pending_updates"@,
            opt_bool(v.drop_pending_updates),
        ),
    )
}

/// The webhook request: JSON parameters sent to `setWebhook`.
pub open spec fn set_webhook_request(v: SetWebhookView) -> RequestView {
    RequestView { name: "setWebhook"@, body: BodyView::Json(json_text(set_webhook_json(v))) }
}

/// Sets a URL to which the server sends updates by HTTPS POST.
#[derive(Clone, Debug)]
pub struct SetWebhook {
    url: String,
    certificate: Option<String>,
    ip_address: Option<String>,
    max_connections: Option<i64>,
    allowed_updates: Option<Vec<AllowedUpdate>>,
    drop_pending_updates: Option<bool>,
}

impl View for SetWebhook {
    type V = SetWebhookView;

    closed spec fn view(&self) -> SetWebhookView {
        SetWebhookView {
            url: self.url@,
            certificate: opt_view(self.certificate),
            ip_address: opt_view(self.ip_address),
            max_connections: self.max_connections,
            allowed_updates: opt_list(self.allowed_updates),
            drop_pending_updates: self.drop_pending_updates,
        }
    }
}

impl SetWebhook {
    /// A webhook at `url`; an empty URL removes the webhook.
    pub fn new(url: &str) -> (r: SetWebhook)
        ensures
            r@ == (SetWebhookView {
                url: url@,
                certificate: None,
                ip_address: None,
                max_connections: None,
                allowed_updates: None,
                drop_pending_updates: None,
            }),
    {
        SetWebhook {
            url: String::from_str(url),
            certificate: None,
            ip_address: None,
            max_connections: None,
            allowed_updates: None,
            drop_pending_updates: None,
        }
    }

    /// The public key certificate, so that the root certificate can be checked.
    pub fn certificate(self, certificate: &str) -> (r: SetWebhook)
        ensures
            r@ == (SetWebhookView { certificate: Some(certificate@), ..self@ }),
    {
        SetWebhook { certificate: Some(String::from_str(certificate)), ..self }
    }

    /// A fixed IP address to send to, instead of the one DNS gives.
    pub fn ip_address(self, ip_address: &str) -> (r: SetWebhook)
        ensures
            r@ == (SetWebhookView { ip_address: Some(ip_address@), ..self@ }),
    {
        SetWebhook { ip_address: Some(String::from_str(ip_address)), ..self }
    }

    /// The most simultaneous connections for delivery, 1-100.
    pub fn max_connections(self, max_connections: i64) -> (r: SetWebhook)
        ensures
            r@ == (SetWebhookView { max_connections: Some(max_connections), ..self@ }),
    {
        SetWebhook { max_connections: Some(max_connections), ..self }
    }

    /// The kinds of updates to receive; repeated kinds count once.
    pub fn allowed_updates(self, allowed_updates: Vec<AllowedUpdate>) -> (r: SetWebhook)
        ensures
            r@ == (SetWebhookView { allowed_updates: Some(dedup(allowed_updates@)), ..self@ }),
    {
        SetWebhook { allowed_updates: Some(distinct(allowed_updates)), ..self }
    }

    /// Adds one kind of updates to receive.
    pub fn add_allowed_update(self, allowed_update: AllowedUpdate) -> (r: SetWebhook)
        ensures
            r@ == (SetWebhookView {
                allowed_updates: with_update(self@.allowed_updates, allowed_update),
                ..self@
            }),
    {
        let SetWebhook {
            url,
            certificate,
            ip_address,
            max_connections,
            allowed_updates,
            drop_pending_updates,
        } = self;
        SetWebhook {
            url,
            certificate,
            ip_address,
            max_connections,
            allowed_updates: add_to(allowed_updates, allowed_update),
            drop_pending_updates,
        }
    }

    /// Whether to drop all pending updates.
    pub fn drop_pending_updates(self, drop_pending_updates: bool) -> (r: SetWebhook)
        ensures
            r@ == (SetWebhookView { drop_pending_updates: Some(drop_pending_updates), ..self@ }),
    {
        SetWebhook { drop_pending_updates: Some(drop_pending_updates), ..self }
    }

    /// The JSON parameters.
    pub fn to_json(&self) -> (r: JsonValue)
        ensures
            r@ == set_webhook_json(self@),
    {
        let mut m: Vec<(String, JsonValue)> = Vec::new();
        push_member(&mut m, "url", JsonValue::Str(self.url.clone()));
        if let Some(c) = &self.certificate {
            push_member(&mut m, "certificate", JsonValue::Str(c.clone()));
        }
        if let Some(a) = &self.ip_address {
            push_member(&mut m, "ip_address", JsonValue::Str(a.clone()));
        }
        if let Some(n) = self.max_connections {
            push_member(&mut m, "max_connections", JsonValue::Int(n));
        }
        if let Some(j) = opt_updates_to_json(&self.allowed_updates) {
            push_member(&mut m, "allowed_updates", j);
        }
        if let Some(b) = self.drop_pending_updates {
            push_member(&mut m, "drop_pending_updates", JsonValue::Bool(b));
        }
        assert(members_of(m@) =~= set_webhook_json(self@)->Object_0);
        JsonValue::Object(m)
    }

    /// The request: JSON parameters sent to `setWebhook`.
    pub fn into_request(self) -> (r: Request)
        ensures
            r@ == set_webhook_request(self@),
    {
        Request::json("setWebhook", &self.to_json())
    }
}

/// The request that removes the webhook: no body when no option is set,
/// else the JSON parameters.
pub open spec fn delete_webhook_request(drop_pending_updates: Option<bool>) -> RequestView {
    match drop_pending_updates {
        None => RequestView { name: "deleteWebhook"@, body: BodyView::Empty },
        Some(b) => RequestView {
            name: "deleteWebhook"@,
            body: BodyView::Json(json_text(Json::Object(seq![("drop_pending_updates"@, Json::Bool(b))]))),
        },
    }
}

/// Removes the webhook, to switch back to long polling.
#[derive(Clone, Copy, Debug)]
pub struct DeleteWebhook {
    drop_pending_updates: Option<bool>,
}

impl View for DeleteWebhook {
    type V = Option<bool>;

    closed spec fn view(&self) -> Option<bool> {
        self.drop_pending_updates
    }
}

impl Default for DeleteWebhook {
    fn default() -> (r: DeleteWebhook)
        ensures
            r@ == None::<bool>,
    {
        DeleteWebhook { drop_pending_updates: None }
    }
}

impl DeleteWebhook {
    /// Whether to drop all pending updates.
    pub fn drop_pending_updates(self, drop_pending_updates: bool) -> (r: DeleteWebhook)
        ensures
            r@ == Some(drop_pending_updates),
    {
        DeleteWebhook { drop_pending_updates: Some(drop_pending_updates) }
    }

    /// The request to `deleteWebhook`: GET without body when no option was
    /// set, whatever its value would be; POST with JSON parameters otherwise.
    pub fn into_request(self) -> (r: Request)
        ensures
            r@ == delete_webhook_request(self@),
    {
        match self.drop_pending_updates {
            Some(b) => {
                let mut m: Vec<(String, JsonValue)> = Vec::new();
                push_member(&mut m, "drop_pending_updates", JsonValue::Bool(b));
                assert(members_of(m@) =~= seq![("drop_pending_updates"@, Json::Bool(b))]);
                Request::json("deleteWebhook", &JsonValue::Object(m))
            },
            None => Request::empty("deleteWebhook"),
        }
    }
}

/// The request that asks for the webhook status: GET without body.
pub open spec fn get_webhook_info_request() -> RequestView {
    RequestView { name: "getWebhookInfo"@, body: BodyView::Empty }
}

/// Asks for the current webhook status.
#[derive(Clone, Copy, Debug)]
pub struct GetWebhookInfo;

impl GetWebhookInfo {
    /// The request: GET `getWebhookInfo` without body.
    pub fn into_request(self) -> (r: Request)
        ensures
            r@ == get_webhook_info_request(),
    {
        Request::empty("getWebhookInfo")
    }
}

} // verus!
