//! Service for the `/webhooks` endpoints: read-only listing and
//! retrieval of webhook configurations.

use vstd::prelude::*;
use crate::config::{Config, Method, OutboundRequest, built_request, is_success, classified_err,
    parse_fail_text, data_of, parse_failure_text, success_data};
use crate::error::Error;
use crate::json::{Json, Jv, lookup, FromJson, seq_of_jv, vec_view, get_str, get_bool,
    get_opt_str, get_opt_str_arr, get_field, vec_from_json, str_of, opt_str_of, bool_of,
    opt_str_arr_of, opt_str_view, opt_strs_view};
use crate::text::{push_str_chars, string_from_chars};

verus! {

/// A configured webhook.
#[derive(Debug, Clone)]
pub struct Webhook {
    /// Unique webhook ID.
    pub id: String,
    /// Webhook name.
    pub name: String,
    /// Destination URL.
    pub url: String,
    /// Whether the webhook is enabled.
    pub enabled: bool,
    /// Event types this webhook subscribes to.
    pub event_types: Option<Vec<String>>,
    /// Authentication type (e.g. "basic", "none").
    pub auth_type: String,
    /// Whether authentication credentials are configured.
    pub has_auth_credentials: bool,
    /// Timestamp of the last successful delivery.
    pub last_successful_at: Option<String>,
    /// Timestamp of the last failed delivery.
    pub last_failure_at: Option<String>,
    /// Last delivery status (e.g. "success", "failure").
    pub last_status: Option<String>,
}

/// The model of a webhook.
pub struct WebhookV {
    pub id: Seq<char>,
    pub name: Seq<char>,
    pub url: Seq<char>,
    pub enabled: bool,
    pub event_types: Option<Seq<Seq<char>>>,
    pub auth_type: Seq<char>,
    pub has_auth_credentials: bool,
    pub last_successful_at: Option<Seq<char>>,
    pub last_failure_at: Option<Seq<char>>,
    pub last_status: Option<Seq<char>>,
}

impl View for Webhook {
    type V = WebhookV;

    open spec fn view(&self) -> WebhookV {
        WebhookV {
            id: self.id@,
            name: self.name@,
            url: self.url@,
            enabled: self.enabled,
            event_types: opt_strs_view(self.event_types),
            auth_type: self.auth_type@,
            has_auth_credentials: self.has_auth_credentials,
            last_successful_at: opt_str_view(self.last_successful_at),
            last_failure_at: opt_str_view(self.last_failure_at),
            last_status: opt_str_view(self.last_status),
        }
    }
}

impl FromJson for Webhook {
    open spec fn of_jv(j: Jv) -> Option<WebhookV> {
        match j {
            Jv::Obj(fs) => match (str_of(lookup(fs, "id"@)), str_of(lookup(fs, "name"@)), str_of(
                lookup(fs, "url"@)), bool_of(lookup(fs, "enabled"@)), opt_str_arr_of(
                lookup(fs, "event_types"@)), str_of(lookup(fs, "auth_type"@)), bool_of(
                lookup(fs, "has_auth_credentials"@)), opt_str_of(lookup(
                fs, "last_successful_at"@)), opt_str_of(lookup(fs, "last_failure_at"@)),
                opt_str_of(lookup(fs, "last_status"@))) {
                (Some(id), Some(name), Some(url), Some(enabled), Some(event_types), Some(
                auth_type), Some(has_auth_credentials), Some(last_successful_at), Some(
                last_failure_at), Some(last_status)) => Some(
                    WebhookV {
                        id,
                        name,
                        url,
                        enabled,
                        event_types,
                        auth_type,
                        has_auth_credentials,
                        last_successful_at,
                        last_failure_at,
                        last_status,
                    },
                ),
                _ => None,
            },
            _ => None,
        }
    }

    fn from_json(j: &Json) -> (r: Option<Webhook>) {
        match j {
            Json::Obj(fs) => {
                let id = match get_str(fs, "id") {
                    Some(x) => x,
                    None => {
                        return None;
                    },
                };
                let name = match get_str(fs, "name") {
                    Some(x) => x,
                    None => {
                        return None;
                    },
                };
                let url = match get_str(fs, "url") {
                    Some(x) => x,
                    None => {
                        return None;
                    },
                };
                let enabled = match get_bool(fs, "enabled") {
                    Some(x) => x,
                    None => {
                        return None;
                    },
                };
                let event_types = match get_opt_str_arr(fs, "event_types") {
                    Some(x) => x,
                    None => {
                        return None;
                    },
                };
                let auth_type = match get_str(fs, "auth_type") {
                    Some(x) => x,
                    None => {
                        return None;
                    },
                };
                let has_auth_credentials = match get_bool(fs, "has_auth_credentials") {
                    Some(x) => x,
                    None => {
                        return None;
                    },
                };
                let last_successful_at = match get_opt_str(fs, "last_successful_at") {
                    Some(x) => x,
                    None => {
                        return None;
                    },
                };
                let last_failure_at = match get_opt_str(fs, "last_failure_at") {
                    Some(x) => x,
                    None => {
                        return None;
                    },
                };
                let last_status = match get_opt_str(fs, "last_status") {
                    Some(x) => x,
                    None => {
                        return None;
                    },
                };
                Some(
                    Webhook {
                        id,
                        name,
                        url,
                        enabled,
                        event_types,
                        auth_type,
                        has_auth_credentials,
                        last_successful_at,
                        last_failure_at,
                        last_status,
                    },
                )
            },
            _ => None,
        }
    }
}

/// What the list endpoint's success body decodes to: the `webhooks`
/// array inside the `data` envelope.
pub open spec fn webhooks_list_of(body: Seq<char>) -> Option<Seq<WebhookV>> {
    match data_of(body) {
        Some(Jv::Obj(fs)) => match lookup(fs, "webhooks"@) {
            Some(Jv::Arr(items)) => seq_of_jv::<Webhook>(items),
            _ => None,
        },
        _ => None,
    }
}

/// What the get endpoint's success body decodes to: one webhook as
/// the `data` value.
pub open spec fn webhook_get_of(body: Seq<char>) -> Option<WebhookV> {
    match data_of(body) {
        Some(j) => Webhook::of_jv(j),
        None => None,
    }
}

/// Service for the `/webhooks` endpoints.
#[derive(Debug, Clone)]
pub struct WebhooksSvc(pub Config);

impl WebhooksSvc {
    /// The request that lists all webhooks.
    pub fn list_request(&self) -> (r: OutboundRequest)
        ensures
            built_request(self.0, Method::Get, "/webhooks"@, r),
    {
        self.0.build(Method::Get, "/webhooks")
    }

    /// Interprets the response to a list request: the webhooks on a
    /// success body, the classified error otherwise.
    pub fn list_response(&self, status: u16, body: &str) -> (r: Result<Vec<Webhook>, Error>)
        ensures
            !is_success(status) ==> (r matches Err(e) && classified_err(status, body@, e)),
            is_success(status) ==> match webhooks_list_of(body@) {
                Some(ws) => r matches Ok(v) && vec_view(v@) == ws,
                None => r matches Err(e) && (e matches Error::Parse(t) && t@ == parse_fail_text(
                    status,
                    body@,
                )),
            },
    {
        match self.0.classify(status, body) {
            Some(e) => Err(e),
            None => match success_data(body) {
                Some(Json::Obj(fields)) => match get_field(&fields, "webhooks") {
                    Some(Json::Arr(items)) => match vec_from_json::<Webhook>(items) {
                        Some(v) => Ok(v),
                        None => Err(Error::Parse(parse_failure_text(status, body))),
                    },
                    _ => Err(Error::Parse(parse_failure_text(status, body))),
                },
                _ => Err(Error::Parse(parse_failure_text(status, body))),
            },
        }
    }

    /// The request that retrieves one webhook by id.
    pub fn get_request(&self, webhook_id: &str) -> (r: OutboundRequest)
        ensures
            built_request(self.0, Method::Get, "/webhooks/"@ + webhook_id@, r),
    {
        let mut path: Vec<char> = Vec::new();
        push_str_chars(&mut path, "/webhooks/");
        push_str_chars(&mut path, webhook_id);
        let p = string_from_chars(&path);
        self.0.build(Method::Get, p.as_str())
    }

    /// Interprets the response to a get request: the webhook on a
    /// success body, the classified error otherwise.
    pub fn get_response(&self, status: u16, body: &str) -> (r: Result<Webhook, Error>)
        ensures
            !is_success(status) ==> (r matches Err(e) && classified_err(status, body@, e)),
            is_success(status) ==> match webhook_get_of(body@) {
                Some(w) => r matches Ok(v) && v@ == w,
                None => r matches Err(e) && (e matches Error::Parse(t) && t@ == parse_fail_text(
                    status,
                    body@,
                )),
            },
    {
        match self.0.classify(status, body) {
            Some(e) => Err(e),
            None => match success_data(body) {
                Some(d) => match Webhook::from_json(&d) {
                    Some(w) => Ok(w),
                    None => Err(Error::Parse(parse_failure_text(status, body))),
                },
                None => Err(Error::Parse(parse_failure_text(status, body))),
            },
        }
    }
}

} // verus!
