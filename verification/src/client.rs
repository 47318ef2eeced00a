//! The client facade: one configuration shared by every service, and
//! the health and auth-check probes.

use vstd::prelude::*;
use crate::config::{Config, Method, OutboundRequest, built_request, is_success, classified_err,
    parse_fail_text, parse_failure_text, same_config};
use crate::domains::DomainsSvc;
use crate::emails::EmailsSvc;
use crate::error::Error;
use crate::json::{Json, Jv, lookup, FromJson, get_str, get_i64, get_rec, str_of, i64_field_of,
    rec_of};
use crate::parse::{parse_json, parse_json_text};
use crate::templates::TemplatesSvc;
use crate::webhooks::WebhooksSvc;

verus! {

/// Health check data.
#[derive(Debug, Clone)]
pub struct HealthData {
    /// Health status (e.g. "ok").
    pub status: String,
    /// Timestamp of the health check.
    pub timestamp: String,
}

/// The model of the health data.
pub struct HealthDataV {
    pub status: Seq<char>,
    pub timestamp: Seq<char>,
}

impl View for HealthData {
    type V = HealthDataV;

    open spec fn view(&self) -> HealthDataV {
        HealthDataV { status: self.status@, timestamp: self.timestamp@ }
    }
}

impl FromJson for HealthData {
    open spec fn of_jv(j: Jv) -> Option<HealthDataV> {
        match j {
            Jv::Obj(fs) => match (str_of(lookup(fs, "status"@)), str_of(lookup(
                fs, "timestamp"@))) {
                (Some(status), Some(timestamp)) => Some(HealthDataV { status, timestamp }),
                _ => None,
            },
            _ => None,
        }
    }

    fn from_json(j: &Json) -> (r: Option<HealthData>) {
        match j {
            Json::Obj(fs) => {
                let status = match get_str(fs, "status") {
                    Some(x) => x,
                    None => {
                        return None;
                    },
                };
                let timestamp = match get_str(fs, "timestamp") {
                    Some(x) => x,
                    None => {
                        return None;
                    },
                };
                Some(HealthData { status, timestamp })
            },
            _ => None,
        }
    }
}

/// Response from the health check endpoint.
#[derive(Debug, Clone)]
pub struct HealthResponse {
    /// Status message.
    pub message: String,
    /// Health check data.
    pub data: HealthData,
}

/// The model of a health response.
pub struct HealthResponseV {
    pub message: Seq<char>,
    pub data: HealthDataV,
}

impl View for HealthResponse {
    type V = HealthResponseV;

    open spec fn view(&self) -> HealthResponseV {
        HealthResponseV { message: self.message@, data: self.data@ }
    }
}

impl FromJson for HealthResponse {
    open spec fn of_jv(j: Jv) -> Option<HealthResponseV> {
        match j {
            Jv::Obj(fs) => match (str_of(lookup(fs, "message"@)), rec_of::<HealthData>(lookup(
                fs, "data"@))) {
                (Some(message), Some(data)) => Some(HealthResponseV { message, data }),
                _ => None,
            },
            _ => None,
        }
    }

    fn from_json(j: &Json) -> (r: Option<HealthResponse>) {
        match j {
            Json::Obj(fs) => {
                let message = match get_str(fs, "message") {
                    Some(x) => x,
                    None => {
                        return None;
                    },
                };
                let data = match get_rec::<HealthData>(fs, "data") {
                    Some(x) => x,
                    None => {
                        return None;
                    },
                };
                Some(HealthResponse { message, data })
            },
            _ => None,
        }
    }
}

/// Auth check data.
#[derive(Debug, Clone)]
pub struct AuthCheckData {
    /// The team ID associated with the API key.
    pub team_id: i64,
    /// Timestamp of the auth check.
    pub timestamp: String,
}

/// The model of the auth-check data.
pub struct AuthCheckDataV {
    pub team_id: i64,
    pub timestamp: Seq<char>,
}

impl View for AuthCheckData {
    type V = AuthCheckDataV;

    open spec fn view(&self) -> AuthCheckDataV {
        AuthCheckDataV { team_id: self.team_id, timestamp: self.timestamp@ }
    }
}

impl FromJson for AuthCheckData {
    open spec fn of_jv(j: Jv) -> Option<AuthCheckDataV> {
        match j {
            Jv::Obj(fs) => match (i64_field_of(lookup(fs, "team_id"@)), str_of(lookup(
                fs, "timestamp"@))) {
                (Some(team_id), Some(timestamp)) => Some(AuthCheckDataV { team_id, timestamp }),
                _ => None,
            },
            _ => None,
        }
    }

    fn from_json(j: &Json) -> (r: Option<AuthCheckData>) {
        match j {
            Json::Obj(fs) => {
                let team_id = match get_i64(fs, "team_id") {
                    Some(x) => x,
                    None => {
                        return None;
                    },
                };
                let timestamp = match get_str(fs, "timestamp") {
                    Some(x) => x,
                    None => {
                        return None;
                    },
                };
                Some(AuthCheckData { team_id, timestamp })
            },
            _ => None,
        }
    }
}

/// Response from the auth check endpoint.
#[derive(Debug, Clone)]
pub struct AuthCheckResponse {
    /// Status message.
    pub message: String,
    /// Auth check data.
    pub data: AuthCheckData,
}

/// The model of an auth-check response.
pub struct AuthCheckResponseV {
    pub message: Seq<char>,
    pub data: AuthCheckDataV,
}

impl View for AuthCheckResponse {
    type V = AuthCheckResponseV;

    open spec fn view(&self) -> AuthCheckResponseV {
        AuthCheckResponseV { message: self.message@, data: self.data@ }
    }
}

impl FromJson for AuthCheckResponse {
    open spec fn of_jv(j: Jv) -> Option<AuthCheckResponseV> {
        match j {
            Jv::Obj(fs) => match (str_of(lookup(fs, "message"@)), rec_of::<AuthCheckData>(lookup(
                fs, "data"@))) {
                (Some(message), Some(data)) => Some(AuthCheckResponseV { message, data }),
                _ => None,
            },
            _ => None,
        }
    }

    fn from_json(j: &Json) -> (r: Option<AuthCheckResponse>) {
        match j {
            Json::Obj(fs) => {
                let message = match get_str(fs, "message") {
                    Some(x) => x,
                    None => {
                        return None;
                    },
                };
                let data = match get_rec::<AuthCheckData>(fs, "data") {
                    Some(x) => x,
                    None => {
                        return None;
                    },
                };
                Some(AuthCheckResponse { message, data })
            },
            _ => None,
        }
    }
}

/// What the health endpoint's success body decodes to: the whole
/// response, message included.
pub open spec fn health_of(body: Seq<char>) -> Option<HealthResponseV> {
    match parse_json(body) {
        Some(j) => HealthResponse::of_jv(j),
        None => None,
    }
}

/// What the auth-check endpoint's success body decodes to.
pub open spec fn auth_check_of(body: Seq<char>) -> Option<AuthCheckResponseV> {
    match parse_json(body) {
        Some(j) => AuthCheckResponse::of_jv(j),
        None => None,
    }
}

/// The API client: one configuration, built once from the API key,
/// shared read-only by every service.
#[derive(Debug, Clone)]
pub struct Lettr {
    /// Email sending, listing, and retrieval.
    pub emails: EmailsSvc,
    /// Domain management.
    pub domains: DomainsSvc,
    /// Webhook listing and retrieval.
    pub webhooks: WebhooksSvc,
    /// Template listing and creation.
    pub templates: TemplatesSvc,
    /// The shared configuration.
    pub config: Config,
}

impl Lettr {
    /// Creates a client for the given API key, with the fixed base
    /// URL. The key must be ASCII, as the authorization header cannot
    /// carry anything else; an unverified caller checks first and
    /// fails as loudly as the header construction would.
    pub fn new(api_key: &str) -> (c: Lettr)
        requires
            api_key.is_ascii(),
        ensures
            c.config.api_key@ == api_key@,
            c.config.base_url@ == "https://app.lettr.com/api"@,
            crate::config::qpairs_view(c.config.headers@) =~= crate::config::default_headers(
                api_key@),
            same_config(c.emails.0, c.config),
            same_config(c.domains.0, c.config),
            same_config(c.webhooks.0, c.config),
            same_config(c.templates.0, c.config),
    {
        let config = Config::new(api_key);
        Lettr {
            emails: EmailsSvc(config.clone()),
            domains: DomainsSvc(config.clone()),
            webhooks: WebhooksSvc(config.clone()),
            templates: TemplatesSvc(config.clone()),
            config,
        }
    }

    /// Points the client, and every service, at another base URL
    /// (useful for testing).
    pub fn with_base_url(self, base_url: &str) -> (c: Lettr)
        ensures
            c.config.api_key == self.config.api_key,
            c.config.headers == self.config.headers,
            c.config.base_url@ == base_url@,
            same_config(c.emails.0, c.config),
            same_config(c.domains.0, c.config),
            same_config(c.webhooks.0, c.config),
            same_config(c.templates.0, c.config),
    {
        let mut config = self.config;
        config.set_base_url(base_url);
        Lettr {
            emails: EmailsSvc(config.clone()),
            domains: DomainsSvc(config.clone()),
            webhooks: WebhooksSvc(config.clone()),
            templates: TemplatesSvc(config.clone()),
            config,
        }
    }

    /// The request that probes the API's health. The endpoint needs
    /// no authentication; the default headers are harmless there.
    pub fn health_request(&self) -> (r: OutboundRequest)
        ensures
            built_request(self.config, Method::Get, "/health"@, r),
    {
        self.config.build(Method::Get, "/health")
    }

    /// Interprets the response to a health probe.
    pub fn health_response(&self, status: u16, body: &str) -> (r: Result<HealthResponse, Error>)
        ensures
            !is_success(status) ==> (r matches Err(e) && classified_err(status, body@, e)),
            is_success(status) ==> match health_of(body@) {
                Some(d) => r matches Ok(v) && v@ == d,
                None => r matches Err(e) && (e matches Error::Parse(t) && t@ == parse_fail_text(
                    status,
                    body@,
                )),
            },
    {
        match self.config.classify(status, body) {
            Some(e) => Err(e),
            None => match parse_json_text(body) {
                Some(j) => match HealthResponse::from_json(&j) {
                    Some(v) => Ok(v),
                    None => Err(Error::Parse(parse_failure_text(status, body))),
                },
                None => Err(Error::Parse(parse_failure_text(status, body))),
            },
        }
    }

    /// The request that validates the API key.
    pub fn auth_check_request(&self) -> (r: OutboundRequest)
        ensures
            built_request(self.config, Method::Get, "/auth/check"@, r),
    {
        self.config.build(Method::Get, "/auth/check")
    }

    /// Interprets the response to an auth check.
    pub fn auth_check_response(&self, status: u16, body: &str) -> (r: Result<
        AuthCheckResponse,
        Error,
    >)
        ensures
            !is_success(status) ==> (r matches Err(e) && classified_err(status, body@, e)),
            is_success(status) ==> match auth_check_of(body@) {
                Some(d) => r matches Ok(v) && v@ == d,
                None => r matches Err(e) && (e matches Error::Parse(t) && t@ == parse_fail_text(
                    status,
                    body@,
                )),
            },
    {
        match self.config.classify(status, body) {
            Some(e) => Err(e),
            None => match parse_json_text(body) {
                Some(j) => match AuthCheckResponse::from_json(&j) {
                    Some(v) => Ok(v),
                    None => Err(Error::Parse(parse_failure_text(status, body))),
                },
                None => Err(Error::Parse(parse_failure_text(status, body))),
            },
        }
    }
}

} // verus!
