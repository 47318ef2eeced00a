//! Service for the `/domains` endpoints: listing, registering,
//! inspecting and deleting sending domains.

use vstd::prelude::*;
use crate::config::{Config, Method, OutboundRequest, built_request, built_request_with_body,
    is_success, classified_err, parse_fail_text, data_of, parse_failure_text, success_data};
use crate::error::Error;
use crate::json::{Json, Jv, lookup, FromJson, seq_of_jv, vec_view, get_str, get_bool, get_opt_str,
    get_field, get_opt_rec, vec_from_json, str_of, opt_str_of, bool_of, opt_rec_of, opt_str_view,
    render, render_string, lemma_jv_fields};
use crate::text::{push_str_chars, string_from_chars};

verus! {

/// A sending domain.
#[derive(Debug, Clone)]
pub struct Domain {
    /// Domain name.
    pub domain: String,
    /// Status identifier (e.g. "approved", "pending").
    pub status: String,
    /// Human-readable status label.
    pub status_label: String,
    /// Whether this domain can currently send emails.
    pub can_send: bool,
    /// CNAME record verification status.
    pub cname_status: Option<String>,
    /// DKIM record verification status.
    pub dkim_status: Option<String>,
    /// Creation timestamp.
    pub created_at: String,
    /// Last update timestamp.
    pub updated_at: String,
}

/// The model of a sending domain.
pub struct DomainV {
    pub domain: Seq<char>,
    pub status: Seq<char>,
    pub status_label: Seq<char>,
    pub can_send: bool,
    pub cname_status: Option<Seq<char>>,
    pub dkim_status: Option<Seq<char>>,
    pub created_at: Seq<char>,
    pub updated_at: Seq<char>,
}

impl View for Domain {
    type V = DomainV;

    open spec fn view(&self) -> DomainV {
        DomainV {
            domain: self.domain@,
            status: self.status@,
            status_label: self.status_label@,
            can_send: self.can_send,
            cname_status: opt_str_view(self.cname_status),
            dkim_status: opt_str_view(self.dkim_status),
            created_at: self.created_at@,
            updated_at: self.updated_at@,
        }
    }
}

impl FromJson for Domain {
    open spec fn of_jv(j: Jv) -> Option<DomainV> {
        match j {
            Jv::Obj(fs) => match (str_of(lookup(fs, "domain"@)), str_of(lookup(fs, "status"@)),
                str_of(lookup(fs, "status_label"@)), bool_of(lookup(fs, "can_send"@)), opt_str_of(
                lookup(fs, "cname_status"@)), opt_str_of(lookup(fs, "dkim_status"@)), str_of(
                lookup(fs, "created_at"@)), str_of(lookup(fs, "updated_at"@))) {
                (Some(domain), Some(status), Some(status_label), Some(can_send), Some(
                cname_status), Some(dkim_status), Some(created_at), Some(updated_at)) => Some(
                    DomainV {
                        domain,
                        status,
                        status_label,
                        can_send,
                        cname_status,
                        dkim_status,
                        created_at,
                        updated_at,
                    },
                ),
                _ => None,
            },
            _ => None,
        }
    }

    fn from_json(j: &Json) -> (r: Option<Domain>) {
        match j {
            Json::Obj(fs) => {
                let domain = match get_str(fs, "domain") {
                    Some(x) => x,
                    None => {
                        return None;
                    },
                };
                let status = match get_str(fs, "status") {
                    Some(x) => x,
                    None => {
                        return None;
                    },
                };
                let status_label = match get_str(fs, "status_label") {
                    Some(x) => x,
                    None => {
                        return None;
                    },
                };
                let can_send = match get_bool(fs, "can_send") {
                    Some(x) => x,
                    None => {
                        return None;
                    },
                };
                let cname_status = match get_opt_str(fs, "cname_status") {
                    Some(x) => x,
                    None => {
                        return None;
                    },
                };
                let dkim_status = match get_opt_str(fs, "dkim_status") {
                    Some(x) => x,
                    None => {
                        return None;
                    },
                };
                let created_at = match get_str(fs, "created_at") {
                    Some(x) => x,
                    None => {
                        return None;
                    },
                };
                let updated_at = match get_str(fs, "updated_at") {
                    Some(x) => x,
                    None => {
                        return None;
                    },
                };
                Some(
                    Domain {
                        domain,
                        status,
                        status_label,
                        can_send,
                        cname_status,
                        dkim_status,
                        created_at,
                        updated_at,
                    },
                )
            },
            _ => None,
        }
    }
}

/// DKIM signing information for a domain.
#[derive(Debug, Clone)]
pub struct DkimInfo {
    /// DKIM public key.
    pub public: String,
    /// DKIM selector.
    pub selector: String,
    /// DKIM headers configuration.
    pub headers: String,
}

/// The model of DKIM signing information.
pub struct DkimInfoV {
    pub public: Seq<char>,
    pub selector: Seq<char>,
    pub headers: Seq<char>,
}

impl View for DkimInfo {
    type V = DkimInfoV;

    open spec fn view(&self) -> DkimInfoV {
        DkimInfoV { public: self.public@, selector: self.selector@, headers: self.headers@ }
    }
}

impl FromJson for DkimInfo {
    open spec fn of_jv(j: Jv) -> Option<DkimInfoV> {
        match j {
            Jv::Obj(fs) => match (str_of(lookup(fs, "public"@)), str_of(lookup(fs, "selector"@)),
                str_of(lookup(fs, "headers"@))) {
                (Some(public), Some(selector), Some(headers)) => Some(
                    DkimInfoV { public, selector, headers },
                ),
                _ => None,
            },
            _ => None,
        }
    }

    fn from_json(j: &Json) -> (r: Option<DkimInfo>) {
        match j {
            Json::Obj(fs) => {
                let public = match get_str(fs, "public") {
                    Some(x) => x,
                    None => {
                        return None;
                    },
                };
                let selector = match get_str(fs, "selector") {
                    Some(x) => x,
                    None => {
                        return None;
                    },
                };
                let headers = match get_str(fs, "headers") {
                    Some(x) => x,
                    None => {
                        return None;
                    },
                };
                Some(DkimInfo { public, selector, headers })
            },
            _ => None,
        }
    }
}

/// Response from creating a new domain.
#[derive(Debug, Clone)]
pub struct CreateDomainResponse {
    /// Domain name.
    pub domain: String,
    /// Initial status (usually "pending").
    pub status: String,
    /// Human-readable status label.
    pub status_label: String,
    /// DKIM configuration.
    pub dkim: Option<DkimInfo>,
}

/// The model of a domain-creation response.
pub struct CreateDomainResponseV {
    pub domain: Seq<char>,
    pub status: Seq<char>,
    pub status_label: Seq<char>,
    pub dkim: Option<DkimInfoV>,
}

/// The view of an optional DKIM record.
pub open spec fn opt_dkim_view(o: Option<DkimInfo>) -> Option<DkimInfoV> {
    match o {
        Some(d) => Some(d@),
        None => None,
    }
}

impl View for CreateDomainResponse {
    type V = CreateDomainResponseV;

    open spec fn view(&self) -> CreateDomainResponseV {
        CreateDomainResponseV {
            domain: self.domain@,
            status: self.status@,
            status_label: self.status_label@,
            dkim: opt_dkim_view(self.dkim),
        }
    }
}

impl FromJson for CreateDomainResponse {
    open spec fn of_jv(j: Jv) -> Option<CreateDomainResponseV> {
        match j {
            Jv::Obj(fs) => match (str_of(lookup(fs, "domain"@)), str_of(lookup(fs, "status"@)),
                str_of(lookup(fs, "status_label"@)), opt_rec_of::<DkimInfo>(lookup(
                fs, "dkim"@))) {
                (Some(domain), Some(status), Some(status_label), Some(dkim)) => Some(
                    CreateDomainResponseV { domain, status, status_label, dkim },
                ),
                _ => None,
            },
            _ => None,
        }
    }

    fn from_json(j: &Json) -> (r: Option<CreateDomainResponse>) {
        match j {
            Json::Obj(fs) => {
                let domain = match get_str(fs, "domain") {
                    Some(x) => x,
                    None => {
                        return None;
                    },
                };
                let status = match get_str(fs, "status") {
                    Some(x) => x,
                    None => {
                        return None;
                    },
                };
                let status_label = match get_str(fs, "status_label") {
                    Some(x) => x,
                    None => {
                        return None;
                    },
                };
                let dkim = match get_opt_rec::<DkimInfo>(fs, "dkim") {
                    Some(x) => x,
                    None => {
                        return None;
                    },
                };
                Some(CreateDomainResponse { domain, status, status_label, dkim })
            },
            _ => None,
        }
    }
}

/// DKIM DNS record details.
#[derive(Debug, Clone)]
pub struct DkimDnsRecord {
    /// DKIM selector.
    pub selector: String,
    /// DKIM public key.
    pub public: String,
}

/// The model of a DKIM DNS record.
pub struct DkimDnsRecordV {
    pub selector: Seq<char>,
    pub public: Seq<char>,
}

impl View for DkimDnsRecord {
    type V = DkimDnsRecordV;

    open spec fn view(&self) -> DkimDnsRecordV {
        DkimDnsRecordV { selector: self.selector@, public: self.public@ }
    }
}

impl FromJson for DkimDnsRecord {
    open spec fn of_jv(j: Jv) -> Option<DkimDnsRecordV> {
        match j {
            Jv::Obj(fs) => match (str_of(lookup(fs, "selector"@)), str_of(lookup(
                fs, "public"@))) {
                (Some(selector), Some(public)) => Some(DkimDnsRecordV { selector, public }),
                _ => None,
            },
            _ => None,
        }
    }

    fn from_json(j: &Json) -> (r: Option<DkimDnsRecord>) {
        match j {
            Json::Obj(fs) => {
                let selector = match get_str(fs, "selector") {
                    Some(x) => x,
                    None => {
                        return None;
                    },
                };
                let public = match get_str(fs, "public") {
                    Some(x) => x,
                    None => {
                        return None;
                    },
                };
                Some(DkimDnsRecord { selector, public })
            },
            _ => None,
        }
    }
}

/// DNS records for domain verification.
#[derive(Debug, Clone)]
pub struct DnsRecords {
    /// DKIM DNS record information.
    pub dkim: Option<DkimDnsRecord>,
}

/// The model of the DNS records.
pub struct DnsRecordsV {
    pub dkim: Option<DkimDnsRecordV>,
}

/// The view of an optional DKIM DNS record.
pub open spec fn opt_dkim_dns_view(o: Option<DkimDnsRecord>) -> Option<DkimDnsRecordV> {
    match o {
        Some(d) => Some(d@),
        None => None,
    }
}

impl View for DnsRecords {
    type V = DnsRecordsV;

    open spec fn view(&self) -> DnsRecordsV {
        DnsRecordsV { dkim: opt_dkim_dns_view(self.dkim) }
    }
}

impl FromJson for DnsRecords {
    open spec fn of_jv(j: Jv) -> Option<DnsRecordsV> {
        match j {
            Jv::Obj(fs) => match opt_rec_of::<DkimDnsRecord>(lookup(fs, "dkim"@)) {
                Some(dkim) => Some(DnsRecordsV { dkim }),
                None => None,
            },
            _ => None,
        }
    }

    fn from_json(j: &Json) -> (r: Option<DnsRecords>) {
        match j {
            Json::Obj(fs) => {
                let dkim = match get_opt_rec::<DkimDnsRecord>(fs, "dkim") {
                    Some(x) => x,
                    None => {
                        return None;
                    },
                };
                Some(DnsRecords { dkim })
            },
            _ => None,
        }
    }
}

/// Detailed domain information including DNS records.
#[derive(Debug, Clone)]
pub struct DomainDetail {
    /// Domain name.
    pub domain: String,
    /// Status identifier.
    pub status: String,
    /// Human-readable status label.
    pub status_label: String,
    /// Whether this domain can currently send emails.
    pub can_send: bool,
    /// CNAME record verification status.
    pub cname_status: Option<String>,
    /// DKIM record verification status.
    pub dkim_status: Option<String>,
    /// Tracking domain, if configured.
    pub tracking_domain: Option<String>,
    /// DNS records for domain verification.
    pub dns: Option<DnsRecords>,
    /// Creation timestamp.
    pub created_at: String,
    /// Last update timestamp.
    pub updated_at: String,
}

/// The model of detailed domain information.
pub struct DomainDetailV {
    pub domain: Seq<char>,
    pub status: Seq<char>,
    pub status_label: Seq<char>,
    pub can_send: bool,
    pub cname_status: Option<Seq<char>>,
    pub dkim_status: Option<Seq<char>>,
    pub tracking_domain: Option<Seq<char>>,
    pub dns: Option<DnsRecordsV>,
    pub created_at: Seq<char>,
    pub updated_at: Seq<char>,
}

/// The view of optional DNS records.
pub open spec fn opt_dns_view(o: Option<DnsRecords>) -> Option<DnsRecordsV> {
    match o {
        Some(d) => Some(d@),
        None => None,
    }
}

impl View for DomainDetail {
    type V = DomainDetailV;

    open spec fn view(&self) -> DomainDetailV {
        DomainDetailV {
            domain: self.domain@,
            status: self.status@,
            status_label: self.status_label@,
            can_send: self.can_send,
            cname_status: opt_str_view(self.cname_status),
            dkim_status: opt_str_view(self.dkim_status),
            tracking_domain: opt_str_view(self.tracking_domain),
            dns: opt_dns_view(self.dns),
            created_at: self.created_at@,
            updated_at: self.updated_at@,
        }
    }
}

impl FromJson for DomainDetail {
    open spec fn of_jv(j: Jv) -> Option<DomainDetailV> {
        match j {
            Jv::Obj(fs) => match (str_of(lookup(fs, "domain"@)), str_of(lookup(fs, "status"@)),
                str_of(lookup(fs, "status_label"@)), bool_of(lookup(fs, "can_send"@)), opt_str_of(
                lookup(fs, "cname_status"@)), opt_str_of(lookup(fs, "dkim_status"@)), opt_str_of(
                lookup(fs, "tracking_domain"@)), opt_rec_of::<DnsRecords>(lookup(fs, "dns"@)),
                str_of(lookup(fs, "created_at"@)), str_of(lookup(fs, "updated_at"@))) {
                (Some(domain), Some(status), Some(status_label), Some(can_send), Some(
                cname_status), Some(dkim_status), Some(tracking_domain), Some(dns), Some(
                created_at), Some(updated_at)) => Some(
                    DomainDetailV {
                        domain,
                        status,
                        status_label,
                        can_send,
                        cname_status,
                        dkim_status,
                        tracking_domain,
                        dns,
                        created_at,
                        updated_at,
                    },
                ),
                _ => None,
            },
            _ => None,
        }
    }

    fn from_json(j: &Json) -> (r: Option<DomainDetail>) {
        match j {
            Json::Obj(fs) => {
                let domain = match get_str(fs, "domain") {
                    Some(x) => x,
                    None => {
                        return None;
                    },
                };
                let status = match get_str(fs, "status") {
                    Some(x) => x,
                    None => {
                        return None;
                    },
                };
                let status_label = match get_str(fs, "status_label") {
                    Some(x) => x,
                    None => {
                        return None;
                    },
                };
                let can_send = match get_bool(fs, "can_send") {
                    Some(x) => x,
                    None => {
                        return None;
                    },
                };
                let cname_status = match get_opt_str(fs, "cname_status") {
                    Some(x) => x,
                    None => {
                        return None;
                    },
                };
                let dkim_status = match get_opt_str(fs, "dkim_status") {
                    Some(x) => x,
                    None => {
                        return None;
                    },
                };
                let tracking_domain = match get_opt_str(fs, "tracking_domain") {
                    Some(x) => x,
                    None => {
                        return None;
                    },
                };
                let dns = match get_opt_rec::<DnsRecords>(fs, "dns") {
                    Some(x) => x,
                    None => {
                        return None;
                    },
                };
                let created_at = match get_str(fs, "created_at") {
                    Some(x) => x,
                    None => {
                        return None;
                    },
                };
                let updated_at = match get_str(fs, "updated_at") {
                    Some(x) => x,
                    None => {
                        return None;
                    },
                };
                Some(
                    DomainDetail {
                        domain,
                        status,
                        status_label,
                        can_send,
                        cname_status,
                        dkim_status,
                        tracking_domain,
                        dns,
                        created_at,
                        updated_at,
                    },
                )
            },
            _ => None,
        }
    }
}

/// Forward-compatible decoding: a field under any name the
/// domain-creation response does not know leaves the decoding
/// unchanged.
pub proof fn lemma_create_domain_ignores_unknown(fields: Seq<(Seq<char>, Jv)>, extra: (Seq<char>,
    Jv))
    requires
        extra.0 != "domain"@,
        extra.0 != "status"@,
        extra.0 != "status_label"@,
        extra.0 != "dkim"@,
    ensures
        CreateDomainResponse::of_jv(Jv::Obj(fields.push(extra))) == CreateDomainResponse::of_jv(
            Jv::Obj(fields),
        ),
{
    crate::json::lemma_lookup_push(fields, extra, "domain"@);
    crate::json::lemma_lookup_push(fields, extra, "status"@);
    crate::json::lemma_lookup_push(fields, extra, "status_label"@);
    crate::json::lemma_lookup_push(fields, extra, "dkim"@);
}

// ── The service ────────────────────────────────────────────────────

/// The JSON body of a domain-registration request.
pub open spec fn create_domain_body(domain: Seq<char>) -> Seq<char> {
    render(Jv::Obj(seq![("domain"@, Jv::Str(domain))]))
}

/// What the list endpoint's success body decodes to: the `domains`
/// array inside the `data` envelope.
pub open spec fn domains_list_of(body: Seq<char>) -> Option<Seq<DomainV>> {
    match data_of(body) {
        Some(Jv::Obj(fs)) => match lookup(fs, "domains"@) {
            Some(Jv::Arr(items)) => seq_of_jv::<Domain>(items),
            _ => None,
        },
        _ => None,
    }
}

/// What the create endpoint's success body decodes to.
pub open spec fn domain_create_of(body: Seq<char>) -> Option<CreateDomainResponseV> {
    match data_of(body) {
        Some(j) => CreateDomainResponse::of_jv(j),
        None => None,
    }
}

/// What the get endpoint's success body decodes to.
pub open spec fn domain_get_of(body: Seq<char>) -> Option<DomainDetailV> {
    match data_of(body) {
        Some(j) => DomainDetail::of_jv(j),
        None => None,
    }
}

/// Service for the `/domains` endpoints.
#[derive(Debug, Clone)]
pub struct DomainsSvc(pub Config);

impl DomainsSvc {
    /// The request that lists all sending domains.
    pub fn list_request(&self) -> (r: OutboundRequest)
        ensures
            built_request(self.0, Method::Get, "/domains"@, r),
    {
        self.0.build(Method::Get, "/domains")
    }

    /// Interprets the response to a list request: the domains on a
    /// success body, the classified error otherwise.
    pub fn list_response(&self, status: u16, body: &str) -> (r: Result<Vec<Domain>, Error>)
        ensures
            !is_success(status) ==> (r matches Err(e) && classified_err(status, body@, e)),
            is_success(status) ==> match domains_list_of(body@) {
                Some(ds) => r matches Ok(v) && vec_view(v@) == ds,
                None => r matches Err(e) && (e matches Error::Parse(t) && t@ == parse_fail_text(
                    status,
                    body@,
                )),
            },
    {
        match self.0.classify(status, body) {
            Some(e) => Err(e),
            None => match success_data(body) {
                Some(Json::Obj(fields)) => match get_field(&fields, "domains") {
                    Some(Json::Arr(items)) => match vec_from_json::<Domain>(items) {
                        Some(v) => Ok(v),
                        None => Err(Error::Parse(parse_failure_text(status, body))),
                    },
                    _ => Err(Error::Parse(parse_failure_text(status, body))),
                },
                _ => Err(Error::Parse(parse_failure_text(status, body))),
            },
        }
    }

    /// The request that registers a new sending domain: a POST whose
    /// body carries the domain name.
    pub fn create_request(&self, domain: &str) -> (r: OutboundRequest)
        ensures
            built_request_with_body(self.0, Method::Post, "/domains"@, create_domain_body(
                domain@), r),
    {
        let mut fields: Vec<(String, Json)> = Vec::new();
        fields.push(("domain".to_owned(), Json::Str(domain.to_owned())));
        let bodyj = Json::Obj(fields);
        proof {
            lemma_jv_fields(bodyj->Obj_0@);
            assert(crate::json::jv_fields(bodyj->Obj_0@) =~= seq![("domain"@, Jv::Str(domain@))]);
        }
        let body = render_string(&bodyj);
        let mut r = self.0.build(Method::Post, "/domains");
        r.body = Some(body);
        r
    }

    /// Interprets the response to a create request.
    pub fn create_response(&self, status: u16, body: &str) -> (r: Result<
        CreateDomainResponse,
        Error,
    >)
        ensures
            !is_success(status) ==> (r matches Err(e) && classified_err(status, body@, e)),
            is_success(status) ==> match domain_create_of(body@) {
                Some(d) => r matches Ok(v) && v@ == d,
                None => r matches Err(e) && (e matches Error::Parse(t) && t@ == parse_fail_text(
                    status,
                    body@,
                )),
            },
    {
        match self.0.classify(status, body) {
            Some(e) => Err(e),
            None => match success_data(body) {
                Some(d) => match CreateDomainResponse::from_json(&d) {
                    Some(v) => Ok(v),
                    None => Err(Error::Parse(parse_failure_text(status, body))),
                },
                None => Err(Error::Parse(parse_failure_text(status, body))),
            },
        }
    }

    /// The request that retrieves one sending domain by name. No
    /// existence pre-check is made: an unknown domain surfaces as the
    /// server's API failure.
    pub fn get_request(&self, domain: &str) -> (r: OutboundRequest)
        ensures
            built_request(self.0, Method::Get, "/domains/"@ + domain@, r),
    {
        let mut path: Vec<char> = Vec::new();
        push_str_chars(&mut path, "/domains/");
        push_str_chars(&mut path, domain);
        let p = string_from_chars(&path);
        self.0.build(Method::Get, p.as_str())
    }

    /// Interprets the response to a get request.
    pub fn get_response(&self, status: u16, body: &str) -> (r: Result<DomainDetail, Error>)
        ensures
            !is_success(status) ==> (r matches Err(e) && classified_err(status, body@, e)),
            is_success(status) ==> match domain_get_of(body@) {
                Some(d) => r matches Ok(v) && v@ == d,
                None => r matches Err(e) && (e matches Error::Parse(t) && t@ == parse_fail_text(
                    status,
                    body@,
                )),
            },
    {
        match self.0.classify(status, body) {
            Some(e) => Err(e),
            None => match success_data(body) {
                Some(d) => match DomainDetail::from_json(&d) {
                    Some(v) => Ok(v),
                    None => Err(Error::Parse(parse_failure_text(status, body))),
                },
                None => Err(Error::Parse(parse_failure_text(status, body))),
            },
        }
    }

    /// The request that deletes a sending domain.
    pub fn delete_request(&self, domain: &str) -> (r: OutboundRequest)
        ensures
            built_request(self.0, Method::Delete, "/domains/"@ + domain@, r),
    {
        let mut path: Vec<char> = Vec::new();
        push_str_chars(&mut path, "/domains/");
        push_str_chars(&mut path, domain);
        let p = string_from_chars(&path);
        self.0.build(Method::Delete, p.as_str())
    }

    /// Interprets the response to a delete request: any success
    /// status is a success, the body is discarded.
    pub fn delete_response(&self, status: u16, body: &str) -> (r: Result<(), Error>)
        ensures
            is_success(status) <==> r is Ok,
            r matches Err(e) ==> classified_err(status, body@, e),
    {
        match self.0.classify(status, body) {
            Some(e) => Err(e),
            None => Ok(()),
        }
    }
}

} // verus!
