//! Service for the `/emails` endpoints: sending transactional email,
//! listing sent emails with cursor pagination, and fetching the
//! lifecycle events of one transmission.
//!
//! The send body is rendered field by field: an optional part that
//! was never set contributes nothing to the JSON, and every set part
//! appears under its documented name (an attachment's MIME type as
//! `type`).

use vstd::prelude::*;
use crate::config::{Config, Method, OutboundRequest, built_request_with_body, request_shape,
    is_success, classified_err, parse_fail_text, data_of, parse_failure_text, success_data,
    opt_str_param, opt_u32_param};
use crate::error::Error;
use crate::json::{Json, Jv, jv, jv_fields, jv_seq, lookup, FromJson, vec_view, get_str, get_u64,
    get_u32, get_opt_u64, get_opt_str, get_bool_or_false, get_rec, get_vec, get_any, str_of,
    opt_str_of, u64_field_of, u32_field_of, opt_u64_of, bool_or_false_of, any_of, rec_of,
    arr_rec_of, opt_str_view, strs_view, opt_strs_view, opt_str_jfield, opt_u32_jfield, opt_u64_jfield,
    opt_bool_jfield, opt_strs_jfield, opt_obj_jfield, strs_jv, render, render_string,
    fields_clone, lemma_jv_fields, lemma_jv_seq, push_json_field, has_key, upsert_field,
    upserted_opt, distinct_keys,
    lemma_has_key_concat, lemma_has_key_single};
use crate::text::{push_str_chars, string_from_chars, u32_dec_string};

verus! {

// ── Request types ──────────────────────────────────────────────────

/// Tracking and delivery options for an email.
#[derive(Debug, Clone, Copy)]
pub struct EmailOptions {
    /// Enable click tracking.
    pub click_tracking: Option<bool>,
    /// Enable open tracking.
    pub open_tracking: Option<bool>,
    /// Mark as transactional email.
    pub transactional: Option<bool>,
}

impl Default for EmailOptions {
    /// Options with nothing set.
    fn default() -> (r: Self)
        ensures
            r.click_tracking is None,
            r.open_tracking is None,
            r.transactional is None,
    {
        EmailOptions { click_tracking: None, open_tracking: None, transactional: None }
    }
}

/// A file attachment for an email. The content must be
/// base64-encoded by the caller.
#[derive(Debug, Clone)]
pub struct Attachment {
    /// Filename of the attachment.
    pub name: String,
    /// MIME type (e.g. `"application/pdf"`); serialized as `type`.
    pub content_type: String,
    /// Base64-encoded file content.
    pub data: String,
}

/// The model of an attachment.
pub struct AttachmentV {
    pub name: Seq<char>,
    pub content_type: Seq<char>,
    pub data: Seq<char>,
}

impl View for Attachment {
    type V = AttachmentV;

    open spec fn view(&self) -> AttachmentV {
        AttachmentV { name: self.name@, content_type: self.content_type@, data: self.data@ }
    }
}

impl Attachment {
    /// Creates a new attachment.
    pub fn new(name: &str, content_type: &str, data: &str) -> (r: Self)
        ensures
            r@ == (AttachmentV { name: name@, content_type: content_type@, data: data@ }),
    {
        Attachment {
            name: name.to_owned(),
            content_type: content_type.to_owned(),
            data: data.to_owned(),
        }
    }
}

/// Options for sending an email. At minimum the sender, the
/// recipients, the subject and one of the HTML or text bodies must
/// be set; the builder does not enforce that, the API rejects a
/// violation with a validation failure.
#[derive(Debug, Clone)]
pub struct CreateEmailOptions {
    /// Sender email address.
    pub from: String,
    /// Sender display name.
    pub from_name: Option<String>,
    /// Recipient email addresses.
    pub to: Vec<String>,
    /// Email subject.
    pub subject: String,
    /// HTML body.
    pub html: Option<String>,
    /// Plain text body.
    pub text: Option<String>,
    /// Reply-to email addresses.
    pub reply_to: Option<Vec<String>>,
    /// Template slug for sending with a pre-defined template.
    pub template_slug: Option<String>,
    /// Template version number.
    pub template_version: Option<u32>,
    /// Project ID for template lookup.
    pub project_id: Option<u64>,
    /// Substitution data for template personalization.
    pub substitution_data: Option<Vec<(String, Json)>>,
    /// Custom metadata.
    pub metadata: Option<Vec<(String, Json)>>,
    /// File attachments.
    pub attachments: Option<Vec<Attachment>>,
    /// Tracking and delivery options.
    pub options: Option<EmailOptions>,
}

/// The model of email-sending options.
pub struct CreateEmailOptionsV {
    pub from: Seq<char>,
    pub from_name: Option<Seq<char>>,
    pub to: Seq<Seq<char>>,
    pub subject: Seq<char>,
    pub html: Option<Seq<char>>,
    pub text: Option<Seq<char>>,
    pub reply_to: Option<Seq<Seq<char>>>,
    pub template_slug: Option<Seq<char>>,
    pub template_version: Option<u32>,
    pub project_id: Option<u64>,
    pub substitution_data: Option<Seq<(Seq<char>, Jv)>>,
    pub metadata: Option<Seq<(Seq<char>, Jv)>>,
    pub attachments: Option<Seq<AttachmentV>>,
    pub options: Option<EmailOptions>,
}

/// The view of optional JSON object fields.
pub open spec fn opt_fields_view(o: Option<Vec<(String, Json)>>) -> Option<Seq<(Seq<char>, Jv)>> {
    match o {
        Some(v) => Some(jv_fields(v@)),
        None => None,
    }
}

/// The view of an optional attachment list.
pub open spec fn opt_atts_view(o: Option<Vec<Attachment>>) -> Option<Seq<AttachmentV>> {
    match o {
        Some(v) => Some(vec_view(v@)),
        None => None,
    }
}

impl View for CreateEmailOptions {
    type V = CreateEmailOptionsV;

    open spec fn view(&self) -> CreateEmailOptionsV {
        CreateEmailOptionsV {
            from: self.from@,
            from_name: opt_str_view(self.from_name),
            to: strs_view(self.to@),
            subject: self.subject@,
            html: opt_str_view(self.html),
            text: opt_str_view(self.text),
            reply_to: opt_strs_view(self.reply_to),
            template_slug: opt_str_view(self.template_slug),
            template_version: self.template_version,
            project_id: self.project_id,
            substitution_data: opt_fields_view(self.substitution_data),
            metadata: opt_fields_view(self.metadata),
            attachments: opt_atts_view(self.attachments),
            options: self.options,
        }
    }
}

/// A list with one more element at the end, started if it was never
/// started.
pub open spec fn appended<T>(o: Option<Seq<T>>, x: T) -> Seq<T> {
    match o {
        Some(s) => s.push(x),
        None => seq![x],
    }
}

impl CreateEmailOptions {
    /// Creates options with the sender, recipients and subject; every
    /// optional part unset.
    pub fn new(from: &str, to: Vec<String>, subject: &str) -> (r: Self)
        ensures
            r@ == (CreateEmailOptionsV {
                from: from@,
                from_name: None,
                to: strs_view(to@),
                subject: subject@,
                html: None,
                text: None,
                reply_to: None,
                template_slug: None,
                template_version: None,
                project_id: None,
                substitution_data: None,
                metadata: None,
                attachments: None,
                options: None,
            }),
    {
        CreateEmailOptions {
            from: from.to_owned(),
            from_name: None,
            to,
            subject: subject.to_owned(),
            html: None,
            text: None,
            reply_to: None,
            template_slug: None,
            template_version: None,
            project_id: None,
            substitution_data: None,
            metadata: None,
            attachments: None,
            options: None,
        }
    }

    /// Sets the sender display name.
    pub fn with_from_name(self, name: &str) -> (r: Self)
        ensures
            r@ == (CreateEmailOptionsV { from_name: Some(name@), ..self@ }),
    {
        let mut s = self;
        s.from_name = Some(name.to_owned());
        s
    }

    /// Sets the HTML body of the email.
    pub fn with_html(self, html: &str) -> (r: Self)
        ensures
            r@ == (CreateEmailOptionsV { html: Some(html@), ..self@ }),
    {
        let mut s = self;
        s.html = Some(html.to_owned());
        s
    }

    /// Sets the plain text body of the email.
    pub fn with_text(self, text: &str) -> (r: Self)
        ensures
            r@ == (CreateEmailOptionsV { text: Some(text@), ..self@ }),
    {
        let mut s = self;
        s.text = Some(text.to_owned());
        s
    }

    /// Adds a reply-to email address.
    pub fn with_reply_to(self, address: &str) -> (r: Self)
        ensures
            r@ == (CreateEmailOptionsV {
                reply_to: Some(appended(self@.reply_to, address@)),
                ..self@
            }),
    {
        let mut s = self;
        let v: Vec<String> = match s.reply_to {
            Some(mut v) => {
                v.push(address.to_owned());
                v
            },
            None => {
                let mut v: Vec<String> = Vec::new();
                v.push(address.to_owned());
                v
            },
        };
        proof {
            match self@.reply_to {
                Some(o) => assert(strs_view(v@) =~= o.push(address@)),
                None => assert(strs_view(v@) =~= seq![address@]),
            }
        }
        s.reply_to = Some(v);
        s
    }

    /// Sets the template slug for sending with a pre-defined
    /// template.
    pub fn with_template(self, slug: &str) -> (r: Self)
        ensures
            r@ == (CreateEmailOptionsV { template_slug: Some(slug@), ..self@ }),
    {
        let mut s = self;
        s.template_slug = Some(slug.to_owned());
        s
    }

    /// Sets the template version.
    pub fn with_template_version(self, version: u32) -> (r: Self)
        ensures
            r@ == (CreateEmailOptionsV { template_version: Some(version), ..self@ }),
    {
        let mut s = self;
        s.template_version = Some(version);
        s
    }

    /// Sets the project ID for template lookup.
    pub fn with_project_id(self, project_id: u64) -> (r: Self)
        ensures
            r@ == (CreateEmailOptionsV { project_id: Some(project_id), ..self@ }),
    {
        let mut s = self;
        s.project_id = Some(project_id);
        s
    }

    /// Adds a substitution entry for template personalization. A
    /// second entry under the same key replaces the first one's
    /// value, as an insertion into a map would.
    pub fn with_substitution(self, key: &str, value: Json) -> (r: Self)
        ensures
            r@ == (CreateEmailOptionsV {
                substitution_data: Some(upserted_opt(self@.substitution_data, key@, value@)),
                ..self@
            }),
    {
        let mut s = self;
        let ghost jj = value@;
        let v: Vec<(String, Json)> = match s.substitution_data {
            Some(mut m) => {
                upsert_field(&mut m, key, value);
                m
            },
            None => {
                let mut m: Vec<(String, Json)> = Vec::new();
                m.push((key.to_owned(), value));
                proof {
                    lemma_jv_fields(m@);
                    assert(jv_fields(m@) =~= seq![(key@, jj)]);
                }
                m
            },
        };
        s.substitution_data = Some(v);
        s
    }

    /// Sets all substitution data at once. The entries must carry
    /// distinct keys: the data stands for a map.
    pub fn with_substitution_data(self, data: Vec<(String, Json)>) -> (r: Self)
        requires
            distinct_keys(jv_fields(data@)),
        ensures
            r@ == (CreateEmailOptionsV { substitution_data: Some(jv_fields(data@)), ..self@ }),
    {
        let mut s = self;
        s.substitution_data = Some(data);
        s
    }

    /// Adds a metadata entry. A second entry under the same key
    /// replaces the first one's value, as an insertion into a map
    /// would.
    pub fn with_metadata_entry(self, key: &str, value: Json) -> (r: Self)
        ensures
            r@ == (CreateEmailOptionsV {
                metadata: Some(upserted_opt(self@.metadata, key@, value@)),
                ..self@
            }),
    {
        let mut s = self;
        let ghost jj = value@;
        let v: Vec<(String, Json)> = match s.metadata {
            Some(mut m) => {
                upsert_field(&mut m, key, value);
                m
            },
            None => {
                let mut m: Vec<(String, Json)> = Vec::new();
                m.push((key.to_owned(), value));
                proof {
                    lemma_jv_fields(m@);
                    assert(jv_fields(m@) =~= seq![(key@, jj)]);
                }
                m
            },
        };
        s.metadata = Some(v);
        s
    }

    /// Sets all metadata at once. The entries must carry distinct
    /// keys: the data stands for a map.
    pub fn with_metadata(self, metadata: Vec<(String, Json)>) -> (r: Self)
        requires
            distinct_keys(jv_fields(metadata@)),
        ensures
            r@ == (CreateEmailOptionsV { metadata: Some(jv_fields(metadata@)), ..self@ }),
    {
        let mut s = self;
        s.metadata = Some(metadata);
        s
    }

    /// Adds a file attachment.
    pub fn with_attachment(self, attachment: Attachment) -> (r: Self)
        ensures
            r@ == (CreateEmailOptionsV {
                attachments: Some(appended(self@.attachments, attachment@)),
                ..self@
            }),
    {
        let mut s = self;
        let v: Vec<Attachment> = match s.attachments {
            Some(mut v) => {
                v.push(attachment);
                v
            },
            None => {
                let mut v: Vec<Attachment> = Vec::new();
                v.push(attachment);
                v
            },
        };
        proof {
            match self@.attachments {
                Some(o) => assert(vec_view(v@) =~= o.push(v@.last()@)),
                None => assert(vec_view(v@) =~= seq![v@.last()@]),
            }
        }
        s.attachments = Some(v);
        s
    }

    /// Enables or disables click tracking.
    pub fn with_click_tracking(self, enabled: bool) -> (r: Self)
        ensures
            r@ == (CreateEmailOptionsV {
                options: Some(set_click(self@.options, enabled)),
                ..self@
            }),
    {
        let mut s = self;
        let mut o = match s.options {
            Some(o) => o,
            None => EmailOptions::default(),
        };
        o.click_tracking = Some(enabled);
        s.options = Some(o);
        s
    }

    /// Enables or disables open tracking.
    pub fn with_open_tracking(self, enabled: bool) -> (r: Self)
        ensures
            r@ == (CreateEmailOptionsV {
                options: Some(set_open(self@.options, enabled)),
                ..self@
            }),
    {
        let mut s = self;
        let mut o = match s.options {
            Some(o) => o,
            None => EmailOptions::default(),
        };
        o.open_tracking = Some(enabled);
        s.options = Some(o);
        s
    }

    /// Sets whether the email is transactional.
    pub fn with_transactional(self, transactional: bool) -> (r: Self)
        ensures
            r@ == (CreateEmailOptionsV {
                options: Some(set_transactional(self@.options, transactional)),
                ..self@
            }),
    {
        let mut s = self;
        let mut o = match s.options {
            Some(o) => o,
            None => EmailOptions::default(),
        };
        o.transactional = Some(transactional);
        s.options = Some(o);
        s
    }
}

/// The tracking options with click tracking set, started empty if
/// they were never started.
pub open spec fn set_click(o: Option<EmailOptions>, enabled: bool) -> EmailOptions {
    match o {
        Some(e) => EmailOptions { click_tracking: Some(enabled), ..e },
        None => EmailOptions {
            click_tracking: Some(enabled),
            open_tracking: None,
            transactional: None,
        },
    }
}

/// The tracking options with open tracking set.
pub open spec fn set_open(o: Option<EmailOptions>, enabled: bool) -> EmailOptions {
    match o {
        Some(e) => EmailOptions { open_tracking: Some(enabled), ..e },
        None => EmailOptions {
            click_tracking: None,
            open_tracking: Some(enabled),
            transactional: None,
        },
    }
}

/// The tracking options with the transactional flag set.
pub open spec fn set_transactional(o: Option<EmailOptions>, transactional: bool) -> EmailOptions {
    match o {
        Some(e) => EmailOptions { transactional: Some(transactional), ..e },
        None => EmailOptions {
            click_tracking: None,
            open_tracking: None,
            transactional: Some(transactional),
        },
    }
}

/// Options for listing sent emails.
#[derive(Debug, Clone)]
pub struct ListEmailsOptions {
    /// Results per page (1-100).
    pub per_page: Option<u32>,
    /// Opaque pagination cursor from a previous response.
    pub cursor: Option<String>,
    /// Filter by recipient email address.
    pub recipients: Option<String>,
    /// Only emails sent on or after this date (ISO 8601).
    pub from: Option<String>,
    /// Only emails sent on or before this date (ISO 8601).
    pub to: Option<String>,
}

/// The model of email-listing options.
pub struct ListEmailsOptionsV {
    pub per_page: Option<u32>,
    pub cursor: Option<Seq<char>>,
    pub recipients: Option<Seq<char>>,
    pub from: Option<Seq<char>>,
    pub to: Option<Seq<char>>,
}

impl View for ListEmailsOptions {
    type V = ListEmailsOptionsV;

    open spec fn view(&self) -> ListEmailsOptionsV {
        ListEmailsOptionsV {
            per_page: self.per_page,
            cursor: opt_str_view(self.cursor),
            recipients: opt_str_view(self.recipients),
            from: opt_str_view(self.from),
            to: opt_str_view(self.to),
        }
    }
}

impl ListEmailsOptions {
    /// Creates new options with no filters set.
    pub fn new() -> (r: Self)
        ensures
            r@ == (ListEmailsOptionsV {
                per_page: None,
                cursor: None,
                recipients: None,
                from: None,
                to: None,
            }),
    {
        ListEmailsOptions { per_page: None, cursor: None, recipients: None, from: None, to: None }
    }

    /// Sets the number of results per page (1-100).
    pub fn per_page(self, per_page: u32) -> (r: Self)
        ensures
            r@ == (ListEmailsOptionsV { per_page: Some(per_page), ..self@ }),
    {
        let mut s = self;
        s.per_page = Some(per_page);
        s
    }

    /// Sets the pagination cursor from a previous response.
    pub fn cursor(self, cursor: &str) -> (r: Self)
        ensures
            r@ == (ListEmailsOptionsV { cursor: Some(cursor@), ..self@ }),
    {
        let mut s = self;
        s.cursor = Some(cursor.to_owned());
        s
    }

    /// Filters by recipient email address.
    pub fn recipients(self, recipients: &str) -> (r: Self)
        ensures
            r@ == (ListEmailsOptionsV { recipients: Some(recipients@), ..self@ }),
    {
        let mut s = self;
        s.recipients = Some(recipients.to_owned());
        s
    }

    /// Filters emails sent on or after this date (ISO 8601 format).
    pub fn from_date(self, from: &str) -> (r: Self)
        ensures
            r@ == (ListEmailsOptionsV { from: Some(from@), ..self@ }),
    {
        let mut s = self;
        s.from = Some(from.to_owned());
        s
    }

    /// Filters emails sent on or before this date (ISO 8601 format).
    pub fn to_date(self, to: &str) -> (r: Self)
        ensures
            r@ == (ListEmailsOptionsV { to: Some(to@), ..self@ }),
    {
        let mut s = self;
        s.to = Some(to.to_owned());
        s
    }
}

impl Default for ListEmailsOptions {
    /// Options with no filters set.
    fn default() -> (r: Self)
        ensures
            r@ == (ListEmailsOptionsV {
                per_page: None,
                cursor: None,
                recipients: None,
                from: None,
                to: None,
            }),
    {
        ListEmailsOptions::new()
    }
}

// ── The send body ──────────────────────────────────────────────────

/// The JSON document of one attachment, with the MIME type under its
/// documented name `type`.
pub open spec fn attachment_jv(a: AttachmentV) -> Jv {
    Jv::Obj(
        seq![
            ("name"@, Jv::Str(a.name)),
            ("type"@, Jv::Str(a.content_type)),
            ("data"@, Jv::Str(a.data)),
        ],
    )
}

/// The documents of a list of attachments.
pub open spec fn atts_jv(s: Seq<AttachmentV>) -> Seq<Jv> {
    Seq::new(s.len(), |k: int| attachment_jv(s[k]))
}

/// The object fields an optional attachment list contributes.
pub open spec fn opt_atts_jfield(name: Seq<char>, o: Option<Seq<AttachmentV>>) -> Seq<(Seq<char>,
    Jv)> {
    match o {
        Some(s) => seq![(name, Jv::Arr(atts_jv(s)))],
        None => Seq::empty(),
    }
}

/// The object fields of the tracking options, each flag only when
/// set.
pub open spec fn email_options_fields(o: EmailOptions) -> Seq<(Seq<char>, Jv)> {
    opt_bool_jfield("click_tracking"@, o.click_tracking) + opt_bool_jfield(
        "open_tracking"@, o.open_tracking) + opt_bool_jfield("transactional"@, o.transactional)
}

/// The object fields the optional tracking options contribute.
pub open spec fn opt_options_jfield(name: Seq<char>, o: Option<EmailOptions>) -> Seq<(Seq<char>,
    Jv)> {
    match o {
        Some(e) => seq![(name, Jv::Obj(email_options_fields(e)))],
        None => Seq::empty(),
    }
}

/// The object fields of a send-email body, in declaration order:
/// every optional part that was never set is omitted entirely.
pub open spec fn email_body_fields(v: CreateEmailOptionsV) -> Seq<(Seq<char>, Jv)> {
    seq![("from"@, Jv::Str(v.from))] + opt_str_jfield("from_name"@, v.from_name) + seq![
        ("to"@, Jv::Arr(strs_jv(v.to))),
    ] + seq![("subject"@, Jv::Str(v.subject))] + opt_str_jfield("html"@, v.html)
        + opt_str_jfield("text"@, v.text) + opt_strs_jfield(
        "reply_to"@, v.reply_to) + opt_str_jfield("template_slug"@, v.template_slug)
        + opt_u32_jfield("template_version"@, v.template_version) + opt_u64_jfield(
        "project_id"@, v.project_id) + opt_obj_jfield("substitution_data"@, v.substitution_data)
        + opt_obj_jfield("metadata"@, v.metadata) + opt_atts_jfield("attachments"@, v.attachments)
        + opt_options_jfield("options"@, v.options)
}

/// The JSON body of a send-email request.
pub open spec fn email_body(v: CreateEmailOptionsV) -> Seq<char> {
    render(Jv::Obj(email_body_fields(v)))
}

/// The JSON array of a string list.
fn strs_json(v: &Vec<String>) -> (j: Json)
    ensures
        j@ == Jv::Arr(strs_jv(strs_view(v@))),
{
    let mut items: Vec<Json> = Vec::new();
    let mut i: usize = 0;
    while i < v.len()
        invariant
            i <= v@.len(),
            items@.len() == i,
            forall|k: int| 0 <= k < i ==> jv(#[trigger] items@[k]) == Jv::Str(v@[k]@),
        decreases v@.len() - i,
    {
        items.push(Json::Str(v[i].clone()));
        i = i + 1;
    }
    proof {
        lemma_jv_seq(items@);
        assert(jv_seq(items@) =~= strs_jv(strs_view(v@)));
    }
    Json::Arr(items)
}

/// The JSON document of one attachment, as `attachment_jv` says.
fn attachment_json(a: &Attachment) -> (j: Json)
    ensures
        j@ == attachment_jv(a@),
{
    let mut fs: Vec<(String, Json)> = Vec::new();
    fs.push(("name".to_owned(), Json::Str(a.name.clone())));
    fs.push(("type".to_owned(), Json::Str(a.content_type.clone())));
    fs.push(("data".to_owned(), Json::Str(a.data.clone())));
    proof {
        lemma_jv_fields(fs@);
        assert(jv_fields(fs@) =~= seq![
            ("name"@, Jv::Str(a.name@)),
            ("type"@, Jv::Str(a.content_type@)),
            ("data"@, Jv::Str(a.data@)),
        ]);
    }
    Json::Obj(fs)
}

/// The JSON array of an attachment list.
fn attachments_json(v: &Vec<Attachment>) -> (j: Json)
    ensures
        j@ == Jv::Arr(atts_jv(vec_view(v@))),
{
    let mut items: Vec<Json> = Vec::new();
    let mut i: usize = 0;
    while i < v.len()
        invariant
            i <= v@.len(),
            items@.len() == i,
            forall|k: int| 0 <= k < i ==> jv(#[trigger] items@[k]) == attachment_jv(v@[k]@),
        decreases v@.len() - i,
    {
        let a = attachment_json(&v[i]);
        items.push(a);
        i = i + 1;
    }
    proof {
        lemma_jv_seq(items@);
        assert(jv_seq(items@) =~= atts_jv(vec_view(v@)));
    }
    Json::Arr(items)
}

/// The JSON document of the tracking options, as
/// `email_options_fields` says.
fn email_options_json(o: &EmailOptions) -> (j: Json)
    ensures
        j@ == Jv::Obj(email_options_fields(*o)),
{
    let mut fs: Vec<(String, Json)> = Vec::new();
    if let Some(b) = o.click_tracking {
        fs.push(("click_tracking".to_owned(), Json::Bool(b)));
    }
    if let Some(b) = o.open_tracking {
        fs.push(("open_tracking".to_owned(), Json::Bool(b)));
    }
    if let Some(b) = o.transactional {
        fs.push(("transactional".to_owned(), Json::Bool(b)));
    }
    proof {
        lemma_jv_fields(fs@);
        assert(jv_fields(fs@) =~= email_options_fields(*o));
    }
    Json::Obj(fs)
}

/// Builds the leading fields of a send body: the sender and subject
/// line parts.
fn email_body_head(email: &CreateEmailOptions) -> (fs: Vec<(String, Json)>)
    ensures
        jv_fields(fs@) == seq![("from"@, Jv::Str(email@.from))] + opt_str_jfield(
            "from_name"@, email@.from_name) + seq![("to"@, Jv::Arr(strs_jv(email@.to)))] + seq![
            ("subject"@, Jv::Str(email@.subject)),
        ] + opt_str_jfield("html"@, email@.html) + opt_str_jfield("text"@, email@.text),
{
    broadcast use Seq::add_empty_right, Seq::add_empty_left;

    let ghost v = email@;
    let mut fs: Vec<(String, Json)> = Vec::new();
    push_json_field(&mut fs, "from", Json::Str(email.from.clone()));
    let ghost mut done: Seq<(Seq<char>, Jv)> = seq![("from"@, Jv::Str(v.from))];
    proof {
        assert(jv_fields(fs@) == done);
        done = done + opt_str_jfield("from_name"@, v.from_name);
    }
    if let Some(name) = &email.from_name {
        push_json_field(&mut fs, "from_name", Json::Str(name.clone()));
    }
    proof {
        assert(jv_fields(fs@) == done);
        done = done + seq![("to"@, Jv::Arr(strs_jv(v.to)))];
    }
    let to = strs_json(&email.to);
    push_json_field(&mut fs, "to", to);
    proof {
        assert(jv_fields(fs@) == done);
        done = done + seq![("subject"@, Jv::Str(v.subject))];
    }
    push_json_field(&mut fs, "subject", Json::Str(email.subject.clone()));
    proof {
        assert(jv_fields(fs@) == done);
        done = done + opt_str_jfield("html"@, v.html);
    }
    if let Some(html) = &email.html {
        push_json_field(&mut fs, "html", Json::Str(html.clone()));
    }
    proof {
        assert(jv_fields(fs@) == done);
        done = done + opt_str_jfield("text"@, v.text);
    }
    if let Some(text) = &email.text {
        push_json_field(&mut fs, "text", Json::Str(text.clone()));
    }
    proof {
        assert(jv_fields(fs@) == done);
    }
    fs
}

/// Appends the template-related fields of a send body.
fn email_body_template(fs: &mut Vec<(String, Json)>, email: &CreateEmailOptions)
    ensures
        jv_fields(final(fs)@) == jv_fields(old(fs)@) + opt_strs_jfield(
            "reply_to"@, email@.reply_to) + opt_str_jfield("template_slug"@, email@.template_slug)
            + opt_u32_jfield("template_version"@, email@.template_version) + opt_u64_jfield(
            "project_id"@, email@.project_id),
{
    broadcast use Seq::add_empty_right;

    let ghost v = email@;
    let ghost mut done: Seq<(Seq<char>, Jv)> = jv_fields(old(fs)@);
    proof {
        done = done + opt_strs_jfield("reply_to"@, v.reply_to);
    }
    if let Some(reply_to) = &email.reply_to {
        let r = strs_json(reply_to);
        push_json_field(fs, "reply_to", r);
    }
    proof {
        assert(jv_fields(fs@) == done);
        done = done + opt_str_jfield("template_slug"@, v.template_slug);
    }
    if let Some(slug) = &email.template_slug {
        push_json_field(fs, "template_slug", Json::Str(slug.clone()));
    }
    proof {
        assert(jv_fields(fs@) == done);
        done = done + opt_u32_jfield("template_version"@, v.template_version);
    }
    if let Some(version) = email.template_version {
        push_json_field(fs, "template_version", Json::num_u32(version));
    }
    proof {
        assert(jv_fields(fs@) == done);
        done = done + opt_u64_jfield("project_id"@, v.project_id);
    }
    if let Some(project_id) = email.project_id {
        push_json_field(fs, "project_id", Json::num_u64(project_id));
    }
    proof {
        assert(jv_fields(fs@) == done);
    }
}

/// Appends the data, attachment and tracking fields of a send body.
fn email_body_tail(fs: &mut Vec<(String, Json)>, email: &CreateEmailOptions)
    ensures
        jv_fields(final(fs)@) == jv_fields(old(fs)@) + opt_obj_jfield(
            "substitution_data"@, email@.substitution_data) + opt_obj_jfield(
            "metadata"@, email@.metadata) + opt_atts_jfield("attachments"@, email@.attachments)
            + opt_options_jfield("options"@, email@.options),
{
    broadcast use Seq::add_empty_right;

    let ghost v = email@;
    let ghost mut done: Seq<(Seq<char>, Jv)> = jv_fields(old(fs)@);
    proof {
        done = done + opt_obj_jfield("substitution_data"@, v.substitution_data);
    }
    if let Some(data) = &email.substitution_data {
        let copy = fields_clone(data);
        push_json_field(fs, "substitution_data", Json::Obj(copy));
    }
    proof {
        assert(jv_fields(fs@) == done);
        done = done + opt_obj_jfield("metadata"@, v.metadata);
    }
    if let Some(meta) = &email.metadata {
        let copy = fields_clone(meta);
        push_json_field(fs, "metadata", Json::Obj(copy));
    }
    proof {
        assert(jv_fields(fs@) == done);
        done = done + opt_atts_jfield("attachments"@, v.attachments);
    }
    if let Some(atts) = &email.attachments {
        let a = attachments_json(atts);
        push_json_field(fs, "attachments", a);
    }
    proof {
        assert(jv_fields(fs@) == done);
        done = done + opt_options_jfield("options"@, v.options);
    }
    if let Some(options) = &email.options {
        let o = email_options_json(options);
        push_json_field(fs, "options", o);
    }
    proof {
        assert(jv_fields(fs@) == done);
    }
}

/// The JSON document of a send-email body, as `email_body_fields`
/// says.
pub fn email_body_json(email: &CreateEmailOptions) -> (j: Json)
    ensures
        j@ == Jv::Obj(email_body_fields(email@)),
{
    let mut fs = email_body_head(email);
    email_body_template(&mut fs, email);
    email_body_tail(&mut fs, email);
    proof {
        assert(jv_fields(fs@) == email_body_fields(email@));
    }
    Json::Obj(fs)
}

// ── Response types ─────────────────────────────────────────────────

/// The view of an optional JSON document.
pub open spec fn opt_json_view(o: Option<Json>) -> Option<Jv> {
    match o {
        Some(j) => Some(j@),
        None => None,
    }
}

/// Successful response from sending an email.
#[derive(Debug, Clone)]
pub struct SendEmailResponse {
    /// Unique request ID for the transmission.
    pub request_id: String,
    /// Number of accepted recipients.
    pub accepted: u32,
    /// Number of rejected recipients.
    pub rejected: u32,
}

/// The model of a send response.
pub struct SendEmailResponseV {
    pub request_id: Seq<char>,
    pub accepted: u32,
    pub rejected: u32,
}

impl View for SendEmailResponse {
    type V = SendEmailResponseV;

    open spec fn view(&self) -> SendEmailResponseV {
        SendEmailResponseV {
            request_id: self.request_id@,
            accepted: self.accepted,
            rejected: self.rejected,
        }
    }
}

impl FromJson for SendEmailResponse {
    open spec fn of_jv(j: Jv) -> Option<SendEmailResponseV> {
        match j {
            Jv::Obj(fs) => match (str_of(lookup(fs, "request_id"@)), u32_field_of(lookup(
                fs, "accepted"@)), u32_field_of(lookup(fs, "rejected"@))) {
                (Some(request_id), Some(accepted), Some(rejected)) => Some(
                    SendEmailResponseV { request_id, accepted, rejected },
                ),
                _ => None,
            },
            _ => None,
        }
    }

    fn from_json(j: &Json) -> (r: Option<SendEmailResponse>) {
        match j {
            Json::Obj(fs) => {
                let request_id = match get_str(fs, "request_id") {
                    Some(x) => x,
                    None => {
                        return None;
                    },
                };
                let accepted = match get_u32(fs, "accepted") {
                    Some(x) => x,
                    None => {
                        return None;
                    },
                };
                let rejected = match get_u32(fs, "rejected") {
                    Some(x) => x,
                    None => {
                        return None;
                    },
                };
                Some(SendEmailResponse { request_id, accepted, rejected })
            },
            _ => None,
        }
    }
}

/// Pagination metadata for list responses (cursor-style).
#[derive(Debug, Clone)]
pub struct Pagination {
    /// Cursor for fetching the next page, if available.
    pub next_cursor: Option<String>,
    /// Number of results per page.
    pub per_page: u32,
}

/// The model of cursor pagination metadata.
pub struct PaginationV {
    pub next_cursor: Option<Seq<char>>,
    pub per_page: u32,
}

impl View for Pagination {
    type V = PaginationV;

    open spec fn view(&self) -> PaginationV {
        PaginationV { next_cursor: opt_str_view(self.next_cursor), per_page: self.per_page }
    }
}

impl FromJson for Pagination {
    open spec fn of_jv(j: Jv) -> Option<PaginationV> {
        match j {
            Jv::Obj(fs) => match (opt_str_of(lookup(fs, "next_cursor"@)), u32_field_of(lookup(
                fs, "per_page"@))) {
                (Some(next_cursor), Some(per_page)) => Some(
                    PaginationV { next_cursor, per_page },
                ),
                _ => None,
            },
            _ => None,
        }
    }

    fn from_json(j: &Json) -> (r: Option<Pagination>) {
        match j {
            Json::Obj(fs) => {
                let next_cursor = match get_opt_str(fs, "next_cursor") {
                    Some(x) => x,
                    None => {
                        return None;
                    },
                };
                let per_page = match get_u32(fs, "per_page") {
                    Some(x) => x,
                    None => {
                        return None;
                    },
                };
                Some(Pagination { next_cursor, per_page })
            },
            _ => None,
        }
    }
}

/// A sent email event (returned from the list endpoint).
#[derive(Debug, Clone)]
pub struct EmailEvent {
    /// Unique event ID.
    pub event_id: String,
    /// Timestamp of the event.
    pub timestamp: String,
    /// Transmission request ID.
    pub request_id: String,
    /// Message ID.
    pub message_id: String,
    /// Email subject.
    pub subject: String,
    /// Sender email address.
    pub friendly_from: String,
    /// Sending domain.
    pub sending_domain: String,
    /// Recipient email address.
    pub rcpt_to: String,
    /// Raw recipient email address.
    pub raw_rcpt_to: String,
    /// Recipient domain.
    pub recipient_domain: String,
    /// Mailbox provider (e.g. "gmail").
    pub mailbox_provider: Option<String>,
    /// Mailbox provider region.
    pub mailbox_provider_region: Option<String>,
    /// Sending IP address.
    pub sending_ip: Option<String>,
    /// Whether click tracking is enabled.
    pub click_tracking: bool,
    /// Whether open tracking is enabled.
    pub open_tracking: bool,
    /// Whether this is a transactional email.
    pub transactional: bool,
    /// Message size in bytes.
    pub msg_size: Option<u64>,
    /// Injection time.
    pub injection_time: Option<String>,
    /// Recipient metadata.
    pub rcpt_meta: Option<Json>,
}

/// The model of a sent email event.
pub struct EmailEventV {
    pub event_id: Seq<char>,
    pub timestamp: Seq<char>,
    pub request_id: Seq<char>,
    pub message_id: Seq<char>,
    pub subject: Seq<char>,
    pub friendly_from: Seq<char>,
    pub sending_domain: Seq<char>,
    pub rcpt_to: Seq<char>,
    pub raw_rcpt_to: Seq<char>,
    pub recipient_domain: Seq<char>,
    pub mailbox_provider: Option<Seq<char>>,
    pub mailbox_provider_region: Option<Seq<char>>,
    pub sending_ip: Option<Seq<char>>,
    pub click_tracking: bool,
    pub open_tracking: bool,
    pub transactional: bool,
    pub msg_size: Option<u64>,
    pub injection_time: Option<Seq<char>>,
    pub rcpt_meta: Option<Jv>,
}

impl View for EmailEvent {
    type V = EmailEventV;

    open spec fn view(&self) -> EmailEventV {
        EmailEventV {
            event_id: self.event_id@,
            timestamp: self.timestamp@,
            request_id: self.request_id@,
            message_id: self.message_id@,
            subject: self.subject@,
            friendly_from: self.friendly_from@,
            sending_domain: self.sending_domain@,
            rcpt_to: self.rcpt_to@,
            raw_rcpt_to: self.raw_rcpt_to@,
            recipient_domain: self.recipient_domain@,
            mailbox_provider: opt_str_view(self.mailbox_provider),
            mailbox_provider_region: opt_str_view(self.mailbox_provider_region),
            sending_ip: opt_str_view(self.sending_ip),
            click_tracking: self.click_tracking,
            open_tracking: self.open_tracking,
            transactional: self.transactional,
            msg_size: self.msg_size,
            injection_time: opt_str_view(self.injection_time),
            rcpt_meta: opt_json_view(self.rcpt_meta),
        }
    }
}

impl FromJson for EmailEvent {
    open spec fn of_jv(j: Jv) -> Option<EmailEventV> {
        match j {
            Jv::Obj(fs) => match (str_of(lookup(fs, "event_id"@)), str_of(lookup(
                fs, "timestamp"@)), str_of(lookup(fs, "request_id"@)), str_of(lookup(
                fs, "message_id"@)), str_of(lookup(fs, "subject"@)), str_of(lookup(
                fs, "friendly_from"@)), str_of(lookup(fs, "sending_domain"@)), str_of(lookup(
                fs, "rcpt_to"@)), str_of(lookup(fs, "raw_rcpt_to"@)), str_of(lookup(
                fs, "recipient_domain"@))) {
                (Some(event_id), Some(timestamp), Some(request_id), Some(message_id), Some(
                subject), Some(friendly_from), Some(sending_domain), Some(rcpt_to), Some(
                raw_rcpt_to), Some(recipient_domain)) => match (opt_str_of(lookup(
                    fs, "mailbox_provider"@)), opt_str_of(lookup(
                    fs, "mailbox_provider_region"@)), opt_str_of(lookup(fs, "sending_ip"@)),
                    bool_or_false_of(lookup(fs, "click_tracking"@)), bool_or_false_of(lookup(
                    fs, "open_tracking"@)), bool_or_false_of(lookup(fs, "transactional"@)),
                    opt_u64_of(lookup(fs, "msg_size"@)), opt_str_of(lookup(
                    fs, "injection_time"@))) {
                    (Some(mailbox_provider), Some(mailbox_provider_region), Some(sending_ip),
                    Some(click_tracking), Some(open_tracking), Some(transactional), Some(
                    msg_size), Some(injection_time)) => Some(
                        EmailEventV {
                            event_id,
                            timestamp,
                            request_id,
                            message_id,
                            subject,
                            friendly_from,
                            sending_domain,
                            rcpt_to,
                            raw_rcpt_to,
                            recipient_domain,
                            mailbox_provider,
                            mailbox_provider_region,
                            sending_ip,
                            click_tracking,
                            open_tracking,
                            transactional,
                            msg_size,
                            injection_time,
                            rcpt_meta: any_of(lookup(fs, "rcpt_meta"@)),
                        },
                    ),
                    _ => None,
                },
                _ => None,
            },
            _ => None,
        }
    }

    fn from_json(j: &Json) -> (r: Option<EmailEvent>) {
        match j {
            Json::Obj(fs) => {
                let event_id = match get_str(fs, "event_id") {
                    Some(x) => x,
                    None => {
                        return None;
                    },
                };
                let timestamp = match get_str(fs, "timestamp") {
                    Some(x) => x,
                    None => {
                        return None;
                    },
                };
                let request_id = match get_str(fs, "request_id") {
                    Some(x) => x,
                    None => {
                        return None;
                    },
                };
                let message_id = match get_str(fs, "message_id") {
                    Some(x) => x,
                    None => {
                        return None;
                    },
                };
                let subject = match get_str(fs, "subject") {
                    Some(x) => x,
                    None => {
                        return None;
                    },
                };
                let friendly_from = match get_str(fs, "friendly_from") {
                    Some(x) => x,
                    None => {
                        return None;
                    },
                };
                let sending_domain = match get_str(fs, "sending_domain") {
                    Some(x) => x,
                    None => {
                        return None;
                    },
                };
                let rcpt_to = match get_str(fs, "rcpt_to") {
                    Some(x) => x,
                    None => {
                        return None;
                    },
                };
                let raw_rcpt_to = match get_str(fs, "raw_rcpt_to") {
                    Some(x) => x,
                    None => {
                        return None;
                    },
                };
                let recipient_domain = match get_str(fs, "recipient_domain") {
                    Some(x) => x,
                    None => {
                        return None;
                    },
                };
                let mailbox_provider = match get_opt_str(fs, "mailbox_provider") {
                    Some(x) => x,
                    None => {
                        return None;
                    },
                };
                let mailbox_provider_region = match get_opt_str(fs, "mailbox_provider_region") {
                    Some(x) => x,
                    None => {
                        return None;
                    },
                };
                let sending_ip = match get_opt_str(fs, "sending_ip") {
                    Some(x) => x,
                    None => {
                        return None;
                    },
                };
                let click_tracking = match get_bool_or_false(fs, "click_tracking") {
                    Some(x) => x,
                    None => {
                        return None;
                    },
                };
                let open_tracking = match get_bool_or_false(fs, "open_tracking") {
                    Some(x) => x,
                    None => {
                        return None;
                    },
                };
                let transactional = match get_bool_or_false(fs, "transactional") {
                    Some(x) => x,
                    None => {
                        return None;
                    },
                };
                let msg_size = match get_opt_u64(fs, "msg_size") {
                    Some(x) => x,
                    None => {
                        return None;
                    },
                };
                let injection_time = match get_opt_str(fs, "injection_time") {
                    Some(x) => x,
                    None => {
                        return None;
                    },
                };
                let rcpt_meta = get_any(fs, "rcpt_meta");
                Some(
                    EmailEvent {
                        event_id,
                        timestamp,
                        request_id,
                        message_id,
                        subject,
                        friendly_from,
                        sending_domain,
                        rcpt_to,
                        raw_rcpt_to,
                        recipient_domain,
                        mailbox_provider,
                        mailbox_provider_region,
                        sending_ip,
                        click_tracking,
                        open_tracking,
                        transactional,
                        msg_size,
                        injection_time,
                        rcpt_meta,
                    },
                )
            },
            _ => None,
        }
    }
}

/// Response from listing sent emails.
#[derive(Debug, Clone)]
pub struct ListEmailsResponse {
    /// List of email events.
    pub results: Vec<EmailEvent>,
    /// Total number of matching emails.
    pub total_count: u64,
    /// Pagination information.
    pub pagination: Pagination,
}

/// The model of a list response.
pub struct ListEmailsResponseV {
    pub results: Seq<EmailEventV>,
    pub total_count: u64,
    pub pagination: PaginationV,
}

impl View for ListEmailsResponse {
    type V = ListEmailsResponseV;

    open spec fn view(&self) -> ListEmailsResponseV {
        ListEmailsResponseV {
            results: vec_view(self.results@),
            total_count: self.total_count,
            pagination: self.pagination@,
        }
    }
}

impl FromJson for ListEmailsResponse {
    open spec fn of_jv(j: Jv) -> Option<ListEmailsResponseV> {
        match j {
            Jv::Obj(fs) => match (arr_rec_of::<EmailEvent>(lookup(fs, "results"@)), u64_field_of(
                lookup(fs, "total_count"@)), rec_of::<Pagination>(lookup(fs, "pagination"@))) {
                (Some(results), Some(total_count), Some(pagination)) => Some(
                    ListEmailsResponseV { results, total_count, pagination },
                ),
                _ => None,
            },
            _ => None,
        }
    }

    fn from_json(j: &Json) -> (r: Option<ListEmailsResponse>) {
        match j {
            Json::Obj(fs) => {
                let results = match get_vec::<EmailEvent>(fs, "results") {
                    Some(x) => x,
                    None => {
                        return None;
                    },
                };
                let total_count = match get_u64(fs, "total_count") {
                    Some(x) => x,
                    None => {
                        return None;
                    },
                };
                let pagination = match get_rec::<Pagination>(fs, "pagination") {
                    Some(x) => x,
                    None => {
                        return None;
                    },
                };
                Some(ListEmailsResponse { results, total_count, pagination })
            },
            _ => None,
        }
    }
}

/// Detailed email event (returned from the get endpoint), tagged
/// with its event-type discriminator.
#[derive(Debug, Clone)]
pub struct EmailEventDetail {
    /// Unique event ID.
    pub event_id: String,
    /// Event type (e.g. "injection", "delivery", "bounce"); decoded
    /// from the wire field `type`.
    pub event_type: String,
    /// Timestamp of the event.
    pub timestamp: String,
    /// Transmission request ID.
    pub request_id: String,
    /// Message ID.
    pub message_id: String,
    /// Email subject.
    pub subject: String,
    /// Sender email address.
    pub friendly_from: String,
    /// Sending domain.
    pub sending_domain: String,
    /// Recipient email address.
    pub rcpt_to: String,
    /// Raw recipient email address.
    pub raw_rcpt_to: String,
    /// Recipient domain.
    pub recipient_domain: String,
    /// Mailbox provider.
    pub mailbox_provider: Option<String>,
    /// Mailbox provider region.
    pub mailbox_provider_region: Option<String>,
    /// Sending IP address.
    pub sending_ip: Option<String>,
    /// Whether click tracking is enabled.
    pub click_tracking: bool,
    /// Whether open tracking is enabled.
    pub open_tracking: bool,
    /// Whether this is a transactional email.
    pub transactional: bool,
    /// Message size in bytes.
    pub msg_size: Option<u64>,
    /// Injection time.
    pub injection_time: Option<String>,
    /// Bounce or failure reason.
    pub reason: Option<String>,
    /// Raw reason string.
    pub raw_reason: Option<String>,
    /// Error code for bounce/failure.
    pub error_code: Option<String>,
    /// Recipient metadata.
    pub rcpt_meta: Option<Json>,
}

/// The model of a detailed email event.
pub struct EmailEventDetailV {
    pub event_id: Seq<char>,
    pub event_type: Seq<char>,
    pub timestamp: Seq<char>,
    pub request_id: Seq<char>,
    pub message_id: Seq<char>,
    pub subject: Seq<char>,
    pub friendly_from: Seq<char>,
    pub sending_domain: Seq<char>,
    pub rcpt_to: Seq<char>,
    pub raw_rcpt_to: Seq<char>,
    pub recipient_domain: Seq<char>,
    pub mailbox_provider: Option<Seq<char>>,
    pub mailbox_provider_region: Option<Seq<char>>,
    pub sending_ip: Option<Seq<char>>,
    pub click_tracking: bool,
    pub open_tracking: bool,
    pub transactional: bool,
    pub msg_size: Option<u64>,
    pub injection_time: Option<Seq<char>>,
    pub reason: Option<Seq<char>>,
    pub raw_reason: Option<Seq<char>>,
    pub error_code: Option<Seq<char>>,
    pub rcpt_meta: Option<Jv>,
}

impl View for EmailEventDetail {
    type V = EmailEventDetailV;

    open spec fn view(&self) -> EmailEventDetailV {
        EmailEventDetailV {
            event_id: self.event_id@,
            event_type: self.event_type@,
            timestamp: self.timestamp@,
            request_id: self.request_id@,
            message_id: self.message_id@,
            subject: self.subject@,
            friendly_from: self.friendly_from@,
            sending_domain: self.sending_domain@,
            rcpt_to: self.rcpt_to@,
            raw_rcpt_to: self.raw_rcpt_to@,
            recipient_domain: self.recipient_domain@,
            mailbox_provider: opt_str_view(self.mailbox_provider),
            mailbox_provider_region: opt_str_view(self.mailbox_provider_region),
            sending_ip: opt_str_view(self.sending_ip),
            click_tracking: self.click_tracking,
            open_tracking: self.open_tracking,
            transactional: self.transactional,
            msg_size: self.msg_size,
            injection_time: opt_str_view(self.injection_time),
            reason: opt_str_view(self.reason),
            raw_reason: opt_str_view(self.raw_reason),
            error_code: opt_str_view(self.error_code),
            rcpt_meta: opt_json_view(self.rcpt_meta),
        }
    }
}

impl FromJson for EmailEventDetail {
    open spec fn of_jv(j: Jv) -> Option<EmailEventDetailV> {
        match j {
            Jv::Obj(fs) => match (str_of(lookup(fs, "event_id"@)), str_of(lookup(fs, "type"@)),
                str_of(lookup(fs, "timestamp"@)), str_of(lookup(fs, "request_id"@)), str_of(
                lookup(fs, "message_id"@)), str_of(lookup(fs, "subject"@)), str_of(lookup(
                fs, "friendly_from"@)), str_of(lookup(fs, "sending_domain"@)), str_of(lookup(
                fs, "rcpt_to"@)), str_of(lookup(fs, "raw_rcpt_to"@))) {
                (Some(event_id), Some(event_type), Some(timestamp), Some(request_id), Some(
                message_id), Some(subject), Some(friendly_from), Some(sending_domain), Some(
                rcpt_to), Some(raw_rcpt_to)) => match (str_of(lookup(fs, "recipient_domain"@)),
                    opt_str_of(lookup(fs, "mailbox_provider"@)), opt_str_of(lookup(
                    fs, "mailbox_provider_region"@)), opt_str_of(lookup(fs, "sending_ip"@)),
                    bool_or_false_of(lookup(fs, "click_tracking"@)), bool_or_false_of(lookup(
                    fs, "open_tracking"@)), bool_or_false_of(lookup(fs, "transactional"@)),
                    opt_u64_of(lookup(fs, "msg_size"@))) {
                    (Some(recipient_domain), Some(mailbox_provider), Some(
                    mailbox_provider_region), Some(sending_ip), Some(click_tracking), Some(
                    open_tracking), Some(transactional), Some(msg_size)) => match (opt_str_of(
                        lookup(fs, "injection_time"@)), opt_str_of(lookup(fs, "reason"@)),
                        opt_str_of(lookup(fs, "raw_reason"@)), opt_str_of(lookup(
                        fs, "error_code"@))) {
                        (Some(injection_time), Some(reason), Some(raw_reason), Some(
                        error_code)) => Some(
                            EmailEventDetailV {
                                event_id,
                                event_type,
                                timestamp,
                                request_id,
                                message_id,
                                subject,
                                friendly_from,
                                sending_domain,
                                rcpt_to,
                                raw_rcpt_to,
                                recipient_domain,
                                mailbox_provider,
                                mailbox_provider_region,
                                sending_ip,
                                click_tracking,
                                open_tracking,
                                transactional,
                                msg_size,
                                injection_time,
                                reason,
                                raw_reason,
                                error_code,
                                rcpt_meta: any_of(lookup(fs, "rcpt_meta"@)),
                            },
                        ),
                        _ => None,
                    },
                    _ => None,
                },
                _ => None,
            },
            _ => None,
        }
    }

    fn from_json(j: &Json) -> (r: Option<EmailEventDetail>) {
        match j {
            Json::Obj(fs) => {
                let event_id = match get_str(fs, "event_id") {
                    Some(x) => x,
                    None => {
                        return None;
                    },
                };
                let event_type = match get_str(fs, "type") {
                    Some(x) => x,
                    None => {
                        return None;
                    },
                };
                let timestamp = match get_str(fs, "timestamp") {
                    Some(x) => x,
                    None => {
                        return None;
                    },
                };
                let request_id = match get_str(fs, "request_id") {
                    Some(x) => x,
                    None => {
                        return None;
                    },
                };
                let message_id = match get_str(fs, "message_id") {
                    Some(x) => x,
                    None => {
                        return None;
                    },
                };
                let subject = match get_str(fs, "subject") {
                    Some(x) => x,
                    None => {
                        return None;
                    },
                };
                let friendly_from = match get_str(fs, "friendly_from") {
                    Some(x) => x,
                    None => {
                        return None;
                    },
                };
                let sending_domain = match get_str(fs, "sending_domain") {
                    Some(x) => x,
                    None => {
                        return None;
                    },
                };
                let rcpt_to = match get_str(fs, "rcpt_to") {
                    Some(x) => x,
                    None => {
                        return None;
                    },
                };
                let raw_rcpt_to = match get_str(fs, "raw_rcpt_to") {
                    Some(x) => x,
                    None => {
                        return None;
                    },
                };
                let recipient_domain = match get_str(fs, "recipient_domain") {
                    Some(x) => x,
                    None => {
                        return None;
                    },
                };
                let mailbox_provider = match get_opt_str(fs, "mailbox_provider") {
                    Some(x) => x,
                    None => {
                        return None;
                    },
                };
                let mailbox_provider_region = match get_opt_str(fs, "mailbox_provider_region") {
                    Some(x) => x,
                    None => {
                        return None;
                    },
                };
                let sending_ip = match get_opt_str(fs, "sending_ip") {
                    Some(x) => x,
                    None => {
                        return None;
                    },
                };
                let click_tracking = match get_bool_or_false(fs, "click_tracking") {
                    Some(x) => x,
                    None => {
                        return None;
                    },
                };
                let open_tracking = match get_bool_or_false(fs, "open_tracking") {
                    Some(x) => x,
                    None => {
                        return None;
                    },
                };
                let transactional = match get_bool_or_false(fs, "transactional") {
                    Some(x) => x,
                    None => {
                        return None;
                    },
                };
                let msg_size = match get_opt_u64(fs, "msg_size") {
                    Some(x) => x,
                    None => {
                        return None;
                    },
                };
                let injection_time = match get_opt_str(fs, "injection_time") {
                    Some(x) => x,
                    None => {
                        return None;
                    },
                };
                let reason = match get_opt_str(fs, "reason") {
                    Some(x) => x,
                    None => {
                        return None;
                    },
                };
                let raw_reason = match get_opt_str(fs, "raw_reason") {
                    Some(x) => x,
                    None => {
                        return None;
                    },
                };
                let error_code = match get_opt_str(fs, "error_code") {
                    Some(x) => x,
                    None => {
                        return None;
                    },
                };
                let rcpt_meta = get_any(fs, "rcpt_meta");
                Some(
                    EmailEventDetail {
                        event_id,
                        event_type,
                        timestamp,
                        request_id,
                        message_id,
                        subject,
                        friendly_from,
                        sending_domain,
                        rcpt_to,
                        raw_rcpt_to,
                        recipient_domain,
                        mailbox_provider,
                        mailbox_provider_region,
                        sending_ip,
                        click_tracking,
                        open_tracking,
                        transactional,
                        msg_size,
                        injection_time,
                        reason,
                        raw_reason,
                        error_code,
                        rcpt_meta,
                    },
                )
            },
            _ => None,
        }
    }
}

/// Response from getting the events of one email.
#[derive(Debug, Clone)]
pub struct GetEmailResponse {
    /// List of events for this email, in the order the server sent
    /// them.
    pub results: Vec<EmailEventDetail>,
    /// Total number of events.
    pub total_count: u64,
}

/// The model of a get response.
pub struct GetEmailResponseV {
    pub results: Seq<EmailEventDetailV>,
    pub total_count: u64,
}

impl View for GetEmailResponse {
    type V = GetEmailResponseV;

    open spec fn view(&self) -> GetEmailResponseV {
        GetEmailResponseV { results: vec_view(self.results@), total_count: self.total_count }
    }
}

impl FromJson for GetEmailResponse {
    open spec fn of_jv(j: Jv) -> Option<GetEmailResponseV> {
        match j {
            Jv::Obj(fs) => match (arr_rec_of::<EmailEventDetail>(lookup(fs, "results"@)),
                u64_field_of(lookup(fs, "total_count"@))) {
                (Some(results), Some(total_count)) => Some(
                    GetEmailResponseV { results, total_count },
                ),
                _ => None,
            },
            _ => None,
        }
    }

    fn from_json(j: &Json) -> (r: Option<GetEmailResponse>) {
        match j {
            Json::Obj(fs) => {
                let results = match get_vec::<EmailEventDetail>(fs, "results") {
                    Some(x) => x,
                    None => {
                        return None;
                    },
                };
                let total_count = match get_u64(fs, "total_count") {
                    Some(x) => x,
                    None => {
                        return None;
                    },
                };
                Some(GetEmailResponse { results, total_count })
            },
            _ => None,
        }
    }
}

// ── The service ────────────────────────────────────────────────────

/// The query pairs an email listing sends: each filter only when
/// set, in a fixed order.
pub open spec fn list_emails_query(v: ListEmailsOptionsV) -> Seq<(Seq<char>, Seq<char>)> {
    opt_u32_param("per_page"@, v.per_page) + opt_str_param("cursor"@, v.cursor) + opt_str_param(
        "recipients"@, v.recipients) + opt_str_param("from"@, v.from) + opt_str_param(
        "to"@, v.to)
}

/// What the send endpoint's success body decodes to.
pub open spec fn email_send_of(body: Seq<char>) -> Option<SendEmailResponseV> {
    match data_of(body) {
        Some(j) => SendEmailResponse::of_jv(j),
        None => None,
    }
}

/// What the list endpoint's success body decodes to.
pub open spec fn emails_list_of(body: Seq<char>) -> Option<ListEmailsResponseV> {
    match data_of(body) {
        Some(j) => ListEmailsResponse::of_jv(j),
        None => None,
    }
}

/// What the get endpoint's success body decodes to.
pub open spec fn email_get_of(body: Seq<char>) -> Option<GetEmailResponseV> {
    match data_of(body) {
        Some(j) => GetEmailResponse::of_jv(j),
        None => None,
    }
}

/// Forward-compatible decoding: a field under any name the send
/// receipt does not know leaves the decoding unchanged.
pub proof fn lemma_send_receipt_ignores_unknown(fields: Seq<(Seq<char>, Jv)>, extra: (Seq<char>,
    Jv))
    requires
        extra.0 != "request_id"@,
        extra.0 != "accepted"@,
        extra.0 != "rejected"@,
    ensures
        SendEmailResponse::of_jv(Jv::Obj(fields.push(extra))) == SendEmailResponse::of_jv(
            Jv::Obj(fields),
        ),
{
    crate::json::lemma_lookup_push(fields, extra, "request_id"@);
    crate::json::lemma_lookup_push(fields, extra, "accepted"@);
    crate::json::lemma_lookup_push(fields, extra, "rejected"@);
}

/// Fetching the same email twice against an unchanged server (the
/// same status and body both times) gives the same decoded value:
/// the result is a function of the response alone, so sequential
/// `get` calls are idempotent.
pub proof fn lemma_get_idempotent(
    body: Seq<char>,
    r1: Option<GetEmailResponseV>,
    r2: Option<GetEmailResponseV>,
)
    requires
        r1 == email_get_of(body),
        r2 == email_get_of(body),
    ensures
        r1 == r2,
{
}

/// A send body holds exactly the keys of the parts that were set:
/// the three required parts always, and each optional part exactly
/// when it was given a value. Nothing else ever appears.
pub proof fn lemma_email_body_keys(v: CreateEmailOptionsV, k: Seq<char>)
    ensures
        has_key(email_body_fields(v), k) <==> (k == "from"@ || k == "to"@ || k == "subject"@ || (
        v.from_name is Some && k == "from_name"@) || (v.html is Some && k == "html"@) || (
        v.text is Some && k == "text"@) || (v.reply_to is Some && k == "reply_to"@) || (
        v.template_slug is Some && k == "template_slug"@) || (v.template_version is Some && k
            == "template_version"@) || (v.project_id is Some && k == "project_id"@) || (
        v.substitution_data is Some && k == "substitution_data"@) || (v.metadata is Some && k
            == "metadata"@) || (v.attachments is Some && k == "attachments"@) || (
        v.options is Some && k == "options"@)),
{
    let s1 = seq![("from"@, Jv::Str(v.from))];
    let s2 = s1 + opt_str_jfield("from_name"@, v.from_name);
    let s3 = s2 + seq![("to"@, Jv::Arr(strs_jv(v.to)))];
    let s4 = s3 + seq![("subject"@, Jv::Str(v.subject))];
    let s5 = s4 + opt_str_jfield("html"@, v.html);
    let s6 = s5 + opt_str_jfield("text"@, v.text);
    let s7 = s6 + opt_strs_jfield("reply_to"@, v.reply_to);
    let s8 = s7 + opt_str_jfield("template_slug"@, v.template_slug);
    let s9 = s8 + opt_u32_jfield("template_version"@, v.template_version);
    let s10 = s9 + opt_u64_jfield("project_id"@, v.project_id);
    let s11 = s10 + opt_obj_jfield("substitution_data"@, v.substitution_data);
    let s12 = s11 + opt_obj_jfield("metadata"@, v.metadata);
    let s13 = s12 + opt_atts_jfield("attachments"@, v.attachments);
    let s14 = s13 + opt_options_jfield("options"@, v.options);
    assert(email_body_fields(v) == s14);
    lemma_has_key_single(("from"@, Jv::Str(v.from)), k);
    lemma_opt_field_key(opt_str_jfield("from_name"@, v.from_name), "from_name"@, k);
    lemma_has_key_single(("to"@, Jv::Arr(strs_jv(v.to))), k);
    lemma_has_key_single(("subject"@, Jv::Str(v.subject)), k);
    lemma_opt_field_key(opt_str_jfield("html"@, v.html), "html"@, k);
    lemma_opt_field_key(opt_str_jfield("text"@, v.text), "text"@, k);
    lemma_opt_field_key(opt_strs_jfield("reply_to"@, v.reply_to), "reply_to"@, k);
    lemma_opt_field_key(opt_str_jfield("template_slug"@, v.template_slug), "template_slug"@, k);
    lemma_opt_field_key(
        opt_u32_jfield("template_version"@, v.template_version),
        "template_version"@,
        k,
    );
    lemma_opt_field_key(opt_u64_jfield("project_id"@, v.project_id), "project_id"@, k);
    lemma_opt_field_key(
        opt_obj_jfield("substitution_data"@, v.substitution_data),
        "substitution_data"@,
        k,
    );
    lemma_opt_field_key(opt_obj_jfield("metadata"@, v.metadata), "metadata"@, k);
    lemma_opt_field_key(opt_atts_jfield("attachments"@, v.attachments), "attachments"@, k);
    lemma_opt_field_key(opt_options_jfield("options"@, v.options), "options"@, k);
    lemma_has_key_concat(s1, opt_str_jfield("from_name"@, v.from_name), k);
    lemma_has_key_concat(s2, seq![("to"@, Jv::Arr(strs_jv(v.to)))], k);
    lemma_has_key_concat(s3, seq![("subject"@, Jv::Str(v.subject))], k);
    lemma_has_key_concat(s4, opt_str_jfield("html"@, v.html), k);
    lemma_has_key_concat(s5, opt_str_jfield("text"@, v.text), k);
    lemma_has_key_concat(s6, opt_strs_jfield("reply_to"@, v.reply_to), k);
    lemma_has_key_concat(s7, opt_str_jfield("template_slug"@, v.template_slug), k);
    lemma_has_key_concat(s8, opt_u32_jfield("template_version"@, v.template_version), k);
    lemma_has_key_concat(s9, opt_u64_jfield("project_id"@, v.project_id), k);
    lemma_has_key_concat(s10, opt_obj_jfield("substitution_data"@, v.substitution_data), k);
    lemma_has_key_concat(s11, opt_obj_jfield("metadata"@, v.metadata), k);
    lemma_has_key_concat(s12, opt_atts_jfield("attachments"@, v.attachments), k);
    lemma_has_key_concat(s13, opt_options_jfield("options"@, v.options), k);
}

/// The key of an optional object-field segment: present exactly when
/// the option is set, and then under its own name.
proof fn lemma_opt_field_key(seg: Seq<(Seq<char>, Jv)>, name: Seq<char>, k: Seq<char>)
    requires
        seg.len() == 0 || (seg.len() == 1 && seg[0].0 == name),
    ensures
        has_key(seg, k) <==> (seg.len() == 1 && name == k),
{
    if seg.len() == 1 {
        lemma_has_key_single(seg[0], k);
        assert(seq![seg[0]] =~= seg);
    }
}

/// Service for the `/emails` endpoints.
#[derive(Debug, Clone)]
pub struct EmailsSvc(pub Config);

impl EmailsSvc {
    /// The request that sends a transactional email: a POST whose
    /// body carries the options, as `email_body` says.
    pub fn send_request(&self, email: &CreateEmailOptions) -> (r: OutboundRequest)
        ensures
            built_request_with_body(self.0, Method::Post, "/emails"@, email_body(email@), r),
    {
        let bodyj = email_body_json(email);
        let body = render_string(&bodyj);
        let mut r = self.0.build(Method::Post, "/emails");
        r.body = Some(body);
        r
    }

    /// Interprets the response to a send request.
    pub fn send_response(&self, status: u16, body: &str) -> (r: Result<SendEmailResponse, Error>)
        ensures
            !is_success(status) ==> (r matches Err(e) && classified_err(status, body@, e)),
            is_success(status) ==> match email_send_of(body@) {
                Some(d) => r matches Ok(v) && v@ == d,
                None => r matches Err(e) && (e matches Error::Parse(t) && t@ == parse_fail_text(
                    status,
                    body@,
                )),
            },
    {
        match self.0.classify(status, body) {
            Some(e) => Err(e),
            None => match success_data(body) {
                Some(d) => match SendEmailResponse::from_json(&d) {
                    Some(v) => Ok(v),
                    None => Err(Error::Parse(parse_failure_text(status, body))),
                },
                None => Err(Error::Parse(parse_failure_text(status, body))),
            },
        }
    }

    /// The request that lists sent emails: each present filter
    /// appears in the query with its literal representation; absent
    /// filters contribute nothing.
    pub fn list_request(&self, options: &ListEmailsOptions) -> (r: OutboundRequest)
        ensures
            request_shape(self.0, Method::Get, "/emails"@, list_emails_query(options@), None, r),
    {
        let mut r = self.0.build(Method::Get, "/emails");
        let mut q: Vec<(String, String)> = Vec::new();
        if let Some(per_page) = options.per_page {
            q.push(("per_page".to_owned(), u32_dec_string(per_page)));
        }
        if let Some(cursor) = &options.cursor {
            q.push(("cursor".to_owned(), cursor.clone()));
        }
        if let Some(recipients) = &options.recipients {
            q.push(("recipients".to_owned(), recipients.clone()));
        }
        if let Some(from) = &options.from {
            q.push(("from".to_owned(), from.clone()));
        }
        if let Some(to) = &options.to {
            q.push(("to".to_owned(), to.clone()));
        }
        proof {
            assert(crate::config::qpairs_view(q@) =~= list_emails_query(options@));
        }
        r.query = q;
        r
    }

    /// Interprets the response to a list request.
    pub fn list_response(&self, status: u16, body: &str) -> (r: Result<ListEmailsResponse, Error>)
        ensures
            !is_success(status) ==> (r matches Err(e) && classified_err(status, body@, e)),
            is_success(status) ==> match emails_list_of(body@) {
                Some(d) => r matches Ok(v) && v@ == d,
                None => r matches Err(e) && (e matches Error::Parse(t) && t@ == parse_fail_text(
                    status,
                    body@,
                )),
            },
    {
        match self.0.classify(status, body) {
            Some(e) => Err(e),
            None => match success_data(body) {
                Some(d) => match ListEmailsResponse::from_json(&d) {
                    Some(v) => Ok(v),
                    None => Err(Error::Parse(parse_failure_text(status, body))),
                },
                None => Err(Error::Parse(parse_failure_text(status, body))),
            },
        }
    }

    /// The request that retrieves the events of one email by its
    /// request ID.
    pub fn get_request(&self, request_id: &str) -> (r: OutboundRequest)
        ensures
            crate::config::built_request(self.0, Method::Get, "/emails/"@ + request_id@, r),
    {
        let mut path: Vec<char> = Vec::new();
        push_str_chars(&mut path, "/emails/");
        push_str_chars(&mut path, request_id);
        let p = string_from_chars(&path);
        self.0.build(Method::Get, p.as_str())
    }

    /// Interprets the response to a get request.
    pub fn get_response(&self, status: u16, body: &str) -> (r: Result<GetEmailResponse, Error>)
        ensures
            !is_success(status) ==> (r matches Err(e) && classified_err(status, body@, e)),
            is_success(status) ==> match email_get_of(body@) {
                Some(d) => r matches Ok(v) && v@ == d,
                None => r matches Err(e) && (e matches Error::Parse(t) && t@ == parse_fail_text(
                    status,
                    body@,
                )),
            },
    {
        match self.0.classify(status, body) {
            Some(e) => Err(e),
            None => match success_data(body) {
                Some(d) => match GetEmailResponse::from_json(&d) {
                    Some(v) => Ok(v),
                    None => Err(Error::Parse(parse_failure_text(status, body))),
                },
                None => Err(Error::Parse(parse_failure_text(status, body))),
            },
        }
    }
}

} // verus!
