//! The endpoint services against canned responses: requests built,
//! success bodies decoded, failures classified.

use lettr::client::Lettr;
use lettr::emails::{Attachment, CreateEmailOptions, ListEmailsOptions};
use lettr::error::Error;
use lettr::json::Json;
use lettr::templates::{CreateTemplateOptions, ListTemplatesOptions};

fn client() -> Lettr {
    Lettr::new("test-key")
}

#[test]
fn create_domain_scenario() {
    let c = client();
    let r = c.domains.create_request("example.com");
    assert_eq!(r.url, "https://app.lettr.com/api/domains");
    assert_eq!(r.method.to_text(), "POST");
    assert_eq!(r.body.as_deref(), Some("{\"domain\":\"example.com\"}"));
    let body = "{\"message\":\"ok\",\"data\":{\"domain\":\"example.com\",\"status\":\"pending\",\"status_label\":\"Pending\",\"dkim\":null}}";
    let out = c.domains.create_response(200, body).expect("expected success");
    assert_eq!(out.domain, "example.com");
    assert_eq!(out.status, "pending");
    assert_eq!(out.status_label, "Pending");
    assert!(out.dkim.is_none());
}

#[test]
fn create_domain_tolerates_unknown_fields() {
    let c = client();
    let body = "{\"message\":\"ok\",\"data\":{\"domain\":\"example.com\",\"status\":\"pending\",\"status_label\":\"Pending\",\"dkim\":null,\"brand_new_field\":[1,2,3]},\"extra\":true}";
    let out = c.domains.create_response(200, body).expect("expected success");
    assert_eq!(out.status, "pending");
}

#[test]
fn list_domains_decodes_the_inner_collection() {
    let c = client();
    let r = c.domains.list_request();
    assert_eq!(r.url, "https://app.lettr.com/api/domains");
    let body = "{\"message\":\"ok\",\"data\":{\"domains\":[{\"domain\":\"a.com\",\"status\":\"approved\",\"status_label\":\"Approved\",\"can_send\":true,\"cname_status\":\"valid\",\"dkim_status\":null,\"created_at\":\"t1\",\"updated_at\":\"t2\"}]}}";
    let ds = c.domains.list_response(200, body).expect("expected success");
    assert_eq!(ds.len(), 1);
    assert_eq!(ds[0].domain, "a.com");
    assert!(ds[0].can_send);
    assert_eq!(ds[0].cname_status.as_deref(), Some("valid"));
    assert!(ds[0].dkim_status.is_none());
}

#[test]
fn get_domain_decodes_nested_dns_records() {
    let c = client();
    let r = c.domains.get_request("a.com");
    assert_eq!(r.url, "https://app.lettr.com/api/domains/a.com");
    let body = "{\"message\":\"ok\",\"data\":{\"domain\":\"a.com\",\"status\":\"approved\",\"status_label\":\"Approved\",\"can_send\":true,\"cname_status\":null,\"dkim_status\":\"valid\",\"tracking_domain\":null,\"dns\":{\"dkim\":{\"selector\":\"sel\",\"public\":\"key\"}},\"created_at\":\"t1\",\"updated_at\":\"t2\"}}";
    let d = c.domains.get_response(200, body).expect("expected success");
    assert_eq!(d.domain, "a.com");
    let dkim = d.dns.unwrap().dkim.unwrap();
    assert_eq!(dkim.selector, "sel");
    assert_eq!(dkim.public, "key");
}

#[test]
fn delete_domain_discards_the_body() {
    let c = client();
    let r = c.domains.delete_request("a.com");
    assert_eq!(r.url, "https://app.lettr.com/api/domains/a.com");
    assert_eq!(r.method.to_text(), "DELETE");
    assert!(c.domains.delete_response(204, "").is_ok());
    assert!(c.domains.delete_response(200, "anything at all").is_ok());
    match c.domains.delete_response(404, "{\"message\":\"no\",\"error_code\":\"nf\"}") {
        Err(Error::Api(a)) => assert_eq!(a.error_code.as_deref(), Some("nf")),
        other => panic!("unexpected: {:?}", other),
    }
}

#[test]
fn send_email_scenario_yields_validation_errors() {
    let c = client();
    let email = CreateEmailOptions::new(
        "sender@example.com",
        vec!["user@example.com".to_owned()],
        "Hello!",
    );
    let r = c.emails.send_request(&email);
    assert_eq!(r.url, "https://app.lettr.com/api/emails");
    let body = "{\"message\":\"Invalid\",\"errors\":{\"to\":[\"is required\"]}}";
    match c.emails.send_response(422, body) {
        Err(Error::Validation(v)) => {
            assert_eq!(v.message, "Invalid");
            assert_eq!(v.messages_for("to").unwrap().as_slice(), ["is required"]);
        },
        other => panic!("unexpected: {:?}", other),
    }
}

#[test]
fn send_email_decodes_the_receipt() {
    let c = client();
    let body = "{\"message\":\"ok\",\"data\":{\"request_id\":\"req-1\",\"accepted\":2,\"rejected\":0}}";
    let out = c.emails.send_response(200, body).expect("expected success");
    assert_eq!(out.request_id, "req-1");
    assert_eq!(out.accepted, 2);
    assert_eq!(out.rejected, 0);
}

#[test]
fn email_round_trip_body_serialization() {
    let email = CreateEmailOptions::new(
        "sender@example.com",
        vec!["user@example.com".to_owned()],
        "Hi",
    )
        .with_html("<b>Hi</b>")
        .with_text("Hi")
        .with_reply_to("reply@example.com")
        .with_attachment(Attachment::new("invoice.pdf", "application/pdf", "QUJD"))
        .with_substitution("name", Json::string("Ada"))
        .with_click_tracking(true)
        .with_open_tracking(false);
    let c = client();
    let r = c.emails.send_request(&email);
    let body = r.body.expect("body missing");
    let expected = "{\"from\":\"sender@example.com\",\"to\":[\"user@example.com\"],\"subject\":\"Hi\",\"html\":\"<b>Hi</b>\",\"text\":\"Hi\",\"reply_to\":[\"reply@example.com\"],\"substitution_data\":{\"name\":\"Ada\"},\"attachments\":[{\"name\":\"invoice.pdf\",\"type\":\"application/pdf\",\"data\":\"QUJD\"}],\"options\":{\"click_tracking\":true,\"open_tracking\":false}}";
    assert_eq!(body, expected);
    assert!(!body.contains("from_name"));
    assert!(!body.contains("template_slug"));
    assert!(!body.contains("template_version"));
    assert!(!body.contains("project_id"));
    assert!(!body.contains("metadata"));
    assert!(!body.contains("transactional"));
    assert!(!body.contains("content_type"));
    assert!(body.contains("\"type\":\"application/pdf\""));
}

#[test]
fn list_emails_query_includes_only_present_filters() {
    let c = client();
    let none = c.emails.list_request(&ListEmailsOptions::new());
    assert!(none.query.is_empty());
    let opts = ListEmailsOptions::new().per_page(10).cursor("abc").recipients(
        "user@example.com",
    );
    let r = c.emails.list_request(&opts);
    assert_eq!(r.query.len(), 3);
    assert_eq!(r.query[0], ("per_page".to_owned(), "10".to_owned()));
    assert_eq!(r.query[1], ("cursor".to_owned(), "abc".to_owned()));
    assert_eq!(r.query[2], ("recipients".to_owned(), "user@example.com".to_owned()));
    let dated = ListEmailsOptions::new().from_date("2024-01-01").to_date("2024-02-01");
    let r2 = c.emails.list_request(&dated);
    assert_eq!(r2.query.len(), 2);
    assert_eq!(r2.query[0], ("from".to_owned(), "2024-01-01".to_owned()));
    assert_eq!(r2.query[1], ("to".to_owned(), "2024-02-01".to_owned()));
}

#[test]
fn list_emails_decodes_events_and_pagination() {
    let c = client();
    let body = "{\"message\":\"ok\",\"data\":{\"results\":[{\"event_id\":\"e1\",\"timestamp\":\"t\",\"request_id\":\"r1\",\"message_id\":\"m1\",\"subject\":\"s\",\"friendly_from\":\"f\",\"sending_domain\":\"d\",\"rcpt_to\":\"u\",\"raw_rcpt_to\":\"u\",\"recipient_domain\":\"rd\",\"click_tracking\":true,\"msg_size\":512,\"rcpt_meta\":{\"k\":1}}],\"total_count\":1,\"pagination\":{\"next_cursor\":\"n\",\"per_page\":25}}}";
    let out = c.emails.list_response(200, body).expect("expected success");
    assert_eq!(out.total_count, 1);
    assert_eq!(out.pagination.next_cursor.as_deref(), Some("n"));
    assert_eq!(out.pagination.per_page, 25);
    let e = &out.results[0];
    assert_eq!(e.event_id, "e1");
    assert!(e.click_tracking);
    assert!(!e.open_tracking);
    assert!(!e.transactional);
    assert_eq!(e.msg_size, Some(512));
    assert!(e.mailbox_provider.is_none());
    assert!(e.rcpt_meta.is_some());
}

#[test]
fn get_email_decodes_typed_events_idempotently() {
    let c = client();
    let r = c.emails.get_request("req-9");
    assert_eq!(r.url, "https://app.lettr.com/api/emails/req-9");
    let body = "{\"message\":\"ok\",\"data\":{\"results\":[{\"event_id\":\"e1\",\"type\":\"delivery\",\"timestamp\":\"t\",\"request_id\":\"req-9\",\"message_id\":\"m\",\"subject\":\"s\",\"friendly_from\":\"f\",\"sending_domain\":\"d\",\"rcpt_to\":\"u\",\"raw_rcpt_to\":\"u\",\"recipient_domain\":\"rd\",\"reason\":null}],\"total_count\":1}}";
    let first = c.emails.get_response(200, body).expect("expected success");
    let second = c.emails.get_response(200, body).expect("expected success");
    assert_eq!(first.total_count, second.total_count);
    assert_eq!(first.results.len(), second.results.len());
    assert_eq!(first.results[0].event_id, second.results[0].event_id);
    assert_eq!(first.results[0].event_type, "delivery");
    assert!(first.results[0].reason.is_none());
}

#[test]
fn list_templates_query_and_decode() {
    let c = client();
    let opts = ListTemplatesOptions::new().project_id(7).per_page(10).page(2);
    let r = c.templates.list_request(&opts);
    assert_eq!(r.url, "https://app.lettr.com/api/templates");
    assert_eq!(r.query.len(), 3);
    assert_eq!(r.query[0], ("project_id".to_owned(), "7".to_owned()));
    assert_eq!(r.query[1], ("per_page".to_owned(), "10".to_owned()));
    assert_eq!(r.query[2], ("page".to_owned(), "2".to_owned()));
    let bare = c.templates.list_request(&ListTemplatesOptions::new());
    assert!(bare.query.is_empty());
    let body = "{\"message\":\"ok\",\"data\":{\"templates\":[{\"id\":4,\"name\":\"Welcome\",\"slug\":\"welcome\",\"project_id\":7,\"folder_id\":null,\"created_at\":\"t1\",\"updated_at\":\"t2\"}],\"pagination\":{\"total\":1,\"per_page\":10,\"current_page\":2,\"last_page\":3}}}";
    let out = c.templates.list_response(200, body).expect("expected success");
    assert_eq!(out.templates[0].id, 4);
    assert_eq!(out.templates[0].slug, "welcome");
    assert!(out.templates[0].folder_id.is_none());
    assert_eq!(out.pagination.total, 1);
    assert_eq!(out.pagination.last_page, 3);
}

#[test]
fn create_template_body_and_decode() {
    let c = client();
    let opts = CreateTemplateOptions::new("Welcome Email").with_html("<h1>Hello {{NAME}}!</h1>");
    let r = c.templates.create_request(&opts);
    assert_eq!(
        r.body.as_deref(),
        Some("{\"name\":\"Welcome Email\",\"html\":\"<h1>Hello {{NAME}}!</h1>\"}"),
    );
    let full = CreateTemplateOptions::new("N").with_json("{}").with_project_id(1).with_folder_id(
        2,
    );
    let r2 = c.templates.create_request(&full);
    assert_eq!(
        r2.body.as_deref(),
        Some("{\"name\":\"N\",\"json\":\"{}\",\"project_id\":1,\"folder_id\":2}"),
    );
    let body = "{\"message\":\"ok\",\"data\":{\"id\":9,\"name\":\"N\",\"slug\":\"n\",\"project_id\":1,\"folder_id\":2,\"active_version\":1,\"merge_tags\":[{\"key\":\"NAME\",\"required\":true}],\"created_at\":\"t\"}}";
    let out = c.templates.create_response(200, body).expect("expected success");
    assert_eq!(out.id, 9);
    assert_eq!(out.merge_tags.len(), 1);
    assert_eq!(out.merge_tags[0].key, "NAME");
    assert!(out.merge_tags[0].required);
    let body_no_tags = "{\"message\":\"ok\",\"data\":{\"id\":9,\"name\":\"N\",\"slug\":\"n\",\"project_id\":1,\"folder_id\":null,\"active_version\":1,\"created_at\":\"t\"}}";
    let out2 = c.templates.create_response(200, body_no_tags).expect("expected success");
    assert!(out2.merge_tags.is_empty());
}

#[test]
fn webhooks_list_and_get() {
    let c = client();
    let r = c.webhooks.list_request();
    assert_eq!(r.url, "https://app.lettr.com/api/webhooks");
    let body = "{\"message\":\"ok\",\"data\":{\"webhooks\":[{\"id\":\"w1\",\"name\":\"events\",\"url\":\"https://example.com/hook\",\"enabled\":true,\"event_types\":[\"delivery\",\"bounce\"],\"auth_type\":\"none\",\"has_auth_credentials\":false,\"last_successful_at\":null,\"last_failure_at\":null,\"last_status\":\"success\"}]}}";
    let ws = c.webhooks.list_response(200, body).expect("expected success");
    assert_eq!(ws.len(), 1);
    assert_eq!(ws[0].id, "w1");
    assert!(ws[0].enabled);
    assert_eq!(
        ws[0].event_types.as_ref().unwrap().as_slice(),
        ["delivery".to_owned(), "bounce".to_owned()],
    );
    assert_eq!(ws[0].last_status.as_deref(), Some("success"));
    let g = c.webhooks.get_request("w1");
    assert_eq!(g.url, "https://app.lettr.com/api/webhooks/w1");
    let single = "{\"message\":\"ok\",\"data\":{\"id\":\"w1\",\"name\":\"events\",\"url\":\"u\",\"enabled\":false,\"event_types\":null,\"auth_type\":\"basic\",\"has_auth_credentials\":true,\"last_successful_at\":\"t\",\"last_failure_at\":null,\"last_status\":null}}";
    let w = c.webhooks.get_response(200, single).expect("expected success");
    assert!(!w.enabled);
    assert!(w.event_types.is_none());
    assert_eq!(w.last_successful_at.as_deref(), Some("t"));
}

#[test]
fn health_and_auth_check() {
    let c = client();
    let h = c.health_request();
    assert_eq!(h.url, "https://app.lettr.com/api/health");
    let body = "{\"message\":\"ok\",\"data\":{\"status\":\"ok\",\"timestamp\":\"2024-05-01T00:00:00Z\"}}";
    let out = c.health_response(200, body).expect("expected success");
    assert_eq!(out.message, "ok");
    assert_eq!(out.data.status, "ok");
    let a = c.auth_check_request();
    assert_eq!(a.url, "https://app.lettr.com/api/auth/check");
    let abody = "{\"message\":\"ok\",\"data\":{\"team_id\":42,\"timestamp\":\"t\"}}";
    let auth = c.auth_check_response(200, abody).expect("expected success");
    assert_eq!(auth.data.team_id, 42);
}

#[test]
fn auth_check_reads_negative_team_ids() {
    let c = client();
    let body = "{\"message\":\"ok\",\"data\":{\"team_id\":-7,\"timestamp\":\"t\"}}";
    let out = c.auth_check_response(200, body).expect("expected success");
    assert_eq!(out.data.team_id, -7);
    let bad = "{\"message\":\"ok\",\"data\":{\"team_id\":4.5,\"timestamp\":\"t\"}}";
    assert!(matches!(c.auth_check_response(200, bad), Err(Error::Parse(_))));
}

#[test]
fn probe_failures_are_classified_like_any_other() {
    let c = client();
    let body = "{\"message\":\"bad key\",\"error_code\":\"unauthorized\"}";
    match c.auth_check_response(401, body) {
        Err(Error::Api(a)) => assert_eq!(a.error_code.as_deref(), Some("unauthorized")),
        other => panic!("unexpected: {:?}", other),
    }
    match c.health_response(503, "down") {
        Err(Error::Parse(t)) => assert_eq!(t, "HTTP 503: down"),
        other => panic!("unexpected: {:?}", other),
    }
}

#[test]
fn success_body_that_misses_its_shape_is_a_parse_failure() {
    let c = client();
    let body = "{\"message\":\"ok\",\"data\":{\"wrong\":true}}";
    match c.domains.create_response(200, body) {
        Err(Error::Parse(t)) => assert!(t.starts_with("HTTP 200: ")),
        other => panic!("unexpected: {:?}", other),
    }
    let no_envelope = "[1,2,3]";
    assert!(matches!(c.emails.send_response(201, no_envelope), Err(Error::Parse(_))));
}

#[test]
fn client_base_url_override_reaches_every_service() {
    let c = client().with_base_url("http://localhost:9999");
    assert_eq!(c.domains.list_request().url, "http://localhost:9999/domains");
    assert_eq!(c.webhooks.list_request().url, "http://localhost:9999/webhooks");
    assert_eq!(c.health_request().url, "http://localhost:9999/health");
}
