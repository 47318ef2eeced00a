//! The option builders, field by field, through the serialized body.

use lettr::client::Lettr;
use lettr::emails::{CreateEmailOptions, EmailOptions, ListEmailsOptions};
use lettr::json::Json;

fn body_of(email: &CreateEmailOptions) -> String {
    Lettr::new("k").emails.send_request(email).body.expect("body missing")
}

fn base() -> CreateEmailOptions {
    CreateEmailOptions::new("f@x.com", vec!["t@x.com".to_owned()], "S")
}

#[test]
fn minimal_body_has_only_required_fields() {
    assert_eq!(
        body_of(&base()),
        "{\"from\":\"f@x.com\",\"to\":[\"t@x.com\"],\"subject\":\"S\"}",
    );
}

#[test]
fn from_name_and_template_fields_appear_when_set() {
    let e = base().with_from_name("Sender").with_template("welcome").with_template_version(3)
        .with_project_id(12);
    assert_eq!(
        body_of(&e),
        "{\"from\":\"f@x.com\",\"from_name\":\"Sender\",\"to\":[\"t@x.com\"],\"subject\":\"S\",\"template_slug\":\"welcome\",\"template_version\":3,\"project_id\":12}",
    );
}

#[test]
fn repeated_reply_to_accumulates() {
    let e = base().with_reply_to("a@x.com").with_reply_to("b@x.com");
    assert_eq!(
        body_of(&e),
        "{\"from\":\"f@x.com\",\"to\":[\"t@x.com\"],\"subject\":\"S\",\"reply_to\":[\"a@x.com\",\"b@x.com\"]}",
    );
}

#[test]
fn substitution_and_metadata_entries_accumulate() {
    let e = base().with_substitution("a", Json::string("1")).with_substitution(
        "b",
        Json::num_u64(2),
    ).with_metadata_entry("m", Json::Bool(true));
    assert_eq!(
        body_of(&e),
        "{\"from\":\"f@x.com\",\"to\":[\"t@x.com\"],\"subject\":\"S\",\"substitution_data\":{\"a\":\"1\",\"b\":2},\"metadata\":{\"m\":true}}",
    );
}

#[test]
fn repeated_substitution_key_replaces_the_value() {
    let e = base().with_substitution("a", Json::string("1")).with_substitution(
        "b",
        Json::Bool(true),
    ).with_substitution("a", Json::string("2"));
    assert_eq!(
        body_of(&e),
        "{\"from\":\"f@x.com\",\"to\":[\"t@x.com\"],\"subject\":\"S\",\"substitution_data\":{\"a\":\"2\",\"b\":true}}",
    );
}

#[test]
fn repeated_metadata_key_replaces_the_value() {
    let e = base().with_metadata_entry("m", Json::num_u64(1)).with_metadata_entry(
        "m",
        Json::num_u64(2),
    );
    assert_eq!(
        body_of(&e),
        "{\"from\":\"f@x.com\",\"to\":[\"t@x.com\"],\"subject\":\"S\",\"metadata\":{\"m\":2}}",
    );
}

#[test]
fn wholesale_substitution_data_replaces() {
    let data = vec![("k".to_owned(), Json::Null)];
    let e = base().with_substitution("old", Json::string("x")).with_substitution_data(data);
    assert_eq!(
        body_of(&e),
        "{\"from\":\"f@x.com\",\"to\":[\"t@x.com\"],\"subject\":\"S\",\"substitution_data\":{\"k\":null}}",
    );
    let meta = vec![("m".to_owned(), Json::num_u32(7))];
    let e2 = base().with_metadata(meta);
    assert_eq!(
        body_of(&e2),
        "{\"from\":\"f@x.com\",\"to\":[\"t@x.com\"],\"subject\":\"S\",\"metadata\":{\"m\":7}}",
    );
}

#[test]
fn tracking_options_merge_into_one_object() {
    let e = base().with_click_tracking(true).with_transactional(false);
    assert_eq!(
        body_of(&e),
        "{\"from\":\"f@x.com\",\"to\":[\"t@x.com\"],\"subject\":\"S\",\"options\":{\"click_tracking\":true,\"transactional\":false}}",
    );
}

#[test]
fn email_options_default_is_empty() {
    let o = EmailOptions::default();
    assert!(o.click_tracking.is_none());
    assert!(o.open_tracking.is_none());
    assert!(o.transactional.is_none());
}

#[test]
fn list_emails_options_default_matches_new() {
    let d = ListEmailsOptions::default();
    assert!(d.per_page.is_none());
    assert!(d.cursor.is_none());
    assert!(d.recipients.is_none());
    assert!(d.from.is_none());
    assert!(d.to.is_none());
}

#[test]
fn multiple_recipients_serialize_in_order() {
    let e = CreateEmailOptions::new(
        "f@x.com",
        vec!["a@x.com".to_owned(), "b@x.com".to_owned()],
        "S",
    );
    assert_eq!(
        body_of(&e),
        "{\"from\":\"f@x.com\",\"to\":[\"a@x.com\",\"b@x.com\"],\"subject\":\"S\"}",
    );
}
