//! The typed failures an API call can surface, and the decoding of
//! the API's error envelope.
//!
//! Four kinds, mutually exclusive: a transport failure, a validation
//! failure (the envelope carries per-field messages), a general API
//! failure (it does not), and a parse failure that keeps the server's
//! text verbatim.

use vstd::prelude::*;
use crate::json::{Json, Jv, jv_fields, lookup, str_of, opt_str_of, strs_of, get_str,
    get_opt_str, get_field, get_strs, lemma_jv_fields, opt_str_view, strs_view};
use crate::parse::{parse_json, parse_json_text};
use crate::text::{push_str_chars, string_from_chars};

verus! {

/// An error response from the API: a general, request-level
/// rejection.
#[derive(Debug, Clone)]
pub struct ApiError {
    /// Human-readable error message.
    pub message: String,
    /// Machine-readable error code.
    pub error_code: Option<String>,
}

/// A validation error response from the API, with per-field messages.
#[derive(Debug, Clone)]
pub struct ValidationError {
    /// Human-readable error message.
    pub message: String,
    /// Machine-readable error code.
    pub error_code: Option<String>,
    /// Field-level validation errors, in the order the server sent
    /// them.
    pub errors: Vec<(String, Vec<String>)>,
}

/// Error type for operations of a client.
#[derive(Debug, Clone)]
pub enum Error {
    /// The HTTP exchange itself could not complete; carries the
    /// transport's own message.
    Http(String),
    /// API returned an error response.
    Api(ApiError),
    /// Validation error returned by the API.
    Validation(ValidationError),
    /// Failed to parse the API response.
    Parse(String),
}

/// The model of a decoded error envelope.
pub struct EnvelopeV {
    pub message: Seq<char>,
    pub error_code: Option<Seq<char>>,
    pub errors: Option<Seq<(Seq<char>, Seq<Seq<char>>)>>,
}

/// Intermediate value for detecting the error shape from the API.
#[derive(Debug, Clone)]
pub struct RawErrorResponse {
    pub message: String,
    pub error_code: Option<String>,
    pub errors: Option<Vec<(String, Vec<String>)>>,
}

/// The view of a field-to-messages list.
pub open spec fn pairs_view(v: Seq<(String, Vec<String>)>) -> Seq<(Seq<char>, Seq<Seq<char>>)> {
    Seq::new(v.len(), |k: int| (v[k].0@, strs_view(v[k].1@)))
}

/// The view of an optional field-to-messages list.
pub open spec fn opt_pairs_view(o: Option<Vec<(String, Vec<String>)>>) -> Option<
    Seq<(Seq<char>, Seq<Seq<char>>)>> {
    match o {
        Some(v) => Some(pairs_view(v@)),
        None => None,
    }
}

impl View for RawErrorResponse {
    type V = EnvelopeV;

    open spec fn view(&self) -> EnvelopeV {
        EnvelopeV {
            message: self.message@,
            error_code: opt_str_view(self.error_code),
            errors: opt_pairs_view(self.errors),
        }
    }
}

/// What the `errors` object decodes to: each field maps to an array
/// of message strings.
pub open spec fn err_fields_of(fields: Seq<(Seq<char>, Jv)>) -> Option<
    Seq<(Seq<char>, Seq<Seq<char>>)>>
    decreases fields.len(),
{
    if fields.len() == 0 {
        Some(Seq::empty())
    } else {
        match (fields[0].1, err_fields_of(fields.drop_first())) {
            (Jv::Arr(items), Some(rest)) => match strs_of(items) {
                Some(ss) => Some(seq![(fields[0].0, ss)] + rest),
                None => None,
            },
            _ => None,
        }
    }
}

/// What the optional `errors` field decodes to: absent and `null` are
/// "no value"; an object of message arrays is kept; anything else is
/// a decode failure.
pub open spec fn errs_of(o: Option<Jv>) -> Option<Option<Seq<(Seq<char>, Seq<Seq<char>>)>>> {
    match o {
        None => Some(None),
        Some(Jv::Null) => Some(None),
        Some(Jv::Obj(fields)) => match err_fields_of(fields) {
            Some(es) => Some(Some(es)),
            None => None,
        },
        _ => None,
    }
}

/// What a document decodes to against the envelope shape: an object
/// with a required string `message`, an optional string `error_code`
/// and an optional `errors` object; unknown fields are ignored.
pub open spec fn envelope_of_jv(j: Jv) -> Option<EnvelopeV> {
    match j {
        Jv::Obj(fields) => match (str_of(lookup(fields, "message"@)), opt_str_of(
            lookup(fields, "error_code"@)), errs_of(lookup(fields, "errors"@))) {
            (Some(m), Some(ec), Some(es)) => Some(
                EnvelopeV { message: m, error_code: ec, errors: es },
            ),
            _ => None,
        },
        _ => None,
    }
}

/// What a body text decodes to against the envelope shape.
pub open spec fn envelope_of(s: Seq<char>) -> Option<EnvelopeV> {
    match parse_json(s) {
        Some(j) => envelope_of_jv(j),
        None => None,
    }
}

/// Decodes the `errors` object's fields, as `err_fields_of` says.
fn get_err_fields(fields: &Vec<(String, Json)>) -> (r: Option<Vec<(String, Vec<String>)>>)
    ensures
        match r {
            Some(v) => err_fields_of(jv_fields(fields@)) == Some(pairs_view(v@)),
            None => err_fields_of(jv_fields(fields@)) is None,
        },
{
    let mut out: Vec<(String, Vec<String>)> = Vec::new();
    let mut i: usize = 0;
    while i < fields.len()
        invariant
            i <= fields@.len(),
            out@.len() == i,
            forall|k: int| 0 <= k < i ==> ((#[trigger] out@[k]).0@ == fields@[k].0@
                && (crate::json::jv(fields@[k].1) matches Jv::Arr(items) && strs_of(items)
                == Some(strs_view(out@[k].1@)))),
        decreases fields@.len() - i,
    {
        proof {
            lemma_jv_fields(fields@);
        }
        match &fields[i].1 {
            Json::Arr(items) => match get_strs(items) {
                Some(ss) => {
                    let key = fields[i].0.clone();
                    out.push((key, ss));
                },
                None => {
                    proof {
                        lemma_err_fields_bad(jv_fields(fields@), i as int);
                    }
                    return None;
                },
            },
            _ => {
                proof {
                    lemma_err_fields_bad(jv_fields(fields@), i as int);
                }
                return None;
            },
        }
        i = i + 1;
    }
    proof {
        lemma_jv_fields(fields@);
        lemma_err_fields_all(jv_fields(fields@), pairs_view(out@));
    }
    Some(out)
}

/// If every field is a message array, `err_fields_of` lists exactly
/// them.
proof fn lemma_err_fields_all(fields: Seq<(Seq<char>, Jv)>, es: Seq<(Seq<char>, Seq<Seq<char>>)>)
    requires
        fields.len() == es.len(),
        forall|k: int| 0 <= k < fields.len() ==> ((#[trigger] es[k]).0 == fields[k].0
            && (fields[k].1 matches Jv::Arr(items) && strs_of(items) == Some(es[k].1))),
    ensures
        err_fields_of(fields) == Some(es),
    decreases fields.len(),
{
    if fields.len() == 0 {
        assert(es =~= Seq::<(Seq<char>, Seq<Seq<char>>)>::empty());
    } else {
        lemma_err_fields_all(fields.drop_first(), es.drop_first());
        assert(es =~= seq![(fields[0].0, es[0].1)] + es.drop_first());
    }
}

/// A field that is not a message array anywhere makes `err_fields_of`
/// fail.
proof fn lemma_err_fields_bad(fields: Seq<(Seq<char>, Jv)>, k: int)
    requires
        0 <= k < fields.len(),
        !(fields[k].1 matches Jv::Arr(items) && strs_of(items) is Some),
    ensures
        err_fields_of(fields) is None,
    decreases fields.len(),
{
    if k > 0 {
        lemma_err_fields_bad(fields.drop_first(), k - 1);
    }
}

/// Decodes a document against the envelope shape, as
/// `envelope_of_jv` says.
fn envelope_from_json(j: &Json) -> (r: Option<RawErrorResponse>)
    ensures
        match r {
            Some(raw) => envelope_of_jv(j@) == Some(raw@),
            None => envelope_of_jv(j@) is None,
        },
{
    match j {
        Json::Obj(fields) => {
            let message = match get_str(fields, "message") {
                Some(m) => m,
                None => {
                    return None;
                },
            };
            let error_code = match get_opt_str(fields, "error_code") {
                Some(ec) => ec,
                None => {
                    return None;
                },
            };
            let errors = match get_field(fields, "errors") {
                None => None,
                Some(Json::Null) => None,
                Some(Json::Obj(efields)) => match get_err_fields(efields) {
                    Some(es) => Some(es),
                    None => {
                        return None;
                    },
                },
                Some(_) => {
                    return None;
                },
            };
            Some(RawErrorResponse { message, error_code, errors })
        },
        _ => None,
    }
}

/// Forward-compatible decoding: a field under any name the envelope
/// does not know leaves the decoding unchanged.
pub proof fn lemma_envelope_ignores_unknown(fields: Seq<(Seq<char>, Jv)>, extra: (Seq<char>, Jv))
    requires
        extra.0 != "message"@,
        extra.0 != "error_code"@,
        extra.0 != "errors"@,
    ensures
        envelope_of_jv(Jv::Obj(fields.push(extra))) == envelope_of_jv(Jv::Obj(fields)),
{
    crate::json::lemma_lookup_push(fields, extra, "message"@);
    crate::json::lemma_lookup_push(fields, extra, "error_code"@);
    crate::json::lemma_lookup_push(fields, extra, "errors"@);
}

/// Decodes a body text against the envelope shape, as `envelope_of`
/// says.
pub fn decode_envelope(body: &str) -> (r: Option<RawErrorResponse>)
    ensures
        match r {
            Some(raw) => envelope_of(body@) == Some(raw@),
            None => envelope_of(body@) is None,
        },
{
    match parse_json_text(body) {
        Some(j) => envelope_from_json(&j),
        None => None,
    }
}

impl RawErrorResponse {
    /// Convert into the matching `Error` variant: a validation
    /// failure exactly when the envelope carried an `errors` object,
    /// a general API failure otherwise, either way with the
    /// envelope's fields unchanged.
    pub fn into_error(self) -> (e: Error)
        ensures
            match self.errors {
                Some(errs) => e matches Error::Validation(v) && v.message == self.message
                    && v.error_code == self.error_code && v.errors == errs,
                None => e matches Error::Api(a) && a.message == self.message && a.error_code
                    == self.error_code,
            },
    {
        if let Some(errors) = self.errors {
            Error::Validation(
                ValidationError { message: self.message, error_code: self.error_code, errors },
            )
        } else {
            Error::Api(ApiError { message: self.message, error_code: self.error_code })
        }
    }
}

// ── Error texts ────────────────────────────────────────────────────

/// The text of a general API failure: `[code] message`, or the bare
/// message without a code.
pub open spec fn api_error_text(message: Seq<char>, error_code: Option<Seq<char>>) -> Seq<char> {
    match error_code {
        Some(code) => "["@ + code + "] "@ + message,
        None => message,
    }
}

/// The per-field lines of a validation failure's text, one line per
/// message.
pub open spec fn validation_lines(errors: Seq<(Seq<char>, Seq<Seq<char>>)>) -> Seq<char>
    decreases errors.len(),
{
    if errors.len() == 0 {
        Seq::empty()
    } else {
        field_lines(errors[0].0, errors[0].1) + validation_lines(errors.drop_first())
    }
}

/// The lines for one field of a validation failure.
pub open spec fn field_lines(field: Seq<char>, msgs: Seq<Seq<char>>) -> Seq<char>
    decreases msgs.len(),
{
    if msgs.len() == 0 {
        Seq::empty()
    } else {
        "\n  "@ + field + ": "@ + msgs[0] + field_lines(field, msgs.drop_first())
    }
}

/// The text of a validation failure: the message, then one line per
/// field-level message.
pub open spec fn validation_error_text(message: Seq<char>, errors: Seq<(Seq<char>,
    Seq<Seq<char>>)>) -> Seq<char> {
    message + validation_lines(errors)
}

/// The text of an `Error`, by variant.
pub open spec fn error_text(e: Error) -> Seq<char> {
    match e {
        Error::Http(s) => "http error: "@ + s@,
        Error::Api(a) => "api error: "@ + api_error_text(a.message@, opt_str_view(a.error_code)),
        Error::Validation(v) => "validation error: "@ + validation_error_text(v.message@,
            pairs_view(v.errors@)),
        Error::Parse(s) => "failed to parse API response: "@ + s@,
    }
}

impl ApiError {
    /// The failure's text, as `api_error_text` says.
    pub fn to_text(&self) -> (s: String)
        ensures
            s@ == api_error_text(self.message@, opt_str_view(self.error_code)),
    {
        let mut out: Vec<char> = Vec::new();
        match &self.error_code {
            Some(code) => {
                push_str_chars(&mut out, "[");
                push_str_chars(&mut out, code.as_str());
                push_str_chars(&mut out, "] ");
                push_str_chars(&mut out, self.message.as_str());
            },
            None => {
                push_str_chars(&mut out, self.message.as_str());
            },
        }
        string_from_chars(&out)
    }
}

impl ValidationError {
    /// The failure's text, as `validation_error_text` says.
    pub fn to_text(&self) -> (s: String)
        ensures
            s@ == validation_error_text(self.message@, pairs_view(self.errors@)),
    {
        let mut out: Vec<char> = Vec::new();
        push_str_chars(&mut out, self.message.as_str());
        let mut i: usize = 0;
        while i < self.errors.len()
            invariant
                i <= self.errors@.len(),
                out@ == self.message@ + validation_lines(pairs_view(self.errors@.take(i as int))),
            decreases self.errors@.len() - i,
        {
            let field = &self.errors[i].0;
            let msgs = &self.errors[i].1;
            let ghost base = out@;
            let mut k: usize = 0;
            while k < msgs.len()
                invariant
                    k <= msgs@.len(),
                    out@ == base + field_lines(field@, strs_view(msgs@).take(k as int)),
                decreases msgs@.len() - k,
            {
                push_str_chars(&mut out, "\n  ");
                push_str_chars(&mut out, field.as_str());
                push_str_chars(&mut out, ": ");
                push_str_chars(&mut out, msgs[k].as_str());
                proof {
                    lemma_field_lines_snoc(field@, strs_view(msgs@), k as int);
                }
                k = k + 1;
            }
            proof {
                assert(strs_view(msgs@).take(msgs@.len() as int) =~= strs_view(msgs@));
                lemma_validation_lines_snoc(pairs_view(self.errors@), i as int);
                assert(pairs_view(self.errors@).take(i + 1).drop_last() =~= pairs_view(
                    self.errors@).take(i as int));
                assert(pairs_view(self.errors@.take(i + 1)) =~= pairs_view(
                    self.errors@).take(i + 1));
                assert(pairs_view(self.errors@.take(i as int)) =~= pairs_view(
                    self.errors@).take(i as int));
            }
            i = i + 1;
        }
        proof {
            assert(pairs_view(self.errors@.take(i as int)) =~= pairs_view(self.errors@));
        }
        string_from_chars(&out)
    }
}

/// One more message extends the field's lines at the end.
proof fn lemma_field_lines_snoc(field: Seq<char>, msgs: Seq<Seq<char>>, k: int)
    requires
        0 <= k < msgs.len(),
    ensures
        field_lines(field, msgs.take(k + 1)) == field_lines(field, msgs.take(k)) + ("\n  "@ + field
            + ": "@ + msgs[k]),
    decreases k,
{
    if k == 0 {
        assert(msgs.take(1) =~= seq![msgs[0]]);
        assert(msgs.take(1).drop_first() =~= Seq::<Seq<char>>::empty());
        assert(msgs.take(0) =~= Seq::<Seq<char>>::empty());
        assert(field_lines(field, msgs.take(1)) =~= field_lines(field, msgs.take(0)) + ("\n  "@
            + field + ": "@ + msgs[0]));
    } else {
        lemma_field_lines_snoc(field, msgs.drop_first(), k - 1);
        assert(msgs.take(k + 1).drop_first() =~= msgs.drop_first().take(k));
        assert(msgs.take(k).drop_first() =~= msgs.drop_first().take(k - 1));
        assert(msgs.take(k + 1)[0] == msgs[0]);
        assert(msgs.take(k)[0] == msgs[0]);
        assert(msgs.drop_first()[k - 1] == msgs[k]);
        assert(field_lines(field, msgs.take(k + 1)) =~= field_lines(field, msgs.take(k)) + ("\n  "@
            + field + ": "@ + msgs[k]));
    }
}

/// One more field extends the validation lines at the end.
proof fn lemma_validation_lines_snoc(errors: Seq<(Seq<char>, Seq<Seq<char>>)>, i: int)
    requires
        0 <= i < errors.len(),
    ensures
        validation_lines(errors.take(i + 1)) == validation_lines(errors.take(i)) + field_lines(
            errors[i].0, errors[i].1),
    decreases i,
{
    if i == 0 {
        assert(errors.take(1) =~= seq![errors[0]]);
        assert(errors.take(1).drop_first() =~= Seq::<(Seq<char>, Seq<Seq<char>>)>::empty());
        assert(errors.take(0) =~= Seq::<(Seq<char>, Seq<Seq<char>>)>::empty());
        assert(validation_lines(errors.take(1)) =~= validation_lines(errors.take(0)) + field_lines(
            errors[0].0, errors[0].1));
    } else {
        lemma_validation_lines_snoc(errors.drop_first(), i - 1);
        assert(errors.take(i + 1).drop_first() =~= errors.drop_first().take(i));
        assert(errors.take(i).drop_first() =~= errors.drop_first().take(i - 1));
        assert(errors.take(i + 1)[0] == errors[0]);
        assert(errors.take(i)[0] == errors[0]);
        assert(errors.drop_first()[i - 1] == errors[i]);
        assert(validation_lines(errors.take(i + 1)) =~= validation_lines(errors.take(i))
            + field_lines(errors[i].0, errors[i].1));
    }
}

/// The messages recorded under the first occurrence of `field`, if
/// any.
pub open spec fn msgs_lookup(errors: Seq<(Seq<char>, Seq<Seq<char>>)>, field: Seq<char>) -> Option<
    Seq<Seq<char>>>
    decreases errors.len(),
{
    if errors.len() == 0 {
        None
    } else if errors[0].0 == field {
        Some(errors[0].1)
    } else {
        msgs_lookup(errors.drop_first(), field)
    }
}

impl ValidationError {
    /// The messages recorded for `field`, as `msgs_lookup` says.
    pub fn messages_for(&self, field: &str) -> (r: Option<&Vec<String>>)
        ensures
            match r {
                Some(msgs) => msgs_lookup(pairs_view(self.errors@), field@) == Some(
                    strs_view(msgs@)),
                None => msgs_lookup(pairs_view(self.errors@), field@) is None,
            },
    {
        let f: String = field.to_owned();
        proof {
            assert(pairs_view(self.errors@).skip(0) =~= pairs_view(self.errors@));
        }
        let mut i: usize = 0;
        while i < self.errors.len()
            invariant
                i <= self.errors@.len(),
                f@ == field@,
                msgs_lookup(pairs_view(self.errors@), field@) == msgs_lookup(
                    pairs_view(self.errors@).skip(i as int),
                    field@,
                ),
            decreases self.errors@.len() - i,
        {
            proof {
                assert(pairs_view(self.errors@).skip(i as int)[0] == pairs_view(
                    self.errors@)[i as int]);
                assert(pairs_view(self.errors@).skip(i as int).drop_first() =~= pairs_view(
                    self.errors@).skip(i + 1));
            }
            if self.errors[i].0.eq(&f) {
                return Some(&self.errors[i].1);
            }
            i = i + 1;
        }
        proof {
            assert(pairs_view(self.errors@).skip(i as int).len() == 0);
        }
        None
    }
}

impl Error {
    /// The error's text, as `error_text` says.
    pub fn to_text(&self) -> (s: String)
        ensures
            s@ == error_text(*self),
    {
        let mut out: Vec<char> = Vec::new();
        match self {
            Error::Http(m) => {
                push_str_chars(&mut out, "http error: ");
                push_str_chars(&mut out, m.as_str());
            },
            Error::Api(a) => {
                push_str_chars(&mut out, "api error: ");
                let t = a.to_text();
                push_str_chars(&mut out, t.as_str());
            },
            Error::Validation(v) => {
                push_str_chars(&mut out, "validation error: ");
                let t = v.to_text();
                push_str_chars(&mut out, t.as_str());
            },
            Error::Parse(m) => {
                push_str_chars(&mut out, "failed to parse API response: ");
                push_str_chars(&mut out, m.as_str());
            },
        }
        string_from_chars(&out)
    }
}

} // verus!
