//! The request core: one shared configuration that builds
//! authenticated requests and classifies raw responses.
//!
//! Every operation of the library goes through `Config::build` on the
//! way out and `Config::classify` on the way back; no service does
//! its own classification.

use vstd::prelude::*;
use crate::error::{Error, envelope_of, decode_envelope, pairs_view};
use crate::json::{Jv, Json, str_of, lookup, opt_str_view};
use crate::parse::parse_json;
use crate::text::{dec_str, push_str_chars, string_from_chars, u64_dec_string};

verus! {

/// An HTTP method the API uses.
#[derive(Debug, Clone, Copy, PartialEq, Eq, Structural)]
pub enum Method {
    Get,
    Post,
    Delete,
}

/// The name of a method on the wire.
pub open spec fn method_name(m: Method) -> Seq<char> {
    match m {
        Method::Get => "GET"@,
        Method::Post => "POST"@,
        Method::Delete => "DELETE"@,
    }
}

impl Method {
    /// The method's name, as `method_name` says.
    pub fn to_text(&self) -> (s: String)
        ensures
            s@ == method_name(*self),
    {
        match self {
            Method::Get => "GET".to_owned(),
            Method::Post => "POST".to_owned(),
            Method::Delete => "DELETE".to_owned(),
        }
    }
}

/// An outbound request, fully computed: the transport only has to
/// send it.
#[derive(Debug, Clone)]
pub struct OutboundRequest {
    /// HTTP method.
    pub method: Method,
    /// Full URL: the base URL with the path appended.
    pub url: String,
    /// Header name-value pairs, the default authenticated set.
    pub headers: Vec<(String, String)>,
    /// Query parameter name-value pairs, in order.
    pub query: Vec<(String, String)>,
    /// The JSON body text, if the operation sends one.
    pub body: Option<String>,
}

/// Internal configuration for the client: the base URL and the
/// credential the default headers carry. Immutable after
/// construction; every service shares one copy.
#[derive(Debug)]
pub struct Config {
    /// The URL every path is appended to.
    pub base_url: String,
    /// The API key, sent as a bearer token. Must be ASCII.
    pub api_key: String,
    /// The default headers, derived once at construction and never
    /// re-derived per request.
    pub headers: Vec<(String, String)>,
}

/// The default headers for `key`: bearer authorization, JSON content
/// type, and the client's signature.
pub open spec fn default_headers(key: Seq<char>) -> Seq<(Seq<char>, Seq<char>)> {
    seq![
        ("authorization"@, "Bearer "@ + key),
        ("content-type"@, "application/json"@),
        ("user-agent"@, "lettr-rust/0.1.0"@),
    ]
}

/// The view of query or header pairs.
pub open spec fn qpairs_view(v: Seq<(String, String)>) -> Seq<(Seq<char>, Seq<char>)> {
    Seq::new(v.len(), |k: int| (v[k].0@, v[k].1@))
}

/// The full shape of an outbound request: method, concatenated URL,
/// the default headers, and exactly the given query pairs and body.
pub open spec fn request_shape(c: Config, m: Method, path: Seq<char>, query: Seq<(Seq<char>,
    Seq<char>)>, body: Option<Seq<char>>, r: OutboundRequest) -> bool {
    &&& r.method == m
    &&& r.url@ == c.base_url@ + path
    &&& qpairs_view(r.headers@) =~= qpairs_view(c.headers@)
    &&& qpairs_view(r.query@) =~= query
    &&& match (r.body, body) {
        (Some(b), Some(s)) => b@ == s,
        (None, None) => true,
        _ => false,
    }
}

/// What `Config::build` gives: the concatenated URL, the default
/// headers, and nothing else yet.
pub open spec fn built_request(c: Config, m: Method, path: Seq<char>, r: OutboundRequest) -> bool {
    request_shape(c, m, path, Seq::empty(), None, r)
}

/// A built request that carries a JSON body and no query.
pub open spec fn built_request_with_body(c: Config, m: Method, path: Seq<char>, body: Seq<char>,
    r: OutboundRequest) -> bool {
    request_shape(c, m, path, Seq::empty(), Some(body), r)
}

/// The query pairs an optional string filter contributes: one pair
/// when set, none when absent.
pub open spec fn opt_str_param(name: Seq<char>, o: Option<Seq<char>>) -> Seq<(Seq<char>,
    Seq<char>)> {
    match o {
        Some(s) => seq![(name, s)],
        None => Seq::empty(),
    }
}

/// The query pairs an optional `u32` filter contributes, in decimal.
pub open spec fn opt_u32_param(name: Seq<char>, o: Option<u32>) -> Seq<(Seq<char>, Seq<char>)> {
    match o {
        Some(n) => seq![(name, dec_str(n as int))],
        None => Seq::empty(),
    }
}

/// The query pairs an optional `u64` filter contributes, in decimal.
pub open spec fn opt_u64_param(name: Seq<char>, o: Option<u64>) -> Seq<(Seq<char>, Seq<char>)> {
    match o {
        Some(n) => seq![(name, dec_str(n as int))],
        None => Seq::empty(),
    }
}

/// Whether `status` is a success status.
pub open spec fn is_success(status: u16) -> bool {
    200 <= status < 300
}

/// The text a parse failure keeps: the status code and the raw body,
/// verbatim.
pub open spec fn parse_fail_text(status: u16, body: Seq<char>) -> Seq<char> {
    "HTTP "@ + dec_str(status as int) + ": "@ + body
}

/// How a non-success response is classified, exactly: a decoded
/// envelope with an `errors` object is a validation failure carrying
/// the envelope's fields; one without is an API failure; a body that
/// does not decode as the envelope is a parse failure keeping the
/// status and body.
pub open spec fn classified_err(status: u16, body: Seq<char>, e: Error) -> bool {
    match envelope_of(body) {
        Some(env) => match env.errors {
            Some(errs) => e matches Error::Validation(v) && v.message@ == env.message
                && opt_str_view(v.error_code) == env.error_code && pairs_view(v.errors@) == errs,
            None => e matches Error::Api(a) && a.message@ == env.message && opt_str_view(
                a.error_code) == env.error_code,
        },
        None => e matches Error::Parse(t) && t@ == parse_fail_text(status, body),
    }
}

/// What a success envelope `{message, data}` carries: its `data`
/// value, provided `message` is a string.
pub open spec fn data_of(body: Seq<char>) -> Option<Jv> {
    match parse_json(body) {
        Some(Jv::Obj(fields)) => match (str_of(lookup(fields, "message"@)), lookup(
            fields, "data"@)) {
            (Some(_), Some(d)) => Some(d),
            _ => None,
        },
        _ => None,
    }
}

/// Whether two configurations carry the same base URL, credential
/// and headers.
pub open spec fn same_config(a: Config, b: Config) -> bool {
    &&& a.base_url@ == b.base_url@
    &&& a.api_key@ == b.api_key@
    &&& qpairs_view(a.headers@) == qpairs_view(b.headers@)
}

/// A copy of header or query pairs.
pub fn clone_pairs(v: &Vec<(String, String)>) -> (r: Vec<(String, String)>)
    ensures
        r@ == v@,
{
    let mut r: Vec<(String, String)> = Vec::new();
    let mut i: usize = 0;
    while i < v.len()
        invariant
            i <= v@.len(),
            r@ == v@.take(i as int),
        decreases v@.len() - i,
    {
        proof {
            assert(v@.take(i + 1) =~= v@.take(i as int).push(v@[i as int]));
        }
        r.push((v[i].0.clone(), v[i].1.clone()));
        i = i + 1;
    }
    proof {
        assert(v@.take(i as int) =~= v@);
    }
    r
}

impl Clone for Config {
    /// A copy with the same base URL, credential and headers.
    fn clone(&self) -> (r: Config)
        ensures
            same_config(r, *self),
    {
        Config {
            base_url: self.base_url.clone(),
            api_key: self.api_key.clone(),
            headers: clone_pairs(&self.headers),
        }
    }
}

impl Config {
    /// Creates a configuration with the given API key and the fixed
    /// base URL, deriving the default headers once. The key must be
    /// ASCII; the caller checks, as header values cannot carry
    /// anything else.
    pub fn new(api_key: &str) -> (c: Config)
        requires
            api_key.is_ascii(),
        ensures
            c.base_url@ == "https://app.lettr.com/api"@,
            c.api_key@ == api_key@,
            c.api_key.is_ascii(),
            qpairs_view(c.headers@) =~= default_headers(api_key@),
    {
        let mut hs: Vec<(String, String)> = Vec::new();
        let mut auth: Vec<char> = Vec::new();
        push_str_chars(&mut auth, "Bearer ");
        push_str_chars(&mut auth, api_key);
        hs.push(("authorization".to_owned(), string_from_chars(&auth)));
        hs.push(("content-type".to_owned(), "application/json".to_owned()));
        hs.push(("user-agent".to_owned(), "lettr-rust/0.1.0".to_owned()));
        Config {
            base_url: "https://app.lettr.com/api".to_owned(),
            api_key: api_key.to_owned(),
            headers: hs,
        }
    }

    /// Override the base URL (useful for testing). The credential
    /// and the headers stay as they were built.
    pub fn set_base_url(&mut self, base_url: &str)
        ensures
            final(self).base_url@ == base_url@,
            final(self).api_key == old(self).api_key,
            final(self).headers == old(self).headers,
    {
        self.base_url = base_url.to_owned();
    }

    /// Build a request for the given method and path: the base URL
    /// with `path` appended (the path carries its leading slash), the
    /// stored default headers attached, no query and no body yet.
    pub fn build(&self, method: Method, path: &str) -> (r: OutboundRequest)
        ensures
            built_request(*self, method, path@, r),
    {
        let mut url: Vec<char> = Vec::new();
        push_str_chars(&mut url, self.base_url.as_str());
        push_str_chars(&mut url, path);
        OutboundRequest {
            method,
            url: string_from_chars(&url),
            headers: clone_pairs(&self.headers),
            query: Vec::new(),
            body: None,
        }
    }

    /// Classify a raw response: no error on a success status; on any
    /// other status exactly the error `classified_err` describes.
    /// This is the single chokepoint every API call passes through.
    pub fn classify(&self, status: u16, body: &str) -> (r: Option<Error>)
        ensures
            r is None <==> is_success(status),
            r matches Some(e) ==> classified_err(status, body@, e),
    {
        if 200 <= status && status < 300 {
            None
        } else {
            match decode_envelope(body) {
                Some(raw) => Some(raw.into_error()),
                None => Some(Error::Parse(parse_failure_text(status, body))),
            }
        }
    }
}

/// A parse failure drops nothing: its text carries the raw body
/// verbatim as a suffix, and the status code's decimal text between
/// the fixed prefix and the separator.
pub proof fn lemma_parse_text_verbatim(status: u16, body: Seq<char>)
    ensures
        parse_fail_text(status, body).len() == 7 + dec_str(status as int).len() + body.len(),
        parse_fail_text(status, body).subrange(
            parse_fail_text(status, body).len() - body.len(),
            parse_fail_text(status, body).len() as int,
        ) == body,
        parse_fail_text(status, body).subrange(
            5,
            5 + dec_str(status as int).len() as int,
        ) == dec_str(status as int),
{
    reveal_strlit("HTTP ");
    reveal_strlit(": ");
    let t = parse_fail_text(status, body);
    let d = dec_str(status as int);
    assert(t.len() == 7 + d.len() + body.len());
    assert(t.subrange(t.len() - body.len(), t.len() as int) =~= body);
    assert(t.subrange(5, 5 + d.len() as int) =~= d);
}

/// The parse-failure text for a response, as `parse_fail_text` says.
pub fn parse_failure_text(status: u16, body: &str) -> (s: String)
    ensures
        s@ == parse_fail_text(status, body@),
{
    let mut out: Vec<char> = Vec::new();
    push_str_chars(&mut out, "HTTP ");
    let dec = u64_dec_string(status as u64);
    push_str_chars(&mut out, dec.as_str());
    push_str_chars(&mut out, ": ");
    push_str_chars(&mut out, body);
    string_from_chars(&out)
}

/// The `data` value of a success envelope, as `data_of` says.
pub fn success_data(body: &str) -> (r: Option<Json>)
    ensures
        match r {
            Some(d) => data_of(body@) == Some(d@),
            None => data_of(body@) is None,
        },
{
    match crate::parse::parse_json_text(body) {
        Some(Json::Obj(fields)) => match crate::json::get_str(&fields, "message") {
            Some(_) => match crate::json::get_field(&fields, "data") {
                Some(d) => Some(crate::json::json_clone(d)),
                None => None,
            },
            None => None,
        },
        _ => None,
    }
}

} // verus!
