//! The JSON documents the API exchanges, as a value tree of the
//! library's own, with a mathematical model, a renderer for outbound
//! bodies, and object-field readers for inbound bodies.
//!
//! Numbers are carried as their source lexeme, so the tree holds
//! every JSON document exactly, without floating point.

use vstd::prelude::*;
use crate::text::{dec_str, u64_dec_chars, u64_of, u32_of, i64_of, string_from_chars,
    push_str_chars, str_chars};

verus! {

/// The mathematical model of a JSON document.
pub enum Jv {
    Null,
    Bool(bool),
    /// A number, as its lexeme.
    Num(Seq<char>),
    Str(Seq<char>),
    Arr(Seq<Jv>),
    /// An object, as its fields in document order.
    Obj(Seq<(Seq<char>, Jv)>),
}

/// A JSON document.
#[derive(Debug)]
pub enum Json {
    Null,
    Bool(bool),
    /// A number, as its lexeme.
    Num(String),
    Str(String),
    Arr(Vec<Json>),
    /// An object, as its fields in document order.
    Obj(Vec<(String, Json)>),
}

/// The model of a document.
pub open spec fn jv(j: Json) -> Jv
    decreases j, 1int,
{
    match j {
        Json::Null => Jv::Null,
        Json::Bool(b) => Jv::Bool(b),
        Json::Num(s) => Jv::Num(s@),
        Json::Str(s) => Jv::Str(s@),
        Json::Arr(items) => Jv::Arr(jv_seq(items@)),
        Json::Obj(fields) => Jv::Obj(jv_fields(fields@)),
    }
}

/// The models of a sequence of documents.
pub open spec fn jv_seq(s: Seq<Json>) -> Seq<Jv>
    decreases s, 0int,
{
    if s.len() == 0 {
        Seq::empty()
    } else {
        seq![jv(s[0])] + jv_seq(s.drop_first())
    }
}

/// The models of a sequence of object fields.
pub open spec fn jv_fields(s: Seq<(String, Json)>) -> Seq<(Seq<char>, Jv)>
    decreases s, 0int,
{
    if s.len() == 0 {
        Seq::empty()
    } else {
        seq![(s[0].0@, jv(s[0].1))] + jv_fields(s.drop_first())
    }
}

/// `jv_seq` maps the model over the sequence, element by element.
pub broadcast proof fn lemma_jv_seq(s: Seq<Json>)
    ensures
        (#[trigger] jv_seq(s)).len() == s.len(),
        forall|k: int| 0 <= k < s.len() ==> jv_seq(s)[k] == jv(s[k]),
    decreases s.len(),
{
    if s.len() > 0 {
        lemma_jv_seq(s.drop_first());
    }
}

/// `jv_fields` maps the model over the fields, field by field.
pub broadcast proof fn lemma_jv_fields(s: Seq<(String, Json)>)
    ensures
        (#[trigger] jv_fields(s)).len() == s.len(),
        forall|k: int| 0 <= k < s.len() ==> jv_fields(s)[k] == (s[k].0@, jv(s[k].1)),
    decreases s.len(),
{
    if s.len() > 0 {
        lemma_jv_fields(s.drop_first());
    }
}

impl View for Json {
    type V = Jv;

    open spec fn view(&self) -> Jv {
        jv(*self)
    }
}

impl Json {
    /// The number document for `n`.
    pub fn num_u64(n: u64) -> (j: Json)
        ensures
            j@ == Jv::Num(dec_str(n as int)),
    {
        let v = u64_dec_chars(n);
        Json::Num(string_from_chars(&v))
    }

    /// The number document for `n`.
    pub fn num_u32(n: u32) -> (j: Json)
        ensures
            j@ == Jv::Num(dec_str(n as int)),
    {
        Json::num_u64(n as u64)
    }

    /// The string document for `s`.
    pub fn string(s: &str) -> (j: Json)
        ensures
            j@ == Jv::Str(s@),
    {
        Json::Str(s.to_owned())
    }
}

// ── Rendering ──────────────────────────────────────────────────────

/// The lowercase hexadecimal digit character for `d`, in `0..16`.
pub open spec fn hex_digit(d: int) -> char {
    if d < 10 {
        ((48 + d) as u32) as char
    } else {
        ((87 + d) as u32) as char
    }
}

/// How one character is written inside a JSON string literal: quote
/// and backslash escaped, control characters by their short escape or
/// `\u00..`, everything else verbatim.
pub open spec fn esc_char(c: char) -> Seq<char> {
    let u = c as u32;
    if u == 34 {
        seq!['\\', '"']
    } else if u == 92 {
        seq!['\\', '\\']
    } else if u == 8 {
        seq!['\\', 'b']
    } else if u == 9 {
        seq!['\\', 't']
    } else if u == 10 {
        seq!['\\', 'n']
    } else if u == 12 {
        seq!['\\', 'f']
    } else if u == 13 {
        seq!['\\', 'r']
    } else if u < 32 {
        seq!['\\', 'u', '0', '0', hex_digit(u as int / 16), hex_digit(u as int % 16)]
    } else {
        seq![c]
    }
}

/// The escaped text of `s` from position `i` on.
pub open spec fn escape_from(s: Seq<char>, i: int) -> Seq<char>
    decreases s.len() - i,
{
    if i < 0 || i >= s.len() {
        Seq::empty()
    } else {
        esc_char(s[i]) + escape_from(s, i + 1)
    }
}

/// A JSON string literal for `s`: quoted and escaped.
pub open spec fn quoted(s: Seq<char>) -> Seq<char> {
    seq!['"'] + escape_from(s, 0) + seq!['"']
}

/// The text of a document: the compact rendering, fields and items in
/// order, no added whitespace.
pub open spec fn render(j: Jv) -> Seq<char>
    decreases j, 0int,
{
    match j {
        Jv::Null => seq!['n', 'u', 'l', 'l'],
        Jv::Bool(b) => if b {
            seq!['t', 'r', 'u', 'e']
        } else {
            seq!['f', 'a', 'l', 's', 'e']
        },
        Jv::Num(s) => s,
        Jv::Str(s) => quoted(s),
        Jv::Arr(items) => seq!['['] + render_items(items, 0) + seq![']'],
        Jv::Obj(fields) => seq!['{'] + render_fields(fields, 0) + seq!['}'],
    }
}

/// The comma-separated text of the items of an array from `i` on.
pub open spec fn render_items(items: Seq<Jv>, i: int) -> Seq<char>
    decreases items, items.len() - i,
{
    if i < 0 || i >= items.len() {
        Seq::empty()
    } else if i + 1 < items.len() {
        render(items[i]) + seq![','] + render_items(items, i + 1)
    } else {
        render(items[i])
    }
}

/// The comma-separated text of the fields of an object from `i` on.
pub open spec fn render_fields(fields: Seq<(Seq<char>, Jv)>, i: int) -> Seq<char>
    decreases fields, fields.len() - i,
{
    if i < 0 || i >= fields.len() {
        Seq::empty()
    } else {
        let one = quoted(fields[i].0) + seq![':'] + render(fields[i].1);
        if i + 1 < fields.len() {
            one + seq![','] + render_fields(fields, i + 1)
        } else {
            one
        }
    }
}

/// Appends the string literal for `s` to `out`.
pub fn quote_into(s: &str, out: &mut Vec<char>)
    ensures
        final(out)@ == old(out)@ + quoted(s@),
{
    out.push('"');
    let v = str_chars(s);
    let ghost mid = out@;
    let mut i: usize = 0;
    while i < v.len()
        invariant
            i <= v@.len(),
            v@ == s@,
            out@ == mid + escape_from(s@, 0).subrange(0, escape_from(s@, 0).len()
                - escape_from(s@, i as int).len()),
            escape_from(s@, i as int).len() <= escape_from(s@, 0).len(),
        decreases v@.len() - i,
    {
        let c = v[i];
        let u: u32 = c as u32;
        proof {
            lemma_escape_prefix(s@, i as int);
            assert(escape_from(s@, i as int) == esc_char(s@[i as int]) + escape_from(
                s@,
                i as int + 1));
        }
        if u == 34 {
            out.push('\\');
            out.push('"');
        } else if u == 92 {
            out.push('\\');
            out.push('\\');
        } else if u == 8 {
            out.push('\\');
            out.push('b');
        } else if u == 9 {
            out.push('\\');
            out.push('t');
        } else if u == 10 {
            out.push('\\');
            out.push('n');
        } else if u == 12 {
            out.push('\\');
            out.push('f');
        } else if u == 13 {
            out.push('\\');
            out.push('r');
        } else if u < 32 {
            out.push('\\');
            out.push('u');
            out.push('0');
            out.push('0');
            let hi: u32 = u / 16;
            let lo: u32 = u % 16;
            let hc: char = if hi < 10 {
                ((48 + hi) as u8) as char
            } else {
                ((87 + hi) as u8) as char
            };
            let lc: char = if lo < 10 {
                ((48 + lo) as u8) as char
            } else {
                ((87 + lo) as u8) as char
            };
            proof {
                assert(hc == hex_digit((c as u32) as int / 16));
                assert(lc == hex_digit((c as u32) as int % 16));
            }
            out.push(hc);
            out.push(lc);
        } else {
            out.push(c);
        }
        proof {
            let done = escape_from(s@, 0).len() - escape_from(s@, i as int).len();
            assert(out@ =~= mid + escape_from(s@, 0).subrange(0, done)
                + esc_char(s@[i as int]));
            lemma_escape_prefix(s@, i + 1);
            assert(escape_from(s@, 0).subrange(0, escape_from(s@, 0).len()
                - escape_from(s@, i + 1).len()) =~= escape_from(s@, 0).subrange(0, done)
                + esc_char(s@[i as int]));
        }
        i = i + 1;
    }
    proof {
        assert(escape_from(s@, i as int) =~= Seq::<char>::empty());
        assert(out@ =~= mid + escape_from(s@, 0));
    }
    out.push('"');
    proof {
        assert(out@ =~= old(out)@ + quoted(s@));
    }
}

/// The escaped tail from `i` is a suffix of the whole escaped text.
proof fn lemma_escape_prefix(s: Seq<char>, i: int)
    requires
        0 <= i <= s.len(),
    ensures
        escape_from(s, 0).len() >= escape_from(s, i).len(),
        escape_from(s, 0) == escape_from(s, 0).subrange(0, escape_from(s, 0).len()
            - escape_from(s, i).len()) + escape_from(s, i),
    decreases i,
{
    if i == 0 {
        assert(escape_from(s, 0) =~= escape_from(s, 0).subrange(0, escape_from(s, 0).len()
            - escape_from(s, 0).len()) + escape_from(s, 0));
    } else {
        lemma_escape_prefix(s, i - 1);
        assert(escape_from(s, i - 1) == esc_char(s[i - 1]) + escape_from(s, i));
        assert(escape_from(s, 0) =~= escape_from(s, 0).subrange(0, escape_from(s, 0).len()
            - escape_from(s, i).len()) + escape_from(s, i));
    }
}

/// Appends the text of `j` to `out`.
pub fn render_into(j: &Json, out: &mut Vec<char>)
    ensures
        final(out)@ == old(out)@ + render(j@),
    decreases *j, 0int,
{
    match j {
        Json::Null => {
            out.push('n');
            out.push('u');
            out.push('l');
            out.push('l');
            proof {
                assert(out@ =~= old(out)@ + render(j@));
            }
        },
        Json::Bool(b) => {
            if *b {
                out.push('t');
                out.push('r');
                out.push('u');
                out.push('e');
            } else {
                out.push('f');
                out.push('a');
                out.push('l');
                out.push('s');
                out.push('e');
            }
            proof {
                assert(out@ =~= old(out)@ + render(j@));
            }
        },
        Json::Num(s) => {
            push_str_chars(out, s.as_str());
        },
        Json::Str(s) => {
            quote_into(s.as_str(), out);
        },
        Json::Arr(items) => {
            out.push('[');
            render_items_into(items, 0, out);
            out.push(']');
            proof {
                assert(out@ =~= old(out)@ + render(j@));
            }
        },
        Json::Obj(fields) => {
            out.push('{');
            render_fields_into(fields, 0, out);
            out.push('}');
            proof {
                assert(out@ =~= old(out)@ + render(j@));
            }
        },
    }
}

/// Appends the comma-separated items of `items` from `i` on to `out`.
fn render_items_into(items: &Vec<Json>, i: usize, out: &mut Vec<char>)
    requires
        i <= items@.len(),
    ensures
        final(out)@ == old(out)@ + render_items(jv_seq(items@), i as int),
    decreases items@, items@.len() - i,
{
    if i < items.len() {
        proof {
            lemma_jv_seq(items@);
        }
        render_into(&items[i], out);
        if i + 1 < items.len() {
            out.push(',');
            render_items_into(items, i + 1, out);
            proof {
                assert(out@ =~= old(out)@ + render_items(jv_seq(items@), i as int));
            }
        } else {
            proof {
                assert(out@ =~= old(out)@ + render_items(jv_seq(items@), i as int));
            }
        }
    } else {
        proof {
            lemma_jv_seq(items@);
            assert(out@ =~= old(out)@ + render_items(jv_seq(items@), i as int));
        }
    }
}

/// Appends the comma-separated fields of `fields` from `i` on to `out`.
fn render_fields_into(fields: &Vec<(String, Json)>, i: usize, out: &mut Vec<char>)
    requires
        i <= fields@.len(),
    ensures
        final(out)@ == old(out)@ + render_fields(jv_fields(fields@), i as int),
    decreases fields@, fields@.len() - i,
{
    if i < fields.len() {
        proof {
            lemma_jv_fields(fields@);
        }
        quote_into(fields[i].0.as_str(), out);
        out.push(':');
        render_into(&fields[i].1, out);
        if i + 1 < fields.len() {
            out.push(',');
            render_fields_into(fields, i + 1, out);
            proof {
                assert(out@ =~= old(out)@ + render_fields(jv_fields(fields@), i as int));
            }
        } else {
            proof {
                assert(out@ =~= old(out)@ + render_fields(jv_fields(fields@), i as int));
            }
        }
    } else {
        proof {
            lemma_jv_fields(fields@);
            assert(out@ =~= old(out)@ + render_fields(jv_fields(fields@), i as int));
        }
    }
}

/// The text of `j` as a `String`.
pub fn render_string(j: &Json) -> (s: String)
    ensures
        s@ == render(j@),
{
    let mut out: Vec<char> = Vec::new();
    render_into(j, &mut out);
    string_from_chars(&out)
}

// ── Reading objects ────────────────────────────────────────────────

/// The value of the first field named `key`, if any.
pub open spec fn lookup(fields: Seq<(Seq<char>, Jv)>, key: Seq<char>) -> Option<Jv>
    decreases fields.len(),
{
    if fields.len() == 0 {
        None
    } else if fields[0].0 == key {
        Some(fields[0].1)
    } else {
        lookup(fields.drop_first(), key)
    }
}

/// A later field under a fresh name leaves every other lookup alone.
pub proof fn lemma_lookup_push(fields: Seq<(Seq<char>, Jv)>, extra: (Seq<char>, Jv), key: Seq<char>)
    requires
        extra.0 != key,
    ensures
        lookup(fields.push(extra), key) == lookup(fields, key),
    decreases fields.len(),
{
    if fields.len() == 0 {
        assert(fields.push(extra).drop_first() =~= fields);
    } else {
        assert(fields.push(extra).drop_first() =~= fields.drop_first().push(extra));
        lemma_lookup_push(fields.drop_first(), extra, key);
    }
}

/// Whether an object has a field named `k`.
pub open spec fn has_key(fields: Seq<(Seq<char>, Jv)>, k: Seq<char>) -> bool {
    exists|i: int| 0 <= i < fields.len() && (#[trigger] fields[i]).0 == k
}

/// A concatenation has a key exactly when one of its parts does.
pub proof fn lemma_has_key_concat(a: Seq<(Seq<char>, Jv)>, b: Seq<(Seq<char>, Jv)>, k: Seq<char>)
    ensures
        has_key(a + b, k) <==> (has_key(a, k) || has_key(b, k)),
{
    if has_key(a, k) {
        let i = choose|i: int| 0 <= i < a.len() && (#[trigger] a[i]).0 == k;
        assert((a + b)[i] == a[i]);
    }
    if has_key(b, k) {
        let i = choose|i: int| 0 <= i < b.len() && (#[trigger] b[i]).0 == k;
        assert((a + b)[a.len() + i] == b[i]);
    }
    if has_key(a + b, k) {
        let i = choose|i: int| 0 <= i < (a + b).len() && (#[trigger] (a + b)[i]).0 == k;
        if i < a.len() {
            assert(a[i] == (a + b)[i]);
        } else {
            assert(b[i - a.len()] == (a + b)[i]);
        }
    }
}

/// A one-field object has exactly that key.
pub proof fn lemma_has_key_single(f: (Seq<char>, Jv), k: Seq<char>)
    ensures
        has_key(seq![f], k) <==> f.0 == k,
{
    if f.0 == k {
        assert(seq![f][0].0 == k);
    }
}

/// Whether no two fields of an object share a name.
pub open spec fn distinct_keys(fields: Seq<(Seq<char>, Jv)>) -> bool {
    forall|i: int, j: int| 0 <= i < j < fields.len() ==> (#[trigger] fields[i]).0 != (
    #[trigger] fields[j]).0
}

/// The fields with `k` bound to `v`: the first field named `k` keeps
/// its place with the new value, or the pair goes at the end if no
/// field has that name.
pub open spec fn upserted(m: Seq<(Seq<char>, Jv)>, k: Seq<char>, v: Jv) -> Seq<(Seq<char>, Jv)>
    decreases m.len(),
{
    if m.len() == 0 {
        seq![(k, v)]
    } else if m[0].0 == k {
        seq![(k, v)] + m.drop_first()
    } else {
        seq![m[0]] + upserted(m.drop_first(), k, v)
    }
}

/// The fields of an optional object with `k` bound to `v`, starting
/// the object if it was never started.
pub open spec fn upserted_opt(o: Option<Seq<(Seq<char>, Jv)>>, k: Seq<char>, v: Jv) -> Seq<(
    Seq<char>, Jv)> {
    match o {
        Some(m) => upserted(m, k, v),
        None => seq![(k, v)],
    }
}

/// Where the first field named `k` stands, binding it updates in
/// place.
proof fn lemma_upserted_at(m: Seq<(Seq<char>, Jv)>, k: Seq<char>, v: Jv, i: int)
    requires
        0 <= i < m.len(),
        m[i].0 == k,
        forall|j: int| 0 <= j < i ==> (#[trigger] m[j]).0 != k,
    ensures
        upserted(m, k, v) == m.update(i, (k, v)),
    decreases i,
{
    if i == 0 {
        assert(seq![(k, v)] + m.drop_first() =~= m.update(0, (k, v)));
    } else {
        lemma_upserted_at(m.drop_first(), k, v, i - 1);
        assert(seq![m[0]] + m.drop_first().update(i - 1, (k, v)) =~= m.update(i, (k, v)));
    }
}

/// Where no field is named `k`, binding it appends.
proof fn lemma_upserted_absent(m: Seq<(Seq<char>, Jv)>, k: Seq<char>, v: Jv)
    requires
        forall|j: int| 0 <= j < m.len() ==> (#[trigger] m[j]).0 != k,
    ensures
        upserted(m, k, v) == m.push((k, v)),
    decreases m.len(),
{
    if m.len() == 0 {
        assert(seq![(k, v)] =~= m.push((k, v)));
    } else {
        lemma_upserted_absent(m.drop_first(), k, v);
        assert(seq![m[0]] + m.drop_first().push((k, v)) =~= m.push((k, v)));
    }
}

/// Binds `key` to `value` in an object's fields, as `upserted` says:
/// the first field with that name takes the new value in place, or
/// the pair is appended.
#[verifier::loop_isolation(false)]
pub fn upsert_field(m: &mut Vec<(String, Json)>, key: &str, value: Json)
    ensures
        jv_fields(final(m)@) == upserted(jv_fields(old(m)@), key@, value@),
{
    let k: String = key.to_owned();
    let ghost jj = value@;
    let mut i: usize = 0;
    while i < m.len()
        invariant
            i <= m@.len(),
            k@ == key@,
            m@ == old(m)@,
            forall|j: int| 0 <= j < i ==> (#[trigger] m@[j]).0@ != key@,
        decreases m@.len() - i,
    {
        if m[i].0.eq(&k) {
            let ghost olds = m@;
            m.set(i, (k, value));
            proof {
                lemma_jv_fields(olds);
                lemma_jv_fields(m@);
                lemma_upserted_at(jv_fields(olds), key@, jj, i as int);
                assert(jv_fields(m@) =~= jv_fields(olds).update(i as int, (key@, jj)));
            }
            return;
        }
        i = i + 1;
    }
    let ghost olds = m@;
    m.push((k, value));
    proof {
        lemma_jv_fields(olds);
        lemma_jv_fields(m@);
        lemma_upserted_absent(jv_fields(olds), key@, jj);
        assert(jv_fields(m@) =~= jv_fields(olds).push((key@, jj)));
    }
}

/// What a required string field decodes to.
pub open spec fn str_of(o: Option<Jv>) -> Option<Seq<char>> {
    match o {
        Some(Jv::Str(s)) => Some(s),
        _ => None,
    }
}

/// What an optional string field decodes to: absent and `null` are
/// both "no value"; any other non-string shape is a decode failure.
pub open spec fn opt_str_of(o: Option<Jv>) -> Option<Option<Seq<char>>> {
    match o {
        None => Some(None),
        Some(Jv::Null) => Some(None),
        Some(Jv::Str(s)) => Some(Some(s)),
        _ => None,
    }
}

/// What a required boolean field decodes to.
pub open spec fn bool_of(o: Option<Jv>) -> Option<bool> {
    match o {
        Some(Jv::Bool(b)) => Some(b),
        _ => None,
    }
}

/// What a defaulted boolean field decodes to: absent means `false`.
pub open spec fn bool_or_false_of(o: Option<Jv>) -> Option<bool> {
    match o {
        None => Some(false),
        Some(Jv::Bool(b)) => Some(b),
        _ => None,
    }
}

/// What a required `u64` field decodes to.
pub open spec fn u64_field_of(o: Option<Jv>) -> Option<u64> {
    match o {
        Some(Jv::Num(s)) => u64_of(s),
        _ => None,
    }
}

/// What a required `u32` field decodes to.
pub open spec fn u32_field_of(o: Option<Jv>) -> Option<u32> {
    match o {
        Some(Jv::Num(s)) => u32_of(s),
        _ => None,
    }
}

/// What a required `i64` field decodes to.
pub open spec fn i64_field_of(o: Option<Jv>) -> Option<i64> {
    match o {
        Some(Jv::Num(s)) => i64_of(s),
        _ => None,
    }
}

/// What an optional `u64` field decodes to.
pub open spec fn opt_u64_of(o: Option<Jv>) -> Option<Option<u64>> {
    match o {
        None => Some(None),
        Some(Jv::Null) => Some(None),
        Some(Jv::Num(s)) => match u64_of(s) {
            Some(n) => Some(Some(n)),
            None => None,
        },
        _ => None,
    }
}

/// What an optional field of any shape decodes to: absent and `null`
/// are "no value"; anything else is kept whole. Never a failure.
pub open spec fn any_of(o: Option<Jv>) -> Option<Jv> {
    match o {
        None => None,
        Some(Jv::Null) => None,
        Some(v) => Some(v),
    }
}

/// What an array of strings decodes to.
pub open spec fn strs_of(items: Seq<Jv>) -> Option<Seq<Seq<char>>>
    decreases items.len(),
{
    if items.len() == 0 {
        Some(Seq::empty())
    } else {
        match (items[0], strs_of(items.drop_first())) {
            (Jv::Str(s), Some(rest)) => Some(seq![s] + rest),
            _ => None,
        }
    }
}

/// What an optional array-of-strings field decodes to.
pub open spec fn opt_str_arr_of(o: Option<Jv>) -> Option<Option<Seq<Seq<char>>>> {
    match o {
        None => Some(None),
        Some(Jv::Null) => Some(None),
        Some(Jv::Arr(items)) => match strs_of(items) {
            Some(ss) => Some(Some(ss)),
            None => None,
        },
        _ => None,
    }
}

/// A reference to the value of the first field named `key`, if any.
pub fn get_field<'a>(fields: &'a Vec<(String, Json)>, key: &str) -> (r: Option<&'a Json>)
    ensures
        match r {
            Some(j) => lookup(jv_fields(fields@), key@) == Some(j@),
            None => lookup(jv_fields(fields@), key@) is None,
        },
{
    let k: String = key.to_owned();
    proof {
        assert(jv_fields(fields@).skip(0) =~= jv_fields(fields@));
    }
    let mut i: usize = 0;
    while i < fields.len()
        invariant
            i <= fields@.len(),
            k@ == key@,
            lookup(jv_fields(fields@), key@) == lookup(jv_fields(fields@).skip(i as int), key@),
        decreases fields@.len() - i,
    {
        proof {
            lemma_jv_fields(fields@);
            assert(jv_fields(fields@).skip(i as int)[0] == jv_fields(fields@)[i as int]);
            assert(jv_fields(fields@).skip(i as int).drop_first() =~= jv_fields(
                fields@).skip(i + 1));
        }
        if fields[i].0.eq(&k) {
            return Some(&fields[i].1);
        }
        i = i + 1;
    }
    proof {
        lemma_jv_fields(fields@);
        assert(jv_fields(fields@).skip(i as int).len() == 0);
    }
    None
}

/// The required string field `key`, as `str_of` says.
pub fn get_str(fields: &Vec<(String, Json)>, key: &str) -> (r: Option<String>)
    ensures
        match r {
            Some(s) => str_of(lookup(jv_fields(fields@), key@)) == Some(s@),
            None => str_of(lookup(jv_fields(fields@), key@)) is None,
        },
{
    match get_field(fields, key) {
        Some(Json::Str(s)) => Some(s.clone()),
        _ => None,
    }
}

/// The optional string field `key`, as `opt_str_of` says.
pub fn get_opt_str(fields: &Vec<(String, Json)>, key: &str) -> (r: Option<Option<String>>)
    ensures
        match r {
            Some(Some(s)) => opt_str_of(lookup(jv_fields(fields@), key@)) == Some(Some(s@)),
            Some(None) => opt_str_of(lookup(jv_fields(fields@), key@)) == Some(
                None::<Seq<char>>),
            None => opt_str_of(lookup(jv_fields(fields@), key@)) is None,
        },
{
    match get_field(fields, key) {
        None => Some(None),
        Some(Json::Null) => Some(None),
        Some(Json::Str(s)) => Some(Some(s.clone())),
        Some(_) => None,
    }
}

/// The required boolean field `key`, as `bool_of` says.
pub fn get_bool(fields: &Vec<(String, Json)>, key: &str) -> (r: Option<bool>)
    ensures
        match r {
            Some(b) => bool_of(lookup(jv_fields(fields@), key@)) == Some(b),
            None => bool_of(lookup(jv_fields(fields@), key@)) is None,
        },
{
    match get_field(fields, key) {
        Some(Json::Bool(b)) => Some(*b),
        _ => None,
    }
}

/// The defaulted boolean field `key`, as `bool_or_false_of` says.
pub fn get_bool_or_false(fields: &Vec<(String, Json)>, key: &str) -> (r: Option<bool>)
    ensures
        match r {
            Some(b) => bool_or_false_of(lookup(jv_fields(fields@), key@)) == Some(b),
            None => bool_or_false_of(lookup(jv_fields(fields@), key@)) is None,
        },
{
    match get_field(fields, key) {
        None => Some(false),
        Some(Json::Bool(b)) => Some(*b),
        Some(_) => None,
    }
}

/// The required `u64` field `key`, as `u64_field_of` says.
pub fn get_u64(fields: &Vec<(String, Json)>, key: &str) -> (r: Option<u64>)
    ensures
        r == u64_field_of(lookup(jv_fields(fields@), key@)),
{
    match get_field(fields, key) {
        Some(Json::Num(s)) => crate::text::parse_u64(s.as_str()),
        _ => None,
    }
}

/// The required `u32` field `key`, as `u32_field_of` says.
pub fn get_u32(fields: &Vec<(String, Json)>, key: &str) -> (r: Option<u32>)
    ensures
        r == u32_field_of(lookup(jv_fields(fields@), key@)),
{
    match get_field(fields, key) {
        Some(Json::Num(s)) => crate::text::parse_u32(s.as_str()),
        _ => None,
    }
}

/// The required `i64` field `key`, as `i64_field_of` says.
pub fn get_i64(fields: &Vec<(String, Json)>, key: &str) -> (r: Option<i64>)
    ensures
        r == i64_field_of(lookup(jv_fields(fields@), key@)),
{
    match get_field(fields, key) {
        Some(Json::Num(s)) => crate::text::parse_i64(s.as_str()),
        _ => None,
    }
}

/// The optional `u64` field `key`, as `opt_u64_of` says.
pub fn get_opt_u64(fields: &Vec<(String, Json)>, key: &str) -> (r: Option<Option<u64>>)
    ensures
        match r {
            Some(v) => opt_u64_of(lookup(jv_fields(fields@), key@)) == Some(v),
            None => opt_u64_of(lookup(jv_fields(fields@), key@)) is None,
        },
{
    match get_field(fields, key) {
        None => Some(None),
        Some(Json::Null) => Some(None),
        Some(Json::Num(s)) => match crate::text::parse_u64(s.as_str()) {
            Some(n) => Some(Some(n)),
            None => None,
        },
        Some(_) => None,
    }
}

/// A deep copy of `j`.
#[verifier::loop_isolation(false)]
pub fn json_clone(j: &Json) -> (r: Json)
    ensures
        r@ == j@,
    decreases *j,
{
    match j {
        Json::Null => Json::Null,
        Json::Bool(b) => Json::Bool(*b),
        Json::Num(s) => Json::Num(s.clone()),
        Json::Str(s) => Json::Str(s.clone()),
        Json::Arr(items) => {
            let mut out: Vec<Json> = Vec::new();
            let mut i: usize = 0;
            while i < items.len()
                invariant
                    i <= items@.len(),
                    out@.len() == i,
                    forall|k: int| 0 <= k < i ==> jv(#[trigger] out@[k]) == jv(items@[k]),
                decreases items@.len() - i,
            {
                proof {
                    assert(decreases_to!(*j => j->Arr_0));
                    assert(j->Arr_0 == *items);
                    assert(decreases_to!(*items => items@));
                    assert(decreases_to!(items@ => items@[i as int]));
                }
                let e = json_clone(&items[i]);
                out.push(e);
                i = i + 1;
            }
            proof {
                lemma_jv_seq(out@);
                lemma_jv_seq(items@);
                assert(jv_seq(out@) =~= jv_seq(items@));
            }
            Json::Arr(out)
        },
        Json::Obj(fields) => {
            let mut out: Vec<(String, Json)> = Vec::new();
            let mut i: usize = 0;
            while i < fields.len()
                invariant
                    i <= fields@.len(),
                    out@.len() == i,
                    forall|k: int| 0 <= k < i ==> (#[trigger] out@[k]).0@ == fields@[k].0@ && jv(
                        out@[k].1) == jv(fields@[k].1),
                decreases fields@.len() - i,
            {
                proof {
                    assert(decreases_to!(*j => j->Obj_0));
                    assert(j->Obj_0 == *fields);
                    assert(decreases_to!(*fields => fields@));
                    assert(decreases_to!(fields@ => fields@[i as int]));
                    assert(decreases_to!(fields@[i as int] => fields@[i as int].1));
                }
                let k = fields[i].0.clone();
                let e = json_clone(&fields[i].1);
                out.push((k, e));
                i = i + 1;
            }
            proof {
                lemma_jv_fields(out@);
                lemma_jv_fields(fields@);
                assert(jv_fields(out@) =~= jv_fields(fields@));
            }
            Json::Obj(out)
        },
    }
}

/// A deep copy of an object's fields.
pub fn fields_clone(fields: &Vec<(String, Json)>) -> (out: Vec<(String, Json)>)
    ensures
        jv_fields(out@) == jv_fields(fields@),
{
    let mut out: Vec<(String, Json)> = Vec::new();
    let mut i: usize = 0;
    while i < fields.len()
        invariant
            i <= fields@.len(),
            out@.len() == i,
            forall|k: int| 0 <= k < i ==> (#[trigger] out@[k]).0@ == fields@[k].0@ && jv(
                out@[k].1) == jv(fields@[k].1),
        decreases fields@.len() - i,
    {
        let k = fields[i].0.clone();
        let e = json_clone(&fields[i].1);
        out.push((k, e));
        i = i + 1;
    }
    proof {
        lemma_jv_fields(out@);
        lemma_jv_fields(fields@);
        assert(jv_fields(out@) =~= jv_fields(fields@));
    }
    out
}

impl Clone for Json {
    /// A deep copy with the same model.
    fn clone(&self) -> (r: Json)
        ensures
            r@ == self@,
    {
        json_clone(self)
    }
}

/// The optional field `key` kept as a whole document, as `any_of`
/// says.
pub fn get_any(fields: &Vec<(String, Json)>, key: &str) -> (r: Option<Json>)
    ensures
        match r {
            Some(j) => any_of(lookup(jv_fields(fields@), key@)) == Some(j@),
            None => any_of(lookup(jv_fields(fields@), key@)) is None,
        },
{
    match get_field(fields, key) {
        None => None,
        Some(Json::Null) => None,
        Some(j) => Some(json_clone(j)),
    }
}

/// The strings of an all-string array, as `strs_of` says.
pub fn get_strs(items: &Vec<Json>) -> (r: Option<Vec<String>>)
    ensures
        match r {
            Some(v) => strs_of(jv_seq(items@)) == Some(
                Seq::new(v@.len(), |k: int| v@[k]@)),
            None => strs_of(jv_seq(items@)) is None,
        },
{
    let mut out: Vec<String> = Vec::new();
    let mut i: usize = 0;
    while i < items.len()
        invariant
            i <= items@.len(),
            out@.len() == i,
            forall|k: int| 0 <= k < i ==> jv(items@[k]) == Jv::Str(#[trigger] out@[k]@),
        decreases items@.len() - i,
    {
        proof {
            lemma_jv_seq(items@);
        }
        match &items[i] {
            Json::Str(s) => {
                out.push(s.clone());
            },
            _ => {
                proof {
                    lemma_strs_of_bad(jv_seq(items@), i as int);
                }
                return None;
            },
        }
        i = i + 1;
    }
    proof {
        lemma_jv_seq(items@);
        lemma_strs_of_all(jv_seq(items@), Seq::new(out@.len(), |k: int| out@[k]@));
    }
    Some(out)
}

/// If every element is a string, `strs_of` lists exactly them.
proof fn lemma_strs_of_all(items: Seq<Jv>, ss: Seq<Seq<char>>)
    requires
        items.len() == ss.len(),
        forall|k: int| 0 <= k < items.len() ==> items[k] == Jv::Str(#[trigger] ss[k]),
    ensures
        strs_of(items) == Some(ss),
    decreases items.len(),
{
    if items.len() == 0 {
        assert(ss =~= Seq::<Seq<char>>::empty());
    } else {
        lemma_strs_of_all(items.drop_first(), ss.drop_first());
        assert(strs_of(items) == Some(seq![ss[0]] + ss.drop_first()));
        assert(seq![ss[0]] + ss.drop_first() =~= ss);
    }
}

/// A non-string element anywhere makes `strs_of` fail.
proof fn lemma_strs_of_bad(items: Seq<Jv>, k: int)
    requires
        0 <= k < items.len(),
        !(items[k] is Str),
    ensures
        strs_of(items) is None,
    decreases items.len(),
{
    if k > 0 {
        lemma_strs_of_bad(items.drop_first(), k - 1);
    }
}

// ── Building objects field by field ────────────────────────────────

/// The object fields an optional string contributes: one field when
/// set, none when absent.
pub open spec fn opt_str_jfield(name: Seq<char>, o: Option<Seq<char>>) -> Seq<(Seq<char>, Jv)> {
    match o {
        Some(s) => seq![(name, Jv::Str(s))],
        None => Seq::empty(),
    }
}

/// The object fields an optional `u32` contributes, in decimal.
pub open spec fn opt_u32_jfield(name: Seq<char>, o: Option<u32>) -> Seq<(Seq<char>, Jv)> {
    match o {
        Some(n) => seq![(name, Jv::Num(dec_str(n as int)))],
        None => Seq::empty(),
    }
}

/// The object fields an optional `u64` contributes, in decimal.
pub open spec fn opt_u64_jfield(name: Seq<char>, o: Option<u64>) -> Seq<(Seq<char>, Jv)> {
    match o {
        Some(n) => seq![(name, Jv::Num(dec_str(n as int)))],
        None => Seq::empty(),
    }
}

/// The object fields an optional boolean contributes.
pub open spec fn opt_bool_jfield(name: Seq<char>, o: Option<bool>) -> Seq<(Seq<char>, Jv)> {
    match o {
        Some(b) => seq![(name, Jv::Bool(b))],
        None => Seq::empty(),
    }
}

/// The string documents for a list of strings.
pub open spec fn strs_jv(s: Seq<Seq<char>>) -> Seq<Jv> {
    Seq::new(s.len(), |k: int| Jv::Str(s[k]))
}

/// The object fields an optional string array contributes.
pub open spec fn opt_strs_jfield(name: Seq<char>, o: Option<Seq<Seq<char>>>) -> Seq<(Seq<char>,
    Jv)> {
    match o {
        Some(ss) => seq![(name, Jv::Arr(strs_jv(ss)))],
        None => Seq::empty(),
    }
}

/// The object fields an optional nested object contributes.
pub open spec fn opt_obj_jfield(name: Seq<char>, o: Option<Seq<(Seq<char>, Jv)>>) -> Seq<(
    Seq<char>, Jv)> {
    match o {
        Some(fs) => seq![(name, Jv::Obj(fs))],
        None => Seq::empty(),
    }
}

/// One more field extends the model at the end.
pub proof fn lemma_jv_fields_push(s: Seq<(String, Json)>, f: (String, Json))
    ensures
        jv_fields(s.push(f)) == jv_fields(s) + seq![(f.0@, jv(f.1))],
{
    lemma_jv_fields(s.push(f));
    lemma_jv_fields(s);
    assert(jv_fields(s.push(f)) =~= jv_fields(s) + seq![(f.0@, jv(f.1))]);
}

/// Appends one object field, extending the model by exactly that
/// field.
pub fn push_json_field(fs: &mut Vec<(String, Json)>, name: &str, j: Json)
    ensures
        jv_fields(final(fs)@) == jv_fields(old(fs)@) + seq![(name@, j@)],
{
    let ghost olds = fs@;
    let n = name.to_owned();
    let ghost jj = j@;
    fs.push((n, j));
    proof {
        lemma_jv_fields_push(olds, (n, j));
    }
}

// ── Decoding records ───────────────────────────────────────────────

/// A response record that decodes from a JSON document. `of_jv` is
/// the one definition of the decoding; `from_json` is proved equal to
/// it.
pub trait FromJson: View + Sized {
    /// What the record decodes to from a document, if anything.
    spec fn of_jv(j: Jv) -> Option<Self::V>;

    /// Decodes a document, as `of_jv` says.
    fn from_json(j: &Json) -> (r: Option<Self>)
        ensures
            match r {
                Some(v) => Self::of_jv(j@) == Some(v@),
                None => Self::of_jv(j@) is None,
            },
    ;
}

/// The element-wise view of a sequence of viewable values.
pub open spec fn vec_view<T: View>(v: Seq<T>) -> Seq<T::V> {
    Seq::new(v.len(), |k: int| v[k]@)
}

/// What an array of records decodes to: every element must decode.
pub open spec fn seq_of_jv<T: FromJson>(items: Seq<Jv>) -> Option<Seq<T::V>>
    decreases items.len(),
{
    if items.len() == 0 {
        Some(Seq::empty())
    } else {
        match (T::of_jv(items[0]), seq_of_jv::<T>(items.drop_first())) {
            (Some(v), Some(rest)) => Some(seq![v] + rest),
            _ => None,
        }
    }
}

/// If every element decodes, `seq_of_jv` lists exactly the decoded
/// values.
proof fn lemma_seq_of_jv_all<T: FromJson>(items: Seq<Jv>, vs: Seq<T::V>)
    requires
        items.len() == vs.len(),
        forall|k: int| 0 <= k < items.len() ==> T::of_jv(items[k]) == Some(#[trigger] vs[k]),
    ensures
        seq_of_jv::<T>(items) == Some(vs),
    decreases items.len(),
{
    if items.len() == 0 {
        assert(vs =~= Seq::<T::V>::empty());
    } else {
        lemma_seq_of_jv_all::<T>(items.drop_first(), vs.drop_first());
        assert(seq![vs[0]] + vs.drop_first() =~= vs);
    }
}

/// An element that does not decode anywhere makes `seq_of_jv` fail.
proof fn lemma_seq_of_jv_bad<T: FromJson>(items: Seq<Jv>, k: int)
    requires
        0 <= k < items.len(),
        T::of_jv(items[k]) is None,
    ensures
        seq_of_jv::<T>(items) is None,
    decreases items.len(),
{
    if k > 0 {
        lemma_seq_of_jv_bad::<T>(items.drop_first(), k - 1);
    }
}

/// Decodes every element of an array, as `seq_of_jv` says.
pub fn vec_from_json<T: FromJson>(items: &Vec<Json>) -> (r: Option<Vec<T>>)
    ensures
        match r {
            Some(v) => seq_of_jv::<T>(jv_seq(items@)) == Some(vec_view(v@)),
            None => seq_of_jv::<T>(jv_seq(items@)) is None,
        },
{
    let mut out: Vec<T> = Vec::new();
    let mut i: usize = 0;
    while i < items.len()
        invariant
            i <= items@.len(),
            out@.len() == i,
            forall|k: int| 0 <= k < i ==> T::of_jv(jv(items@[k])) == Some((#[trigger] out@[k])@),
        decreases items@.len() - i,
    {
        proof {
            lemma_jv_seq(items@);
        }
        match T::from_json(&items[i]) {
            Some(v) => {
                out.push(v);
            },
            None => {
                proof {
                    lemma_seq_of_jv_bad::<T>(jv_seq(items@), i as int);
                }
                return None;
            },
        }
        i = i + 1;
    }
    proof {
        lemma_jv_seq(items@);
        lemma_seq_of_jv_all::<T>(jv_seq(items@), vec_view(out@));
    }
    Some(out)
}

/// The view of an optional string.
pub open spec fn opt_str_view(o: Option<String>) -> Option<Seq<char>> {
    match o {
        Some(s) => Some(s@),
        None => None,
    }
}

/// The view of a list of strings.
pub open spec fn strs_view(v: Seq<String>) -> Seq<Seq<char>> {
    Seq::new(v.len(), |k: int| v[k]@)
}

/// The view of an optional list of strings.
pub open spec fn opt_strs_view(o: Option<Vec<String>>) -> Option<Seq<Seq<char>>> {
    match o {
        Some(v) => Some(strs_view(v@)),
        None => None,
    }
}

/// What a required record field decodes to.
pub open spec fn rec_of<T: FromJson>(o: Option<Jv>) -> Option<T::V> {
    match o {
        Some(j) => T::of_jv(j),
        None => None,
    }
}

/// What an optional record field decodes to: absent and `null` are
/// "no value"; anything else must decode as the record.
pub open spec fn opt_rec_of<T: FromJson>(o: Option<Jv>) -> Option<Option<T::V>> {
    match o {
        None => Some(None),
        Some(Jv::Null) => Some(None),
        Some(j) => match T::of_jv(j) {
            Some(v) => Some(Some(v)),
            None => None,
        },
    }
}

/// What a required array-of-records field decodes to.
pub open spec fn arr_rec_of<T: FromJson>(o: Option<Jv>) -> Option<Seq<T::V>> {
    match o {
        Some(Jv::Arr(items)) => seq_of_jv::<T>(items),
        _ => None,
    }
}

/// What a defaulted array-of-records field decodes to: absent means
/// empty.
pub open spec fn arr_rec_default_of<T: FromJson>(o: Option<Jv>) -> Option<Seq<T::V>> {
    match o {
        None => Some(Seq::empty()),
        Some(Jv::Arr(items)) => seq_of_jv::<T>(items),
        _ => None,
    }
}

/// The required record field `key`, as `rec_of` says.
pub fn get_rec<T: FromJson>(fields: &Vec<(String, Json)>, key: &str) -> (r: Option<T>)
    ensures
        match r {
            Some(v) => rec_of::<T>(lookup(jv_fields(fields@), key@)) == Some(v@),
            None => rec_of::<T>(lookup(jv_fields(fields@), key@)) is None,
        },
{
    match get_field(fields, key) {
        Some(j) => T::from_json(j),
        None => None,
    }
}

/// The optional record field `key`, as `opt_rec_of` says.
pub fn get_opt_rec<T: FromJson>(fields: &Vec<(String, Json)>, key: &str) -> (r: Option<Option<T>>)
    ensures
        match r {
            Some(Some(v)) => opt_rec_of::<T>(lookup(jv_fields(fields@), key@)) == Some(Some(v@)),
            Some(None) => opt_rec_of::<T>(lookup(jv_fields(fields@), key@)) == Some(
                None::<T::V>),
            None => opt_rec_of::<T>(lookup(jv_fields(fields@), key@)) is None,
        },
{
    match get_field(fields, key) {
        None => Some(None),
        Some(Json::Null) => Some(None),
        Some(j) => match T::from_json(j) {
            Some(v) => Some(Some(v)),
            None => None,
        },
    }
}

/// The required array-of-records field `key`, as `arr_rec_of` says.
pub fn get_vec<T: FromJson>(fields: &Vec<(String, Json)>, key: &str) -> (r: Option<Vec<T>>)
    ensures
        match r {
            Some(v) => arr_rec_of::<T>(lookup(jv_fields(fields@), key@)) == Some(vec_view(v@)),
            None => arr_rec_of::<T>(lookup(jv_fields(fields@), key@)) is None,
        },
{
    match get_field(fields, key) {
        Some(Json::Arr(items)) => vec_from_json::<T>(items),
        _ => None,
    }
}

/// The defaulted array-of-records field `key`, as
/// `arr_rec_default_of` says.
pub fn get_vec_or_empty<T: FromJson>(fields: &Vec<(String, Json)>, key: &str) -> (r: Option<Vec<T>>)
    ensures
        match r {
            Some(v) => arr_rec_default_of::<T>(lookup(jv_fields(fields@), key@)) == Some(
                vec_view(v@)),
            None => arr_rec_default_of::<T>(lookup(jv_fields(fields@), key@)) is None,
        },
{
    match get_field(fields, key) {
        None => {
            let out: Vec<T> = Vec::new();
            proof {
                assert(vec_view(out@) =~= Seq::<T::V>::empty());
            }
            Some(out)
        },
        Some(Json::Arr(items)) => vec_from_json::<T>(items),
        _ => None,
    }
}

/// The optional array-of-strings field `key`, as `opt_str_arr_of`
/// says.
pub fn get_opt_str_arr(fields: &Vec<(String, Json)>, key: &str) -> (r: Option<
    Option<Vec<String>>>)
    ensures
        match r {
            Some(Some(v)) => opt_str_arr_of(lookup(jv_fields(fields@), key@)) == Some(
                Some(Seq::new(v@.len(), |k: int| v@[k]@))),
            Some(None) => opt_str_arr_of(lookup(jv_fields(fields@), key@)) == Some(
                None::<Seq<Seq<char>>>),
            None => opt_str_arr_of(lookup(jv_fields(fields@), key@)) is None,
        },
{
    match get_field(fields, key) {
        None => Some(None),
        Some(Json::Null) => Some(None),
        Some(Json::Arr(items)) => match get_strs(items) {
            Some(v) => Some(Some(v)),
            None => None,
        },
        Some(_) => None,
    }
}

} // verus!
