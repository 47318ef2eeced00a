//! A JSON parser for the bodies the API sends back.
//!
//! The grammar is the spec: each `scan_*` function is proved equal to
//! the corresponding `parse_*` spec function, and `parse_json` is the
//! single definition of which texts the library decodes and to what.
//! Strings take the usual escapes, `\uXXXX` and surrogate pairs
//! included; numbers keep their lexeme; a document must stand alone,
//! up to surrounding whitespace.

use vstd::prelude::*;
use crate::json::{Json, Jv, jv, jv_seq, jv_fields, lemma_jv_seq, lemma_jv_fields};
use crate::text::{str_chars, string_from_chars};

verus! {

/// JSON whitespace.
pub open spec fn is_ws(c: char) -> bool {
    let u = c as u32;
    u == 32 || u == 9 || u == 10 || u == 13
}

/// The first position at or after `i` that holds no whitespace.
pub open spec fn skip_ws(s: Seq<char>, i: int) -> int
    decreases s.len() - i,
{
    if 0 <= i < s.len() && is_ws(s[i]) {
        skip_ws(s, i + 1)
    } else {
        i
    }
}

/// `j`, forced strictly past `lo`; the identity whenever the parse
/// made progress, which it always does. The guard keeps the
/// termination measures of the spec parser structural.
pub open spec fn bump(lo: int, j: int) -> int {
    if j <= lo {
        lo + 1
    } else {
        j
    }
}

/// The value of a hexadecimal digit character.
pub open spec fn hex_val(c: char) -> Option<int> {
    let u = c as u32;
    if 48 <= u <= 57 {
        Some((u - 48) as int)
    } else if 97 <= u <= 102 {
        Some((u - 87) as int)
    } else if 65 <= u <= 70 {
        Some((u - 55) as int)
    } else {
        None
    }
}

/// The value of the four hexadecimal digits at `i`, if they are there.
pub open spec fn hex4(s: Seq<char>, i: int) -> Option<int> {
    if 0 <= i && i + 4 <= s.len() {
        match (hex_val(s[i]), hex_val(s[i + 1]), hex_val(s[i + 2]), hex_val(s[i + 3])) {
            (Some(a), Some(b), Some(c), Some(d)) => Some(a * 4096 + b * 256 + c * 16 + d),
            _ => None,
        }
    } else {
        None
    }
}

/// One escape sequence, `i` standing just after the backslash: the
/// character it denotes and the position after it. A `\u` escape in
/// the surrogate range must pair a high with a low surrogate.
pub open spec fn esc_step(s: Seq<char>, i: int) -> Option<(char, int)> {
    if 0 <= i < s.len() {
        let u = s[i] as u32;
        if u == 34 {
            Some(('"', i + 1))
        } else if u == 92 {
            Some(('\\', i + 1))
        } else if u == 47 {
            Some(('/', i + 1))
        } else if u == 98 {
            Some(('\u{8}', i + 1))
        } else if u == 102 {
            Some(('\u{c}', i + 1))
        } else if u == 110 {
            Some(('\n', i + 1))
        } else if u == 114 {
            Some(('\r', i + 1))
        } else if u == 116 {
            Some(('\t', i + 1))
        } else if u == 117 {
            match hex4(s, i + 1) {
                Some(c1) => if c1 < 0xD800 || c1 > 0xDFFF {
                    Some((((c1 as u32) as char), i + 5))
                } else if c1 <= 0xDBFF {
                    if i + 7 <= s.len() && s[i + 5] as u32 == 92 && s[i + 6] as u32 == 117 {
                        match hex4(s, i + 7) {
                            Some(c2) => if 0xDC00 <= c2 <= 0xDFFF {
                                Some(((((0x10000 + (c1 - 0xD800) * 0x400 + (c2
                                    - 0xDC00)) as u32) as char), i + 11))
                            } else {
                                None
                            },
                            None => None,
                        }
                    } else {
                        None
                    }
                } else {
                    None
                },
                None => None,
            }
        } else {
            None
        }
    } else {
        None
    }
}

/// The body of a string literal from `i` (just after the opening
/// quote): the characters it denotes and the position after the
/// closing quote. Unescaped control characters are refused.
pub open spec fn parse_str_rest(s: Seq<char>, i: int) -> Option<(Seq<char>, int)>
    decreases s.len() - i,
{
    if 0 <= i < s.len() {
        let u = s[i] as u32;
        if u == 34 {
            Some((Seq::empty(), i + 1))
        } else if u == 92 {
            match esc_step(s, i + 1) {
                Some((c, j)) => {
                    let j2 = bump(i, j);
                    if j2 <= s.len() {
                        match parse_str_rest(s, j2) {
                            Some((t, k)) => Some((seq![c] + t, k)),
                            None => None,
                        }
                    } else {
                        None
                    }
                },
                None => None,
            }
        } else if u < 32 {
            None
        } else {
            match parse_str_rest(s, i + 1) {
                Some((t, k)) => Some((seq![s[i]] + t, k)),
                None => None,
            }
        }
    } else {
        None
    }
}

/// The first position at or after `i` that holds no decimal digit.
pub open spec fn digits_end(s: Seq<char>, i: int) -> int
    decreases s.len() - i,
{
    if 0 <= i < s.len() && 48 <= s[i] as u32 <= 57 {
        digits_end(s, i + 1)
    } else {
        i
    }
}

/// A number at `i`: its lexeme and the position after it, by the JSON
/// grammar (optional sign, no leading zeros, optional fraction and
/// exponent).
pub open spec fn parse_number(s: Seq<char>, i: int) -> Option<(Seq<char>, int)> {
    let a = if 0 <= i < s.len() && s[i] as u32 == 45 {
        i + 1
    } else {
        i
    };
    if !(0 <= a < s.len() && 48 <= s[a] as u32 <= 57) {
        None
    } else {
        let b = if s[a] as u32 == 48 {
            a + 1
        } else {
            digits_end(s, a)
        };
        let c0 = if b < s.len() && s[b] as u32 == 46 {
            let d = digits_end(s, b + 1);
            if d > b + 1 {
                d
            } else {
                -1
            }
        } else {
            b
        };
        if c0 < 0 {
            None
        } else {
            let e0 = if c0 < s.len() && (s[c0] as u32 == 101 || s[c0] as u32 == 69) {
                let sgn = if c0 + 1 < s.len() && (s[c0 + 1] as u32 == 43 || s[c0 + 1] as u32
                    == 45) {
                    c0 + 2
                } else {
                    c0 + 1
                };
                let d = digits_end(s, sgn);
                if d > sgn {
                    d
                } else {
                    -1
                }
            } else {
                c0
            };
            if e0 < 0 {
                None
            } else {
                Some((s.subrange(i, e0), e0))
            }
        }
    }
}

/// A value at `i` (no leading whitespace): its model and the position
/// after it.
pub open spec fn parse_value(s: Seq<char>, i: int) -> Option<(Jv, int)>
    decreases s.len() - i, 1int,
{
    if !(0 <= i < s.len()) {
        None
    } else {
        let u = s[i] as u32;
        if u == 110 {
            if i + 4 <= s.len() && s[i + 1] as u32 == 117 && s[i + 2] as u32 == 108 && s[i
                + 3] as u32 == 108 {
                Some((Jv::Null, i + 4))
            } else {
                None
            }
        } else if u == 116 {
            if i + 4 <= s.len() && s[i + 1] as u32 == 114 && s[i + 2] as u32 == 117 && s[i
                + 3] as u32 == 101 {
                Some((Jv::Bool(true), i + 4))
            } else {
                None
            }
        } else if u == 102 {
            if i + 5 <= s.len() && s[i + 1] as u32 == 97 && s[i + 2] as u32 == 108 && s[i
                + 3] as u32 == 115 && s[i + 4] as u32 == 101 {
                Some((Jv::Bool(false), i + 5))
            } else {
                None
            }
        } else if u == 34 {
            match parse_str_rest(s, i + 1) {
                Some((t, j)) => Some((Jv::Str(t), j)),
                None => None,
            }
        } else if u == 45 || 48 <= u <= 57 {
            match parse_number(s, i) {
                Some((t, j)) => Some((Jv::Num(t), j)),
                None => None,
            }
        } else if u == 91 {
            let j1 = bump(i, skip_ws(s, i + 1));
            if j1 < s.len() && s[j1] as u32 == 93 {
                Some((Jv::Arr(Seq::empty()), j1 + 1))
            } else if j1 < s.len() {
                match parse_elems(s, j1) {
                    Some((items, k)) => Some((Jv::Arr(items), k)),
                    None => None,
                }
            } else {
                None
            }
        } else if u == 123 {
            let j1 = bump(i, skip_ws(s, i + 1));
            if j1 < s.len() && s[j1] as u32 == 125 {
                Some((Jv::Obj(Seq::empty()), j1 + 1))
            } else if j1 < s.len() {
                match parse_membs(s, j1) {
                    Some((fields, k)) => Some((Jv::Obj(fields), k)),
                    None => None,
                }
            } else {
                None
            }
        } else {
            None
        }
    }
}

/// The elements of a non-empty array from the first value at `i` to
/// the closing bracket.
pub open spec fn parse_elems(s: Seq<char>, i: int) -> Option<(Seq<Jv>, int)>
    decreases s.len() - i, 2int,
{
    if !(0 <= i < s.len()) {
        None
    } else {
        match parse_value(s, i) {
            Some((v, j0)) => {
                let j = bump(i, skip_ws(s, bump(i, j0)));
                if j < s.len() && s[j] as u32 == 44 {
                    let k = bump(j, skip_ws(s, j + 1));
                    if k < s.len() {
                        match parse_elems(s, k) {
                            Some((rest, m)) => Some((seq![v] + rest, m)),
                            None => None,
                        }
                    } else {
                        None
                    }
                } else if j < s.len() && s[j] as u32 == 93 {
                    Some((seq![v], j + 1))
                } else {
                    None
                }
            },
            None => None,
        }
    }
}

/// The fields of a non-empty object from the first key at `i` to the
/// closing brace.
pub open spec fn parse_membs(s: Seq<char>, i: int) -> Option<(Seq<(Seq<char>, Jv)>, int)>
    decreases s.len() - i, 2int,
{
    if 0 <= i < s.len() && s[i] as u32 == 34 {
        match parse_str_rest(s, i + 1) {
            Some((key, j0)) => {
                let j = bump(i, skip_ws(s, bump(i, j0)));
                if j < s.len() && s[j] as u32 == 58 {
                    let k = bump(j, skip_ws(s, j + 1));
                    if k < s.len() {
                        match parse_value(s, k) {
                            Some((v, m0)) => {
                                let m = bump(k, skip_ws(s, bump(k, m0)));
                                if m < s.len() && s[m] as u32 == 44 {
                                    let n = bump(m, skip_ws(s, m + 1));
                                    if n < s.len() {
                                        match parse_membs(s, n) {
                                            Some((rest, p)) => Some((seq![(key, v)] + rest, p)),
                                            None => None,
                                        }
                                    } else {
                                        None
                                    }
                                } else if m < s.len() && s[m] as u32 == 125 {
                                    Some((seq![(key, v)], m + 1))
                                } else {
                                    None
                                }
                            },
                            None => None,
                        }
                    } else {
                        None
                    }
                } else {
                    None
                }
            },
            None => None,
        }
    } else {
        None
    }
}

/// What the text `s` decodes to: one value, whitespace allowed around
/// it, nothing else before or after.
pub open spec fn parse_json(s: Seq<char>) -> Option<Jv> {
    match parse_value(s, skip_ws(s, 0)) {
        Some((v, j)) => if skip_ws(s, j) == s.len() {
            Some(v)
        } else {
            None
        },
        None => None,
    }
}

// ── The scanner, proved equal to the spec parser ───────────────────

/// Runs to the end of the whitespace, as `skip_ws` says.
fn scan_ws(s: &Vec<char>, i: usize) -> (r: usize)
    requires
        i <= s@.len(),
    ensures
        r as int == skip_ws(s@, i as int),
        i <= r <= s@.len(),
    decreases s@.len() - i,
{
    if i < s.len() {
        let u = s[i] as u32;
        if u == 32 || u == 9 || u == 10 || u == 13 {
            return scan_ws(s, i + 1);
        }
    }
    i
}

/// Reads one hexadecimal digit, as `hex_val` says.
fn scan_hex_digit(c: char) -> (r: Option<u32>)
    ensures
        match r {
            Some(v) => hex_val(c) == Some(v as int) && v <= 15,
            None => hex_val(c) is None,
        },
{
    let u = c as u32;
    if 48 <= u && u <= 57 {
        Some(u - 48)
    } else if 97 <= u && u <= 102 {
        Some(u - 87)
    } else if 65 <= u && u <= 70 {
        Some(u - 55)
    } else {
        None
    }
}

/// Reads four hexadecimal digits, as `hex4` says.
fn scan_hex4(s: &Vec<char>, i: usize) -> (r: Option<u32>)
    requires
        i <= s@.len(),
    ensures
        match r {
            Some(v) => hex4(s@, i as int) == Some(v as int) && v <= 0xFFFF,
            None => hex4(s@, i as int) is None,
        },
{
    if s.len() - i >= 4 {
        let a = scan_hex_digit(s[i]);
        let b = scan_hex_digit(s[i + 1]);
        let c = scan_hex_digit(s[i + 2]);
        let d = scan_hex_digit(s[i + 3]);
        match (a, b, c, d) {
            (Some(a), Some(b), Some(c), Some(d)) => Some(a * 4096 + b * 256 + c * 16 + d),
            _ => None,
        }
    } else {
        None
    }
}

/// Reads one escape sequence, as `esc_step` says.
fn scan_esc(s: &Vec<char>, i: usize) -> (r: Option<(char, usize)>)
    requires
        i <= s@.len(),
    ensures
        match r {
            Some((c, j)) => esc_step(s@, i as int) == Some((c, j as int)) && i < j <= s@.len(),
            None => esc_step(s@, i as int) is None,
        },
{
    if i >= s.len() {
        return None;
    }
    let u = s[i] as u32;
    if u == 34 {
        Some(('"', i + 1))
    } else if u == 92 {
        Some(('\\', i + 1))
    } else if u == 47 {
        Some(('/', i + 1))
    } else if u == 98 {
        Some(('\u{8}', i + 1))
    } else if u == 102 {
        Some(('\u{c}', i + 1))
    } else if u == 110 {
        Some(('\n', i + 1))
    } else if u == 114 {
        Some(('\r', i + 1))
    } else if u == 116 {
        Some(('\t', i + 1))
    } else if u == 117 {
        match scan_hex4(s, i + 1) {
            Some(c1) => if c1 < 0xD800 || c1 > 0xDFFF {
                match char::from_u32(c1) {
                    Some(c) => {
                        proof {
                            vstd::utf8::char_u32_cast(c, c1);
                        }
                        Some((c, i + 5))
                    },
                    None => {
                        proof {
                            assert(false);
                        }
                        None
                    },
                }
            } else if c1 <= 0xDBFF {
                if s.len() - i >= 7 && s[i + 5] as u32 == 92 && s[i + 6] as u32 == 117 {
                    match scan_hex4(s, i + 7) {
                        Some(c2) => if 0xDC00 <= c2 && c2 <= 0xDFFF {
                            let code: u32 = 0x10000 + (c1 - 0xD800) * 0x400 + (c2 - 0xDC00);
                            match char::from_u32(code) {
                                Some(c) => {
                                    proof {
                                        vstd::utf8::char_u32_cast(c, code);
                                    }
                                    Some((c, i + 11))
                                },
                                None => {
                                    proof {
                                        assert(false);
                                    }
                                    None
                                },
                            }
                        } else {
                            None
                        },
                        None => None,
                    }
                } else {
                    None
                }
            } else {
                None
            },
            None => None,
        }
    } else {
        None
    }
}

/// Relies on `char::from_u32` of std: the conversion succeeds exactly
/// for Unicode scalar values, and the character it gives carries that
/// code point.
pub assume_specification[ char::from_u32 ](u: u32) -> (r: Option<char>)
    ensures
        r is Some <==> (u < 0xD800 || (0xE000 <= u && u <= 0x10FFFF)),
        r matches Some(c) ==> c as u32 == u,
;

/// Reads a string body, as `parse_str_rest` says.
fn scan_str_rest(s: &Vec<char>, i: usize) -> (r: Option<(Vec<char>, usize)>)
    requires
        i <= s@.len(),
    ensures
        match r {
            Some((t, j)) => parse_str_rest(s@, i as int) == Some((t@, j as int)) && i < j
                <= s@.len(),
            None => parse_str_rest(s@, i as int) is None,
        },
    decreases s@.len() - i,
{
    if i >= s.len() {
        return None;
    }
    let u = s[i] as u32;
    if u == 34 {
        Some((Vec::new(), i + 1))
    } else if u == 92 {
        match scan_esc(s, i + 1) {
            Some((c, j)) => match scan_str_rest(s, j) {
                Some((t, k)) => {
                    let ghost t0 = t@;
                    let mut t2 = t;
                    t2.insert(0, c);
                    proof {
                        t0.insert_ensures(0, c);
                        assert(t2@ =~= seq![c] + t0);
                    }
                    Some((t2, k))
                },
                None => None,
            },
            None => None,
        }
    } else if u < 32 {
        None
    } else {
        match scan_str_rest(s, i + 1) {
            Some((t, k)) => {
                let c = s[i];
                let ghost t0 = t@;
                let mut t2 = t;
                t2.insert(0, c);
                proof {
                    t0.insert_ensures(0, c);
                    assert(t2@ =~= seq![c] + t0);
                }
                Some((t2, k))
            },
            None => None,
        }
    }
}

/// Runs to the end of the digits, as `digits_end` says.
fn scan_digits(s: &Vec<char>, i: usize) -> (r: usize)
    requires
        i <= s@.len(),
    ensures
        r as int == digits_end(s@, i as int),
        i <= r <= s@.len(),
    decreases s@.len() - i,
{
    if i < s.len() {
        let u = s[i] as u32;
        if 48 <= u && u <= 57 {
            return scan_digits(s, i + 1);
        }
    }
    i
}

/// The digit run neither moves backward nor runs off the end.
proof fn lemma_digits_end_bounds(s: Seq<char>, i: int)
    requires
        0 <= i <= s.len(),
    ensures
        i <= digits_end(s, i) <= s.len(),
    decreases s.len() - i,
{
    if i < s.len() && 48 <= s[i] as u32 <= 57 {
        lemma_digits_end_bounds(s, i + 1);
    }
}

/// Reads a number, as `parse_number` says.
fn scan_number(s: &Vec<char>, i: usize) -> (r: Option<(String, usize)>)
    requires
        i <= s@.len(),
    ensures
        match r {
            Some((t, j)) => parse_number(s@, i as int) == Some((t@, j as int)) && i < j
                <= s@.len(),
            None => parse_number(s@, i as int) is None,
        },
{
    let a: usize = if i < s.len() && s[i] as u32 == 45 {
        i + 1
    } else {
        i
    };
    if !(a < s.len() && {
        let u = s[a] as u32;
        48 <= u && u <= 57
    }) {
        return None;
    }
    let b: usize = if s[a] as u32 == 48 {
        a + 1
    } else {
        scan_digits(s, a)
    };
    let c0: usize = if b < s.len() && s[b] as u32 == 46 {
        let d = scan_digits(s, b + 1);
        if d > b + 1 {
            d
        } else {
            return None;
        }
    } else {
        b
    };
    let e0: usize = if c0 < s.len() && {
        let u = s[c0] as u32;
        u == 101 || u == 69
    } {
        let sgn: usize = if c0 + 1 < s.len() && {
            let u = s[c0 + 1] as u32;
            u == 43 || u == 45
        } {
            c0 + 2
        } else {
            c0 + 1
        };
        let d = scan_digits(s, sgn);
        if d > sgn {
            d
        } else {
            return None;
        }
    } else {
        c0
    };
    proof {
        if s@[a as int] as u32 != 48 {
            lemma_digits_end_bounds(s@, a + 1);
        }
        assert(b > a as int);
    }
    let mut lex: Vec<char> = Vec::new();
    let mut k: usize = i;
    while k < e0
        invariant
            i <= k <= e0 <= s@.len(),
            lex@ == s@.subrange(i as int, k as int),
        decreases e0 - k,
    {
        proof {
            assert(s@.subrange(i as int, k + 1) =~= s@.subrange(i as int, k as int).push(
                s@[k as int]));
        }
        lex.push(s[k]);
        k = k + 1;
    }
    Some((string_from_chars(&lex), e0))
}

/// Reads a value, as `parse_value` says.
fn scan_value(s: &Vec<char>, i: usize) -> (r: Option<(Json, usize)>)
    requires
        i <= s@.len(),
    ensures
        match r {
            Some((j, k)) => parse_value(s@, i as int) == Some((j@, k as int)) && i < k
                <= s@.len(),
            None => parse_value(s@, i as int) is None,
        },
    decreases s@.len() - i, 1int,
{
    if i >= s.len() {
        return None;
    }
    let u = s[i] as u32;
    if u == 110 {
        if s.len() - i >= 4 && s[i + 1] as u32 == 117 && s[i + 2] as u32 == 108 && s[i
            + 3] as u32 == 108 {
            Some((Json::Null, i + 4))
        } else {
            None
        }
    } else if u == 116 {
        if s.len() - i >= 4 && s[i + 1] as u32 == 114 && s[i + 2] as u32 == 117 && s[i
            + 3] as u32 == 101 {
            Some((Json::Bool(true), i + 4))
        } else {
            None
        }
    } else if u == 102 {
        if s.len() - i >= 5 && s[i + 1] as u32 == 97 && s[i + 2] as u32 == 108 && s[i + 3] as u32
            == 115 && s[i + 4] as u32 == 101 {
            Some((Json::Bool(false), i + 5))
        } else {
            None
        }
    } else if u == 34 {
        match scan_str_rest(s, i + 1) {
            Some((t, j)) => Some((Json::Str(string_from_chars(&t)), j)),
            None => None,
        }
    } else if u == 45 || (48 <= u && u <= 57) {
        match scan_number(s, i) {
            Some((t, j)) => Some((Json::Num(t), j)),
            None => None,
        }
    } else if u == 91 {
        let j1 = scan_ws(s, i + 1);
        if j1 < s.len() && s[j1] as u32 == 93 {
            let items: Vec<Json> = Vec::new();
            proof {
                lemma_jv_seq(items@);
                assert(jv_seq(items@) =~= Seq::<Jv>::empty());
            }
            Some((Json::Arr(items), j1 + 1))
        } else if j1 < s.len() {
            match scan_elems(s, j1) {
                Some((items, k)) => Some((Json::Arr(items), k)),
                None => None,
            }
        } else {
            None
        }
    } else if u == 123 {
        let j1 = scan_ws(s, i + 1);
        if j1 < s.len() && s[j1] as u32 == 125 {
            let fields: Vec<(String, Json)> = Vec::new();
            proof {
                lemma_jv_fields(fields@);
                assert(jv_fields(fields@) =~= Seq::<(Seq<char>, Jv)>::empty());
            }
            Some((Json::Obj(fields), j1 + 1))
        } else if j1 < s.len() {
            match scan_membs(s, j1) {
                Some((fields, k)) => Some((Json::Obj(fields), k)),
                None => None,
            }
        } else {
            None
        }
    } else {
        None
    }
}

/// `jv_seq` over an insertion at the front.
proof fn lemma_jv_seq_insert0(olds: Seq<Json>, v: Json)
    ensures
        jv_seq(olds.insert(0, v)) =~= seq![jv(v)] + jv_seq(olds),
{
    olds.insert_ensures(0, v);
    lemma_jv_seq(olds.insert(0, v));
    lemma_jv_seq(olds);
}

/// `jv_fields` over an insertion at the front.
proof fn lemma_jv_fields_insert0(olds: Seq<(String, Json)>, f: (String, Json))
    ensures
        jv_fields(olds.insert(0, f)) =~= seq![(f.0@, jv(f.1))] + jv_fields(olds),
{
    olds.insert_ensures(0, f);
    lemma_jv_fields(olds.insert(0, f));
    lemma_jv_fields(olds);
}

/// Reads the elements of a non-empty array, as `parse_elems` says.
fn scan_elems(s: &Vec<char>, i: usize) -> (r: Option<(Vec<Json>, usize)>)
    requires
        i <= s@.len(),
    ensures
        match r {
            Some((items, k)) => parse_elems(s@, i as int) == Some((jv_seq(items@),
                k as int)) && i < k <= s@.len(),
            None => parse_elems(s@, i as int) is None,
        },
    decreases s@.len() - i, 2int,
{
    if i >= s.len() {
        return None;
    }
    match scan_value(s, i) {
        Some((v, j0)) => {
            let j = scan_ws(s, j0);
            if j < s.len() && s[j] as u32 == 44 {
                let k = scan_ws(s, j + 1);
                if k < s.len() {
                    match scan_elems(s, k) {
                        Some((rest, m)) => {
                            let ghost r0 = rest@;
                            let mut items = rest;
                            items.insert(0, v);
                            proof {
                                lemma_jv_seq_insert0(r0, v);
                            }
                            Some((items, m))
                        },
                        None => None,
                    }
                } else {
                    None
                }
            } else if j < s.len() && s[j] as u32 == 93 {
                let mut items: Vec<Json> = Vec::new();
                items.push(v);
                proof {
                    lemma_jv_seq(items@);
                    assert(jv_seq(items@) =~= seq![jv(v)]);
                }
                Some((items, j + 1))
            } else {
                None
            }
        },
        None => None,
    }
}

/// Reads the fields of a non-empty object, as `parse_membs` says.
fn scan_membs(s: &Vec<char>, i: usize) -> (r: Option<(Vec<(String, Json)>, usize)>)
    requires
        i <= s@.len(),
    ensures
        match r {
            Some((fields, k)) => parse_membs(s@, i as int) == Some((jv_fields(fields@),
                k as int)) && i < k <= s@.len(),
            None => parse_membs(s@, i as int) is None,
        },
    decreases s@.len() - i, 2int,
{
    if !(i < s.len() && s[i] as u32 == 34) {
        return None;
    }
    match scan_str_rest(s, i + 1) {
        Some((key, j0)) => {
            let j = scan_ws(s, j0);
            if j < s.len() && s[j] as u32 == 58 {
                let k = scan_ws(s, j + 1);
                if k < s.len() {
                    match scan_value(s, k) {
                        Some((v, m0)) => {
                            let m = scan_ws(s, m0);
                            if m < s.len() && s[m] as u32 == 44 {
                                let n = scan_ws(s, m + 1);
                                if n < s.len() {
                                    match scan_membs(s, n) {
                                        Some((rest, p)) => {
                                            let ks = string_from_chars(&key);
                                            let ghost r0 = rest@;
                                            let mut fields = rest;
                                            fields.insert(0, (ks, v));
                                            proof {
                                                lemma_jv_fields_insert0(r0, (ks, v));
                                            }
                                            Some((fields, p))
                                        },
                                        None => None,
                                    }
                                } else {
                                    None
                                }
                            } else if m < s.len() && s[m] as u32 == 125 {
                                let ks = string_from_chars(&key);
                                let mut fields: Vec<(String, Json)> = Vec::new();
                                fields.push((ks, v));
                                proof {
                                    lemma_jv_fields(fields@);
                                    assert(jv_fields(fields@) =~= seq![(key@, jv(v))]);
                                }
                                Some((fields, m + 1))
                            } else {
                                None
                            }
                        },
                        None => None,
                    }
                } else {
                    None
                }
            } else {
                None
            }
        },
        None => None,
    }
}

/// Decodes the text `s`, as `parse_json` says.
pub fn parse_json_text(s: &str) -> (r: Option<Json>)
    ensures
        match r {
            Some(j) => parse_json(s@) == Some(j@),
            None => parse_json(s@) is None,
        },
{
    let v = str_chars(s);
    parse_json_chars(&v)
}

/// Decodes the characters `v`, as `parse_json` says.
pub fn parse_json_chars(v: &Vec<char>) -> (r: Option<Json>)
    ensures
        match r {
            Some(j) => parse_json(v@) == Some(j@),
            None => parse_json(v@) is None,
        },
{
    let i = scan_ws(v, 0);
    match scan_value(v, i) {
        Some((j, k)) => {
            let e = scan_ws(v, k);
            if e == v.len() {
                Some(j)
            } else {
                None
            }
        },
        None => None,
    }
}

} // verus!
