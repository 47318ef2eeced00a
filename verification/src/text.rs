//! Decimal numerals and the character-level view of strings.
//!
//! Query strings, request bodies and error texts all carry integers in
//! decimal; response bodies carry decimal lexemes that must be read
//! back. Both directions are defined here against one spec-level
//! numeral, `dec_str` / `dec_val`.

use vstd::prelude::*;
use vstd::string::StrSliceExecFns;

verus! {

/// The decimal digit character for `d`, which must be in `0..10`.
pub open spec fn dec_digit(d: int) -> char {
    ((48 + d) as u32) as char
}

/// The decimal text of a non-negative integer, without sign or padding.
pub open spec fn dec_str(n: int) -> Seq<char>
    recommends
        n >= 0,
    decreases n,
{
    if n < 10 {
        seq![dec_digit(n)]
    } else {
        dec_str(n / 10) + seq![dec_digit(n % 10)]
    }
}

/// Whether every character of `s` is a decimal digit.
pub open spec fn all_digits(s: Seq<char>) -> bool {
    forall|i: int| 0 <= i < s.len() ==> 48 <= (#[trigger] s[i]) as u32 <= 57
}

/// The integer value of a digit sequence, most significant digit first.
pub open spec fn dec_val(s: Seq<char>) -> int
    decreases s.len(),
{
    if s.len() == 0 {
        0
    } else {
        dec_val(s.take(s.len() - 1)) * 10 + ((s[s.len() - 1] as u32) - 48)
    }
}

/// The value a `u64` field decodes to from the lexeme `s`, if any:
/// plain digits only, within range.
pub open spec fn u64_of(s: Seq<char>) -> Option<u64> {
    if s.len() > 0 && all_digits(s) && dec_val(s) <= u64::MAX {
        Some(dec_val(s) as u64)
    } else {
        None
    }
}

/// The value a `u32` field decodes to from the lexeme `s`, if any.
pub open spec fn u32_of(s: Seq<char>) -> Option<u32> {
    if s.len() > 0 && all_digits(s) && dec_val(s) <= u32::MAX {
        Some(dec_val(s) as u32)
    } else {
        None
    }
}

/// The value an `i64` field decodes to from the lexeme `s`, if any:
/// an optional leading minus sign, then plain digits, within range.
pub open spec fn i64_of(s: Seq<char>) -> Option<i64> {
    if s.len() >= 2 && s[0] == '-' {
        let mag = s.skip(1);
        if all_digits(mag) && dec_val(mag) <= 0x8000000000000000 {
            Some((-dec_val(mag)) as i64)
        } else {
            None
        }
    } else if s.len() > 0 && all_digits(s) && dec_val(s) <= i64::MAX {
        Some(dec_val(s) as i64)
    } else {
        None
    }
}

pub proof fn lemma_dec_val_nonneg(s: Seq<char>)
    requires
        all_digits(s),
    ensures
        dec_val(s) >= 0,
    decreases s.len(),
{
    if s.len() > 0 {
        assert(all_digits(s.take(s.len() - 1)));
        lemma_dec_val_nonneg(s.take(s.len() - 1));
    }
}

/// A digit prefix never has a larger value than the whole numeral.
pub proof fn lemma_dec_val_take_le(s: Seq<char>, k: int)
    requires
        all_digits(s),
        0 <= k <= s.len(),
    ensures
        dec_val(s.take(k)) <= dec_val(s),
    decreases s.len() - k,
{
    if k < s.len() {
        lemma_dec_val_take_le(s, k + 1);
        let t = s.take(k + 1);
        assert(all_digits(t));
        assert(t.take(t.len() - 1) =~= s.take(k));
        lemma_dec_val_nonneg(s.take(k));
        assert(dec_val(t) == dec_val(s.take(k)) * 10 + ((s[k] as u32) - 48));
        assert(dec_val(s.take(k)) * 10 >= dec_val(s.take(k))) by (nonlinear_arith)
            requires
                dec_val(s.take(k)) >= 0,
        ;
    } else {
        assert(s.take(k) =~= s);
    }
}

/// Renders `n` in decimal, least significant digit last.
pub fn u64_dec_chars(n: u64) -> (out: Vec<char>)
    ensures
        out@ == dec_str(n as int),
{
    let mut x: u64 = n;
    let mut acc: Vec<char> = Vec::new();
    while x >= 10
        invariant
            dec_str(n as int) == dec_str(x as int) + acc@.reverse(),
        decreases x,
    {
        let d: u8 = (x % 10) as u8;
        let c: char = (48 + d) as char;
        proof {
            assert(c == dec_digit(x as int % 10));
            assert(dec_str(x as int) == dec_str(x as int / 10) + seq![dec_digit(x as int % 10)]);
            assert(acc@.push(c).reverse() =~= seq![c] + acc@.reverse());
            assert(dec_str(x as int / 10) + acc@.push(c).reverse() =~= dec_str(x as int)
                + acc@.reverse());
        }
        acc.push(c);
        x = x / 10;
    }
    let d: u8 = x as u8;
    let c: char = (48 + d) as char;
    proof {
        assert(c == dec_digit(x as int));
        assert(dec_str(x as int) == seq![dec_digit(x as int)]);
        assert(acc@.push(c).reverse() =~= seq![c] + acc@.reverse());
    }
    acc.push(c);
    let mut out: Vec<char> = Vec::new();
    let mut i: usize = acc.len();
    while i > 0
        invariant
            i <= acc.len(),
            out@ == acc@.subrange(i as int, acc@.len() as int).reverse(),
        decreases i,
    {
        i = i - 1;
        let c2 = acc[i];
        proof {
            assert(acc@.subrange(i as int, acc@.len() as int).reverse() =~= out@.push(c2));
        }
        out.push(c2);
    }
    proof {
        assert(out@ =~= acc@.reverse());
        assert(dec_str(n as int) =~= acc@.reverse());
    }
    out
}

/// Renders `n` in decimal as a `String`.
pub fn u64_dec_string(n: u64) -> (s: String)
    ensures
        s@ == dec_str(n as int),
{
    let v = u64_dec_chars(n);
    string_from_chars(&v)
}

/// Renders `n` in decimal as a `String`.
pub fn u32_dec_string(n: u32) -> (s: String)
    ensures
        s@ == dec_str(n as int),
{
    u64_dec_string(n as u64)
}

/// Reads a `u64` from a digit string, as `u64_of` says.
pub fn parse_u64(s: &str) -> (r: Option<u64>)
    ensures
        r == u64_of(s@),
{
    let v = str_chars(s);
    parse_u64_chars(&v)
}

/// Reads a `u64` from digit characters, as `u64_of` says.
pub fn parse_u64_chars(v: &Vec<char>) -> (r: Option<u64>)
    ensures
        r == u64_of(v@),
{
    if v.len() == 0 {
        return None;
    }
    let mut val: u64 = 0;
    let mut i: usize = 0;
    while i < v.len()
        invariant
            i <= v@.len(),
            all_digits(v@.take(i as int)),
            val == dec_val(v@.take(i as int)),
        decreases v@.len() - i,
    {
        let u: u32 = v[i] as u32;
        if !(48 <= u && u <= 57) {
            proof {
                assert(v@[i as int] == v@.index(i as int));
                assert(!all_digits(v@));
            }
            return None;
        }
        let d: u64 = (u - 48) as u64;
        proof {
            assert(v@.take(i + 1).take(i as int) =~= v@.take(i as int));
            assert(all_digits(v@.take(i + 1)));
            assert(dec_val(v@.take(i + 1)) == dec_val(v@.take(i as int)) * 10 + d);
            lemma_dec_val_nonneg(v@.take(i as int));
        }
        if val > (u64::MAX - d) / 10 {
            proof {
                assert(dec_val(v@.take(i + 1)) > u64::MAX) by (nonlinear_arith)
                    requires
                        dec_val(v@.take(i + 1)) == dec_val(v@.take(i as int)) * 10 + d,
                        val == dec_val(v@.take(i as int)),
                        val > (u64::MAX - d) / 10,
                        0 <= d <= 9,
                ;
                if all_digits(v@) {
                    lemma_dec_val_take_le(v@, i + 1);
                }
            }
            return None;
        }
        proof {
            assert(val * 10 + d <= u64::MAX) by (nonlinear_arith)
                requires
                    0 <= val <= (u64::MAX - d) / 10,
                    0 <= d <= 9,
            ;
        }
        val = val * 10 + d;
        i = i + 1;
    }
    proof {
        assert(v@.take(i as int) =~= v@);
    }
    Some(val)
}

/// Reads a `u32` from a digit string, as `u32_of` says.
pub fn parse_u32(s: &str) -> (r: Option<u32>)
    ensures
        r == u32_of(s@),
{
    let r = parse_u64(s);
    proof {
        if u64_of(s@) is Some {
            lemma_dec_val_nonneg(s@);
        }
    }
    match r {
        Some(n) => if n <= u32::MAX as u64 {
            Some(n as u32)
        } else {
            None
        },
        None => None,
    }
}

/// Reads an `i64` from a signed digit string, as `i64_of` says.
pub fn parse_i64(s: &str) -> (r: Option<i64>)
    ensures
        r == i64_of(s@),
{
    let v = str_chars(s);
    if v.len() >= 2 && v[0] == '-' {
        let mut mag: Vec<char> = Vec::new();
        let mut i: usize = 1;
        while i < v.len()
            invariant
                1 <= i <= v@.len(),
                mag@ == v@.skip(1).take(i - 1),
            decreases v@.len() - i,
        {
            proof {
                assert(v@.skip(1).take(i as int) =~= v@.skip(1).take(i - 1).push(v@[i as int]));
            }
            mag.push(v[i]);
            i = i + 1;
        }
        proof {
            assert(mag@ =~= v@.skip(1));
        }
        let r = parse_u64_chars(&mag);
        proof {
            if u64_of(mag@) is Some {
                lemma_dec_val_nonneg(mag@);
            }
        }
        match r {
            Some(n) => if n <= 0x8000000000000000u64 {
                if n == 0x8000000000000000u64 {
                    Some(i64::MIN)
                } else {
                    Some(-(n as i64))
                }
            } else {
                None
            },
            None => None,
        }
    } else {
        let r = parse_u64_chars(&v);
        proof {
            if u64_of(v@) is Some {
                lemma_dec_val_nonneg(v@);
            }
        }
        match r {
            Some(n) => if n <= i64::MAX as u64 {
                Some(n as i64)
            } else {
                None
            },
            None => None,
        }
    }
}

/// The characters of `s`, in order.
pub fn str_chars(s: &str) -> (v: Vec<char>)
    ensures
        v@ == s@,
{
    let n = s.unicode_len();
    let mut v: Vec<char> = Vec::new();
    let mut i: usize = 0;
    while i < n
        invariant
            i <= n,
            n == s@.len(),
            v@ == s@.take(i as int),
        decreases n - i,
    {
        let c = s.get_char(i);
        proof {
            assert(s@.take(i + 1) =~= s@.take(i as int).push(s@[i as int]));
        }
        v.push(c);
        i = i + 1;
    }
    proof {
        assert(s@.take(i as int) =~= s@);
    }
    v
}

/// Relies on std's `FromIterator<char>` for `String`: collecting
/// characters yields the string of exactly those characters in order.
#[verifier::external_body]
pub(crate) fn string_from_chars(v: &Vec<char>) -> (s: String)
    ensures
        s@ == v@,
{
    v.iter().collect()
}

/// Appends every character of `v` to `out`.
pub fn push_all(out: &mut Vec<char>, v: &Vec<char>)
    ensures
        final(out)@ == old(out)@ + v@,
{
    let mut i: usize = 0;
    while i < v.len()
        invariant
            i <= v@.len(),
            out@ == old(out)@ + v@.take(i as int),
        decreases v@.len() - i,
    {
        proof {
            assert(old(out)@ + v@.take(i + 1) =~= (old(out)@ + v@.take(i as int)).push(
                v@[i as int]));
        }
        out.push(v[i]);
        i = i + 1;
    }
    proof {
        assert(old(out)@ + v@.take(i as int) =~= old(out)@ + v@);
    }
}

/// Appends every character of the string `s` to `out`.
pub fn push_str_chars(out: &mut Vec<char>, s: &str)
    ensures
        final(out)@ == old(out)@ + s@,
{
    let v = str_chars(s);
    push_all(out, &v);
}

} // verus!
