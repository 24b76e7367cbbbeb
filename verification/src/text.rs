//! Text primitives: decimal numbers, hexadecimal bytes and JSON string literals.

use rustc_serialize::hex::ToHex;
use vstd::prelude::*;
use vstd::string::StringExecFns;
use vstd::string::StrSliceExecFns;

verus! {

/// The character of a decimal digit `d` (`0 <= d < 10`).
pub open spec fn digit_char(d: int) -> char {
    if d == 0 { '0' }
    else if d == 1 { '1' }
    else if d == 2 { '2' }
    else if d == 3 { '3' }
    else if d == 4 { '4' }
    else if d == 5 { '5' }
    else if d == 6 { '6' }
    else if d == 7 { '7' }
    else if d == 8 { '8' }
    else { '9' }
}

/// The decimal digits of `n`, most significant first, without leading zeros.
pub open spec fn nat_digits(n: nat) -> Seq<char>
    decreases n,
{
    if n < 10 {
        seq![digit_char(n as int)]
    } else {
        nat_digits(n / 10) + seq![digit_char((n % 10) as int)]
    }
}

/// The decimal text of an integer, as Rust's `Display` writes it.
pub open spec fn decimal_text(n: int) -> Seq<char> {
    if n < 0 {
        seq!['-'] + nat_digits((-n) as nat)
    } else {
        nat_digits(n as nat)
    }
}

fn digit_str(d: u64) -> (s: &'static str)
    requires
        d < 10,
    ensures
        s@ == seq![digit_char(d as int)],
{
    proof {
        reveal_strlit("0");
        reveal_strlit("1");
        reveal_strlit("2");
        reveal_strlit("3");
        reveal_strlit("4");
        reveal_strlit("5");
        reveal_strlit("6");
        reveal_strlit("7");
        reveal_strlit("8");
        reveal_strlit("9");
    }
    if d == 0 { "0" }
    else if d == 1 { "1" }
    else if d == 2 { "2" }
    else if d == 3 { "3" }
    else if d == 4 { "4" }
    else if d == 5 { "5" }
    else if d == 6 { "6" }
    else if d == 7 { "7" }
    else if d == 8 { "8" }
    else { "9" }
}

fn push_digits(out: &mut String, m: u64)
    ensures
        final(out)@ == old(out)@ + nat_digits(m as nat),
    decreases m,
{
    if m >= 10 {
        push_digits(out, m / 10);
    }
    out.append(digit_str(m % 10));
}

/// Decimal text of an unsigned integer.
pub fn u64_to_decimal(m: u64) -> (s: String)
    ensures
        s@ == decimal_text(m as int),
{
    let mut s = String::new();
    push_digits(&mut s, m);
    s
}


/// Decimal text of a signed 32-bit integer (`i32::MIN` included).
pub fn i32_to_decimal(n: i32) -> (s: String)
    ensures
        s@ == decimal_text(n as int),
{
    let mut s = String::new();
    if n < 0 {
        proof {
            reveal_strlit("-");
        }
        s.append("-");
        let m: i64 = -(n as i64);
        push_digits(&mut s, m as u64);
    } else {
        push_digits(&mut s, n as u64);
    }
    s
}

/// An ASCII decimal digit.
pub open spec fn is_digit(c: char) -> bool {
    '0' <= c && c <= '9'
}

/// The value of a decimal digit character.
pub open spec fn digit_value(c: char) -> int {
    (c as int) - ('0' as int)
}

/// The value of a run of decimal digits, most significant first.
pub open spec fn digits_value(s: Seq<char>) -> int
    decreases s.len(),
{
    if s.len() == 0 {
        0
    } else {
        digits_value(s.drop_last()) * 10 + digit_value(s.last())
    }
}

/// Every character is a decimal digit.
pub open spec fn all_digits(s: Seq<char>) -> bool {
    forall|i: int| 0 <= i < s.len() ==> is_digit(#[trigger] s[i])
}

/// What `str::parse::<i32>` accepts: an optional `+` or `-`, then at least one
/// decimal digit and nothing else, of a value that fits in an `i32`.
pub open spec fn parse_i32_spec(s: Seq<char>) -> Option<int> {
    let negative = s.len() > 0 && s[0] == '-';
    let body = if s.len() > 0 && (s[0] == '-' || s[0] == '+') { s.drop_first() } else { s };
    let value = if negative { -digits_value(body) } else { digits_value(body) };
    if body.len() > 0 && all_digits(body) && i32::MIN <= value <= i32::MAX {
        Some(value)
    } else {
        None
    }
}

proof fn lemma_digits_value_nonneg(s: Seq<char>)
    requires
        all_digits(s),
    ensures
        digits_value(s) >= 0,
    decreases s.len(),
{
    if s.len() > 0 {
        assert(is_digit(s[s.len() - 1]));
        lemma_digits_value_nonneg(s.drop_last());
    }
}

proof fn lemma_digits_value_grows(s: Seq<char>, k: int)
    requires
        all_digits(s),
        0 <= k <= s.len(),
    ensures
        digits_value(s.take(k)) <= digits_value(s),
    decreases s.len() - k,
{
    if k < s.len() {
        lemma_digits_value_grows(s, k + 1);
        let t = s.take(k + 1);
        assert(t.drop_last() =~= s.take(k));
        assert(is_digit(s[k]));
        lemma_digits_value_nonneg(s.take(k));
    } else {
        assert(s.take(k) =~= s);
    }
}

/// Parses a decimal `i32` as `str::parse::<i32>` does.
pub fn parse_i32(s: &str) -> (r: Option<i32>)
    ensures
        match parse_i32_spec(s@) {
            Some(v) => r == Some(v as i32),
            None => r is None,
        },
{
    let len = s.unicode_len();
    let ghost t = s@;
    if len == 0 {
        return None;
    }
    let first = s.get_char(0);
    let negative = first == '-';
    let start: usize = if first == '-' || first == '+' { 1 } else { 0 };
    let ghost body = if t[0] == '-' || t[0] == '+' { t.drop_first() } else { t };
    if start >= len {
        return None;
    }
    let mut acc: u64 = 0;
    let mut i: usize = start;
    while i < len
        invariant
            t == s@,
            len == t.len(),
            start <= i <= len,
            start < len,
            body == t.subrange(start as int, len as int),
            body == (if t[0] == '-' || t[0] == '+' { t.drop_first() } else { t }),
            all_digits(body.take(i - start)),
            acc == digits_value(body.take(i - start)),
            acc <= 2147483648,
        decreases len - i,
    {
        let c = s.get_char(i);
        if !('0' <= c && c <= '9') {
            assert(!is_digit(body[i - start]));
            assert(!all_digits(body));
            assert(parse_i32_spec(t) is None);
            return None;
        }
        let ghost k = i - start;
        proof {
            assert(body.take(k + 1).drop_last() =~= body.take(k));
            assert(body.take(k + 1).last() == c);
            assert forall|j: int| 0 <= j < k + 1 implies is_digit(#[trigger] body.take(k + 1)[j]) by {
                if j < k {
                    assert(body.take(k + 1)[j] == body.take(k)[j]);
                }
            }
        }
        let d: u64 = (c as u32 - '0' as u32) as u64;
        acc = acc * 10 + d;
        i = i + 1;
        if acc > 2147483648 {
            proof {
                if all_digits(body) {
                    lemma_digits_value_grows(body, i - start);
                    assert(digits_value(body) > 2147483648);
                }
                assert(parse_i32_spec(t) is None);
            }
            return None;
        }
    }
    proof {
        assert(body.take(i - start) =~= body);
    }
    if negative {
        let v: i64 = -(acc as i64);
        Some(v as i32)
    } else if acc <= 2147483647 {
        Some(acc as i32)
    } else {
        None
    }
}


proof fn lemma_digit_char(d: int)
    requires
        0 <= d < 10,
    ensures
        is_digit(digit_char(d)),
        digit_value(digit_char(d)) == d,
{
}

proof fn lemma_nat_digits(m: nat)
    ensures
        nat_digits(m).len() > 0,
        all_digits(nat_digits(m)),
        digits_value(nat_digits(m)) == m,
    decreases m,
{
    if m < 10 {
        lemma_digit_char(m as int);
        assert(nat_digits(m).drop_last() =~= Seq::<char>::empty());
        assert(digits_value(Seq::<char>::empty()) == 0);
    } else {
        lemma_nat_digits(m / 10);
        lemma_digit_char((m % 10) as int);
        let s = nat_digits(m);
        assert(s.drop_last() =~= nat_digits(m / 10));
        assert(s.last() == digit_char((m % 10) as int));
        assert(digits_value(s) == digits_value(nat_digits(m / 10)) * 10 + (m % 10));
        assert((m / 10) * 10 + m % 10 == m) by (nonlinear_arith);
        assert forall|i: int| 0 <= i < s.len() implies is_digit(#[trigger] s[i]) by {
            if i < s.len() - 1 {
                assert(s[i] == nat_digits(m / 10)[i]);
            }
        }
    }
}

/// Reading back the decimal text of any `i32` gives the same number:
/// `parse_i32` undoes `i32_to_decimal`.
pub proof fn lemma_decimal_parse_roundtrip(n: i32)
    ensures
        parse_i32_spec(decimal_text(n as int)) == Some(n as int),
{
    if n < 0 {
        let m = (-(n as int)) as nat;
        lemma_nat_digits(m);
        let t = decimal_text(n as int);
        assert(t.drop_first() =~= nat_digits(m));
    } else {
        lemma_nat_digits(n as nat);
        let t = decimal_text(n as int);
        lemma_digit_char(0);
        assert(is_digit(t[0]));
    }
}


/// The lowercase hexadecimal digit of `d` (`0 <= d < 16`).
pub open spec fn hex_digit_char(d: int) -> char {
    if d < 10 {
        digit_char(d)
    } else if d == 10 {
        'a'
    } else if d == 11 {
        'b'
    } else if d == 12 {
        'c'
    } else if d == 13 {
        'd'
    } else if d == 14 {
        'e'
    } else {
        'f'
    }
}

/// Lowercase hexadecimal text of a byte string: two digits per byte, high nibble first.
pub open spec fn hex_lower(data: Seq<u8>) -> Seq<char>
    decreases data.len(),
{
    if data.len() == 0 {
        Seq::empty()
    } else {
        hex_lower(data.drop_last()) + seq![
            hex_digit_char((data.last() / 16) as int),
            hex_digit_char((data.last() % 16) as int),
        ]
    }
}

/// How a JSON writer escapes one character inside a string literal.
pub open spec fn json_escape(c: char) -> Seq<char> {
    if c == '"' {
        seq!['\\', '"']
    } else if c == '\\' {
        seq!['\\', '\\']
    } else if c == '\x08' {
        seq!['\\', 'b']
    } else if c == '\t' {
        seq!['\\', 't']
    } else if c == '\n' {
        seq!['\\', 'n']
    } else if c == '\x0c' {
        seq!['\\', 'f']
    } else if c == '\r' {
        seq!['\\', 'r']
    } else if (c as int) < 0x20 {
        seq!['\\', 'u', '0', '0', hex_digit_char((c as int) / 16), hex_digit_char((c as int) % 16)]
    } else {
        seq![c]
    }
}

/// The escaped contents of a JSON string literal.
pub open spec fn json_escaped(s: Seq<char>) -> Seq<char>
    decreases s.len(),
{
    if s.len() == 0 {
        Seq::empty()
    } else {
        json_escaped(s.drop_last()) + json_escape(s.last())
    }
}

/// A JSON string literal holding `s`.
pub open spec fn json_string(s: Seq<char>) -> Seq<char> {
    seq!['"'] + json_escaped(s) + seq!['"']
}

/// A lowercase hexadecimal digit.
pub open spec fn is_hex_lower(c: char) -> bool {
    ('0' <= c && c <= '9') || ('a' <= c && c <= 'f')
}

/// Hexadecimal text has two lowercase hexadecimal digits per byte.
pub proof fn lemma_hex_lower(data: Seq<u8>)
    ensures
        hex_lower(data).len() == 2 * data.len(),
        forall|i: int| 0 <= i < hex_lower(data).len() ==> is_hex_lower(#[trigger] hex_lower(data)[i]),
    decreases data.len(),
{
    if data.len() > 0 {
        lemma_hex_lower(data.drop_last());
        let h = hex_lower(data);
        let p = hex_lower(data.drop_last());
        assert forall|i: int| 0 <= i < h.len() implies is_hex_lower(#[trigger] h[i]) by {
            if i < p.len() {
                assert(h[i] == p[i]);
            }
        }
    }
}

/// Where a JSON lexer stands: between tokens, inside a string literal, or
/// right after a backslash inside one.
#[derive(Clone, Copy, Debug, PartialEq, Eq, Structural)]
pub enum JsonLex {
    Outside,
    InString,
    AfterBackslash,
}

/// The lexer state after one character.
pub open spec fn lex_step(st: JsonLex, c: char) -> JsonLex {
    match st {
        JsonLex::Outside => if c == '"' { JsonLex::InString } else { JsonLex::Outside },
        JsonLex::InString => if c == '\\' {
            JsonLex::AfterBackslash
        } else if c == '"' {
            JsonLex::Outside
        } else {
            JsonLex::InString
        },
        JsonLex::AfterBackslash => JsonLex::InString,
    }
}

/// JSON whitespace.
pub open spec fn is_json_space(c: char) -> bool {
    c == ' ' || c == '\n' || c == '\t' || c == '\r'
}

/// The text without the whitespace that stands between tokens, read from lexer state `st`.
pub open spec fn compact_from(st: JsonLex, s: Seq<char>) -> Seq<char>
    decreases s.len(),
{
    if s.len() == 0 {
        Seq::empty()
    } else {
        (if st == JsonLex::Outside && is_json_space(s[0]) { Seq::empty() } else { seq![s[0]] })
            + compact_from(lex_step(st, s[0]), s.drop_first())
    }
}

/// The lexer state after a text, read from state `st`.
pub open spec fn lex_end(st: JsonLex, s: Seq<char>) -> JsonLex
    decreases s.len(),
{
    if s.len() == 0 {
        st
    } else {
        lex_end(lex_step(st, s[0]), s.drop_first())
    }
}

/// JSON text without the whitespace between its tokens: two JSON texts with the
/// same compact form denote the same value.
pub open spec fn json_compact(s: Seq<char>) -> Seq<char> {
    compact_from(JsonLex::Outside, s)
}

/// Compacting a concatenation compacts each part in turn.
pub proof fn lemma_compact_concat(st: JsonLex, a: Seq<char>, b: Seq<char>)
    ensures
        compact_from(st, a + b) == compact_from(st, a) + compact_from(lex_end(st, a), b),
        lex_end(st, a + b) == lex_end(lex_end(st, a), b),
    decreases a.len(),
{
    if a.len() == 0 {
        assert(a + b =~= b);
    } else {
        assert((a + b).drop_first() =~= a.drop_first() + b);
        assert((a + b)[0] == a[0]);
        lemma_compact_concat(lex_step(st, a[0]), a.drop_first(), b);
    }
}

/// Characters that JSON writes unescaped inside a string literal.
pub open spec fn json_plain(s: Seq<char>) -> bool {
    forall|i: int| 0 <= i < s.len() ==> (#[trigger] s[i]) != '"' && s[i] != '\\' && (s[i] as int) >= 0x20
}

/// Plain text stays as it is inside a string literal.
pub proof fn lemma_plain_in_string(s: Seq<char>)
    requires
        json_plain(s),
    ensures
        compact_from(JsonLex::InString, s) == s,
        lex_end(JsonLex::InString, s) == JsonLex::InString,
        json_escaped(s) == s,
    decreases s.len(),
{
    if s.len() > 0 {
        let t = s.drop_first();
        assert(json_plain(t)) by {
            assert forall|i: int| 0 <= i < t.len() implies (#[trigger] t[i]) != '"' && t[i] != '\\' && (t[i] as int) >= 0x20 by {
                assert(t[i] == s[i + 1]);
            }
        }
        lemma_plain_in_string(t);
        assert(seq![s[0]] + t =~= s);
        let u = s.drop_last();
        assert(json_plain(u)) by {
            assert forall|i: int| 0 <= i < u.len() implies (#[trigger] u[i]) != '"' && u[i] != '\\' && (u[i] as int) >= 0x20 by {
                assert(u[i] == s[i]);
            }
        }
        lemma_plain_in_string(u);
        let c = s.last();
        assert(c == s[s.len() - 1]);
        assert(json_escape(c) == seq![c]);
        assert(u.push(c) =~= s);
    }
}

/// Hexadecimal text of bytes, through `rustc_serialize::hex::ToHex::to_hex`.
/// Trusted: `to_hex` writes, for each byte, the digits of `b"0123456789abcdef"`
/// at the high and at the low nibble.
#[verifier::external_body]
pub fn bytes_to_hex(data: &[u8]) -> (h: String)
    ensures
        h@ == hex_lower(data@),
{
    data.to_hex()
}

/// A JSON string literal, through `serde_json::to_string` on a `str`.
/// Trusted: serde_json writes a quote, each character with `"`, `\` and the
/// characters below U+0020 escaped (`\b \t \n \f \r`, else `\u00XX` with
/// lowercase digits), and a closing quote; writing into its own buffer cannot fail.
#[verifier::external_body]
pub fn json_quote(s: &str) -> (q: String)
    ensures
        q@ == json_string(s@),
{
    match serde_json::to_string(s) {
        Ok(q) => q,
        Err(_) => String::new(),
    }
}

} // verus!
