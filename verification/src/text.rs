//! Building text: concatenation and the percent-encoding of path segments.
use vstd::prelude::*;
use vstd::utf8::encode_utf8;

verus! {

/// `String::push` appends one character.
pub assume_specification[ String::push ](s: &mut String, ch: char)
    ensures
        final(s)@ == old(s)@.push(ch),
;

/// `a` followed by `b`.
pub fn cat(a: &str, b: &str) -> (r: String)
    ensures
        r@ == a@ + b@,
{
    let mut r = String::from_str(a);
    r.append(b);
    r
}

/// `a`, `b` and `c` in turn.
pub fn cat3(a: &str, b: &str, c: &str) -> (r: String)
    ensures
        r@ == a@ + b@ + c@,
{
    let mut r = String::from_str(a);
    r.append(b);
    r.append(c);
    r
}

/// The bytes a path segment may carry as they are: `A-Z a-z 0-9 - . _ ~`.
pub open spec fn unreserved(b: u8) -> bool {
    (65 <= b <= 90) || (97 <= b <= 122) || (48 <= b <= 57) || b == 45 || b == 46 || b == 95
        || b == 126
}

/// The characters a path segment may carry as they are.
pub open spec fn unreserved_char(c: char) -> bool {
    ('A' <= c <= 'Z') || ('a' <= c <= 'z') || ('0' <= c <= '9') || c == '-' || c == '.' || c
        == '_' || c == '~'
}

/// The upper-case hex digit of `d` (below 16).
pub open spec fn hex_upper(d: int) -> char {
    if d < 10 {
        (48 + d) as char
    } else {
        (55 + d) as char
    }
}

/// The value of an upper-case hex digit.
pub open spec fn hex_value(c: char) -> Option<int> {
    if '0' <= c <= '9' {
        Some(c as int - 48)
    } else if 'A' <= c <= 'F' {
        Some(c as int - 55)
    } else {
        None
    }
}

/// One byte of a quoted segment: itself where unreserved, else `%XX`.
pub open spec fn enc(b: u8) -> Seq<char> {
    if unreserved(b) {
        seq![b as char]
    } else {
        seq!['%', hex_upper(b as int / 16), hex_upper(b as int % 16)]
    }
}

/// Percent-encode a byte string, as `quote(..., safe="")` does.
pub open spec fn quote_bytes(b: Seq<u8>) -> Seq<char>
    decreases b.len(),
{
    if b.len() == 0 {
        Seq::empty()
    } else {
        quote_bytes(b.drop_last()) + enc(b.last())
    }
}

/// Undo a percent-encoding: `%XX` is the byte `XX`, an ASCII character itself.
pub open spec fn pct_decode(s: Seq<char>) -> Option<Seq<u8>>
    decreases s.len(),
{
    if s.len() == 0 {
        Some(Seq::empty())
    } else if s[0] == '%' {
        if s.len() >= 3 && hex_value(s[1]) is Some && hex_value(s[2]) is Some {
            match pct_decode(s.skip(3)) {
                Some(rest) => Some(
                    seq![(hex_value(s[1])->0 * 16 + hex_value(s[2])->0) as u8] + rest,
                ),
                None => None,
            }
        } else {
            None
        }
    } else if (s[0] as int) < 128 {
        match pct_decode(s.skip(1)) {
            Some(rest) => Some(seq![s[0] as u8] + rest),
            None => None,
        }
    } else {
        None
    }
}

/// The hex digit of `d`, below 16.
fn hex_digit(d: u8) -> (c: char)
    requires
        d < 16,
    ensures
        c == hex_upper(d as int),
{
    if d < 10 {
        (48 + d) as char
    } else {
        (55 + d) as char
    }
}

/// `quote(s, safe="")` of a text: its UTF-8 bytes percent-encoded.
pub open spec fn q(s: Seq<char>) -> Seq<char> {
    quote_bytes(encode_utf8(s))
}

/// Percent-encode one path segment, as `quote(s, safe="")` does. Ids are
/// caller-supplied and routinely contain `:`, `+` and `/`: a segment is a
/// segment, never a way out of the path.
pub fn quote(segment: &str) -> (r: String)
    ensures
        r@ == quote_bytes(encode_utf8(segment@)),
{
    let bytes = segment.as_bytes();
    let mut out = String::new();
    let mut i: usize = 0;
    while i < bytes.len()
        invariant
            i <= bytes@.len(),
            bytes@ == encode_utf8(segment@),
            out@ == quote_bytes(bytes@.take(i as int)),
        decreases bytes@.len() - i,
    {
        let b = bytes[i];
        if (65 <= b && b <= 90) || (97 <= b && b <= 122) || (48 <= b && b <= 57) || b == 45 || b
            == 46 || b == 95 || b == 126 {
            out.push(b as char);
        } else {
            out.push('%');
            out.push(hex_digit(b / 16));
            out.push(hex_digit(b % 16));
        }
        assert(bytes@.take(i + 1).drop_last() =~= bytes@.take(i as int));
        i = i + 1;
    }
    assert(bytes@.take(bytes@.len() as int) =~= bytes@);
    out
}

/// Quoting distributes over concatenation.
pub proof fn lemma_quote_concat(a: Seq<u8>, b: Seq<u8>)
    ensures
        quote_bytes(a + b) == quote_bytes(a) + quote_bytes(b),
    decreases b.len(),
{
    if b.len() == 0 {
        assert(a + b =~= a);
        assert(quote_bytes(a) + quote_bytes(b) =~= quote_bytes(a));
    } else {
        assert((a + b).drop_last() =~= a + b.drop_last());
        lemma_quote_concat(a, b.drop_last());
        assert(quote_bytes(a) + quote_bytes(b.drop_last()) + enc(b.last()) =~= quote_bytes(a) + (
        quote_bytes(b.drop_last()) + enc(b.last())));
    }
}

proof fn lemma_hex_roundtrip(d: int)
    requires
        0 <= d < 16,
    ensures
        hex_value(hex_upper(d)) == Some(d),
{
}

/// Decoding one encoded byte in front of the rest.
proof fn lemma_decode_enc(b: u8, rest: Seq<char>)
    ensures
        pct_decode(enc(b) + rest) == match pct_decode(rest) {
            Some(r) => Some(seq![b] + r),
            None => None::<Seq<u8>>,
        },
{
    let s = enc(b) + rest;
    if unreserved(b) {
        assert(s[0] == b as char);
        assert(s.skip(1) =~= rest);
    } else {
        lemma_hex_roundtrip(b as int / 16);
        lemma_hex_roundtrip(b as int % 16);
        assert(s[0] == '%');
        assert(s[1] == hex_upper(b as int / 16));
        assert(s[2] == hex_upper(b as int % 16));
        assert(s.skip(3) =~= rest);
        assert((b as int / 16) * 16 + b as int % 16 == b as int);
        assert(((b as int / 16) * 16 + b as int % 16) as u8 == b);
    }
}

/// The law of a path segment: decoding a quoted segment gives back its bytes.
pub proof fn lemma_quote_roundtrip(b: Seq<u8>)
    ensures
        pct_decode(quote_bytes(b)) == Some(b),
    decreases b.len(),
{
    if b.len() > 0 {
        let first = seq![b[0]];
        let tail = b.drop_first();
        assert(b =~= first + tail);
        lemma_quote_concat(first, tail);
        assert(first.drop_last() =~= Seq::<u8>::empty());
        assert(quote_bytes(first.drop_last()) =~= Seq::<char>::empty());
        assert(first.last() == b[0]);
        assert(quote_bytes(first) =~= enc(b[0]));
        lemma_quote_roundtrip(tail);
        lemma_decode_enc(b[0], quote_bytes(tail));
        assert(seq![b[0]] + tail =~= b);
    }
}

/// The law of a path segment: a quoted segment holds only unreserved
/// characters and `%` — never a `/`, `?` or `#` that would leave it.
pub proof fn lemma_quote_safe(b: Seq<u8>)
    ensures
        forall|i: int|
            0 <= i < quote_bytes(b).len() ==> unreserved_char(#[trigger] quote_bytes(b)[i])
                || quote_bytes(b)[i] == '%',
    decreases b.len(),
{
    if b.len() > 0 {
        lemma_quote_safe(b.drop_last());
        let q = quote_bytes(b.drop_last());
        let e = enc(b.last());
        assert forall|i: int|
            0 <= i < quote_bytes(b).len() implies unreserved_char(#[trigger] quote_bytes(b)[i])
            || quote_bytes(b)[i] == '%' by {
            if i < q.len() {
                assert(quote_bytes(b)[i] == q[i]);
            } else {
                assert(quote_bytes(b)[i] == e[i - q.len()]);
            }
        }
    }
}

/// The characters with the Unicode `White_Space` property.
pub open spec fn is_ws(c: char) -> bool {
    ('\u{9}' <= c <= '\u{d}') || c == ' ' || c == '\u{85}' || c == '\u{a0}' || c == '\u{1680}'
        || ('\u{2000}' <= c <= '\u{200a}') || c == '\u{2028}' || c == '\u{2029}' || c
        == '\u{202f}' || c == '\u{205f}' || c == '\u{3000}'
}

fn is_ws_exec(c: char) -> (r: bool)
    ensures
        r == is_ws(c),
{
    ('\u{9}' <= c && c <= '\u{d}') || c == ' ' || c == '\u{85}' || c == '\u{a0}' || c
        == '\u{1680}' || ('\u{2000}' <= c && c <= '\u{200a}') || c == '\u{2028}' || c
        == '\u{2029}' || c == '\u{202f}' || c == '\u{205f}' || c == '\u{3000}'
}

/// The position of the first character that is not white space.
pub open spec fn lead(s: Seq<char>, i: int) -> int
    decreases s.len() - i,
{
    if i < 0 || i >= s.len() || !is_ws(s[i]) {
        i
    } else {
        lead(s, i + 1)
    }
}

/// The end of the text without its trailing white space.
pub open spec fn trail(s: Seq<char>, j: int) -> int
    decreases j,
{
    if j <= 0 || j > s.len() || !is_ws(s[j - 1]) {
        j
    } else {
        trail(s, j - 1)
    }
}

/// `str::trim`: the text without leading and trailing white space.
pub open spec fn trim_v(s: Seq<char>) -> Seq<char> {
    let a = lead(s, 0);
    let b = trail(s, s.len() as int);
    if a < b {
        s.subrange(a, b)
    } else {
        Seq::empty()
    }
}

pub fn trim(s: &str) -> (r: String)
    ensures
        r@ == trim_v(s@),
{
    let n = s.unicode_len();
    let mut a: usize = 0;
    while a < n && is_ws_exec(s.get_char(a))
        invariant
            n == s@.len(),
            a <= n,
            lead(s@, 0) == lead(s@, a as int),
        decreases n - a,
    {
        a = a + 1;
    }
    let mut b: usize = n;
    while b > 0 && is_ws_exec(s.get_char(b - 1))
        invariant
            n == s@.len(),
            b <= n,
            trail(s@, n as int) == trail(s@, b as int),
        decreases b,
    {
        b = b - 1;
    }
    if a < b {
        let t = s.substring_char(a, b);
        String::from_str(t)
    } else {
        String::new()
    }
}

/// The decimal digits of a natural number.
pub open spec fn digits_v(n: nat) -> Seq<char>
    decreases n,
{
    if n < 10 {
        seq![(48 + n) as char]
    } else {
        digits_v(n / 10).push((48 + n % 10) as char)
    }
}

/// An integer in decimal, as `format!("{n}")` writes it.
pub open spec fn decimal_v(n: int) -> Seq<char> {
    if n < 0 {
        seq!['-'] + digits_v((-n) as nat)
    } else {
        digits_v(n as nat)
    }
}

/// A natural number in decimal.
pub fn digits(n: u64) -> (r: String)
    ensures
        r@ == digits_v(n as nat),
    decreases n,
{
    if n < 10 {
        let mut s = String::new();
        s.push(((48 + n) as u8) as char);
        s
    } else {
        let mut s = digits(n / 10);
        s.push(((48 + n % 10) as u8) as char);
        s
    }
}

pub fn decimal(n: i64) -> (r: String)
    ensures
        r@ == decimal_v(n as int),
{
    if n < 0 {
        let m: u64 = (-(n as i128)) as u64;
        let mut s = String::new();
        s.push('-');
        s.append(digits(m).as_str());
        s
    } else {
        digits(n as u64)
    }
}


// ─── Reading a decimal integer ──────────────────────────────────────────────

/// Why a text does not read as an `i64`: the kinds `str::parse::<i64>`
/// reports.
#[derive(PartialEq, Eq, Structural, Clone, Copy)]
pub enum IntError {
    Empty,
    InvalidDigit,
    PosOverflow,
    NegOverflow,
}

pub open spec fn is_digit(c: char) -> bool {
    '0' <= c <= '9'
}

/// The end of the run of decimal digits that starts at `i`.
pub open spec fn digit_run(s: Seq<char>, i: int) -> int
    decreases s.len() - i,
{
    if i < 0 || i >= s.len() || !is_digit(s[i]) {
        i
    } else {
        digit_run(s, i + 1)
    }
}

/// The value of the decimal digits `s[a..b]`.
pub open spec fn digits_value(s: Seq<char>, a: int, b: int) -> nat
    decreases b - a,
{
    if b <= a {
        0
    } else {
        digits_value(s, a, b - 1) * 10 + (s[b - 1] as int - 48) as nat
    }
}

/// `str::parse::<i64>`: an optional `+` or `-`, then decimal digits and
/// nothing else, in range. Scanning from the left, the first digit that
/// takes the value out of range is an overflow, and a non-digit met before
/// that is an invalid digit.
pub open spec fn parse_i64_v(s: Seq<char>) -> Result<i64, IntError> {
    if s.len() == 0 {
        Err(IntError::Empty)
    } else {
        let start: int = if s[0] == '+' || s[0] == '-' {
            1
        } else {
            0
        };
        if start == s.len() {
            Err(IntError::InvalidDigit)
        } else {
            let k = digit_run(s, start);
            let v = digits_value(s, start, k);
            if s[0] == '-' {
                if v > 9223372036854775808 {
                    Err(IntError::NegOverflow)
                } else if k < s.len() {
                    Err(IntError::InvalidDigit)
                } else {
                    Ok((-v) as i64)
                }
            } else {
                if v > 9223372036854775807 {
                    Err(IntError::PosOverflow)
                } else if k < s.len() {
                    Err(IntError::InvalidDigit)
                } else {
                    Ok(v as i64)
                }
            }
        }
    }
}

/// The message of each kind, as `ParseIntError` displays it.
pub open spec fn int_error_text_v(e: IntError) -> Seq<char> {
    match e {
        IntError::Empty => "cannot parse integer from empty string"@,
        IntError::InvalidDigit => "invalid digit found in string"@,
        IntError::PosOverflow => "number too large to fit in target type"@,
        IntError::NegOverflow => "number too small to fit in target type"@,
    }
}

pub fn int_error_text(e: IntError) -> (r: String)
    ensures
        r@ == int_error_text_v(e),
{
    match e {
        IntError::Empty => String::from_str("cannot parse integer from empty string"),
        IntError::InvalidDigit => String::from_str("invalid digit found in string"),
        IntError::PosOverflow => String::from_str("number too large to fit in target type"),
        IntError::NegOverflow => String::from_str("number too small to fit in target type"),
    }
}

proof fn lemma_digits_grow(s: Seq<char>, a: int, b: int, c: int)
    requires
        a <= b <= c,
    ensures
        digits_value(s, a, b) <= digits_value(s, a, c),
    decreases c - b,
{
    if b < c {
        lemma_digits_grow(s, a, b, c - 1);
    }
}

proof fn lemma_run_past(s: Seq<char>, i: int)
    requires
        0 <= i <= s.len(),
    ensures
        i <= digit_run(s, i) <= s.len(),
    decreases s.len() - i,
{
    if i < s.len() && is_digit(s[i]) {
        lemma_run_past(s, i + 1);
    }
}

pub fn parse_i64(s: &str) -> (r: Result<i64, IntError>)
    ensures
        r == parse_i64_v(s@),
{
    let n = s.unicode_len();
    if n == 0 {
        return Err(IntError::Empty);
    }
    let c0 = s.get_char(0);
    let neg = c0 == '-';
    let start: usize = if c0 == '+' || c0 == '-' {
        1
    } else {
        0
    };
    if start == n {
        return Err(IntError::InvalidDigit);
    }
    let limit: u128 = if neg {
        9223372036854775808
    } else {
        9223372036854775807
    };
    let ghost k = digit_run(s@, start as int);
    proof {
        lemma_run_past(s@, start as int);
    }
    let mut acc: u128 = 0;
    let mut i: usize = start;
    while i < n && '0' <= s.get_char(i) && s.get_char(i) <= '9'
        invariant
            n == s@.len(),
            n > 0,
            neg == (s@[0] == '-'),
            start == (if s@[0] == '+' || s@[0] == '-' {
                1usize
            } else {
                0usize
            }),
            start < n,
            start <= i <= n,
            digit_run(s@, start as int) == digit_run(s@, i as int),
            k == digit_run(s@, start as int),
            i <= k <= n,
            acc == digits_value(s@, start as int, i as int),
            acc <= limit,
            limit == if neg {
                9223372036854775808u128
            } else {
                9223372036854775807u128
            },
        decreases n - i,
    {
        let c = s.get_char(i);
        let d: u128 = (c as u32 - 48) as u128;
        let next: u128 = acc * 10 + d;
        assert(digits_value(s@, start as int, i + 1) == next);
        proof {
            lemma_run_past(s@, i + 1);
        }
        if next > limit {
            proof {
                lemma_digits_grow(s@, start as int, i + 1, k);
            }
            return Err(
                if neg {
                    IntError::NegOverflow
                } else {
                    IntError::PosOverflow
                },
            );
        }
        acc = next;
        i = i + 1;
    }
    if i < n {
        Err(IntError::InvalidDigit)
    } else if neg {
        Ok((-(acc as i128)) as i64)
    } else {
        Ok(acc as i64)
    }
}

proof fn lemma_digits_are_digits(n: nat)
    ensures
        digits_v(n).len() >= 1,
        forall|i: int| 0 <= i < digits_v(n).len() ==> is_digit(#[trigger] digits_v(n)[i]),
    decreases n,
{
    if n >= 10 {
        lemma_digits_are_digits(n / 10);
        assert forall|i: int| 0 <= i < digits_v(n).len() implies is_digit(#[trigger] digits_v(n)[i]) by {
            if i < digits_v(n / 10).len() {
                assert(digits_v(n)[i] == digits_v(n / 10)[i]);
            }
        }
    }
}

proof fn lemma_run_to_end(s: Seq<char>, i: int)
    requires
        0 <= i <= s.len(),
        forall|j: int| i <= j < s.len() ==> is_digit(#[trigger] s[j]),
    ensures
        digit_run(s, i) == s.len(),
    decreases s.len() - i,
{
    if i < s.len() {
        lemma_run_to_end(s, i + 1);
    }
}

proof fn lemma_value_of_prefix(t: Seq<char>, c: char, b: int)
    requires
        0 <= b <= t.len(),
    ensures
        digits_value(t.push(c), 0, b) == digits_value(t, 0, b),
    decreases b,
{
    if b > 0 {
        lemma_value_of_prefix(t, c, b - 1);
        assert(t.push(c)[b - 1] == t[b - 1]);
    }
}

proof fn lemma_value_shift(pre: Seq<char>, t: Seq<char>, b: int)
    requires
        0 <= b <= t.len(),
    ensures
        digits_value(pre + t, pre.len() as int, pre.len() + b) == digits_value(t, 0, b),
    decreases b,
{
    if b > 0 {
        lemma_value_shift(pre, t, b - 1);
        assert((pre + t)[pre.len() + b - 1] == t[b - 1]);
    }
}

proof fn lemma_digits_value(n: nat)
    ensures
        digits_value(digits_v(n), 0, digits_v(n).len() as int) == n,
    decreases n,
{
    if n >= 10 {
        let t = digits_v(n / 10);
        let c = (48 + n % 10) as char;
        lemma_digits_value(n / 10);
        lemma_value_of_prefix(t, c, t.len() as int);
        let s = t.push(c);
        assert(digits_v(n) == s);
        assert(s[t.len() as int] == c);
        assert(c as int == 48 + n % 10);
        assert(digits_value(s, 0, s.len() as int) == digits_value(s, 0, t.len() as int) * 10 + (n
            % 10));
        assert(n == (n / 10) * 10 + n % 10) by (nonlinear_arith);
    } else {
        let c = (48 + n) as char;
        assert(c as int == 48 + n);
        assert(digits_v(n) == seq![c]);
        assert(digits_value(seq![c], 0, 0) == 0);
    }
}

/// What `decimal` writes, `parse_i64` reads back: every `i64` round-trips
/// through its decimal text.
pub proof fn lemma_parse_reads_decimal(n: i64)
    ensures
        parse_i64_v(decimal_v(n as int)) == Ok::<i64, IntError>(n),
{
    if n < 0 {
        let m = (-n) as nat;
        let t = digits_v(m);
        let s = seq!['-'] + t;
        lemma_digits_are_digits(m);
        lemma_digits_value(m);
        assert(decimal_v(n as int) == s);
        assert forall|j: int| 1 <= j < s.len() implies is_digit(#[trigger] s[j]) by {
            assert(s[j] == t[j - 1]);
        }
        lemma_run_to_end(s, 1);
        lemma_value_shift(seq!['-'], t, t.len() as int);
    } else {
        let t = digits_v(n as nat);
        lemma_digits_are_digits(n as nat);
        lemma_digits_value(n as nat);
        lemma_run_to_end(t, 0);
        assert(is_digit(t[0]));
    }
}

} // verus!
