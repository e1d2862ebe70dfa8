//! The worker frame's pure parts: the injected identity, and base64.
use vstd::prelude::*;
use vstd::utf8::encode_utf8;
use base64::Engine;

verus! {

/// The FNV-1a offset basis for 64 bits.
pub const FNV_OFFSET: u64 = 0xcbf29ce484222325;

/// The FNV-1a prime for 64 bits.
pub const FNV_PRIME: u64 = 0x100000001b3;

/// The 64-bit FNV-1a hash of a byte string.
pub open spec fn fnv1a64(b: Seq<u8>) -> u64
    decreases b.len(),
{
    if b.len() == 0 {
        FNV_OFFSET
    } else {
        vstd::wrapping::u64_specs::wrapping_mul(fnv1a64(b.drop_last()) ^ (b.last() as u64), FNV_PRIME)
    }
}

/// The lower-case hex digit of `d`, below 16.
pub open spec fn hex_lower(d: int) -> char {
    if d < 10 {
        (48 + d) as char
    } else {
        (87 + d) as char
    }
}

/// The last `n` hex digits of `x`, most significant first.
pub open spec fn hex_digits(x: nat, n: nat) -> Seq<char>
    decreases n,
{
    if n == 0 {
        Seq::empty()
    } else {
        hex_digits(x / 16, (n - 1) as nat).push(hex_lower((x % 16) as int))
    }
}

/// `format!("{hash:016x}")`.
pub open spec fn hex16(x: u64) -> Seq<char> {
    hex_digits(x as nat, 16)
}

/// The characters an injected identity keeps as they are: `A-Z a-z 0-9 . - _`.
pub open spec fn id_char(c: char) -> bool {
    ('A' <= c <= 'Z') || ('a' <= c <= 'z') || ('0' <= c <= '9') || c == '.' || c == '-' || c
        == '_'
}

/// A character of the readable part of an identity.
pub open spec fn safe_char(c: char) -> char {
    if id_char(c) {
        c
    } else {
        '_'
    }
}

/// How many characters of the promise id the identity keeps: at most 100.
pub open spec fn kept(len: nat) -> nat {
    if len < 100 {
        len
    } else {
        100
    }
}

/// The injected identity of a promise: its first hundred characters with
/// every other character than `A-Z a-z 0-9 . - _` made `_`, a `-`, and the
/// FNV-1a hash of the whole id's UTF-8 bytes in 16 lower-case hex digits.
pub open spec fn sanitize_v(id: Seq<char>) -> Seq<char> {
    Seq::new(kept(id.len()), |i: int| safe_char(id[i])) + seq!['-'] + hex16(
        fnv1a64(encode_utf8(id)),
    )
}

fn hex_lower_digit(d: u64) -> (c: char)
    requires
        d < 16,
    ensures
        c == hex_lower(d as int),
{
    if d < 10 {
        ((48 + d) as u8) as char
    } else {
        ((87 + d) as u8) as char
    }
}

fn hex_digits_exec(x: u64, n: usize) -> (r: String)
    ensures
        r@ == hex_digits(x as nat, n as nat),
    decreases n,
{
    if n == 0 {
        String::new()
    } else {
        let mut s = hex_digits_exec(x / 16, n - 1);
        s.push(hex_lower_digit(x % 16));
        s
    }
}

/// The FNV-1a hash of `bytes` in 16 lower-case hex digits.
pub fn fnv1a64_hex(bytes: &[u8]) -> (r: String)
    ensures
        r@ == hex16(fnv1a64(bytes@)),
{
    let mut hash: u64 = FNV_OFFSET;
    let mut i: usize = 0;
    while i < bytes.len()
        invariant
            i <= bytes@.len(),
            hash == fnv1a64(bytes@.take(i as int)),
        decreases bytes@.len() - i,
    {
        assert(bytes@.take(i + 1).drop_last() =~= bytes@.take(i as int));
        hash = (hash ^ (bytes[i] as u64)).wrapping_mul(FNV_PRIME);
        i = i + 1;
    }
    assert(bytes@.take(bytes@.len() as int) =~= bytes@);
    hex_digits_exec(hash, 16)
}

/// The identity injected into a provider for a promise, never the raw id.
pub fn sanitize(promise_id: &str) -> (r: String)
    ensures
        r@ == sanitize_v(promise_id@),
{
    let digest = fnv1a64_hex(promise_id.as_bytes());
    let n = promise_id.unicode_len();
    let lim = if n < 100 {
        n
    } else {
        100
    };
    let mut safe = String::new();
    let mut i: usize = 0;
    while i < lim
        invariant
            lim == kept(promise_id@.len()),
            i <= lim,
            lim <= promise_id@.len(),
            safe@ == Seq::new(i as nat, |j: int| safe_char(promise_id@[j])),
        decreases lim - i,
    {
        let c = promise_id.get_char(i);
        let kept_c = if ('A' <= c && c <= 'Z') || ('a' <= c && c <= 'z') || ('0' <= c && c <= '9')
            || c == '.' || c == '-' || c == '_' {
            c
        } else {
            '_'
        };
        safe.push(kept_c);
        assert(safe@ =~= Seq::new((i + 1) as nat, |j: int| safe_char(promise_id@[j])));
        i = i + 1;
    }
    safe.push('-');
    safe.append(digest.as_str());
    assert(safe@ =~= sanitize_v(promise_id@));
    safe
}

proof fn lemma_hex_digits_len(x: nat, n: nat)
    ensures
        hex_digits(x, n).len() == n,
        forall|i: int| 0 <= i < n ==> id_char(#[trigger] hex_digits(x, n)[i]),
    decreases n,
{
    if n > 0 {
        lemma_hex_digits_len(x / 16, (n - 1) as nat);
        let h = hex_digits(x, n);
        assert forall|i: int| 0 <= i < n implies id_char(#[trigger] h[i]) by {
            if i < n - 1 {
                assert(h[i] == hex_digits(x / 16, (n - 1) as nat)[i]);
            }
        }
    }
}

/// The law of the injected identity: it holds only `A-Z a-z 0-9 . - _`, and
/// it is at most 117 characters long (a hundred, a `-` and 16 hex digits).
pub proof fn lemma_sanitize_safe(id: Seq<char>)
    ensures
        sanitize_v(id).len() == kept(id.len()) + 17,
        sanitize_v(id).len() <= 117,
        forall|i: int| 0 <= i < sanitize_v(id).len() ==> id_char(#[trigger] sanitize_v(id)[i]),
{
    let d = hex16(fnv1a64(encode_utf8(id)));
    lemma_hex_digits_len(fnv1a64(encode_utf8(id)) as nat, 16);
    let a = Seq::new(kept(id.len()), |i: int| safe_char(id[i]));
    let s = sanitize_v(id);
    assert forall|i: int| 0 <= i < s.len() implies id_char(#[trigger] s[i]) by {
        if i < a.len() {
            assert(s[i] == a[i]);
        } else if i == a.len() {
            assert(s[i] == '-');
        } else {
            assert(s[i] == d[i - a.len() - 1]);
        }
    }
}

/// The law of the injected identity: an id of at most a hundred characters
/// that are all `A-Z a-z 0-9 . - _` is the start of its identity, so a
/// provider record names the promise it was made for.
pub proof fn lemma_sanitize_keeps_readable_id(id: Seq<char>)
    requires
        id.len() <= 100,
        forall|i: int| 0 <= i < id.len() ==> id_char(#[trigger] id[i]),
    ensures
        sanitize_v(id).take(id.len() as int) == id,
{
    assert(sanitize_v(id).take(id.len() as int) =~= id);
}

/// What the base64 `STANDARD` engine of the `base64` crate decodes `s` to:
/// nothing where `s` is not canonical padded standard base64.
pub uninterp spec fn base64_standard_decode(s: Seq<char>) -> Option<Seq<u8>>;

/// What the base64 `STANDARD` engine of the `base64` crate encodes `b` as.
pub uninterp spec fn base64_standard_encode(b: Seq<u8>) -> Seq<char>;

/// `base64::engine::general_purpose::STANDARD.decode(s).ok()`: Verus takes
/// its result to be the name `base64_standard_decode` of the text; the
/// decoding itself is the crate's and is not stated here.
#[verifier::external_body]
pub(crate) fn b64_decode(s: &str) -> (r: Option<Vec<u8>>)
    ensures
        match r {
            Some(v) => base64_standard_decode(s@) == Some(v@),
            None => base64_standard_decode(s@) is None,
        },
{
    base64::engine::general_purpose::STANDARD.decode(s).ok()
}

/// `base64::engine::general_purpose::STANDARD.encode(b)`: Verus takes its
/// result to be the name `base64_standard_encode` of the bytes; the encoding
/// itself is the crate's and is not stated here.
#[verifier::external_body]
pub(crate) fn b64_encode(b: &[u8]) -> (r: String)
    ensures
        r@ == base64_standard_encode(b@),
{
    base64::engine::general_purpose::STANDARD.encode(b)
}

} // verus!
