//! Fingerprints: SHA-256 prefixes in URL-safe base64, and percent-encoding.

use base64::engine::general_purpose::URL_SAFE_NO_PAD;
use base64::Engine;
use sha2::Digest;
use vstd::prelude::*;

use crate::bytes;

verus! {

/// The SHA-256 digest of `preimage`.
pub uninterp spec fn sha256_digest(preimage: Seq<u8>) -> Seq<u8>;

/// `sha2::Sha256::digest` hashes the whole input and returns the 32 digest
/// bytes; the result is a function of the input alone.
#[verifier::external_body]
fn sha256(preimage: &[u8]) -> (r: Vec<u8>)
    ensures
        r@ == sha256_digest(preimage@),
        r@.len() == 32,
{
    sha2::Sha256::digest(preimage).to_vec()
}

/// The character of the URL-safe base64 alphabet for a six-bit group.
pub open spec fn base64_char(v: int) -> char {
    if v < 26 {
        (65 + v) as char
    } else if v < 52 {
        (71 + v) as char
    } else if v < 62 {
        (v - 4) as char
    } else if v == 62 {
        '-'
    } else {
        '_'
    }
}

/// The URL-safe base64 text of `s`, without padding.
pub open spec fn base64_text(s: Seq<u8>) -> Seq<char>
    decreases s.len(),
{
    if s.len() == 0 {
        Seq::empty()
    } else if s.len() == 1 {
        seq![base64_char(s[0] as int / 4), base64_char(s[0] as int % 4 * 16)]
    } else if s.len() == 2 {
        seq![
            base64_char(s[0] as int / 4),
            base64_char(s[0] as int % 4 * 16 + s[1] as int / 16),
            base64_char(s[1] as int % 16 * 4),
        ]
    } else {
        seq![
            base64_char(s[0] as int / 4),
            base64_char(s[0] as int % 4 * 16 + s[1] as int / 16),
            base64_char(s[1] as int % 16 * 4 + s[2] as int / 64),
            base64_char(s[2] as int % 64),
        ] + base64_text(s.skip(3))
    }
}

/// `base64::Engine::encode` of the `URL_SAFE_NO_PAD` engine writes six bits
/// per character, most significant first, with the alphabet `A`-`Z`, `a`-`z`,
/// `0`-`9`, `-`, `_` and no padding.
#[verifier::external_body]
pub(crate) fn base64_encode(input: &[u8]) -> (r: String)
    ensures
        r@ == base64_text(input@),
{
    URL_SAFE_NO_PAD.encode(input)
}

/// The fingerprint of a digest: its first eighteen bytes, in base64.
pub open spec fn fingerprint_of_digest(digest: Seq<u8>) -> Seq<char> {
    base64_text(digest.take(18))
}

/// The fingerprint of a preimage.
pub open spec fn fingerprint_text(preimage: Seq<u8>) -> Seq<char> {
    fingerprint_of_digest(sha256_digest(preimage))
}

/// The first eighteen bytes of `digest`, in URL-safe base64.
pub fn digest_fingerprint(digest: &Vec<u8>) -> (r: String)
    requires
        digest@.len() >= 18,
    ensures
        r@ == fingerprint_of_digest(digest@),
{
    let mut prefix: Vec<u8> = Vec::new();
    let mut i: usize = 0;
    while i < 18
        invariant
            i <= 18 <= digest@.len(),
            prefix@ == digest@.take(i as int),
        decreases 18 - i,
    {
        prefix.push(digest[i]);
        proof {
            assert(digest@.take(i as int).push(digest@[i as int]) =~= digest@.take(i + 1));
        }
        i = i + 1;
    }
    base64_encode(prefix.as_slice())
}

/// The fingerprint of `preimage`.
pub fn fingerprint(preimage: &Vec<u8>) -> (r: String)
    ensures
        r@ == fingerprint_text(preimage@),
{
    let digest = sha256(preimage.as_slice());
    digest_fingerprint(&digest)
}

proof fn lemma_base64_char_injective(a: int, b: int)
    requires
        0 <= a < 64,
        0 <= b < 64,
        base64_char(a) == base64_char(b),
    ensures
        a == b,
{
}

proof fn lemma_base64_len(s: Seq<u8>)
    ensures
        base64_text(s).len() == (s.len() * 4 + 2) / 3,
    decreases s.len(),
{
    if s.len() >= 3 {
        lemma_base64_len(s.skip(3));
    }
}

/// Base64 loses nothing: two byte sequences with the same text are equal.
pub proof fn law_base64_injective(a: Seq<u8>, b: Seq<u8>)
    requires
        base64_text(a) == base64_text(b),
    ensures
        a == b,
    decreases a.len(),
{
    lemma_base64_len(a);
    lemma_base64_len(b);
    assert(a.len() == b.len()) by (nonlinear_arith)
        requires
            (a.len() * 4 + 2) / 3 == (b.len() * 4 + 2) / 3,
    ;
    let x = base64_text(a);
    let y = base64_text(b);
    if a.len() > 0 {
        assert(x[0] == y[0] && x[1] == y[1]);
        lemma_base64_char_injective(a[0] as int / 4, b[0] as int / 4);
        if a.len() == 1 {
            lemma_base64_char_injective(a[0] as int % 4 * 16, b[0] as int % 4 * 16);
        } else if a.len() == 2 {
            assert(x[2] == y[2]);
            lemma_base64_char_injective(
                a[0] as int % 4 * 16 + a[1] as int / 16,
                b[0] as int % 4 * 16 + b[1] as int / 16,
            );
            lemma_base64_char_injective(a[1] as int % 16 * 4, b[1] as int % 16 * 4);
        } else {
            assert(x[2] == y[2] && x[3] == y[3]);
            lemma_base64_char_injective(
                a[0] as int % 4 * 16 + a[1] as int / 16,
                b[0] as int % 4 * 16 + b[1] as int / 16,
            );
            lemma_base64_char_injective(
                a[1] as int % 16 * 4 + a[2] as int / 64,
                b[1] as int % 16 * 4 + b[2] as int / 64,
            );
            lemma_base64_char_injective(a[2] as int % 64, b[2] as int % 64);
            assert(x.skip(4) =~= base64_text(a.skip(3)));
            assert(y.skip(4) =~= base64_text(b.skip(3)));
            law_base64_injective(a.skip(3), b.skip(3));
            assert(forall|i: int| 3 <= i < a.len() ==> a[i] == a.skip(3)[i - 3]);
            assert(forall|i: int| 3 <= i < b.len() ==> b[i] == b.skip(3)[i - 3]);
        }
    }
    assert(a =~= b);
}

/// A byte that percent-encoding leaves as it is.
pub open spec fn is_unreserved(b: u8) -> bool {
    ||| 48 <= b <= 57
    ||| 65 <= b <= 90
    ||| 97 <= b <= 122
    ||| b == 45
    ||| b == 46
    ||| b == 95
    ||| b == 126
}

/// An upper-case hexadecimal digit.
pub open spec fn hex_char(v: int) -> char {
    if v < 10 {
        (48 + v) as char
    } else {
        (55 + v) as char
    }
}

/// One percent-encoded byte.
pub open spec fn percent_byte(b: u8) -> Seq<char> {
    if is_unreserved(b) {
        seq![b as char]
    } else {
        seq!['%', hex_char(b as int / 16), hex_char(b as int % 16)]
    }
}

/// Percent-encoded bytes.
pub open spec fn percent_bytes(s: Seq<u8>) -> Seq<char>
    decreases s.len(),
{
    if s.len() == 0 {
        Seq::empty()
    } else {
        percent_byte(s[0]) + percent_bytes(s.skip(1))
    }
}

/// A text, percent-encoded over its UTF-8 bytes.
pub open spec fn percent_text(s: Seq<char>) -> Seq<char> {
    percent_bytes(bytes::text_bytes(s))
}

/// `urlencoding::encode` keeps ASCII letters, digits, `-`, `.`, `_` and `~`,
/// and writes every other UTF-8 byte as `%` and two upper-case hexadecimal
/// digits.
#[verifier::external_body]
pub(crate) fn percent_encode(s: &str) -> (r: String)
    ensures
        r@ == percent_text(s@),
{
    urlencoding::encode(s).into_owned()
}

/// Percent-encoding goes byte by byte: letters, digits, `-`, `.`, `_` and `~`
/// stay, and every other byte becomes three characters.
pub proof fn law_percent_encoding_goes_byte_by_byte(a: Seq<u8>, b: Seq<u8>, byte: u8)
    ensures
        percent_bytes(a + b) == percent_bytes(a) + percent_bytes(b),
        97 <= byte <= 122 || 65 <= byte <= 90 || 48 <= byte <= 57 || byte == 45 || byte == 46
            || byte == 95 || byte == 126 ==> percent_bytes(seq![byte]) == seq![byte as char],
        byte == 37 || byte == 47 || byte == 63 || byte == 38 || byte >= 128 ==> percent_bytes(
            seq![byte],
        ).len() == 3 && percent_bytes(seq![byte])[0] == '%',
    decreases a.len(),
{
    if a.len() == 0 {
        assert(a + b =~= b);
        assert(percent_bytes(a) + percent_bytes(b) =~= percent_bytes(b));
    } else {
        law_percent_encoding_goes_byte_by_byte(a.skip(1), b, byte);
        assert((a + b).skip(1) =~= a.skip(1) + b);
        assert(percent_byte(a[0]) + (percent_bytes(a.skip(1)) + percent_bytes(b)) =~= (percent_byte(
            a[0],
        ) + percent_bytes(a.skip(1))) + percent_bytes(b));
    }
    assert(seq![byte].skip(1) =~= Seq::<u8>::empty());
    assert(percent_bytes(Seq::<u8>::empty()) =~= Seq::<char>::empty());
    assert(percent_bytes(seq![byte]) =~= percent_byte(byte));
}

/// A fingerprint is made of the first eighteen bytes of a digest alone, and
/// tells them apart.
pub proof fn law_fingerprint_is_of_the_first_bytes(a: Seq<u8>, b: Seq<u8>)
    requires
        a.len() >= 18,
        b.len() >= 18,
    ensures
        fingerprint_of_digest(a) == fingerprint_of_digest(b) <==> a.take(18) == b.take(18),
        fingerprint_of_digest(a).len() == 24,
{
    lemma_base64_len(a.take(18));
    if fingerprint_of_digest(a) == fingerprint_of_digest(b) {
        law_base64_injective(a.take(18), b.take(18));
    }
}

} // verus!
