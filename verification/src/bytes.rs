//! Little-endian integers and text as byte sequences.

use vstd::prelude::*;
use vstd::string::*;
use vstd::utf8::*;

verus! {

/// The `k` low bytes of `n`, least significant first.
pub open spec fn le_bytes(n: nat, k: nat) -> Seq<u8>
    decreases k,
{
    if k == 0 {
        Seq::empty()
    } else {
        seq![(n % 256) as u8] + le_bytes(n / 256, (k - 1) as nat)
    }
}

/// The number that `s` denotes, least significant byte first.
pub open spec fn le_value(s: Seq<u8>) -> nat
    decreases s.len(),
{
    if s.len() == 0 {
        0
    } else {
        s[0] as nat + 256 * le_value(s.skip(1))
    }
}

/// `256` to the power `k`.
pub open spec fn byte_span(k: nat) -> nat
    decreases k,
{
    if k == 0 {
        1
    } else {
        256 * byte_span((k - 1) as nat)
    }
}

pub proof fn lemma_le_bytes_len(n: nat, k: nat)
    ensures
        le_bytes(n, k).len() == k,
    decreases k,
{
    if k > 0 {
        lemma_le_bytes_len(n / 256, (k - 1) as nat);
    }
}

/// Reading back `k` little-endian bytes gives the number modulo `256^k`.
pub proof fn lemma_le_round_trip(n: nat, k: nat)
    requires
        n < byte_span(k),
    ensures
        le_value(le_bytes(n, k)) == n,
    decreases k,
{
    lemma_le_bytes_len(n, k);
    if k > 0 {
        lemma_le_bytes_len(n / 256, (k - 1) as nat);
        assert(le_bytes(n, k).skip(1) =~= le_bytes(n / 256, (k - 1) as nat));
        lemma_le_round_trip(n / 256, (k - 1) as nat);
    }
}

/// Appends the `k` low bytes of `n`, least significant first.
pub fn push_le(out: &mut Vec<u8>, n: u64, k: usize)
    ensures
        final(out)@ == old(out)@ + le_bytes(n as nat, k as nat),
    decreases k,
{
    if k > 0 {
        out.push((n % 256) as u8);
        let ghost before = out@;
        push_le(out, n / 256, k - 1);
        proof {
            assert(before + le_bytes((n / 256) as nat, (k - 1) as nat) =~= old(out)@ + le_bytes(
                n as nat,
                k as nat,
            ));
        }
    } else {
        proof {
            assert(old(out)@ + Seq::<u8>::empty() =~= old(out)@);
        }
    }
}

/// Appends a byte slice.
pub fn push_bytes(out: &mut Vec<u8>, bytes: &[u8])
    ensures
        final(out)@ == old(out)@ + bytes@,
{
    let ghost start = out@;
    let mut i: usize = 0;
    proof {
        assert(start + bytes@.take(0) =~= start);
    }
    while i < bytes.len()
        invariant
            i <= bytes@.len(),
            out@ == start + bytes@.take(i as int),
        decreases bytes@.len() - i,
    {
        out.push(bytes[i]);
        proof {
            assert((start + bytes@.take(i as int)).push(bytes@[i as int]) =~= start + bytes@.take(
                i + 1,
            ));
        }
        i = i + 1;
    }
    proof {
        assert(bytes@.take(bytes@.len() as int) =~= bytes@);
    }
}

/// The UTF-8 bytes of a text.
pub open spec fn text_bytes(s: Seq<char>) -> Seq<u8> {
    encode_utf8(s)
}

/// Appends the UTF-8 bytes of `s`.
pub fn push_text(out: &mut Vec<u8>, s: &str)
    ensures
        final(out)@ == old(out)@ + text_bytes(s@),
{
    push_bytes(out, s.as_bytes());
}

/// The two's complement representation of `x` in 32 bits.
pub open spec fn two_complement(x: int) -> nat {
    (x % 0x1_0000_0000) as nat
}

/// `x` reinterpreted as an unsigned number.
pub fn as_unsigned(x: i32) -> (r: u32)
    ensures
        r as nat == two_complement(x as int),
{
    if x >= 0 {
        x as u32
    } else {
        let shifted: i64 = x as i64 + 0x1_0000_0000;
        shifted as u32
    }
}

/// The `k` low bytes of the sample `x`.
pub open spec fn sample_bytes(x: i32, k: nat) -> Seq<u8> {
    le_bytes(two_complement(x as int), k)
}

/// Appends the `k` low bytes of the sample `x`.
pub fn push_sample(out: &mut Vec<u8>, x: i32, k: usize)
    ensures
        final(out)@ == old(out)@ + sample_bytes(x, k as nat),
{
    push_le(out, as_unsigned(x) as u64, k);
}

/// How far one, two, three, four and eight bytes count.
pub proof fn lemma_byte_spans()
    ensures
        byte_span(0) == 1,
        byte_span(1) == 0x100,
        byte_span(2) == 0x1_0000,
        byte_span(3) == 0x100_0000,
        byte_span(4) == 0x1_0000_0000,
        byte_span(8) == 0x1_0000_0000_0000_0000,
{
    reveal_with_fuel(byte_span, 9);
}

/// `k` little-endian bytes hold a number up to multiples of `256^k`.
pub proof fn law_le_bytes_hold_low_part(n: nat, k: nat)
    ensures
        le_bytes(n, k).len() == k,
        byte_span(k) > 0,
        le_value(le_bytes(n, k)) == n % byte_span(k),
    decreases k,
{
    lemma_le_bytes_len(n, k);
    if k > 0 {
        law_le_bytes_hold_low_part(n / 256, (k - 1) as nat);
        assert(le_bytes(n, k).skip(1) =~= le_bytes(n / 256, (k - 1) as nat));
        vstd::arithmetic::div_mod::lemma_mod_breakdown(
            n as int,
            256,
            byte_span((k - 1) as nat) as int,
        );
    }
}

/// The bytes of a sample are those of its two's complement.
pub proof fn law_sample_bytes_hold_sample(x: i32)
    ensures
        le_value(sample_bytes(x, 2)) == x as int % 0x1_0000,
        le_value(sample_bytes(x, 3)) == x as int % 0x100_0000,
        le_value(sample_bytes(x, 4)) == x as int % 0x1_0000_0000,
{
    lemma_byte_spans();
    let raw = two_complement(x as int);
    law_le_bytes_hold_low_part(raw, 2);
    law_le_bytes_hold_low_part(raw, 3);
    law_le_bytes_hold_low_part(raw, 4);
    lemma_two_complement(x);
}

/// The two's complement of a sample, without and with its sign.
pub proof fn lemma_two_complement(x: i32)
    ensures
        x >= 0 ==> two_complement(x as int) == x,
        x < 0 ==> two_complement(x as int) == x + 0x1_0000_0000,
        two_complement(x as int) as int % 0x1_0000 == x as int % 0x1_0000,
        two_complement(x as int) as int % 0x100_0000 == x as int % 0x100_0000,
        two_complement(x as int) as int % 0x1_0000_0000 == x as int % 0x1_0000_0000,
        two_complement(x as int) as int / 0x100 % 0x100 == x as int / 0x100 % 0x100,
        two_complement(x as int) as int / 0x1_0000 % 0x100 == x as int / 0x1_0000 % 0x100,
{
    let y = x as int;
    if y < 0 {
        assert(y % 0x1_0000_0000 == y + 0x1_0000_0000);
        assert((y + 0x1_0000_0000) / 0x100 == y / 0x100 + 0x100_0000);
        assert((y + 0x1_0000_0000) / 0x1_0000 == y / 0x1_0000 + 0x1_0000);
    }
}

/// Different texts have different bytes.
pub proof fn law_text_bytes_injective(a: Seq<char>, b: Seq<char>)
    requires
        text_bytes(a) == text_bytes(b),
    ensures
        a == b,
{
    encode_utf8_decode_utf8(a);
    encode_utf8_decode_utf8(b);
}

/// Different numbers have different bytes, as far as the bytes go.
pub proof fn law_le_bytes_injective(a: nat, b: nat, k: nat)
    requires
        le_bytes(a, k) == le_bytes(b, k),
        a < byte_span(k),
        b < byte_span(k),
    ensures
        a == b,
{
    lemma_le_round_trip(a, k);
    lemma_le_round_trip(b, k);
}

/// What stands between the same parts is the same where the whole is.
pub proof fn law_middle_cancels<T>(before: Seq<T>, x: Seq<T>, y: Seq<T>, after: Seq<T>)
    requires
        before + x + after == before + y + after,
    ensures
        x == y,
{
    assert((before + x + after).len() == before.len() + x.len() + after.len());
    assert((before + y + after).len() == before.len() + y.len() + after.len());
    assert(x.len() == y.len());
    assert((before + x + after).subrange(before.len() as int, (before.len() + x.len()) as int)
        =~= x);
    assert((before + y + after).subrange(before.len() as int, (before.len() + y.len()) as int)
        =~= y);
}

/// What follows the same bytes at the same length is the same where the whole
/// is.
pub proof fn law_head_cancels(
    before: Seq<u8>,
    x: Seq<u8>,
    y: Seq<u8>,
    after_x: Seq<u8>,
    after_y: Seq<u8>,
)
    requires
        before + x + after_x == before + y + after_y,
        x.len() == y.len(),
    ensures
        x == y,
        after_x == after_y,
{
    let n = before.len() as int;
    let m = (before.len() + x.len()) as int;
    assert((before + x + after_x).subrange(n, m) =~= x);
    assert((before + y + after_y).subrange(n, m) =~= y);
    assert((before + x + after_x).skip(m) =~= after_x);
    assert((before + y + after_y).skip(m) =~= after_y);
}

/// The first byte of a number counts ones, the second 256s, and so on.
pub proof fn law_first_byte_is_lowest(s: Seq<u8>)
    ensures
        s.len() == 2 ==> le_value(s) == s[0] + 256 * s[1],
        s.len() == 4 ==> le_value(s) == s[0] + 256 * s[1] + 65_536 * s[2] + 16_777_216 * s[3],
        s.len() == 8 ==> le_value(s) == s[0] + 256 * s[1] + 65_536 * s[2] + 16_777_216 * s[3]
            + 0x1_0000_0000 * s[4] + 0x100_0000_0000 * s[5] + 0x1_0000_0000_0000 * s[6]
            + 0x100_0000_0000_0000 * s[7],
{
    reveal_with_fuel(le_value, 9);
}

} // verus!
