//! RIFF/WAVE headers and PCM sample data.

use crate::bytes;
use crate::text;
use vstd::prelude::*;
use vstd::string::*;

verus! {

/// The length of the header that every generated WAV stream begins with.
pub const WAV_HEADER_LEN: u64 = 44;

/// The bit depths that WAV output supports.
pub open spec fn wav_depth(bits: u32) -> bool {
    bits == 16 || bits == 24 || bits == 32
}

/// The header of a two-channel PCM file with `data_len` bytes of samples.
pub open spec fn wav_header(sample_rate: nat, bits: nat, data_len: nat) -> Seq<u8> {
    seq![82u8, 73, 70, 70] + bytes::le_bytes(36 + data_len, 4) + seq![87u8, 65, 86, 69] + seq![
        102u8,
        109,
        116,
        32,
    ] + bytes::le_bytes(16, 4) + bytes::le_bytes(1, 2) + bytes::le_bytes(2, 2) + bytes::le_bytes(
        sample_rate,
        4,
    ) + bytes::le_bytes(sample_rate * (bits / 4), 4) + bytes::le_bytes(bits / 4, 2)
        + bytes::le_bytes(bits, 2) + seq![100u8, 97, 116, 97] + bytes::le_bytes(data_len, 4)
}

/// The header always has the same length.
pub proof fn law_wav_header_len(sample_rate: nat, bits: nat, data_len: nat)
    ensures
        wav_header(sample_rate, bits, data_len).len() == WAV_HEADER_LEN,
{
    bytes::lemma_le_bytes_len(36 + data_len, 4);
    bytes::lemma_le_bytes_len(16, 4);
    bytes::lemma_le_bytes_len(1, 2);
    bytes::lemma_le_bytes_len(2, 2);
    bytes::lemma_le_bytes_len(sample_rate, 4);
    bytes::lemma_le_bytes_len(sample_rate * (bits / 4), 4);
    bytes::lemma_le_bytes_len(bits / 4, 2);
    bytes::lemma_le_bytes_len(bits, 2);
    bytes::lemma_le_bytes_len(data_len, 4);
}

/// The size fields of the header can be read back: the RIFF size counts
/// everything after it, the data size the samples.
pub proof fn law_wav_header_sizes(sample_rate: nat, bits: nat, data_len: nat)
    requires
        36 + data_len <= u32::MAX,
    ensures
        bytes::le_value(wav_header(sample_rate, bits, data_len).subrange(4, 8)) + 8
            == WAV_HEADER_LEN + data_len,
        bytes::le_value(wav_header(sample_rate, bits, data_len).subrange(40, 44)) == data_len,
{
    let h = wav_header(sample_rate, bits, data_len);
    law_wav_header_len(sample_rate, bits, data_len);
    bytes::lemma_le_bytes_len(36 + data_len, 4);
    bytes::lemma_le_bytes_len(16, 4);
    bytes::lemma_le_bytes_len(1, 2);
    bytes::lemma_le_bytes_len(2, 2);
    bytes::lemma_le_bytes_len(sample_rate, 4);
    bytes::lemma_le_bytes_len(sample_rate * (bits / 4), 4);
    bytes::lemma_le_bytes_len(bits / 4, 2);
    bytes::lemma_le_bytes_len(bits, 2);
    bytes::lemma_le_bytes_len(data_len, 4);
    assert(h.subrange(4, 8) =~= bytes::le_bytes(36 + data_len, 4));
    assert(h.subrange(40, 44) =~= bytes::le_bytes(data_len, 4));
    assert(bytes::byte_span(4) == 0x1_0000_0000) by {
        assert(bytes::byte_span(1) == 256 * bytes::byte_span(0));
        assert(bytes::byte_span(2) == 256 * bytes::byte_span(1));
        assert(bytes::byte_span(3) == 256 * bytes::byte_span(2));
    }
    bytes::lemma_le_round_trip(36 + data_len, 4);
    bytes::lemma_le_round_trip(data_len, 4);
}

fn push_tag(out: &mut Vec<u8>, a: u8, b: u8, c: u8, d: u8)
    ensures
        final(out)@ == old(out)@ + seq![a, b, c, d],
{
    out.push(a);
    out.push(b);
    out.push(c);
    out.push(d);
    proof {
        assert(old(out)@.push(a).push(b).push(c).push(d) =~= old(out)@ + seq![a, b, c, d]);
    }
}

/// The header fields are representable.
pub open spec fn wav_header_fits(sample_rate: u32, bits: u32, data_len: int) -> bool {
    wav_depth(bits) && sample_rate * (bits / 4) <= u32::MAX && 36 + data_len <= u32::MAX
}

fn write_header(sample_rate: u32, bit_depth: u32, data_len: u32) -> (r: Vec<u8>)
    requires
        wav_header_fits(sample_rate, bit_depth, data_len as int),
    ensures
        r@ == wav_header(sample_rate as nat, bit_depth as nat, data_len as nat),
{
    let block_align: u32 = bit_depth / 4;
    let byte_rate: u32 = sample_rate * block_align;
    let mut out: Vec<u8> = Vec::with_capacity(44);
    push_tag(&mut out, 82, 73, 70, 70);
    proof {
        assert(out@ =~= seq![82u8, 73, 70, 70]);
    }
    bytes::push_le(&mut out, 36 + data_len as u64, 4);
    push_tag(&mut out, 87, 65, 86, 69);
    push_tag(&mut out, 102, 109, 116, 32);
    bytes::push_le(&mut out, 16, 4);
    bytes::push_le(&mut out, 1, 2);
    bytes::push_le(&mut out, 2, 2);
    bytes::push_le(&mut out, sample_rate as u64, 4);
    bytes::push_le(&mut out, byte_rate as u64, 4);
    bytes::push_le(&mut out, block_align as u64, 2);
    bytes::push_le(&mut out, bit_depth as u64, 2);
    push_tag(&mut out, 100, 97, 116, 97);
    bytes::push_le(&mut out, data_len as u64, 4);
    out
}

/// Why a generated header cannot be written, in the order of the checks.
pub open spec fn wav_header_error(sample_rate: u32, bit_depth: u32, data_len: u32) -> Seq<char> {
    if !wav_depth(bit_depth) {
        "unsupported generated UPnP WAV bit depth: "@ + text::decimal(bit_depth as nat)
    } else if sample_rate * (bit_depth / 4) > u32::MAX {
        "generated UPnP WAV byte rate overflow"@
    } else {
        "generated UPnP WAV RIFF size overflow"@
    }
}

/// The header of a generated stream.
pub fn wav_header_bytes(sample_rate: u32, bit_depth: u32, data_len: u32) -> (r: Result<
    Vec<u8>,
    String,
>)
    ensures
        r is Ok <==> wav_header_fits(sample_rate, bit_depth, data_len as int),
        r is Ok ==> r->Ok_0@ == wav_header(
            sample_rate as nat,
            bit_depth as nat,
            data_len as nat,
        ),
        r is Err ==> r->Err_0@ == wav_header_error(sample_rate, bit_depth, data_len),
{
    if bit_depth != 16 && bit_depth != 24 && bit_depth != 32 {
        return Err(
            text::joined(
                "unsupported generated UPnP WAV bit depth: ",
                text::decimal_u64(bit_depth as u64).as_str(),
            ),
        );
    }
    if sample_rate.checked_mul(bit_depth / 4).is_none() {
        return Err("generated UPnP WAV byte rate overflow".to_string());
    }
    if data_len > 0xffff_ffff - 36 {
        return Err("generated UPnP WAV RIFF size overflow".to_string());
    }
    Ok(write_header(sample_rate, bit_depth, data_len))
}

/// The sample data of a PCM file: `k` bytes per sample, little-endian.
pub open spec fn pcm_data(samples: Seq<i32>, k: nat) -> Seq<u8>
    decreases samples.len(),
{
    if samples.len() == 0 {
        Seq::empty()
    } else {
        pcm_data(samples.drop_last(), k) + bytes::sample_bytes(samples.last(), k)
    }
}

pub proof fn lemma_pcm_data_len(samples: Seq<i32>, k: nat)
    ensures
        pcm_data(samples, k).len() == samples.len() * k,
    decreases samples.len(),
{
    if samples.len() > 0 {
        lemma_pcm_data_len(samples.drop_last(), k);
        bytes::lemma_le_bytes_len(bytes::two_complement(samples.last() as int), k);
        assert((samples.len() - 1) * k + k == samples.len() * k) by (nonlinear_arith);
    }
}

/// Sample data does not depend on how the samples are cut into chunks.
pub proof fn law_pcm_data_concat(a: Seq<i32>, b: Seq<i32>, k: nat)
    ensures
        pcm_data(a + b, k) == pcm_data(a, k) + pcm_data(b, k),
    decreases b.len(),
{
    if b.len() == 0 {
        assert(a + b =~= a);
        assert(pcm_data(a, k) + Seq::<u8>::empty() =~= pcm_data(a, k));
    } else {
        assert((a + b).drop_last() =~= a + b.drop_last());
        law_pcm_data_concat(a, b.drop_last(), k);
        assert(pcm_data(a + b, k) =~= pcm_data(a, k) + pcm_data(b, k));
    }
}

/// Appends the first `count` samples, `k` bytes each.
pub fn push_samples(out: &mut Vec<u8>, samples: &[i32], count: usize, k: usize)
    requires
        count <= samples@.len(),
    ensures
        final(out)@ == old(out)@ + pcm_data(samples@.take(count as int), k as nat),
{
    let ghost start = out@;
    let mut i: usize = 0;
    proof {
        assert(start + pcm_data(samples@.take(0), k as nat) =~= start);
    }
    while i < count
        invariant
            i <= count <= samples@.len(),
            out@ == start + pcm_data(samples@.take(i as int), k as nat),
        decreases count - i,
    {
        bytes::push_sample(out, samples[i], k);
        proof {
            assert(samples@.take(i + 1).drop_last() =~= samples@.take(i as int));
            assert(out@ =~= start + pcm_data(samples@.take(i + 1), k as nat));
        }
        i = i + 1;
    }
}

/// Why a PCM file cannot be written, in the order of the checks.
pub open spec fn wav_file_error(sample_rate: u32, bit_depth: u32) -> Seq<char> {
    if !wav_depth(bit_depth) {
        "unsupported UPnP DSP PCM bit depth: "@ + text::decimal(bit_depth as nat)
    } else if sample_rate * (bit_depth / 4) > u32::MAX {
        "UPnP DSP WAV byte rate overflow"@
    } else {
        "UPnP DSP WAV output is too large"@
    }
}

/// A complete two-channel PCM file.
pub open spec fn wav_file(samples: Seq<i32>, sample_rate: nat, bits: nat) -> Seq<u8> {
    wav_header(sample_rate, bits, samples.len() * (bits / 8)) + pcm_data(samples, bits / 8)
}

/// The bytes of a complete two-channel PCM file.
pub fn encode_wav_file(samples: &[i32], sample_rate: u32, bit_depth: u32) -> (r: Result<
    Vec<u8>,
    String,
>)
    ensures
        r is Ok <==> wav_header_fits(
            sample_rate,
            bit_depth,
            samples@.len() * (bit_depth / 8),
        ),
        r is Ok ==> r->Ok_0@ == wav_file(samples@, sample_rate as nat, bit_depth as nat),
        r is Err ==> r->Err_0@ == wav_file_error(sample_rate, bit_depth),
{
    if bit_depth != 16 && bit_depth != 24 && bit_depth != 32 {
        return Err(
            text::joined(
                "unsupported UPnP DSP PCM bit depth: ",
                text::decimal_u64(bit_depth as u64).as_str(),
            ),
        );
    }
    if sample_rate.checked_mul(bit_depth / 4).is_none() {
        return Err("UPnP DSP WAV byte rate overflow".to_string());
    }
    let bytes_per_sample: u64 = (bit_depth / 8) as u64;
    proof {
        assert(samples@.len() > 0xffff_ffff ==> samples@.len() * (bit_depth / 8) > 0xffff_ffff)
            by (nonlinear_arith)
            requires
                bit_depth / 8 >= 1,
        ;
        assert(samples@.len() <= 0xffff_ffff ==> samples@.len() * (bit_depth / 8) <= 0xffff_ffff
            * 4) by (nonlinear_arith)
            requires
                bit_depth / 8 <= 4,
        ;
    }
    if samples.len() as u64 > 0xffff_ffff {
        return Err("UPnP DSP WAV output is too large".to_string());
    }
    let data_len: u64 = samples.len() as u64 * bytes_per_sample;
    if data_len > 0xffff_ffff - 36 {
        return Err("UPnP DSP WAV output is too large".to_string());
    }
    let mut out = write_header(sample_rate, bit_depth, data_len as u32);
    push_samples(&mut out, samples, samples.len(), bytes_per_sample as usize);
    proof {
        assert(samples@.take(samples@.len() as int) =~= samples@);
    }
    Ok(out)
}

/// A complete file is as long as its header says.
pub proof fn law_wav_file_len(samples: Seq<i32>, sample_rate: nat, bits: nat)
    requires
        36 + samples.len() * (bits / 8) <= u32::MAX,
    ensures
        wav_file(samples, sample_rate, bits).len() == WAV_HEADER_LEN + samples.len() * (bits / 8),
        bytes::le_value(wav_file(samples, sample_rate, bits).subrange(4, 8)) + 8 == wav_file(
            samples,
            sample_rate,
            bits,
        ).len(),
{
    let data_len = samples.len() * (bits / 8);
    law_wav_header_len(sample_rate, bits, data_len);
    law_wav_header_sizes(sample_rate, bits, data_len);
    lemma_pcm_data_len(samples, bits / 8);
    assert(wav_file(samples, sample_rate, bits).subrange(4, 8) =~= wav_header(
        sample_rate,
        bits,
        data_len,
    ).subrange(4, 8));
}

/// The frame size of generated PCM: two samples.
pub open spec fn frame_bytes(bit_depth: u32) -> int {
    (bit_depth / 4) as int
}

/// How many bytes one two-channel frame takes.
pub fn generated_wav_bytes_per_frame(bit_depth: u32) -> (r: Result<u64, String>)
    ensures
        r is Ok <==> wav_depth(bit_depth),
        r is Ok ==> r->Ok_0 == frame_bytes(bit_depth),
        r is Err ==> r->Err_0@ == "unsupported generated UPnP WAV bit depth "@ + text::decimal(
            bit_depth as nat,
        ),
{
    if bit_depth == 16 {
        Ok(4)
    } else if bit_depth == 24 {
        Ok(6)
    } else if bit_depth == 32 {
        Ok(8)
    } else {
        Err(
            text::joined(
                "unsupported generated UPnP WAV bit depth ",
                text::decimal_u64(bit_depth as u64).as_str(),
            ),
        )
    }
}

/// How many of `len` samples fit into `remaining_bytes`, at `k` bytes each.
pub open spec fn fitting_samples(len: nat, remaining_bytes: nat, k: nat) -> nat {
    if len <= remaining_bytes / k {
        len
    } else {
        remaining_bytes / k
    }
}

/// The sample data for as many of the samples as fit into `remaining_bytes`.
pub fn pcm_samples_to_wav_bytes(
    samples: &[i32],
    bit_depth: u32,
    remaining_bytes: u64,
) -> (r: Result<Vec<u8>, String>)
    ensures
        r is Ok <==> wav_depth(bit_depth),
        r is Ok ==> r->Ok_0@ == pcm_data(
            samples@.take(
                fitting_samples(
                    samples@.len(),
                    remaining_bytes as nat,
                    (bit_depth / 8) as nat,
                ) as int,
            ),
            (bit_depth / 8) as nat,
        ),
        r is Err ==> r->Err_0@ == "unsupported generated UPnP WAV bit depth "@ + text::decimal(
            bit_depth as nat,
        ),
{
    if bit_depth != 16 && bit_depth != 24 && bit_depth != 32 {
        return Err(
            text::joined(
                "unsupported generated UPnP WAV bit depth ",
                text::decimal_u64(bit_depth as u64).as_str(),
            ),
        );
    }
    let k: u64 = (bit_depth / 8) as u64;
    let max_samples: u64 = remaining_bytes / k;
    let count: usize = if samples.len() as u64 <= max_samples {
        samples.len()
    } else {
        max_samples as usize
    };
    let mut out: Vec<u8> = Vec::new();
    push_samples(&mut out, samples, count, k as usize);
    proof {
        assert(Seq::<u8>::empty() + pcm_data(samples@.take(count as int), k as nat) =~= pcm_data(
            samples@.take(count as int),
            k as nat,
        ));
    }
    Ok(out)
}

/// Every field of a WAV header stands at its place: two channels of PCM at the
/// given rate and depth, with the byte rate and the frame size that follow
/// from them, and the sizes of what comes behind.
pub proof fn law_wav_header_fields(sample_rate: u32, bits: u32, data_len: nat)
    requires
        bits == 16 || bits == 24 || bits == 32,
        sample_rate * (bits / 8 * 2) <= u32::MAX,
        data_len <= u32::MAX - 36,
    ensures
        ({
            let h = wav_header(sample_rate as nat, bits as nat, data_len);
            &&& h.len() == 44
            &&& h.subrange(0, 4) == seq![0x52u8, 0x49, 0x46, 0x46]
            &&& bytes::le_value(h.subrange(4, 8)) == 36 + data_len
            &&& h.subrange(8, 12) == seq![0x57u8, 0x41, 0x56, 0x45]
            &&& h.subrange(12, 16) == seq![0x66u8, 0x6d, 0x74, 0x20]
            &&& bytes::le_value(h.subrange(16, 20)) == 16
            &&& bytes::le_value(h.subrange(20, 22)) == 1
            &&& bytes::le_value(h.subrange(22, 24)) == 2
            &&& bytes::le_value(h.subrange(24, 28)) == sample_rate
            &&& bytes::le_value(h.subrange(28, 32)) == sample_rate * (bits / 8 * 2)
            &&& bytes::le_value(h.subrange(32, 34)) == bits / 8 * 2
            &&& bytes::le_value(h.subrange(34, 36)) == bits
            &&& h.subrange(36, 40) == seq![0x64u8, 0x61, 0x74, 0x61]
            &&& bytes::le_value(h.subrange(40, 44)) == data_len
        }),
{
    let h = wav_header(sample_rate as nat, bits as nat, data_len);
    let rate = sample_rate as nat;
    let frame = (bits / 4) as nat;
    law_wav_header_len(rate, bits as nat, data_len);
    bytes::lemma_byte_spans();
    bytes::law_le_bytes_hold_low_part(36 + data_len, 4);
    bytes::law_le_bytes_hold_low_part(16, 4);
    bytes::law_le_bytes_hold_low_part(1, 2);
    bytes::law_le_bytes_hold_low_part(2, 2);
    bytes::law_le_bytes_hold_low_part(rate, 4);
    bytes::law_le_bytes_hold_low_part(rate * frame, 4);
    bytes::law_le_bytes_hold_low_part(frame, 2);
    bytes::law_le_bytes_hold_low_part(bits as nat, 2);
    bytes::law_le_bytes_hold_low_part(data_len, 4);
    assert(h.subrange(0, 4) =~= seq![0x52u8, 0x49, 0x46, 0x46]);
    assert(h.subrange(4, 8) =~= bytes::le_bytes(36 + data_len, 4));
    assert(h.subrange(8, 12) =~= seq![0x57u8, 0x41, 0x56, 0x45]);
    assert(h.subrange(12, 16) =~= seq![0x66u8, 0x6d, 0x74, 0x20]);
    assert(h.subrange(16, 20) =~= bytes::le_bytes(16, 4));
    assert(h.subrange(20, 22) =~= bytes::le_bytes(1, 2));
    assert(h.subrange(22, 24) =~= bytes::le_bytes(2, 2));
    assert(h.subrange(24, 28) =~= bytes::le_bytes(rate, 4));
    assert(h.subrange(28, 32) =~= bytes::le_bytes(rate * frame, 4));
    assert(h.subrange(32, 34) =~= bytes::le_bytes(frame, 2));
    assert(h.subrange(34, 36) =~= bytes::le_bytes(bits as nat, 2));
    assert(h.subrange(36, 40) =~= seq![0x64u8, 0x61, 0x74, 0x61]);
    assert(h.subrange(40, 44) =~= bytes::le_bytes(data_len, 4));
}

proof fn lemma_pcm_sample(samples: Seq<i32>, k: nat, i: int)
    requires
        0 <= i < samples.len(),
    ensures
        0 <= i * k <= (i + 1) * k <= pcm_data(samples, k).len(),
        pcm_data(samples, k).subrange(i * k, (i + 1) * k) == bytes::sample_bytes(samples[i], k),
    decreases samples.len(),
{
    let rest = samples.drop_last();
    lemma_pcm_data_len(samples, k);
    lemma_pcm_data_len(rest, k);
    bytes::lemma_le_bytes_len(bytes::two_complement(samples.last() as int), k);
    assert(0 <= i * k <= (i + 1) * k <= samples.len() * k) by (nonlinear_arith)
        requires
            0 <= i < samples.len(),
    ;
    if i < samples.len() - 1 {
        lemma_pcm_sample(rest, k, i);
        assert(pcm_data(samples, k).subrange(i * k, (i + 1) * k) =~= pcm_data(rest, k).subrange(
            i * k,
            (i + 1) * k,
        ));
    } else {
        assert((i + 1) * k == i * k + k) by (nonlinear_arith);
        assert(pcm_data(samples, k).subrange(i * k, (i + 1) * k) =~= bytes::sample_bytes(
            samples[i],
            k,
        ));
    }
}

/// Sample `i` of a WAV file stands behind the header at its place, least
/// significant byte first, and nothing stands behind the last sample.
pub proof fn law_wav_file_holds_samples(
    samples: Seq<i32>,
    sample_rate: nat,
    bits: nat,
    i: int,
)
    requires
        bits == 16 || bits == 24 || bits == 32,
        0 <= i < samples.len(),
    ensures
        ({
            let file = wav_file(samples, sample_rate, bits);
            let k = (bits / 8) as int;
            let value = bytes::le_value(file.subrange(44 + i * k, 44 + (i + 1) * k)) as int;
            &&& file.len() == 44 + samples.len() * k
            &&& bits == 16 ==> value == samples[i] as int % 0x1_0000
            &&& bits == 24 ==> value == samples[i] as int % 0x100_0000
            &&& bits == 32 ==> value == samples[i] as int % 0x1_0000_0000
        }),
{
    let k = bits / 8;
    let file = wav_file(samples, sample_rate, bits);
    law_wav_header_len(sample_rate, bits, samples.len() * k);
    lemma_pcm_data_len(samples, k);
    lemma_pcm_sample(samples, k, i);
    bytes::law_sample_bytes_hold_sample(samples[i]);
    assert(file.subrange(44 + i * k, 44 + (i + 1) * k) =~= pcm_data(samples, k).subrange(
        i * k,
        (i + 1) * k,
    ));
}

proof fn lemma_quotient_fits(n: int, k: int, q: int, rest: int, fit: int)
    by (nonlinear_arith)
    requires
        k > 0,
        n == k * q + rest,
        0 <= rest < k,
        0 <= fit <= q,
    ensures
        fit * k <= n,
        (q + 1) * k > n,
{
}

/// As many whole samples as fit are taken, and no more than there are.
pub proof fn law_fitting_samples_fill_the_rest(len: nat, remaining_bytes: nat, k: nat)
    requires
        k > 0,
    ensures
        fitting_samples(len, remaining_bytes, k) <= len,
        fitting_samples(len, remaining_bytes, k) * k <= remaining_bytes,
        fitting_samples(len, remaining_bytes, k) < len ==> (fitting_samples(len, remaining_bytes, k)
            + 1) * k > remaining_bytes,
{
    vstd::arithmetic::div_mod::lemma_fundamental_div_mod(remaining_bytes as int, k as int);
    lemma_quotient_fits(
        remaining_bytes as int,
        k as int,
        (remaining_bytes / k) as int,
        (remaining_bytes % k) as int,
        fitting_samples(len, remaining_bytes, k) as int,
    );
}

/// The file that is written announces the rate and depth that were asked for
/// and exactly the bytes of its samples.
pub proof fn law_written_wav_announces_its_samples(
    samples: &[i32],
    sample_rate: u32,
    bit_depth: u32,
    r: Result<Vec<u8>, String>,
)
    requires
        call_ensures(encode_wav_file, (samples, sample_rate, bit_depth), r),
        r is Ok,
    ensures
        bit_depth == 16 || bit_depth == 24 || bit_depth == 32,
        r->Ok_0@.len() == 44 + samples@.len() * (bit_depth / 8),
        bytes::le_value(r->Ok_0@.subrange(24, 28)) == sample_rate,
        bytes::le_value(r->Ok_0@.subrange(34, 36)) == bit_depth,
        bytes::le_value(r->Ok_0@.subrange(40, 44)) == samples@.len() * (bit_depth / 8),
{
    let bits = bit_depth as nat;
    let data_len = samples@.len() * (bits / 8);
    let file = wav_file(samples@, sample_rate as nat, bits);
    let header = wav_header(sample_rate as nat, bits, data_len);
    assert(bit_depth / 4 == bit_depth / 8 * 2);
    assert(sample_rate * (bit_depth / 4) == sample_rate * (bit_depth / 8 * 2));
    law_wav_header_fields(sample_rate, bit_depth, data_len);
    law_wav_file_len(samples@, sample_rate as nat, bits);
    lemma_pcm_data_len(samples@, bits / 8);
    assert(file == header + pcm_data(samples@, bits / 8));
    assert(file.subrange(24, 28) =~= header.subrange(24, 28));
    assert(file.subrange(34, 36) =~= header.subrange(34, 36));
    assert(file.subrange(40, 44) =~= header.subrange(40, 44));
}

/// A WAV file is written for the depths 16, 24 and 32 as long as its rate and
/// its length fit the header.
pub proof fn law_wav_files_are_written_while_they_fit(
    samples: &[i32],
    sample_rate: u32,
    bit_depth: u32,
    r: Result<Vec<u8>, String>,
)
    requires
        call_ensures(encode_wav_file, (samples, sample_rate, bit_depth), r),
    ensures
        r is Ok <==> (bit_depth == 16 || bit_depth == 24 || bit_depth == 32) && sample_rate * (
        bit_depth / 4) <= 0xffff_ffff && 36 + samples@.len() * (bit_depth / 8) <= 0xffff_ffff,
{
}

} // verus!
