//! DSF files: one-bit audio in interleaved channel blocks.

use crate::bytes;
use vstd::prelude::*;

verus! {

/// The size of one channel block.
pub const DSF_BLOCK_SIZE_PER_CHANNEL: usize = 4096;

/// The byte that pads an incomplete block: a one-bit idle pattern.
pub const DSF_PAD_BYTE: u8 = 0x69;

/// One block of a channel, padded to the block size.
pub open spec fn dsf_block(channel: Seq<u8>, index: nat) -> Seq<u8> {
    Seq::new(
        DSF_BLOCK_SIZE_PER_CHANNEL as nat,
        |j: int|
            if index * DSF_BLOCK_SIZE_PER_CHANNEL + j < channel.len() {
                channel[index * DSF_BLOCK_SIZE_PER_CHANNEL + j]
            } else {
                DSF_PAD_BYTE
            },
    )
}

/// The first `n` blocks of both channels, alternating.
pub open spec fn dsf_payload(left: Seq<u8>, right: Seq<u8>, n: nat) -> Seq<u8>
    decreases n,
{
    if n == 0 {
        Seq::empty()
    } else {
        dsf_payload(left, right, (n - 1) as nat) + dsf_block(left, (n - 1) as nat) + dsf_block(
            right,
            (n - 1) as nat,
        )
    }
}

pub open spec fn longer(a: nat, b: nat) -> nat {
    if a >= b {
        a
    } else {
        b
    }
}

/// How many blocks a channel of `len` bytes takes: at least one.
pub open spec fn dsf_blocks(len: nat) -> nat {
    if len == 0 {
        1
    } else {
        ((len + DSF_BLOCK_SIZE_PER_CHANNEL - 1) / DSF_BLOCK_SIZE_PER_CHANNEL as int) as nat
    }
}

/// The size of the whole file.
pub open spec fn dsf_file_size(blocks: nat) -> nat {
    92 + blocks * 8192
}

/// A complete two-channel DSF file.
pub open spec fn dsf_file(sample_rate: nat, left: Seq<u8>, right: Seq<u8>) -> Seq<u8> {
    let len = longer(left.len(), right.len());
    let blocks = dsf_blocks(len);
    seq![68u8, 83, 68, 32] + bytes::le_bytes(28, 8) + bytes::le_bytes(dsf_file_size(blocks), 8)
        + bytes::le_bytes(0, 8) + seq![102u8, 109, 116, 32] + bytes::le_bytes(52, 8)
        + bytes::le_bytes(1, 4) + bytes::le_bytes(0, 4) + bytes::le_bytes(2, 4) + bytes::le_bytes(
        2,
        4,
    ) + bytes::le_bytes(sample_rate, 4) + bytes::le_bytes(1, 4) + bytes::le_bytes(len * 8, 8)
        + bytes::le_bytes(DSF_BLOCK_SIZE_PER_CHANNEL as nat, 4) + bytes::le_bytes(0, 4) + seq![
        100u8,
        97,
        116,
        97,
    ] + bytes::le_bytes(12 + blocks * 8192, 8) + dsf_payload(left, right, blocks)
}

fn push_tag(out: &mut Vec<u8>, a: u8, b: u8, c: u8, d: u8)
    ensures
        final(out)@ == old(out)@ + seq![a, b, c, d],
{
    out.push(a);
    out.push(b);
    out.push(c);
    out.push(d);
    proof {
        assert(old(out)@.push(a).push(b).push(c).push(d) =~= old(out)@ + seq![a, b, c, d]);
    }
}

/// Appends one block of a channel.
fn append_dsf_block(out: &mut Vec<u8>, channel: &[u8], block_idx: usize)
    requires
        block_idx * 4096 + 4096 <= usize::MAX,
    ensures
        final(out)@ == old(out)@ + dsf_block(channel@, block_idx as nat),
{
    let ghost start = out@;
    let from: usize = block_idx * DSF_BLOCK_SIZE_PER_CHANNEL;
    let mut j: usize = 0;
    proof {
        assert(start + dsf_block(channel@, block_idx as nat).take(0) =~= start);
    }
    while j < DSF_BLOCK_SIZE_PER_CHANNEL
        invariant
            j <= DSF_BLOCK_SIZE_PER_CHANNEL,
            from == block_idx * DSF_BLOCK_SIZE_PER_CHANNEL,
            from + DSF_BLOCK_SIZE_PER_CHANNEL <= usize::MAX,
            out@ == start + dsf_block(channel@, block_idx as nat).take(j as int),
        decreases DSF_BLOCK_SIZE_PER_CHANNEL - j,
    {
        let byte: u8 = if from + j < channel.len() {
            channel[from + j]
        } else {
            DSF_PAD_BYTE
        };
        out.push(byte);
        proof {
            let block = dsf_block(channel@, block_idx as nat);
            assert(block[j as int] == byte);
            assert((start + block.take(j as int)).push(byte) =~= start + block.take(j + 1));
        }
        j = j + 1;
    }
    proof {
        let block = dsf_block(channel@, block_idx as nat);
        assert(block.take(DSF_BLOCK_SIZE_PER_CHANNEL as int) =~= block);
    }
}

/// The bytes of a complete two-channel DSF file.
pub fn dsf_file_bytes(sample_rate: u32, left: &[u8], right: &[u8]) -> (r: Vec<u8>)
    requires
        left@.len() <= usize::MAX / 16,
        right@.len() <= usize::MAX / 16,
    ensures
        r@ == dsf_file(sample_rate as nat, left@, right@),
{
    let len: usize = if left.len() >= right.len() {
        left.len()
    } else {
        right.len()
    };
    let blocks: usize = if len == 0 {
        1
    } else {
        (len + (DSF_BLOCK_SIZE_PER_CHANNEL - 1)) / DSF_BLOCK_SIZE_PER_CHANNEL
    };
    let data_chunk_size: u64 = 12 + blocks as u64 * 8192;
    let file_size: u64 = 80 + data_chunk_size;
    let mut out: Vec<u8> = Vec::new();
    push_tag(&mut out, 68, 83, 68, 32);
    proof {
        assert(out@ =~= seq![68u8, 83, 68, 32]);
    }
    bytes::push_le(&mut out, 28, 8);
    bytes::push_le(&mut out, file_size, 8);
    bytes::push_le(&mut out, 0, 8);
    push_tag(&mut out, 102, 109, 116, 32);
    bytes::push_le(&mut out, 52, 8);
    bytes::push_le(&mut out, 1, 4);
    bytes::push_le(&mut out, 0, 4);
    bytes::push_le(&mut out, 2, 4);
    bytes::push_le(&mut out, 2, 4);
    bytes::push_le(&mut out, sample_rate as u64, 4);
    bytes::push_le(&mut out, 1, 4);
    bytes::push_le(&mut out, len as u64 * 8, 8);
    bytes::push_le(&mut out, DSF_BLOCK_SIZE_PER_CHANNEL as u64, 4);
    bytes::push_le(&mut out, 0, 4);
    push_tag(&mut out, 100, 97, 116, 97);
    bytes::push_le(&mut out, data_chunk_size, 8);
    let ghost head = out@;
    let mut i: usize = 0;
    proof {
        assert(head + dsf_payload(left@, right@, 0) =~= head);
    }
    while i < blocks
        invariant
            i <= blocks,
            blocks * 4096 <= usize::MAX,
            out@ == head + dsf_payload(left@, right@, i as nat),
        decreases blocks - i,
    {
        append_dsf_block(&mut out, left, i);
        append_dsf_block(&mut out, right, i);
        proof {
            assert(out@ =~= head + dsf_payload(left@, right@, (i + 1) as nat));
        }
        i = i + 1;
    }
    out
}

proof fn lemma_payload_len(left: Seq<u8>, right: Seq<u8>, n: nat)
    ensures
        dsf_payload(left, right, n).len() == n * 8192,
    decreases n,
{
    if n > 0 {
        lemma_payload_len(left, right, (n - 1) as nat);
    }
}

/// A DSF file is as long as its header says.
pub proof fn law_dsf_file_len(sample_rate: nat, left: Seq<u8>, right: Seq<u8>)
    ensures
        dsf_file(sample_rate, left, right).len() == dsf_file_size(
            dsf_blocks(longer(left.len(), right.len())),
        ),
{
    let len = longer(left.len(), right.len());
    let blocks = dsf_blocks(len);
    bytes::lemma_le_bytes_len(28, 8);
    bytes::lemma_le_bytes_len(dsf_file_size(blocks), 8);
    bytes::lemma_le_bytes_len(0, 8);
    bytes::lemma_le_bytes_len(52, 8);
    bytes::lemma_le_bytes_len(1, 4);
    bytes::lemma_le_bytes_len(0, 4);
    bytes::lemma_le_bytes_len(2, 4);
    bytes::lemma_le_bytes_len(sample_rate, 4);
    bytes::lemma_le_bytes_len(len * 8, 8);
    bytes::lemma_le_bytes_len(DSF_BLOCK_SIZE_PER_CHANNEL as nat, 4);
    bytes::lemma_le_bytes_len(12 + blocks * 8192, 8);
    lemma_payload_len(left, right, blocks);
}

proof fn lemma_payload_prefix(left: Seq<u8>, right: Seq<u8>, n: nat, m: nat, j: int)
    requires
        n <= m,
        0 <= j < n * 8192,
    ensures
        dsf_payload(left, right, n)[j] == dsf_payload(left, right, m)[j],
    decreases m,
{
    if n < m {
        lemma_payload_len(left, right, (m - 1) as nat);
        lemma_payload_prefix(left, right, n, (m - 1) as nat, j);
    }
}

/// Nothing of a channel is lost: byte `i` of the left channel stands in the
/// left half of its block pair, byte `i` of the right channel in the right
/// half.
pub proof fn law_dsf_payload_holds_channels(left: Seq<u8>, right: Seq<u8>, i: int)
    ensures
        ({
            let payload = dsf_payload(left, right, dsf_blocks(longer(left.len(), right.len())));
            let at = i / 4096 * 8192 + i % 4096;
            &&& 0 <= i < left.len() ==> payload[at] == left[i]
            &&& 0 <= i < right.len() ==> payload[at + 4096] == right[i]
        }),
{
    let len = longer(left.len(), right.len());
    let n = dsf_blocks(len);
    if 0 <= i < len {
        let b = (i / 4096) as nat;
        assert(b < n);
        assert(b * 4096 + i % 4096 == i);
        lemma_payload_len(left, right, b);
        lemma_payload_len(left, right, b + 1);
        let at = i / 4096 * 8192 + i % 4096;
        assert(at < (b + 1) * 8192);
        lemma_payload_prefix(left, right, b + 1, n, at);
        lemma_payload_prefix(left, right, b + 1, n, at + 4096);
        let p = dsf_payload(left, right, b + 1);
        assert(p[at] == dsf_block(left, b)[i % 4096]);
        assert(p[at + 4096] == dsf_block(right, b)[i % 4096]);
    }
}

/// Every field of a DSF file's header stands at its place: the sizes count the
/// file and its data, two channels of one-bit samples are announced at the
/// given rate, in blocks of 4096 bytes, and the sample count is eight for each
/// byte of the longer channel.
#[verifier::rlimit(40)]
pub proof fn law_dsf_header_fields(sample_rate: nat, left: Seq<u8>, right: Seq<u8>)
    requires
        sample_rate <= u32::MAX,
        left.len() <= u64::MAX / 16,
        right.len() <= u64::MAX / 16,
    ensures
        ({
            let file = dsf_file(sample_rate, left, right);
            let samples = bytes::le_value(file.subrange(64, 72));
            &&& file.len() >= 92
            &&& file.subrange(0, 4) == seq![0x44u8, 0x53, 0x44, 0x20]
            &&& bytes::le_value(file.subrange(4, 12)) == 28
            &&& bytes::le_value(file.subrange(12, 20)) == file.len()
            &&& bytes::le_value(file.subrange(20, 28)) == 0
            &&& file.subrange(28, 32) == seq![0x66u8, 0x6d, 0x74, 0x20]
            &&& bytes::le_value(file.subrange(32, 40)) == 52
            &&& bytes::le_value(file.subrange(40, 44)) == 1
            &&& bytes::le_value(file.subrange(44, 48)) == 0
            &&& bytes::le_value(file.subrange(48, 52)) == 2
            &&& bytes::le_value(file.subrange(52, 56)) == 2
            &&& bytes::le_value(file.subrange(56, 60)) == sample_rate
            &&& bytes::le_value(file.subrange(60, 64)) == 1
            &&& samples >= 8 * left.len()
            &&& samples >= 8 * right.len()
            &&& samples == 8 * left.len() || samples == 8 * right.len()
            &&& bytes::le_value(file.subrange(72, 76)) == 4096
            &&& bytes::le_value(file.subrange(76, 80)) == 0
            &&& file.subrange(80, 84) == seq![0x64u8, 0x61, 0x74, 0x61]
            &&& bytes::le_value(file.subrange(84, 92)) == file.len() - 80
        }),
{
    let len = longer(left.len(), right.len());
    let blocks = dsf_blocks(len);
    let file = dsf_file(sample_rate, left, right);
    law_dsf_file_len(sample_rate, left, right);
    bytes::lemma_byte_spans();
    bytes::law_le_bytes_hold_low_part(28, 8);
    bytes::law_le_bytes_hold_low_part(dsf_file_size(blocks), 8);
    bytes::law_le_bytes_hold_low_part(0, 8);
    bytes::law_le_bytes_hold_low_part(52, 8);
    bytes::law_le_bytes_hold_low_part(1, 4);
    bytes::law_le_bytes_hold_low_part(0, 4);
    bytes::law_le_bytes_hold_low_part(2, 4);
    bytes::law_le_bytes_hold_low_part(sample_rate, 4);
    bytes::law_le_bytes_hold_low_part(len * 8, 8);
    bytes::law_le_bytes_hold_low_part(4096, 4);
    bytes::law_le_bytes_hold_low_part(12 + blocks * 8192, 8);
    assert(file.subrange(0, 4) =~= seq![0x44u8, 0x53, 0x44, 0x20]);
    assert(file.subrange(4, 12) =~= bytes::le_bytes(28, 8));
    assert(file.subrange(12, 20) =~= bytes::le_bytes(dsf_file_size(blocks), 8));
    assert(file.subrange(20, 28) =~= bytes::le_bytes(0, 8));
    assert(file.subrange(28, 32) =~= seq![0x66u8, 0x6d, 0x74, 0x20]);
    assert(file.subrange(32, 40) =~= bytes::le_bytes(52, 8));
    assert(file.subrange(40, 44) =~= bytes::le_bytes(1, 4));
    assert(file.subrange(44, 48) =~= bytes::le_bytes(0, 4));
    assert(file.subrange(48, 52) =~= bytes::le_bytes(2, 4));
    assert(file.subrange(52, 56) =~= bytes::le_bytes(2, 4));
    assert(file.subrange(56, 60) =~= bytes::le_bytes(sample_rate, 4));
    assert(file.subrange(60, 64) =~= bytes::le_bytes(1, 4));
    assert(file.subrange(64, 72) =~= bytes::le_bytes(len * 8, 8));
    assert(file.subrange(72, 76) =~= bytes::le_bytes(4096, 4));
    assert(file.subrange(76, 80) =~= bytes::le_bytes(0, 4));
    assert(file.subrange(80, 84) =~= seq![0x64u8, 0x61, 0x74, 0x61]);
    assert(file.subrange(84, 92) =~= bytes::le_bytes(12 + blocks * 8192, 8));
}

/// The data of a DSF file are whole pairs of blocks, as many as the longer
/// channel needs and at least one.
pub proof fn law_dsf_data_are_whole_blocks(sample_rate: nat, left: Seq<u8>, right: Seq<u8>)
    ensures
        ({
            let data = dsf_file(sample_rate, left, right).len() - 92;
            &&& data >= 8192
            &&& data % 8192 == 0
            &&& data >= 2 * left.len()
            &&& data >= 2 * right.len()
            &&& data == 8192 || data < 2 * left.len() + 8192 || data < 2 * right.len() + 8192
        }),
{
    law_dsf_file_len(sample_rate, left, right);
}

proof fn lemma_block_byte(left: Seq<u8>, right: Seq<u8>, n: nat, i: int)
    requires
        0 <= i < n * 4096,
    ensures
        ({
            let payload = dsf_payload(left, right, n);
            let at = i / 4096 * 8192 + i % 4096;
            &&& 0 <= at < at + 4096 < payload.len()
            &&& payload[at] == dsf_block(left, (i / 4096) as nat)[i % 4096]
            &&& payload[at + 4096] == dsf_block(right, (i / 4096) as nat)[i % 4096]
        }),
{
    let b = (i / 4096) as nat;
    let at = i / 4096 * 8192 + i % 4096;
    lemma_payload_len(left, right, b);
    lemma_payload_len(left, right, b + 1);
    lemma_payload_len(left, right, n);
    lemma_payload_prefix(left, right, b + 1, n, at);
    lemma_payload_prefix(left, right, b + 1, n, at + 4096);
}

/// Byte `i` of each channel stands in the file behind the header, in that
/// channel's half of its pair of blocks; behind the end of a channel the idle
/// pattern fills its blocks.
#[verifier::rlimit(40)]
pub proof fn law_dsf_file_holds_channels(
    sample_rate: nat,
    left: Seq<u8>,
    right: Seq<u8>,
    i: int,
)
    requires
        0 <= i,
        2 * i < dsf_file(sample_rate, left, right).len() - 92,
    ensures
        ({
            let file = dsf_file(sample_rate, left, right);
            let at = 92 + i / 4096 * 8192 + i % 4096;
            &&& at + 4096 < file.len()
            &&& file[at] == (if i < left.len() {
                left[i]
            } else {
                0x69u8
            })
            &&& file[at + 4096] == (if i < right.len() {
                right[i]
            } else {
                0x69u8
            })
        }),
{
    let len = longer(left.len(), right.len());
    let blocks = dsf_blocks(len);
    let file = dsf_file(sample_rate, left, right);
    law_dsf_file_len(sample_rate, left, right);
    lemma_payload_len(left, right, blocks);
    lemma_block_byte(left, right, blocks, i);
    let payload = dsf_payload(left, right, blocks);
    let at = i / 4096 * 8192 + i % 4096;
    let head = file.take(92);
    assert(file.skip(92) =~= payload) by {
        bytes::lemma_le_bytes_len(28, 8);
        bytes::lemma_le_bytes_len(dsf_file_size(blocks), 8);
        bytes::lemma_le_bytes_len(0, 8);
        bytes::lemma_le_bytes_len(52, 8);
        bytes::lemma_le_bytes_len(1, 4);
        bytes::lemma_le_bytes_len(0, 4);
        bytes::lemma_le_bytes_len(2, 4);
        bytes::lemma_le_bytes_len(sample_rate, 4);
        bytes::lemma_le_bytes_len(len * 8, 8);
        bytes::lemma_le_bytes_len(DSF_BLOCK_SIZE_PER_CHANNEL as nat, 4);
        bytes::lemma_le_bytes_len(12 + blocks * 8192, 8);
    }
    assert(file[92 + at] == file.skip(92)[at]);
    assert(file[92 + at + 4096] == file.skip(92)[at + 4096]);
    assert((i / 4096) as nat * DSF_BLOCK_SIZE_PER_CHANNEL + i % 4096 == i);
}

/// The file that is written announces eight samples for each byte of the longer
/// channel, its own length, and the rate that was asked for.
pub proof fn law_written_dsf_announces_its_samples(
    sample_rate: u32,
    left: &[u8],
    right: &[u8],
    r: Vec<u8>,
)
    requires
        left@.len() <= usize::MAX / 16,
        right@.len() <= usize::MAX / 16,
        call_ensures(dsf_file_bytes, (sample_rate, left, right), r),
    ensures
        r@.len() >= 92,
        left@.len() >= right@.len() ==> bytes::le_value(r@.subrange(64, 72)) == 8 * left@.len(),
        left@.len() <= right@.len() ==> bytes::le_value(r@.subrange(64, 72)) == 8 * right@.len(),
        bytes::le_value(r@.subrange(12, 20)) == r@.len(),
        bytes::le_value(r@.subrange(56, 60)) == sample_rate,
{
    law_dsf_header_fields(sample_rate as nat, left@, right@);
}

} // verus!
