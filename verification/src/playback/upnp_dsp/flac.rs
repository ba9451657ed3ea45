//! FLAC files of rendered PCM.

use crate::playback::upnp_dsp::wav;
use crate::text;
use flacenc::bitsink::ByteSink;
use flacenc::component::BitRepr;
use flacenc::error::Verify;
use vstd::prelude::*;

verus! {

/// How many frames the encoder puts into one block.
pub const FLAC_BLOCK_SIZE: usize = 4096;

/// The number that big-endian bytes spell.
pub open spec fn be_value(s: Seq<u8>) -> nat
    decreases s.len(),
{
    if s.len() == 0 {
        0
    } else {
        be_value(s.drop_last()) * 256 + s.last() as nat
    }
}

/// Every sample fits a signed number of the given depth.
pub open spec fn samples_fit(samples: Seq<i32>, bits: u32) -> bool {
    forall|i: int|
        0 <= i < samples.len() ==> (bits == 16 ==> -0x8000 <= #[trigger] samples[i] <= 0x7fff) && (
        bits == 24 ==> -0x80_0000 <= samples[i] <= 0x7f_ffff)
}

/// The checksum that a FLAC stream carries of the samples that went into it.
pub uninterp spec fn flac_signal_md5(samples: Seq<i32>, bits: u32) -> Seq<u8>;

/// What the stream information at the head of a FLAC file says: two channels,
/// the rate, the depth, how many frames there are, and the largest block.
pub open spec fn describes(
    file: Seq<u8>,
    samples: Seq<i32>,
    sample_rate: u32,
    bits: u32,
    block_size: nat,
) -> bool {
    &&& file.len() >= 42
    &&& file.subrange(0, 4) == seq![0x66u8, 0x4c, 0x61, 0x43]
    &&& be_value(file.subrange(10, 12)) == block_size
    &&& be_value(file.subrange(18, 26)) == sample_rate * 0x1000_0000_0000 + 0x200_0000_0000 + (bits
        - 1) * 0x10_0000_0000 + samples.len() / 2
}

/// Why there is no FLAC file: the encoder's configuration was not accepted, the
/// samples were not encoded, or the stream could not be written out. Each holds
/// the encoder's own text.
pub enum FlacFailure {
    Config(String),
    Encode(String),
    Write(String),
}

/// What the encoder says to a signal it does not take: a rate above 96 kHz, or
/// else a depth of 32 bits.
pub open spec fn flac_refusal(sample_rate: u32, bits: u32) -> Option<Seq<char>> {
    if sample_rate > 96_000 {
        Some(
            "verification error: `sample_rate` is not valid. reason: must be less than or equal to 96000"@,
        )
    } else if bits == 32 {
        Some(
            "verification error: `bits_per_sample` is not valid. reason: must be less than or equal to 25"@,
        )
    } else {
        None
    }
}

/// What the encoder says where the machine does not tell it how many threads to
/// run, for the cause that the machine gives.
pub open spec fn thread_count_failure(cause: Seq<char>) -> Seq<char> {
    "error occurred while reading <unknown>. reason: I/O error: "@ + cause + "."@
}

/// The encoder's text of a failure on a signal of this rate and depth: its
/// refusal, or, of a signal it takes, that the number of threads is not known.
pub open spec fn encoder_failed(text: Seq<char>, sample_rate: u32, bits: u32) -> bool {
    match flac_refusal(sample_rate, bits) {
        Some(refusal) => text == refusal,
        None => exists|cause: Seq<char>| text == #[trigger] thread_count_failure(cause),
    }
}

/// `flacenc::encode_with_fixed_block_size` with the default configuration, on
/// interleaved two-channel samples, and the bytes of the stream it gives. The
/// default configuration is always accepted, and the stream is always written
/// out. The encoder refuses rates above 96 kHz and depths of 32 bits; on any
/// other signal it fails only where `std::thread::available_parallelism` does,
/// which it asks for the number of threads to run. Whether that fails is up to
/// the machine, so success is not promised. What is claimed of a stream is its
/// signature and its stream information; which predictors the frames behind it
/// use depends on the machine's floating point, so nothing is claimed of them.
#[verifier::external_body]
fn flac_encode(
    samples: &[i32],
    channels: usize,
    sample_rate: u32,
    bit_depth: u32,
    block_size: usize,
) -> (r: Result<Vec<u8>, FlacFailure>)
    requires
        channels == 2,
        wav::wav_depth(bit_depth),
        samples@.len() % 2 == 0,
        samples@.len() <= u32::MAX,
        samples_fit(samples@, bit_depth),
        32 <= block_size <= 32767,
    ensures
        flac_refusal(sample_rate, bit_depth) is Some ==> r is Err,
        r is Err ==> r->Err_0 is Encode && encoder_failed(
            r->Err_0->Encode_0@,
            sample_rate,
            bit_depth,
        ),
        r is Ok ==> describes(
            r->Ok_0@,
            samples@,
            sample_rate,
            bit_depth,
            block_size as nat,
        ),
        r is Ok ==> r->Ok_0@.subrange(26, 42) == flac_signal_md5(samples@, bit_depth),
{
    let source = flacenc::source::MemSource::from_samples(
        samples, channels, bit_depth as usize, sample_rate as usize);
    let config = flacenc::config::Encoder::default().into_verified()
        .map_err(|e| FlacFailure::Config(format!("{e:?}")))?;
    let stream = flacenc::encode_with_fixed_block_size(&config, source, block_size)
        .map_err(|e| FlacFailure::Encode(e.to_string()))?;
    let mut sink = ByteSink::new();
    stream.write(&mut sink).map_err(|e| FlacFailure::Write(e.to_string()))?;
    Ok(sink.into_inner())
}

/// What a caller is told of a failure: the step that failed and the encoder's
/// text.
pub open spec fn flac_failure_text(failure: FlacFailure) -> Seq<char> {
    match failure {
        FlacFailure::Config(reason) => "verify UPnP DSP FLAC config: "@ + reason@,
        FlacFailure::Encode(reason) => "encode UPnP DSP FLAC: "@ + reason@,
        FlacFailure::Write(reason) => "write UPnP DSP FLAC bitstream: "@ + reason@,
    }
}

/// The file that the encoder gave, or the text of its failure.
pub fn encoded_flac_file(outcome: Result<Vec<u8>, FlacFailure>) -> (r: Result<Vec<u8>, String>)
    ensures
        r is Ok <==> outcome is Ok,
        r is Ok ==> r->Ok_0 == outcome->Ok_0,
        r is Err ==> r->Err_0@ == flac_failure_text(outcome->Err_0),
{
    match outcome {
        Ok(file) => Ok(file),
        Err(FlacFailure::Config(reason)) => Err(
            text::joined("verify UPnP DSP FLAC config: ", reason.as_str()),
        ),
        Err(FlacFailure::Encode(reason)) => Err(
            text::joined("encode UPnP DSP FLAC: ", reason.as_str()),
        ),
        Err(FlacFailure::Write(reason)) => Err(
            text::joined("write UPnP DSP FLAC bitstream: ", reason.as_str()),
        ),
    }
}

/// The text that a FLAC file of this rate and depth fails with.
pub open spec fn flac_failed(text: Seq<char>, sample_rate: u32, bits: u32) -> bool {
    exists|reason: Seq<char>|
        text == "encode UPnP DSP FLAC: "@ + reason && #[trigger] encoder_failed(
            reason,
            sample_rate,
            bits,
        )
}

/// The bytes of a FLAC file of interleaved two-channel samples. A rate above 96
/// kHz or a depth of 32 bits is refused; any other signal fails only where the
/// machine does not say how many threads it runs.
pub fn encode_flac_file(samples: &[i32], sample_rate: u32, bit_depth: u32) -> (r: Result<
    Vec<u8>,
    String,
>)
    requires
        wav::wav_depth(bit_depth),
        samples@.len() % 2 == 0,
        samples@.len() <= u32::MAX,
        samples_fit(samples@, bit_depth),
    ensures
        flac_refusal(sample_rate, bit_depth) is Some ==> r is Err,
        r is Err ==> flac_failed(r->Err_0@, sample_rate, bit_depth),
        r is Ok ==> describes(
            r->Ok_0@,
            samples@,
            sample_rate,
            bit_depth,
            FLAC_BLOCK_SIZE as nat,
        ),
        r is Ok ==> r->Ok_0@.subrange(26, 42) == flac_signal_md5(samples@, bit_depth),
{
    encoded_flac_file(flac_encode(samples, 2, sample_rate, bit_depth, FLAC_BLOCK_SIZE))
}

/// An encoded file begins with the mark of its format and says in its first
/// block that blocks hold 4096 samples, how fast and how deep the samples are,
/// that there are two channels, and how many frames follow.
pub proof fn law_flac_file_names_its_format(
    samples: &[i32],
    sample_rate: u32,
    bit_depth: u32,
    r: Result<Vec<u8>, String>,
)
    requires
        call_ensures(encode_flac_file, (samples, sample_rate, bit_depth), r),
        wav::wav_depth(bit_depth),
        samples@.len() % 2 == 0,
        samples@.len() <= u32::MAX,
        r is Ok,
    ensures
        r->Ok_0@.subrange(0, 4) == seq![102u8, 76, 97, 67],
        be_value(r->Ok_0@.subrange(10, 12)) == 4096,
        ({
            let described = be_value(r->Ok_0@.subrange(18, 26));
            &&& described / 0x1000_0000_0000 == sample_rate
            &&& described / 0x200_0000_0000 % 8 == 1
            &&& described / 0x10_0000_0000 % 32 == bit_depth - 1
            &&& described % 0x10_0000_0000 == samples@.len() / 2
        }),
        sample_rate <= 96_000,
        bit_depth <= 24,
{
    let described = be_value(r->Ok_0@.subrange(18, 26));
    let n = samples@.len() / 2;
    assert(0 <= n < 0x10_0000_0000);
    assert(described == sample_rate * 0x1000_0000_0000 + 0x200_0000_0000 + (bit_depth - 1)
        * 0x10_0000_0000 + n);
}

} // verus!
