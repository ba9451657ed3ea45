//! Byte ranges of generated streams.

use vstd::prelude::*;
use vstd::slice::*;

verus! {

/// An inclusive range of bytes of a stream.
#[derive(Clone, Copy, Debug, PartialEq, Eq, Structural)]
pub struct GeneratedByteRange {
    pub start: u64,
    pub end: u64,
}

impl GeneratedByteRange {
    /// The range is not empty and ends before the last representable byte.
    pub open spec fn wf(self) -> bool {
        self.start <= self.end < u64::MAX
    }

    pub open spec fn spec_len(self) -> int {
        self.end - self.start + 1
    }

    /// The range `start..=end` of a stream of `byte_len` bytes, when the
    /// stream holds all of it.
    pub fn validate(start: u64, end: u64, byte_len: u64) -> (r: Result<GeneratedByteRange, String>)
        ensures
            r is Ok <==> start <= end < byte_len,
            r is Ok ==> r->Ok_0 == (GeneratedByteRange { start, end }) && r->Ok_0.wf(),
            r is Err ==> r->Err_0@
                == "Generated UPnP DSP stream byte range is not satisfiable"@,
    {
        if byte_len == 0 || start > end || end >= byte_len {
            return Err("Generated UPnP DSP stream byte range is not satisfiable".to_string());
        }
        Ok(GeneratedByteRange { start, end })
    }

    /// How many bytes the range covers.
    pub fn len(self) -> (r: u64)
        requires
            self.wf(),
        ensures
            r == self.spec_len(),
    {
        self.end - self.start + 1
    }
}

/// The bytes of a chunk that lie in the range, when the chunk begins at the
/// stream position `at`.
pub open spec fn clip(chunk: Seq<u8>, at: int, range: GeneratedByteRange) -> Seq<u8> {
    let from = if range.start > at {
        range.start - at
    } else {
        0
    };
    let to = if range.end + 1 - at < chunk.len() {
        range.end + 1 - at
    } else {
        chunk.len() as int
    };
    if from < to {
        chunk.subrange(from, to)
    } else {
        Seq::empty()
    }
}

/// The part of a chunk that the range asks for; nothing when the two do not
/// meet, or when the chunk's positions cannot be represented.
pub fn generated_range_slice<'a>(
    bytes: &'a [u8],
    absolute_start: u64,
    range: GeneratedByteRange,
) -> (r: Option<&'a [u8]>)
    ensures
        r is Some <==> clip(bytes@, absolute_start as int, range).len() > 0 && absolute_start
            + bytes@.len() - 1 <= u64::MAX,
        r is Some ==> r->0@ == clip(bytes@, absolute_start as int, range),
{
    if bytes.len() == 0 {
        return None;
    }
    let chunk_end: u64 = match absolute_start.checked_add(bytes.len() as u64 - 1) {
        Some(end) => end,
        None => return None,
    };
    if chunk_end < range.start || absolute_start > range.end {
        return None;
    }
    let slice_start: usize = if range.start > absolute_start {
        (range.start - absolute_start) as usize
    } else {
        0
    };
    let last: u64 = if range.end < chunk_end {
        range.end
    } else {
        chunk_end
    };
    let slice_end: usize = (last - absolute_start) as usize + 1;
    if slice_start < slice_end {
        Some(slice_subrange(bytes, slice_start, slice_end))
    } else {
        None
    }
}

/// Clipping two adjacent chunks is clipping them as one.
pub proof fn law_clip_concat(a: Seq<u8>, b: Seq<u8>, at: int, range: GeneratedByteRange)
    ensures
        clip(a + b, at, range) == clip(a, at, range) + clip(b, at + a.len(), range),
{
    assert(clip(a + b, at, range) =~= clip(a, at, range) + clip(b, at + a.len(), range));
}

/// A stream that is produced from its first byte on and covers the range is
/// clipped to exactly the bytes that the range names.
pub proof fn law_clip_whole(stream: Seq<u8>, range: GeneratedByteRange)
    requires
        range.wf(),
        range.end < stream.len(),
    ensures
        clip(stream, 0, range) == stream.subrange(range.start as int, range.end + 1),
        clip(stream, 0, range).len() == range.spec_len(),
{
}

/// What lies outside the range is never emitted.
pub proof fn law_clip_outside_is_empty(chunk: Seq<u8>, at: int, range: GeneratedByteRange)
    requires
        at > range.end || at + chunk.len() <= range.start,
    ensures
        clip(chunk, at, range).len() == 0,
{
}

/// A range is accepted exactly when the stream holds all of it.
pub proof fn law_satisfiable_ranges_are_accepted(
    start: u64,
    end: u64,
    byte_len: u64,
    r: Result<GeneratedByteRange, String>,
)
    requires
        call_ensures(GeneratedByteRange::validate, (start, end, byte_len), r),
    ensures
        r is Ok <==> start <= end && end < byte_len,
        r is Ok ==> r->Ok_0.start == start && r->Ok_0.end == end && r->Ok_0.spec_len() == end
            - start + 1,
{
}

/// Every byte that a chunk gives for a range is the stream's byte at its place
/// within the range.
pub proof fn law_slice_holds_the_bytes_of_the_range(
    chunk: &[u8],
    at: u64,
    range: GeneratedByteRange,
    r: Option<&[u8]>,
    i: int,
)
    requires
        call_ensures(generated_range_slice, (chunk, at, range), r),
        r is Some,
        0 <= i < r->0@.len(),
    ensures
        at >= range.start ==> r->0@[i] == chunk@[i] && at + i <= range.end,
        at < range.start ==> r->0@[i] == chunk@[range.start - at + i] && range.start + i
            <= range.end,
{
}

} // verus!
