//! Small audio vocabulary shared by the playback modules.
//!
//! Real numbers are carried, hashed, made from whole numbers and held against
//! fixed bounds, never added or multiplied, so they are held by their IEEE 754
//! bit patterns.

use vstd::prelude::*;

verus! {

/// A 64-bit real number, held by its bit pattern.
#[derive(Clone, Copy, Debug, PartialEq, Eq, Structural)]
pub struct Real64 {
    pub bits: u64,
}

/// A 32-bit real number, held by its bit pattern.
#[derive(Clone, Copy, Debug, PartialEq, Eq, Structural)]
pub struct Real32 {
    pub bits: u32,
}

impl Real64 {
    /// The number zero.
    pub open spec fn spec_zero() -> Real64 {
        Real64 { bits: 0 }
    }

    /// The number zero.
    pub fn zero() -> (r: Real64)
        ensures
            r == Real64::spec_zero(),
    {
        Real64 { bits: 0 }
    }

    /// Neither infinite nor not a number: the exponent is not all ones.
    pub open spec fn spec_finite(self) -> bool {
        self.bits / 0x10_0000_0000_0000 % 2048 != 2047
    }

    /// Whether the number is finite.
    pub fn is_finite(self) -> (r: bool)
        ensures
            r == self.spec_finite(),
    {
        self.bits / 0x10_0000_0000_0000 % 2048 != 2047
    }

    /// Greater than zero: the sign is clear, and the pattern lies between that
    /// of zero and that of infinity.
    pub open spec fn spec_positive(self) -> bool {
        0 < self.bits <= 0x7ff0_0000_0000_0000
    }

    /// Whether the number is greater than zero.
    pub fn is_positive(self) -> (r: bool)
        ensures
            r == self.spec_positive(),
    {
        0 < self.bits && self.bits <= 0x7ff0_0000_0000_0000
    }

    /// Greater than one: the sign is clear, and the pattern lies between that
    /// of one and that of infinity.
    pub open spec fn spec_above_one(self) -> bool {
        0x3ff0_0000_0000_0000 < self.bits <= 0x7ff0_0000_0000_0000
    }

    /// Whether the number is greater than one.
    pub fn is_above_one(self) -> (r: bool)
        ensures
            r == self.spec_above_one(),
    {
        0x3ff0_0000_0000_0000 < self.bits && self.bits <= 0x7ff0_0000_0000_0000
    }

    /// The pattern is that of the whole number `n`: with the exponent field
    /// `e`, the fraction and its hidden bit spell `n` shifted by the distance
    /// from `e` to the exponent of a pattern without fraction digits.
    pub open spec fn is_whole(self, n: u32) -> bool {
        let e = self.bits as int / 0x10_0000_0000_0000;
        if n == 0 {
            self.bits == 0
        } else {
            &&& 1023 <= e <= 1075
            &&& 0x10_0000_0000_0000 + self.bits as int % 0x10_0000_0000_0000 == n * doublings(
                (1075 - e) as nat,
            )
        }
    }

    /// The whole number `n`.
    pub fn from_u32(n: u32) -> (r: Real64)
        ensures
            r.is_whole(n),
    {
        if n == 0 {
            return Real64 { bits: 0 };
        }
        let mut m: u64 = n as u64;
        let mut e: u64 = 1075;
        proof {
            assert(doublings(52) == 0x10_0000_0000_0000) by {
                reveal_with_fuel(doublings, 53);
            }
            assert(doublings(0) == 1);
            assert(n * doublings(0) == n) by (nonlinear_arith)
                requires
                    doublings(0) == 1,
            ;
        }
        while m < 0x10_0000_0000_0000
            invariant
                0 < m < 0x20_0000_0000_0000,
                1023 <= e <= 1075,
                n >= 1,
                m == n * doublings((1075 - e) as nat),
                doublings((1075 - e) as nat) >= 1,
                m >= doublings((1075 - e) as nat),
                doublings(52) == 0x10_0000_0000_0000,
            decreases e,
        {
            proof {
                if e == 1023 {
                    assert(false);
                }
                let k = (1075 - e) as nat;
                assert(doublings(k + 1) == 2 * doublings(k));
                assert(n * (2 * doublings(k)) == 2 * (n * doublings(k))) by (nonlinear_arith);
            }
            m = m * 2;
            e = e - 1;
        }
        let bits: u64 = e * 0x10_0000_0000_0000 + (m - 0x10_0000_0000_0000);
        Real64 { bits }
    }
}

/// Two to the power of `k`.
pub open spec fn doublings(k: nat) -> nat
    decreases k,
{
    if k == 0 {
        1
    } else {
        2 * doublings((k - 1) as nat)
    }
}

impl Default for Real64 {
    fn default() -> (r: Real64)
        ensures
            r == Real64::spec_zero(),
    {
        Real64::zero()
    }
}

impl Real32 {
    /// The number zero.
    pub open spec fn spec_zero() -> Real32 {
        Real32 { bits: 0 }
    }

    /// The number zero.
    pub fn zero() -> (r: Real32)
        ensures
            r == Real32::spec_zero(),
    {
        Real32 { bits: 0 }
    }

    /// The pattern is that of the number nearest to `n` hundredths: with the
    /// exponent field `e`, the fraction and its hidden bit lie within half a
    /// unit of `n` hundredths, shifted by the distance from `e` to the exponent
    /// of a pattern without fraction digits.
    pub open spec fn is_hundredths(self, n: u8) -> bool {
        let e = self.bits as int / 0x80_0000;
        let m = 0x80_0000 + self.bits as int % 0x80_0000;
        if n == 0 {
            self.bits == 0
        } else {
            &&& 120 <= e <= 150
            &&& -50 <= 100 * m - n * doublings((150 - e) as nat) <= 50
        }
    }

    /// The number nearest to `n` hundredths.
    pub fn hundredths(n: u8) -> (r: Real32)
        ensures
            r.is_hundredths(n),
    {
        if n == 0 {
            return Real32 { bits: 0 };
        }
        let mut e: u32 = 120;
        let mut scaled: u64 = (n as u64) * 0x4000_0000;
        proof {
            assert(doublings(30) == 0x4000_0000) by {
                reveal_with_fuel(doublings, 31);
            }
        }
        while (scaled + 50) / 100 >= 0x100_0000
            invariant
                n >= 1,
                120 <= e <= 150,
                838_860_775 <= scaled <= 0xff * 0x4000_0000,
                scaled == n * doublings((150 - e) as nat),
            decreases scaled,
        {
            proof {
                let k = (150 - e) as nat;
                if k == 0 {
                    assert(doublings(k) == 1);
                    assert(n * doublings(k) == n) by (nonlinear_arith)
                        requires
                            doublings(k) == 1,
                    ;
                    assert(false);
                }
                let half = doublings((k - 1) as nat);
                assert(doublings(k) == 2 * half);
                assert(n * (2 * half) == 2 * (n * half)) by (nonlinear_arith);
            }
            scaled = scaled / 2;
            e = e + 1;
        }
        let m: u32 = ((scaled + 50) / 100) as u32;
        let bits: u32 = e * 0x80_0000 + (m - 0x80_0000);
        Real32 { bits }
    }
}

impl Default for Real32 {
    fn default() -> (r: Real32)
        ensures
            r == Real32::spec_zero(),
    {
        Real32::zero()
    }
}

/// The DSD oversampling grades.
#[derive(Clone, Copy, Debug, PartialEq, Eq, Structural)]
pub enum DsdRate {
    Dsd64,
    Dsd128,
    Dsd256,
}

/// The base rate of the clock family that `rate` belongs to.
pub open spec fn clock_family(rate: u32) -> Option<u32> {
    if rate == 0 {
        None
    } else if rate % 44_100 == 0 {
        Some(44_100u32)
    } else if rate % 48_000 == 0 {
        Some(48_000u32)
    } else {
        None
    }
}

/// The base rate of the clock family that `rate` belongs to.
pub fn clock_family_of(rate: u32) -> (r: Option<u32>)
    ensures
        r == clock_family(rate),
{
    if rate == 0 {
        None
    } else if rate % 44_100 == 0 {
        Some(44_100)
    } else if rate % 48_000 == 0 {
        Some(48_000)
    } else {
        None
    }
}

impl DsdRate {
    pub open spec fn spec_oversample(self) -> u32 {
        match self {
            DsdRate::Dsd64 => 64,
            DsdRate::Dsd128 => 128,
            DsdRate::Dsd256 => 256,
        }
    }

    /// How many one-bit samples stand for one sample of the base rate.
    pub fn oversample(self) -> (r: u32)
        ensures
            r == self.spec_oversample(),
    {
        match self {
            DsdRate::Dsd64 => 64,
            DsdRate::Dsd128 => 128,
            DsdRate::Dsd256 => 256,
        }
    }

    pub open spec fn spec_wire_rate(self, source_rate: u32) -> Option<u32> {
        match clock_family(source_rate) {
            Some(base) => Some((self.spec_oversample() * base) as u32),
            None => None,
        }
    }

    /// The one-bit sample rate for a source, in the source's clock family.
    pub fn wire_rate_for_source(self, source_rate: u32) -> (r: Option<u32>)
        ensures
            r == self.spec_wire_rate(source_rate),
    {
        match clock_family_of(source_rate) {
            Some(base) => {
                proof {
                    assert(self.spec_oversample() * base <= 256 * 48_000) by (nonlinear_arith)
                        requires
                            self.spec_oversample() <= 256,
                            base <= 48_000,
                    ;
                }
                Some(self.oversample() * base)
            },
            None => None,
        }
    }

    /// The rate of the 24-bit frames that carry a one-bit stream: each frame
    /// holds sixteen bits per channel.
    pub fn dop_frame_rate(wire_rate: u32) -> (r: u32)
        ensures
            r == wire_rate / 16,
    {
        wire_rate / 16
    }
}

/// `base` doubled `n` times.
pub open spec fn octave(base: nat, n: nat) -> nat
    decreases n,
{
    if n == 0 {
        base
    } else {
        2 * octave(base, (n - 1) as nat)
    }
}

/// `rate` is a member of the clock family of `base`: the base doubled any
/// number of times.
pub open spec fn in_family(base: nat, rate: nat) -> bool {
    exists|n: nat| rate == octave(base, n)
}

proof fn lemma_octave_grows(base: nat, n: nat, m: nat)
    requires
        n <= m,
    ensures
        octave(base, n) <= octave(base, m),
    decreases m,
{
    if n < m {
        lemma_octave_grows(base, n, (m - 1) as nat);
    }
}

/// `rate` doubled as often as it stays within `cap`.
pub open spec fn highest_octave(rate: nat, cap: nat) -> nat
    decreases cap - rate,
{
    if 0 < rate && 2 * rate <= cap {
        highest_octave(2 * rate, cap)
    } else {
        rate
    }
}

/// The automatic target rate under `cap`: the base of the source's clock
/// family doubled as often as the cap admits; the source rate itself when it
/// belongs to no family or the cap lies below the whole family.
pub open spec fn auto_target(source_rate: u32, cap: u32) -> u32 {
    match clock_family(source_rate) {
        Some(base) => if base <= cap {
            highest_octave(base as nat, cap as nat) as u32
        } else {
            source_rate
        },
        None => source_rate,
    }
}

proof fn lemma_highest_octave(rate: nat, cap: nat, base: nat, n: nat)
    requires
        0 < rate <= cap,
        rate == octave(base, n),
    ensures
        rate <= highest_octave(rate, cap) <= cap,
        in_family(base, highest_octave(rate, cap)),
        2 * highest_octave(rate, cap) > cap,
    decreases cap - rate,
{
    if 2 * rate <= cap {
        assert(octave(base, n + 1) == 2 * rate);
        lemma_highest_octave(2 * rate, cap, base, n + 1);
    }
}

/// The automatic target rate under `cap`.
pub fn auto_target_rate(source_rate: u32, cap: u32) -> (rate: u32)
    ensures
        rate == auto_target(source_rate, cap),
{
    match clock_family_of(source_rate) {
        Some(base) => {
            if base > cap {
                return source_rate;
            }
            let mut rate: u32 = base;
            while rate <= cap / 2
                invariant
                    base <= rate <= cap,
                    base > 0,
                    highest_octave(rate as nat, cap as nat) == highest_octave(
                        base as nat,
                        cap as nat,
                    ),
                decreases cap - rate,
            {
                rate = rate * 2;
            }
            rate
        },
        None => source_rate,
    }
}

/// For a source of a clock family whose base the cap admits, the automatic
/// target rate stays in that family, does not exceed the cap, and no higher
/// rate of the family would fit.
pub proof fn law_auto_target_is_highest_in_family(source_rate: u32, cap: u32, other: nat)
    requires
        clock_family(source_rate) is Some,
        clock_family(source_rate)->0 <= cap,
    ensures
        in_family(clock_family(source_rate)->0 as nat, auto_target(source_rate, cap) as nat),
        auto_target(source_rate, cap) <= cap,
        in_family(clock_family(source_rate)->0 as nat, other) && other <= cap ==> other
            <= auto_target(source_rate, cap),
{
    let base = clock_family(source_rate)->0 as nat;
    assert(octave(base, 0) == base);
    lemma_highest_octave(base, cap as nat, base, 0);
    let rate = highest_octave(base, cap as nat);
    assert(rate == auto_target(source_rate, cap) as nat);
    if in_family(base, other) && other <= cap {
        let n = choose|n: nat| rate == octave(base, n);
        let m = choose|m: nat| other == octave(base, m);
        if m > n {
            lemma_octave_grows(base, n + 1, m);
            assert(octave(base, n + 1) == 2 * rate);
        } else {
            lemma_octave_grows(base, m, n);
        }
    }
}

proof fn lemma_highest_octave_multiple(rate: nat, cap: nat, base: nat)
    requires
        base == 44_100 || base == 48_000,
        0 < rate <= cap,
        rate % base == 0,
    ensures
        highest_octave(rate, cap) % base == 0,
        rate <= highest_octave(rate, cap) <= cap,
        2 * highest_octave(rate, cap) > cap,
    decreases cap - rate,
{
    if 2 * rate <= cap {
        if base == 44_100 {
            assert((2 * rate) % 44_100 == 0);
        } else {
            assert((2 * rate) % 48_000 == 0);
        }
        lemma_highest_octave_multiple(2 * rate, cap, base);
    }
}

/// The automatic rate is a multiple of 44.1 or 48 kHz like that of the source,
/// within the cap, and its double is not.
pub proof fn law_automatic_rate_is_highest_multiple(source_rate: u32, cap: u32)
    requires
        cap >= 48_000,
    ensures
        ({
            let rate = auto_target(source_rate, cap) as int;
            &&& source_rate == 44_100 || source_rate == 88_200 || source_rate == 176_400
                || source_rate == 352_800 ==> {
                &&& rate % 44_100 == 0
                &&& rate <= cap
                &&& 2 * rate > cap
            }
            &&& source_rate == 48_000 || source_rate == 96_000 || source_rate == 192_000
                || source_rate == 384_000 ==> {
                &&& rate % 48_000 == 0
                &&& rate <= cap
                &&& 2 * rate > cap
            }
        }),
{
    lemma_highest_octave_multiple(44_100, cap as nat, 44_100);
    lemma_highest_octave_multiple(48_000, cap as nat, 48_000);
}

/// The automatic rate exceeds neither the cap nor, where the cap is below it,
/// the source.
pub proof fn law_automatic_rate_keeps_cap(source_rate: u32, cap: u32)
    ensures
        auto_target(source_rate, cap) <= cap || auto_target(source_rate, cap) == source_rate,
{
    if clock_family(source_rate) is Some && clock_family(source_rate)->0 <= cap
        && clock_family(source_rate)->0 > 0 {
        law_auto_target_is_highest_in_family(source_rate, cap, 0);
    }
}

/// How a listener wants reduced-depth output to be dithered.
#[derive(Clone, Copy, Debug, PartialEq, Eq, Structural)]
pub enum DitherPreference {
    Off,
    Auto,
    Tpdf,
}

impl DitherPreference {
    pub open spec fn spec_name(self) -> Seq<char> {
        match self {
            DitherPreference::Off => "Off"@,
            DitherPreference::Auto => "Auto"@,
            DitherPreference::Tpdf => "TPDF"@,
        }
    }

    pub fn as_name(self) -> (r: &'static str)
        ensures
            r@ == self.spec_name(),
    {
        match self {
            DitherPreference::Off => "Off",
            DitherPreference::Auto => "Auto",
            DitherPreference::Tpdf => "TPDF",
        }
    }
}

/// The dither applied when samples are quantized.
#[derive(Clone, Copy, Debug, PartialEq, Eq, Structural)]
pub enum DitherMode {
    Off,
    Shaped16,
    Tpdf,
}

/// A resampling filter, by its canonical name.
#[derive(Debug)]
pub struct FilterType {
    pub name: String,
}

impl Clone for FilterType {
    fn clone(&self) -> (r: FilterType)
        ensures
            r == *self,
    {
        FilterType { name: self.name.clone() }
    }
}

/// Cover art of a track.
#[derive(Debug)]
pub struct TrackCover {
    pub mime: String,
    pub data: Vec<u8>,
}

/// What is known of a track for display and streaming.
#[derive(Debug)]
pub struct TrackTags {
    pub title: Option<String>,
    pub artist: Option<String>,
    pub album: Option<String>,
    pub album_artist: Option<String>,
    pub duration_secs: Option<Real64>,
    pub sample_rate: Option<u32>,
    pub bits_per_sample: Option<u32>,
    pub channels: Option<u16>,
}

impl Clone for TrackTags {
    fn clone(&self) -> (r: TrackTags)
        ensures
            r == *self,
    {
        TrackTags {
            title: self.title.clone(),
            artist: self.artist.clone(),
            album: self.album.clone(),
            album_artist: self.album_artist.clone(),
            duration_secs: self.duration_secs,
            sample_rate: self.sample_rate,
            bits_per_sample: self.bits_per_sample,
            channels: self.channels,
        }
    }
}

/// A source belongs to the clock of compact discs where its rate is a multiple
/// of theirs, else to that of video where it is a multiple of that.
pub proof fn law_clock_families(rate: u32)
    ensures
        clock_family(rate) is Some ==> (clock_family(rate)->0 == 44_100 || clock_family(rate)->0
            == 48_000) && rate % clock_family(rate)->0 == 0,
        rate > 0 && rate % 44_100 == 0 ==> clock_family(rate) == Some(44_100u32),
        rate > 0 && rate % 48_000 == 0 && rate % 44_100 != 0 ==> clock_family(rate) == Some(
            48_000u32,
        ),
        clock_family(rate) is None <==> rate == 0 || (rate % 44_100 != 0 && rate % 48_000 != 0),
{
}

/// A one-bit stream of a source runs as many times as fast as the source's
/// clock as the mode says, and each mode runs twice as fast as the one below.
pub proof fn law_wire_rates_double(source_rate: u32)
    requires
        clock_family(source_rate) is Some,
    ensures
        DsdRate::Dsd64.spec_wire_rate(source_rate) == Some(
            (64 * clock_family(source_rate)->0) as u32,
        ),
        DsdRate::Dsd128.spec_wire_rate(source_rate)->0 == 2 * DsdRate::Dsd64.spec_wire_rate(
            source_rate,
        )->0,
        DsdRate::Dsd256.spec_wire_rate(source_rate)->0 == 2 * DsdRate::Dsd128.spec_wire_rate(
            source_rate,
        )->0,
        DsdRate::Dsd128.spec_wire_rate(source_rate) is Some,
        DsdRate::Dsd256.spec_wire_rate(source_rate) is Some,
        DsdRate::Dsd64.spec_wire_rate(source_rate)->0 % 16 == 0,
{
}

/// No number pattern stands for two whole numbers.
pub proof fn law_whole_numbers_are_told_apart(x: Real64, n: u32, m: u32)
    requires
        x.is_whole(n),
        x.is_whole(m),
    ensures
        n == m,
        n > 0 ==> x.spec_positive() && x.spec_finite(),
{
    let e = x.bits as int / 0x10_0000_0000_0000;
    if n > 0 && m > 0 {
        let k = doublings((1075 - e) as nat);
        assert(n == m) by (nonlinear_arith)
            requires
                n * k == m * k,
                n * k > 0,
        ;
    }
}

} // verus!
