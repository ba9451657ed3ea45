//! Render plans: whether a source needs processing for a renderer, into what,
//! and under which fingerprint.

use crate::audio;
use crate::audio::{DitherMode, DitherPreference, DsdRate, FilterType, Real32};
use crate::bytes;
use crate::digest;
use crate::playback::upnp_dsp::formats;
use crate::playback::upnp_target;
use crate::playback::upnp_target::UpnpRendererTarget;
use crate::protocol::playback::{DsdSourceRule, EqConfig, Headroom, PlaybackConfig};
use crate::protocol::sink::UpnpPcmContainer;
use crate::protocol::source::SourceRef;
use crate::text;
use vstd::prelude::*;
use vstd::string::*;

verus! {

/// The bit depth of rendered PCM where none is chosen.
pub const DEFAULT_RENDERED_PCM_BITS: u32 = 24;

/// The version tag that every fingerprint covers.
pub open spec fn cache_schema() -> Seq<char> {
    "upnp-render-v3"@
}

/// The output mode of a renderer.
#[derive(Clone, Copy, Debug, PartialEq, Eq, Structural)]
pub enum OutputModeForUpnp {
    Pcm,
    Dsd64,
    Dsd128,
    Dsd256,
}

impl OutputModeForUpnp {
    pub open spec fn spec_from_name(name: Seq<char>) -> OutputModeForUpnp {
        if name == "Dsd64"@ {
            OutputModeForUpnp::Dsd64
        } else if name == "Dsd128"@ {
            OutputModeForUpnp::Dsd128
        } else if name == "Dsd256"@ {
            OutputModeForUpnp::Dsd256
        } else {
            OutputModeForUpnp::Pcm
        }
    }

    /// The mode of a name; PCM for an unknown one.
    pub fn from_name(name: &str) -> (r: OutputModeForUpnp)
        ensures
            r == OutputModeForUpnp::spec_from_name(name@),
    {
        if *name == *"Dsd64" {
            OutputModeForUpnp::Dsd64
        } else if *name == *"Dsd128" {
            OutputModeForUpnp::Dsd128
        } else if *name == *"Dsd256" {
            OutputModeForUpnp::Dsd256
        } else {
            OutputModeForUpnp::Pcm
        }
    }

    pub open spec fn spec_is_dsd(self) -> bool {
        !(self is Pcm)
    }

    /// Whether the mode is a one-bit mode.
    pub fn is_dsd(self) -> (r: bool)
        ensures
            r == self.spec_is_dsd(),
    {
        !matches!(self, OutputModeForUpnp::Pcm)
    }

    pub open spec fn spec_name(self) -> Seq<char> {
        match self {
            OutputModeForUpnp::Pcm => "Pcm"@,
            OutputModeForUpnp::Dsd64 => "Dsd64"@,
            OutputModeForUpnp::Dsd128 => "Dsd128"@,
            OutputModeForUpnp::Dsd256 => "Dsd256"@,
        }
    }

    pub fn as_name(self) -> (r: &'static str)
        ensures
            r@ == self.spec_name(),
    {
        match self {
            OutputModeForUpnp::Pcm => "Pcm",
            OutputModeForUpnp::Dsd64 => "Dsd64",
            OutputModeForUpnp::Dsd128 => "Dsd128",
            OutputModeForUpnp::Dsd256 => "Dsd256",
        }
    }

    pub open spec fn spec_dsd_rate(self) -> Option<DsdRate> {
        match self {
            OutputModeForUpnp::Pcm => None,
            OutputModeForUpnp::Dsd64 => Some(DsdRate::Dsd64),
            OutputModeForUpnp::Dsd128 => Some(DsdRate::Dsd128),
            OutputModeForUpnp::Dsd256 => Some(DsdRate::Dsd256),
        }
    }

    /// The one-bit rate of the mode.
    pub fn dsd_rate(self) -> (r: Option<DsdRate>)
        ensures
            r == self.spec_dsd_rate(),
    {
        match self {
            OutputModeForUpnp::Pcm => None,
            OutputModeForUpnp::Dsd64 => Some(DsdRate::Dsd64),
            OutputModeForUpnp::Dsd128 => Some(DsdRate::Dsd128),
            OutputModeForUpnp::Dsd256 => Some(DsdRate::Dsd256),
        }
    }
}

/// Every mode is found again under its own name.
pub proof fn law_output_mode_names_round_trip(mode: OutputModeForUpnp)
    ensures
        OutputModeForUpnp::spec_from_name(mode.spec_name()) == mode,
{
    reveal_strlit("Pcm");
    reveal_strlit("Dsd64");
    reveal_strlit("Dsd128");
    reveal_strlit("Dsd256");
    assert("Dsd64"@.len() == 5);
    assert("Dsd128"@.len() == 6);
    assert("Dsd256"@.len() == 6);
    assert("Dsd128"@[3] == '1');
    assert("Dsd256"@[3] == '2');
    assert("Pcm"@.len() == 3);
}

/// What rendering for one renderer depends on.
pub struct UpnpDspRenderConfig {
    pub filter_type: FilterType,
    pub target_rate: u32,
    pub target_bit_depth: u32,
    pub upsampling_enabled: bool,
    pub output_mode: OutputModeForUpnp,
    pub dsd_modulator: String,
    pub dsd_isi_penalty: Real32,
    pub dsd_rules: Vec<DsdSourceRule>,
    pub dsd_rules_encoded: Vec<u8>,
    pub headroom: Headroom,
    pub eq: EqConfig,
    pub dither_mode: DitherPreference,
    pub target: UpnpRendererTarget,
}

/// The settings of a configuration that are given by name, resolved.
pub struct ResolvedNames {
    pub filter_type: FilterType,
    pub dsd_modulator: String,
    pub dither_mode: DitherPreference,
}

pub open spec fn spec_normalized_bits(bits: u32) -> u32 {
    if bits == 16 || bits == 24 || bits == 32 {
        bits
    } else {
        DEFAULT_RENDERED_PCM_BITS
    }
}

/// A supported bit depth: the given one, or the default.
pub fn normalize_target_bit_depth(bits: u32) -> (r: u32)
    ensures
        r == spec_normalized_bits(bits),
{
    if bits == 16 || bits == 24 || bits == 32 {
        bits
    } else {
        DEFAULT_RENDERED_PCM_BITS
    }
}

/// The mode that a configuration asks for: a PCM mode only counts while
/// upsampling is enabled, a one-bit mode always.
pub open spec fn spec_mode_of_config(config: PlaybackConfig) -> OutputModeForUpnp {
    let mode = OutputModeForUpnp::spec_from_name(config.output_mode@);
    if config.upsampling_enabled || mode.spec_is_dsd() {
        mode
    } else {
        OutputModeForUpnp::Pcm
    }
}

/// The mode that a configuration asks for.
pub fn output_mode_for_upnp_config(config: &PlaybackConfig) -> (r: OutputModeForUpnp)
    ensures
        r == spec_mode_of_config(*config),
{
    let mode = OutputModeForUpnp::from_name(config.output_mode.as_str());
    if config.upsampling_enabled || mode.is_dsd() {
        mode
    } else {
        OutputModeForUpnp::Pcm
    }
}

/// `r` is the render configuration of a playback configuration on a target.
pub open spec fn is_render_config(
    r: UpnpDspRenderConfig,
    config: PlaybackConfig,
    names: ResolvedNames,
    target: UpnpRendererTarget,
    target_rate: u32,
    target_bit_depth: u32,
) -> bool {
    &&& r.filter_type == names.filter_type
    &&& r.target_rate == target_rate
    &&& r.target_bit_depth == target_bit_depth
    &&& r.upsampling_enabled == config.upsampling_enabled
    &&& r.output_mode == spec_mode_of_config(config)
    &&& r.dsd_modulator == names.dsd_modulator
    &&& r.dsd_isi_penalty == config.dsd_isi_penalty
    &&& r.dsd_rules@ == config.dsd_rules@
    &&& r.dsd_rules_encoded@ == config.dsd_rules_encoded@
    &&& r.headroom == config.headroom
    &&& r.eq.same_as(config.eq)
    &&& r.dither_mode == names.dither_mode
    &&& r.target.same_as(target)
}

/// The render configuration of a playback configuration on a target, at the
/// given output rate and depth.
pub fn render_config_at(
    config: &PlaybackConfig,
    names: ResolvedNames,
    target: &UpnpRendererTarget,
    target_rate: u32,
    target_bit_depth: u32,
) -> (r: UpnpDspRenderConfig)
    ensures
        is_render_config(r, *config, names, *target, target_rate, target_bit_depth),
{
    let dsd_rules = config.dsd_rules.clone();
    let dsd_rules_encoded = config.dsd_rules_encoded.clone();
    proof {
        assert(dsd_rules@ =~= config.dsd_rules@);
        assert(dsd_rules_encoded@ =~= config.dsd_rules_encoded@);
    }
    UpnpDspRenderConfig {
        filter_type: names.filter_type,
        target_rate,
        target_bit_depth,
        upsampling_enabled: config.upsampling_enabled,
        output_mode: output_mode_for_upnp_config(config),
        dsd_modulator: names.dsd_modulator,
        dsd_isi_penalty: config.dsd_isi_penalty,
        dsd_rules,
        dsd_rules_encoded,
        headroom: config.headroom,
        eq: config.eq.clone(),
        dither_mode: names.dither_mode,
        target: target.clone(),
    }
}

/// The render configuration of a playback configuration on a target.
pub fn render_config_for(
    config: &PlaybackConfig,
    names: ResolvedNames,
    target: &UpnpRendererTarget,
) -> (r: UpnpDspRenderConfig)
    ensures
        is_render_config(
            r,
            *config,
            names,
            *target,
            config.target_rate,
            spec_normalized_bits(config.target_bit_depth),
        ),
{
    render_config_at(
        config,
        names,
        target,
        config.target_rate,
        normalize_target_bit_depth(config.target_bit_depth),
    )
}

/// Samples are processed at all: upsampled, equalized or modulated.
pub open spec fn spec_processing(config: UpnpDspRenderConfig) -> bool {
    config.upsampling_enabled || config.eq.enabled || config.output_mode.spec_is_dsd()
}

/// Whether samples are processed at all. Only then does the bit depth change
/// and the headroom apply.
pub fn pcm_bit_depth_conversion_active(config: &UpnpDspRenderConfig) -> (r: bool)
    ensures
        r == spec_processing(*config),
{
    config.upsampling_enabled || config.eq.enabled || config.output_mode.is_dsd()
}

/// Whether nothing in the configuration calls for processing, so that the
/// source is served as it is.
pub fn upnp_dsp_inactive(config: &UpnpDspRenderConfig) -> (r: bool)
    ensures
        r == !spec_processing(*config),
{
    !config.upsampling_enabled && !config.output_mode.is_dsd() && !config.eq.enabled
}

/// The gain in effect is not one.
pub open spec fn spec_gain_applies(config: UpnpDspRenderConfig) -> bool {
    spec_processing(config) && !config.headroom.unity
}

/// The dither for quantization: shaping only for endpoints that are forced to
/// 16 bits.
pub open spec fn spec_dither(preference: DitherPreference, output_bits: u32) -> DitherMode {
    if output_bits != 16 {
        DitherMode::Off
    } else {
        match preference {
            DitherPreference::Off => DitherMode::Off,
            DitherPreference::Auto => DitherMode::Shaped16,
            DitherPreference::Tpdf => DitherMode::Tpdf,
        }
    }
}

/// The dither for quantization.
pub fn upnp_pcm_dither_mode(preference: DitherPreference, output_bits: u32) -> (r: DitherMode)
    ensures
        r == spec_dither(preference, output_bits),
{
    if output_bits != 16 {
        return DitherMode::Off;
    }
    match preference {
        DitherPreference::Off => DitherMode::Off,
        DitherPreference::Auto => DitherMode::Shaped16,
        DitherPreference::Tpdf => DitherMode::Tpdf,
    }
}

/// The first rule for a source rate.
pub open spec fn first_rule(rules: Seq<DsdSourceRule>, source_rate: u32) -> Option<DsdSourceRule>
    decreases rules.len(),
{
    if rules.len() == 0 {
        None
    } else if rules[0].source_rate == source_rate {
        Some(rules[0])
    } else {
        first_rule(rules.skip(1), source_rate)
    }
}

/// The mode and filter for a source.
pub struct DsdPolicy {
    pub output_mode: OutputModeForUpnp,
    pub filter_type: FilterType,
}

/// While a one-bit mode is requested, the first rule for the source's rate
/// decides, provided that it names a one-bit mode itself. Its filter counts
/// when the resampler knows it.
pub open spec fn spec_policy(
    requested: OutputModeForUpnp,
    filter: FilterType,
    source_rate: u32,
    rules: Seq<DsdSourceRule>,
) -> DsdPolicy {
    let rule = first_rule(rules, source_rate);
    if requested.spec_is_dsd() && rule is Some && OutputModeForUpnp::spec_from_name(
        rule->0.output_mode@,
    ).spec_is_dsd() {
        DsdPolicy {
            output_mode: OutputModeForUpnp::spec_from_name(rule->0.output_mode@),
            filter_type: match rule->0.filter {
                Some(known) => known,
                None => filter,
            },
        }
    } else {
        DsdPolicy { output_mode: requested, filter_type: filter }
    }
}

/// The mode and filter for a source.
pub fn dsd_policy_for_source(
    requested_mode: OutputModeForUpnp,
    configured_filter: &FilterType,
    source_rate: u32,
    rules: &Vec<DsdSourceRule>,
) -> (r: DsdPolicy)
    ensures
        r == spec_policy(requested_mode, *configured_filter, source_rate, rules@),
{
    if requested_mode.is_dsd() {
        let mut i: usize = 0;
        proof {
            assert(rules@.skip(0) =~= rules@);
        }
        while i < rules.len() && rules[i].source_rate != source_rate
            invariant
                i <= rules@.len(),
                first_rule(rules@.skip(i as int), source_rate) == first_rule(rules@, source_rate),
            decreases rules@.len() - i,
        {
            proof {
                assert(rules@.skip(i as int).skip(1) =~= rules@.skip(i + 1));
            }
            i = i + 1;
        }
        if i < rules.len() {
            let mode = OutputModeForUpnp::from_name(rules[i].output_mode.as_str());
            if mode.is_dsd() {
                let filter_type = match &rules[i].filter {
                    Some(known) => known.clone(),
                    None => configured_filter.clone(),
                };
                return DsdPolicy { output_mode: mode, filter_type };
            }
        }
    }
    DsdPolicy { output_mode: requested_mode, filter_type: configured_filter.clone() }
}

/// The one-bit rate that a renderer takes natively.
pub open spec fn spec_native_dsd(mode: OutputModeForUpnp, target: UpnpRendererTarget) -> Option<
    DsdRate,
> {
    match mode.spec_dsd_rate() {
        Some(rate) => if (match target.max_dsd_rate {
            Some(max) => max as int,
            None => 0,
        }) >= rate.spec_oversample() {
            Some(rate)
        } else {
            None
        },
        None => None,
    }
}

/// The one-bit rate that a renderer takes natively.
pub fn dsd_rate_for_target(mode: OutputModeForUpnp, target: &UpnpRendererTarget) -> (r: Option<
    DsdRate,
>)
    ensures
        r == spec_native_dsd(mode, *target),
{
    match mode.dsd_rate() {
        Some(rate) => {
            let max: u32 = match target.max_dsd_rate {
                Some(max) => max as u32,
                None => 0,
            };
            if max >= rate.oversample() {
                Some(rate)
            } else {
                None
            }
        },
        None => None,
    }
}

/// The one-bit rate and the frame rate of a marked WAV carrier that the
/// renderer takes for a source.
pub open spec fn spec_dop(
    mode: OutputModeForUpnp,
    target: UpnpRendererTarget,
    source_rate: u32,
) -> Option<(DsdRate, u32)> {
    match mode.spec_dsd_rate() {
        Some(rate) => match rate.spec_wire_rate(source_rate) {
            Some(wire) => if formats::spec_supports_dop_wav(target, wire / 16, 24) {
                Some((rate, wire / 16))
            } else {
                None
            },
            None => None,
        },
        None => None,
    }
}

/// The one-bit rate and the frame rate of a marked WAV carrier that the
/// renderer takes for a source.
pub fn dop_dsd_rate_for_target(
    mode: OutputModeForUpnp,
    target: &UpnpRendererTarget,
    source_rate: u32,
) -> (r: Option<(DsdRate, u32)>)
    ensures
        r == spec_dop(mode, *target, source_rate),
{
    match mode.dsd_rate() {
        Some(rate) => match rate.wire_rate_for_source(source_rate) {
            Some(wire) => {
                let frame_rate = DsdRate::dop_frame_rate(wire);
                if formats::target_supports_dop_wav_carrier(target, frame_rate, 24) {
                    Some((rate, frame_rate))
                } else {
                    None
                }
            },
            None => None,
        },
        None => None,
    }
}

/// The rate that PCM is rendered to: the source's own without upsampling or
/// reliable capabilities; otherwise the requested rate within the renderer's
/// limit (which never lies below the source), or the automatic one. KEF
/// renderers with a FLAC offer stay at or below 96 kHz, in the source's clock
/// family.
pub open spec fn spec_pcm_rate(source_rate: u32, config: UpnpDspRenderConfig) -> u32 {
    if !config.upsampling_enabled || upnp_target::spec_caps_unknown(config.target) {
        source_rate
    } else {
        let cap = if config.target.max_sample_rate >= source_rate {
            config.target.max_sample_rate
        } else {
            source_rate
        };
        let target = if config.target_rate == 0 {
            audio::auto_target(source_rate, config.target.max_sample_rate)
        } else if config.target_rate <= cap {
            config.target_rate
        } else if cap == 0 {
            1u32
        } else {
            cap
        };
        if upnp_target::spec_is_kef(config.target) && source_rate <= 96_000
            && formats::spec_offers(config.target, UpnpPcmContainer::Flac) {
            audio::auto_target(
                source_rate,
                if target <= 96_000 {
                    target
                } else {
                    96_000u32
                },
            )
        } else {
            target
        }
    }
}

/// The rate that PCM is rendered to.
pub fn resolve_pcm_target_rate(source_rate: u32, config: &UpnpDspRenderConfig) -> (r: u32)
    ensures
        r == spec_pcm_rate(source_rate, *config),
{
    if !config.upsampling_enabled {
        return source_rate;
    }
    if upnp_target::upnp_caps_unknown(&config.target) {
        return source_rate;
    }
    let cap: u32 = if config.target.max_sample_rate >= source_rate {
        config.target.max_sample_rate
    } else {
        source_rate
    };
    let target: u32 = if config.target_rate == 0 {
        audio::auto_target_rate(source_rate, config.target.max_sample_rate)
    } else if config.target_rate <= cap {
        config.target_rate
    } else if cap == 0 {
        1
    } else {
        cap
    };
    if upnp_target::is_kef_upnp_target(&config.target) && source_rate <= 96_000
        && formats::target_offers_container(&config.target, UpnpPcmContainer::Flac) {
        let ceiling: u32 = if target <= 96_000 {
            target
        } else {
            96_000
        };
        return audio::auto_target_rate(source_rate, ceiling);
    }
    target
}

/// What fingerprints cover of the renderer.
pub open spec fn target_bytes(target: UpnpRendererTarget) -> Seq<u8> {
    bytes::text_bytes(target.id@) + bytes::le_bytes(target.max_sample_rate as nat, 4)
        + bytes::le_bytes(target.max_bit_depth as nat, 1) + bytes::le_bytes(
        (match target.max_dsd_rate {
            Some(rate) => rate as nat,
            None => 0,
        }),
        2,
    )
}

/// What fingerprints cover of the processing. Dither only shapes 16-bit
/// output.
pub open spec fn processing_bytes(config: UpnpDspRenderConfig, output_bits: u32) -> Seq<u8> {
    (if output_bits == 16 {
        bytes::text_bytes(config.dither_mode.spec_name())
    } else {
        Seq::empty()
    }) + bytes::text_bytes(config.filter_type.name@) + bytes::le_bytes(
        config.target_rate as nat,
        4,
    ) + bytes::le_bytes(config.target_bit_depth as nat, 4) + bytes::le_bytes(
        (if config.upsampling_enabled {
            1
        } else {
            0
        }),
        1,
    ) + bytes::text_bytes(config.output_mode.spec_name()) + bytes::text_bytes(
        config.dsd_modulator@,
    ) + bytes::le_bytes(config.dsd_isi_penalty.bits as nat, 4) + bytes::le_bytes(
        config.headroom.db.bits as nat,
        4,
    ) + config.eq.encoded@ + config.dsd_rules_encoded@
}

/// What a render signature covers: source, output and renderer; and the
/// processing unless the source passes through untouched.
pub open spec fn signature_preimage(
    source_key: Seq<char>,
    source_rate: u32,
    source_bits: u32,
    output_rate: u32,
    output_bits: u32,
    container: Seq<char>,
    config: UpnpDspRenderConfig,
) -> Seq<u8> {
    let common = bytes::text_bytes(cache_schema()) + bytes::text_bytes(source_key)
        + bytes::le_bytes(source_rate as nat, 4) + bytes::le_bytes(source_bits as nat, 4)
        + bytes::le_bytes(output_rate as nat, 4) + bytes::le_bytes(output_bits as nat, 4)
        + bytes::text_bytes(container) + target_bytes(config.target);
    if container == "passthrough"@ {
        common
    } else {
        common + processing_bytes(config, output_bits)
    }
}

fn push_target(out: &mut Vec<u8>, target: &UpnpRendererTarget)
    ensures
        final(out)@ == old(out)@ + target_bytes(*target),
{
    bytes::push_text(out, target.id.as_str());
    bytes::push_le(out, target.max_sample_rate as u64, 4);
    bytes::push_le(out, target.max_bit_depth as u64, 1);
    let dsd: u64 = match target.max_dsd_rate {
        Some(rate) => rate as u64,
        None => 0,
    };
    bytes::push_le(out, dsd, 2);
    proof {
        assert(out@ =~= old(out)@ + target_bytes(*target));
    }
}

proof fn lemma_joined(a: Seq<u8>, b: Seq<u8>, c: Seq<u8>)
    ensures
        (a + b) + c == a + (b + c),
{
    assert((a + b) + c =~= a + (b + c));
}

fn push_processing(out: &mut Vec<u8>, config: &UpnpDspRenderConfig, output_bits: u32)
    ensures
        final(out)@ == old(out)@ + processing_bytes(*config, output_bits),
{
    let ghost start = out@;
    let ghost mut done = if output_bits == 16 {
        bytes::text_bytes(config.dither_mode.spec_name())
    } else {
        Seq::empty()
    };
    if output_bits == 16 {
        bytes::push_text(out, config.dither_mode.as_name());
    }
    proof {
        assert(out@ =~= start + done);
    }
    bytes::push_text(out, config.filter_type.name.as_str());
    proof {
        lemma_joined(start, done, bytes::text_bytes(config.filter_type.name@));
        done = done + bytes::text_bytes(config.filter_type.name@);
    }
    bytes::push_le(out, config.target_rate as u64, 4);
    proof {
        lemma_joined(start, done, bytes::le_bytes(config.target_rate as nat, 4));
        done = done + bytes::le_bytes(config.target_rate as nat, 4);
    }
    bytes::push_le(out, config.target_bit_depth as u64, 4);
    proof {
        lemma_joined(start, done, bytes::le_bytes(config.target_bit_depth as nat, 4));
        done = done + bytes::le_bytes(config.target_bit_depth as nat, 4);
    }
    bytes::push_le(
        out,
        if config.upsampling_enabled {
            1
        } else {
            0
        },
        1,
    );
    proof {
        lemma_joined(start, done, bytes::le_bytes(
            (if config.upsampling_enabled {
                1
            } else {
                0
            }),
            1,
        ));
        done = done + bytes::le_bytes(
            (if config.upsampling_enabled {
                1
            } else {
                0
            }),
            1,
        );
    }
    bytes::push_text(out, config.output_mode.as_name());
    proof {
        lemma_joined(start, done, bytes::text_bytes(config.output_mode.spec_name()));
        done = done + bytes::text_bytes(config.output_mode.spec_name());
    }
    bytes::push_text(out, config.dsd_modulator.as_str());
    proof {
        lemma_joined(start, done, bytes::text_bytes(config.dsd_modulator@));
        done = done + bytes::text_bytes(config.dsd_modulator@);
    }
    bytes::push_le(out, config.dsd_isi_penalty.bits as u64, 4);
    proof {
        lemma_joined(start, done, bytes::le_bytes(config.dsd_isi_penalty.bits as nat, 4));
        done = done + bytes::le_bytes(config.dsd_isi_penalty.bits as nat, 4);
    }
    bytes::push_le(out, config.headroom.db.bits as u64, 4);
    proof {
        lemma_joined(start, done, bytes::le_bytes(config.headroom.db.bits as nat, 4));
        done = done + bytes::le_bytes(config.headroom.db.bits as nat, 4);
    }
    bytes::push_bytes(out, config.eq.encoded.as_slice());
    proof {
        lemma_joined(start, done, config.eq.encoded@);
        done = done + config.eq.encoded@;
    }
    bytes::push_bytes(out, config.dsd_rules_encoded.as_slice());
    proof {
        lemma_joined(start, done, config.dsd_rules_encoded@);
        done = done + config.dsd_rules_encoded@;
    }
    proof {
        assert(done == processing_bytes(*config, output_bits));
    }
}

/// What a render signature covers.
pub fn render_signature_preimage(
    source_ref: &SourceRef,
    source_rate: u32,
    source_bits: u32,
    output_rate: u32,
    output_bits: u32,
    container: &str,
    config: &UpnpDspRenderConfig,
) -> (r: Vec<u8>)
    ensures
        r@ == signature_preimage(
            source_ref.spec_key(),
            source_rate,
            source_bits,
            output_rate,
            output_bits,
            container@,
            *config,
        ),
{
    let mut out: Vec<u8> = Vec::new();
    bytes::push_text(&mut out, "upnp-render-v3");
    bytes::push_text(&mut out, source_ref.key().as_str());
    bytes::push_le(&mut out, source_rate as u64, 4);
    bytes::push_le(&mut out, source_bits as u64, 4);
    bytes::push_le(&mut out, output_rate as u64, 4);
    bytes::push_le(&mut out, output_bits as u64, 4);
    bytes::push_text(&mut out, container);
    push_target(&mut out, &config.target);
    proof {
        assert(out@ =~= bytes::text_bytes(cache_schema()) + bytes::text_bytes(
            source_ref.spec_key(),
        ) + bytes::le_bytes(source_rate as nat, 4) + bytes::le_bytes(source_bits as nat, 4)
            + bytes::le_bytes(output_rate as nat, 4) + bytes::le_bytes(output_bits as nat, 4)
            + bytes::text_bytes(container@) + target_bytes(config.target));
    }
    if *container == *"passthrough" {
        return out;
    }
    push_processing(&mut out, config, output_bits);
    out
}

/// The signature of a render: equal inputs give equal signatures.
pub fn render_signature_for_plan(
    source_ref: &SourceRef,
    source_rate: u32,
    source_bits: u32,
    output_rate: u32,
    output_bits: u32,
    container: &str,
    config: &UpnpDspRenderConfig,
) -> (r: String)
    ensures
        r@ == digest::fingerprint_text(
            signature_preimage(
                source_ref.spec_key(),
                source_rate,
                source_bits,
                output_rate,
                output_bits,
                container@,
                *config,
            ),
        ),
{
    let preimage = render_signature_preimage(
        source_ref,
        source_rate,
        source_bits,
        output_rate,
        output_bits,
        container,
        config,
    );
    digest::fingerprint(&preimage)
}

/// The bytes of a dither preference's name begin with its first letter.
proof fn lemma_dither_name_bytes(dither: DitherPreference)
    ensures
        bytes::text_bytes(dither.spec_name()).len() > 0,
        bytes::text_bytes(dither.spec_name())[0] == (match dither {
            DitherPreference::Off => 79u8,
            DitherPreference::Auto => 65u8,
            DitherPreference::Tpdf => 84u8,
        }),
{
    reveal_strlit("Off");
    reveal_strlit("Auto");
    reveal_strlit("TPDF");
    let name = dither.spec_name();
    assert(vstd::utf8::is_ascii_chars(name));
    vstd::utf8::is_ascii_chars_encode_utf8(name);
    assert(name[0] as u8 == bytes::text_bytes(name)[0]);
}

/// What a signature covers tells two dither preferences apart exactly where
/// 16-bit output is rendered.
pub proof fn law_dither_signs_16_bit_output(
    source_key: Seq<char>,
    source_rate: u32,
    source_bits: u32,
    output_rate: u32,
    output_bits: u32,
    container: Seq<char>,
    config: UpnpDspRenderConfig,
    dither: DitherPreference,
)
    requires
        dither != config.dither_mode,
    ensures
        signature_preimage(
            source_key,
            source_rate,
            source_bits,
            output_rate,
            output_bits,
            container,
            config,
        ) == signature_preimage(
            source_key,
            source_rate,
            source_bits,
            output_rate,
            output_bits,
            container,
            (UpnpDspRenderConfig { dither_mode: dither, ..config }),
        ) <==> output_bits != 16 || container == "passthrough"@,
{
    let other = UpnpDspRenderConfig { dither_mode: dither, ..config };
    if output_bits == 16 && container != "passthrough"@ {
        let common = bytes::text_bytes(cache_schema()) + bytes::text_bytes(source_key)
            + bytes::le_bytes(source_rate as nat, 4) + bytes::le_bytes(source_bits as nat, 4)
            + bytes::le_bytes(output_rate as nat, 4) + bytes::le_bytes(output_bits as nat, 4)
            + bytes::text_bytes(container) + target_bytes(config.target);
        lemma_dither_name_bytes(config.dither_mode);
        lemma_dither_name_bytes(dither);
        let a = processing_bytes(config, output_bits);
        let b = processing_bytes(other, output_bits);
        assert(a[0] == bytes::text_bytes(config.dither_mode.spec_name())[0]);
        assert(b[0] == bytes::text_bytes(dither.spec_name())[0]);
        assert((common + a)[common.len() as int] == a[0]);
        assert((common + b)[common.len() as int] == b[0]);
    }
}

/// Two signatures that differ in the dither preference alone are equal exactly
/// where no 16-bit output is rendered, as long as the digests of what they
/// cover do not collide in the eighteen bytes that are kept.
pub proof fn law_signatures_tell_dither_apart(
    source_key: Seq<char>,
    source_rate: u32,
    source_bits: u32,
    output_rate: u32,
    output_bits: u32,
    container: Seq<char>,
    a: UpnpDspRenderConfig,
    b: UpnpDspRenderConfig,
)
    requires
        b == (UpnpDspRenderConfig { dither_mode: b.dither_mode, ..a }),
        a.dither_mode != b.dither_mode,
    ensures
        ({
            let x = signature_preimage(
                source_key,
                source_rate,
                source_bits,
                output_rate,
                output_bits,
                container,
                a,
            );
            let y = signature_preimage(
                source_key,
                source_rate,
                source_bits,
                output_rate,
                output_bits,
                container,
                b,
            );
            let collide = x != y && digest::sha256_digest(x).take(18) == digest::sha256_digest(
                y,
            ).take(18);
            !collide ==> (digest::fingerprint_text(x) == digest::fingerprint_text(y) <==> output_bits
                != 16 || container == "passthrough"@)
        }),
{
    law_dither_signs_16_bit_output(
        source_key,
        source_rate,
        source_bits,
        output_rate,
        output_bits,
        container,
        a,
        b.dither_mode,
    );
    let x = signature_preimage(
        source_key,
        source_rate,
        source_bits,
        output_rate,
        output_bits,
        container,
        a,
    );
    let y = signature_preimage(
        source_key,
        source_rate,
        source_bits,
        output_rate,
        output_bits,
        container,
        b,
    );
    if digest::fingerprint_text(x) == digest::fingerprint_text(y) {
        digest::law_base64_injective(
            digest::sha256_digest(x).take(18),
            digest::sha256_digest(y).take(18),
        );
    }
}

/// A passthrough signature covers nothing of the processing settings.
pub proof fn law_passthrough_signature_ignores_processing(
    source_key: Seq<char>,
    source_rate: u32,
    source_bits: u32,
    a: UpnpDspRenderConfig,
    b: UpnpDspRenderConfig,
)
    requires
        a.target.same_as(b.target),
    ensures
        signature_preimage(
            source_key,
            source_rate,
            source_bits,
            source_rate,
            source_bits,
            "passthrough"@,
            a,
        ) == signature_preimage(
            source_key,
            source_rate,
            source_bits,
            source_rate,
            source_bits,
            "passthrough"@,
            b,
        ),
{
}

/// A plan for serving a source to a renderer.
pub struct UpnpRenderPlan {
    pub render_needed: bool,
    pub signature: String,
    pub output_rate: u32,
    pub output_bits: u32,
    pub active_output_mode: OutputModeForUpnp,
    pub container: String,
}

impl Clone for UpnpRenderPlan {
    fn clone(&self) -> (r: UpnpRenderPlan)
        ensures
            r == *self,
    {
        UpnpRenderPlan {
            render_needed: self.render_needed,
            signature: self.signature.clone(),
            output_rate: self.output_rate,
            output_bits: self.output_bits,
            active_output_mode: self.active_output_mode,
            container: self.container.clone(),
        }
    }
}

/// A plan without its signature.
pub ghost struct PlanShape {
    pub render_needed: bool,
    pub output_rate: u32,
    pub output_bits: u32,
    pub mode: OutputModeForUpnp,
    pub container: Seq<char>,
}

/// The depth that PCM is rendered to. KEF renderers get 16 bits: a standard
/// WAV gives them an exact mapping from time to bytes.
pub open spec fn spec_pcm_bits(config: UpnpDspRenderConfig) -> u32 {
    if upnp_target::spec_is_kef(config.target) {
        16
    } else {
        spec_normalized_bits(config.target_bit_depth)
    }
}

/// PCM output needs rendering: the rate or the depth changes, samples are
/// processed audibly, a one-bit wish fell back to PCM, or the renderer always
/// wants a file.
pub open spec fn spec_pcm_render_needed(
    config: UpnpDspRenderConfig,
    mode: OutputModeForUpnp,
    source_rate: u32,
    source_bits: u32,
) -> bool {
    ||| source_rate > 0 && spec_pcm_rate(source_rate, config) != source_rate
    ||| spec_processing(config) && source_bits > 0 && spec_pcm_bits(config) != source_bits
    ||| config.eq.enabled
    ||| spec_gain_applies(config)
    ||| mode.spec_is_dsd()
    ||| upnp_target::spec_is_kef(config.target)
}

/// What a source becomes for a renderer: marked WAV or native one-bit output
/// where the policy asks for it and the renderer takes it, otherwise PCM.
pub open spec fn plan_shape(
    config: UpnpDspRenderConfig,
    source_rate: u32,
    source_bits: u32,
) -> PlanShape {
    let mode = spec_policy(
        config.output_mode,
        config.filter_type,
        source_rate,
        config.dsd_rules@,
    ).output_mode;
    match spec_dop(mode, config.target, source_rate) {
        Some((_, frame_rate)) => PlanShape {
            render_needed: true,
            output_rate: frame_rate,
            output_bits: 24,
            mode,
            container: "dop_wav"@,
        },
        None => match spec_native_dsd(mode, config.target) {
            Some(dsd) => PlanShape {
                render_needed: true,
                output_rate: match dsd.spec_wire_rate(source_rate) {
                    Some(wire) => wire,
                    None => source_rate,
                },
                output_bits: 1,
                mode,
                container: "dsf"@,
            },
            None => if spec_pcm_render_needed(config, mode, source_rate, source_bits) {
                PlanShape {
                    render_needed: true,
                    output_rate: spec_pcm_rate(source_rate, config),
                    output_bits: spec_pcm_bits(config),
                    mode: OutputModeForUpnp::Pcm,
                    container: formats::spec_render_container(
                        spec_pcm_rate(source_rate, config),
                        spec_pcm_bits(config),
                        config.target,
                    ).spec_name(),
                }
            } else {
                PlanShape {
                    render_needed: false,
                    output_rate: source_rate,
                    output_bits: source_bits,
                    mode: OutputModeForUpnp::Pcm,
                    container: "passthrough"@,
                }
            },
        },
    }
}

/// `plan` has a shape and is signed accordingly.
pub open spec fn plan_has_shape(
    plan: UpnpRenderPlan,
    shape: PlanShape,
    source_key: Seq<char>,
    source_rate: u32,
    source_bits: u32,
    config: UpnpDspRenderConfig,
) -> bool {
    &&& plan.render_needed == shape.render_needed
    &&& plan.output_rate == shape.output_rate
    &&& plan.output_bits == shape.output_bits
    &&& plan.active_output_mode == shape.mode
    &&& plan.container@ == shape.container
    &&& plan.signature@ == digest::fingerprint_text(
        signature_preimage(
            source_key,
            source_rate,
            source_bits,
            shape.output_rate,
            shape.output_bits,
            shape.container,
            config,
        ),
    )
}

fn signed_plan(
    render_needed: bool,
    output_rate: u32,
    output_bits: u32,
    mode: OutputModeForUpnp,
    container: &str,
    config: &UpnpDspRenderConfig,
    source_ref: &SourceRef,
    source_rate: u32,
    source_bits: u32,
) -> (r: UpnpRenderPlan)
    ensures
        plan_has_shape(
            r,
            (PlanShape { render_needed, output_rate, output_bits, mode, container: container@ }),
            source_ref.spec_key(),
            source_rate,
            source_bits,
            *config,
        ),
{
    UpnpRenderPlan {
        render_needed,
        signature: render_signature_for_plan(
            source_ref,
            source_rate,
            source_bits,
            output_rate,
            output_bits,
            container,
            config,
        ),
        output_rate,
        output_bits,
        active_output_mode: mode,
        container: container.to_string(),
    }
}

/// The plan for serving a source to the renderer of `config`.
pub fn render_plan_for_source(
    config: &UpnpDspRenderConfig,
    source_ref: &SourceRef,
    source_rate: u32,
    source_bits: u32,
) -> (r: UpnpRenderPlan)
    ensures
        plan_has_shape(
            r,
            plan_shape(*config, source_rate, source_bits),
            source_ref.spec_key(),
            source_rate,
            source_bits,
            *config,
        ),
{
    let policy = dsd_policy_for_source(
        config.output_mode,
        &config.filter_type,
        source_rate,
        &config.dsd_rules,
    );
    match dop_dsd_rate_for_target(policy.output_mode, &config.target, source_rate) {
        Some((_dsd_rate, frame_rate)) => {
            return signed_plan(
                true,
                frame_rate,
                24,
                policy.output_mode,
                "dop_wav",
                config,
                source_ref,
                source_rate,
                source_bits,
            );
        },
        None => {},
    }
    match dsd_rate_for_target(policy.output_mode, &config.target) {
        Some(dsd_rate) => {
            let output_rate: u32 = match dsd_rate.wire_rate_for_source(source_rate) {
                Some(wire) => wire,
                None => source_rate,
            };
            return signed_plan(
                true,
                output_rate,
                1,
                policy.output_mode,
                "dsf",
                config,
                source_ref,
                source_rate,
                source_bits,
            );
        },
        None => {},
    }
    let target_rate = resolve_pcm_target_rate(source_rate, config);
    let kef = upnp_target::is_kef_upnp_target(&config.target);
    let target_bits: u32 = if kef {
        16
    } else {
        normalize_target_bit_depth(config.target_bit_depth)
    };
    let processing = pcm_bit_depth_conversion_active(config);
    let render_needed = (source_rate > 0 && target_rate != source_rate) || (processing
        && source_bits > 0 && target_bits != source_bits) || config.eq.enabled || (processing
        && !config.headroom.unity) || policy.output_mode.is_dsd() || kef;
    if render_needed {
        let container = formats::pcm_render_container_for_target(
            target_rate,
            target_bits,
            &config.target,
        );
        signed_plan(
            true,
            target_rate,
            target_bits,
            OutputModeForUpnp::Pcm,
            container.as_str(),
            config,
            source_ref,
            source_rate,
            source_bits,
        )
    } else {
        signed_plan(
            false,
            source_rate,
            source_bits,
            OutputModeForUpnp::Pcm,
            "passthrough",
            config,
            source_ref,
            source_rate,
            source_bits,
        )
    }
}

/// A KEF renderer is never sent marked WAV; unless it takes one-bit files
/// natively, it always gets a rendered 16-bit WAV.
pub proof fn law_kef_gets_seekable_wav(
    config: UpnpDspRenderConfig,
    source_rate: u32,
    source_bits: u32,
)
    requires
        upnp_target::spec_is_kef(config.target),
    ensures
        ({
            let shape = plan_shape(config, source_rate, source_bits);
            &&& shape.render_needed
            &&& shape.container != "dop_wav"@
            &&& shape.container != "dsf"@ ==> shape.container == "wav"@ && shape.output_bits
                == 16
        }),
{
    reveal_strlit("dop_wav");
    reveal_strlit("dsf");
    reveal_strlit("wav");
    assert("dop_wav"@.len() == 7);
    assert("dsf"@.len() == 3);
    assert("wav"@.len() == 3);
}

/// Rendered output has a depth that the encoders take: one bit in native
/// one-bit files, 16, 24 or 32 bits in everything else.
pub proof fn law_rendered_depth_is_encodable(
    config: UpnpDspRenderConfig,
    source_rate: u32,
    source_bits: u32,
)
    ensures
        ({
            let shape = plan_shape(config, source_rate, source_bits);
            &&& shape.render_needed && shape.container == "dsf"@ ==> shape.output_bits == 1
            &&& shape.render_needed && shape.container != "dsf"@ ==> shape.output_bits == 16
                || shape.output_bits == 24 || shape.output_bits == 32
        }),
{
    reveal_strlit("dop_wav");
    reveal_strlit("dsf");
    reveal_strlit("wav");
    reveal_strlit("flac");
    assert("dop_wav"@.len() == 7);
    assert("dsf"@.len() == 3);
    assert("flac"@.len() == 4);
    assert("wav"@[0] != "dsf"@[0]);
}

/// A source that needs no rendering is served at its own rate and depth.
pub proof fn law_passthrough_keeps_source(
    config: UpnpDspRenderConfig,
    source_rate: u32,
    source_bits: u32,
)
    ensures
        ({
            let shape = plan_shape(config, source_rate, source_bits);
            !shape.render_needed ==> shape.output_rate == source_rate && shape.output_bits
                == source_bits && shape.mode is Pcm && shape.container == "passthrough"@
        }),
{
}

/// Without upsampling, equalizer and one-bit output a source passes through
/// untouched, whatever depth and headroom are configured; only KEF renderers
/// still want a file.
pub proof fn law_inactive_processing_passes_through(
    config: UpnpDspRenderConfig,
    source_rate: u32,
    source_bits: u32,
)
    requires
        !spec_processing(config),
        !upnp_target::spec_is_kef(config.target),
    ensures
        !plan_shape(config, source_rate, source_bits).render_needed,
{
}

/// What a cache key covers: the source's own key, the output, the processing
/// and the renderer.
pub open spec fn cache_key_preimage(
    source_key: Seq<char>,
    config: UpnpDspRenderConfig,
    plan: UpnpRenderPlan,
) -> Seq<u8> {
    bytes::text_bytes(cache_schema()) + bytes::text_bytes(source_key) + bytes::le_bytes(
        plan.output_rate as nat,
        4,
    ) + bytes::le_bytes(plan.output_bits as nat, 4) + bytes::text_bytes(plan.container@)
        + processing_bytes(config, plan.output_bits) + target_bytes(config.target)
}

/// What a cache key covers.
pub fn rendered_cache_key_preimage(
    source_key: &str,
    config: &UpnpDspRenderConfig,
    plan: &UpnpRenderPlan,
) -> (r: Vec<u8>)
    ensures
        r@ == cache_key_preimage(source_key@, *config, *plan),
{
    let mut out: Vec<u8> = Vec::new();
    bytes::push_text(&mut out, "upnp-render-v3");
    bytes::push_text(&mut out, source_key);
    bytes::push_le(&mut out, plan.output_rate as u64, 4);
    bytes::push_le(&mut out, plan.output_bits as u64, 4);
    bytes::push_text(&mut out, plan.container.as_str());
    push_processing(&mut out, config, plan.output_bits);
    push_target(&mut out, &config.target);
    proof {
        assert(out@ =~= cache_key_preimage(source_key@, *config, *plan));
    }
    out
}

/// The key of a rendered file in the cache.
pub fn rendered_cache_key(
    source_key: &str,
    config: &UpnpDspRenderConfig,
    plan: &UpnpRenderPlan,
) -> (r: String)
    ensures
        r@ == digest::fingerprint_text(cache_key_preimage(source_key@, *config, *plan)),
{
    let preimage = rendered_cache_key_preimage(source_key, config, plan);
    digest::fingerprint(&preimage)
}

/// The extension of a cached file; one-bit files are kept under a name of
/// their own.
pub open spec fn cache_extension(container: Seq<char>) -> Option<Seq<char>> {
    if container == "flac"@ {
        Some("flac"@)
    } else if container == "wav"@ || container == "dop_wav"@ {
        Some("wav"@)
    } else {
        None
    }
}

/// The name of a cached PCM file.
pub open spec fn cache_file_name(cache_key: Seq<char>, plan: UpnpRenderPlan) -> Option<Seq<char>> {
    match cache_extension(plan.container@) {
        Some(ext) => Some(
            cache_key + "-"@ + text::decimal(plan.output_rate as nat) + "-"@ + text::decimal(
                plan.output_bits as nat,
            ) + "."@ + ext,
        ),
        None => None,
    }
}

/// The name of the cached file of a plan, if its container is cached by rate
/// and depth.
pub fn rendered_cache_path_for_plan(cache_key: &str, plan: &UpnpRenderPlan) -> (r: Option<String>)
    ensures
        text::opt_text(r) == cache_file_name(cache_key@, *plan),
{
    let container = plan.container.as_str();
    let ext = if *container == *"flac" {
        "flac"
    } else if *container == *"wav" || *container == *"dop_wav" {
        "wav"
    } else {
        return None;
    };
    let mut name = cache_key.to_string();
    name.append("-");
    text::push_decimal(&mut name, plan.output_rate as u64);
    name.append("-");
    text::push_decimal(&mut name, plan.output_bits as u64);
    name.append(".");
    name.append(ext);
    Some(name)
}

/// The name of a cached one-bit file.
pub fn rendered_dsf_cache_name(cache_key: &str, dsd_rate: DsdRate) -> (r: String)
    ensures
        r@ == cache_key@ + "-dsd"@ + text::decimal(dsd_rate.spec_oversample() as nat) + ".dsf"@,
{
    let mut name = cache_key.to_string();
    name.append("-dsd");
    text::push_decimal(&mut name, dsd_rate.oversample() as u64);
    name.append(".dsf");
    name
}

/// The key under which concurrent renders of one output wait for each other.
pub open spec fn lock_key(cache_key: Seq<char>, plan: UpnpRenderPlan) -> Seq<char> {
    cache_key + ":"@ + plan.container@ + ":"@ + text::decimal(plan.output_rate as nat) + ":"@
        + text::decimal(plan.output_bits as nat)
}

/// The key under which concurrent renders of one output wait for each other.
pub fn render_cache_lock(cache_key: &str, plan: &UpnpRenderPlan) -> (r: String)
    ensures
        r@ == lock_key(cache_key@, *plan),
{
    let mut key = cache_key.to_string();
    key.append(":");
    key.append(plan.container.as_str());
    key.append(":");
    text::push_decimal(&mut key, plan.output_rate as u64);
    key.append(":");
    text::push_decimal(&mut key, plan.output_bits as u64);
    key
}

/// The kind of file that a plan produces.
pub open spec fn spec_output_kind(container: Seq<char>) -> Seq<char> {
    if container == "dop_wav"@ {
        "wav"@
    } else {
        container
    }
}

/// The kind of file that a plan produces: a marked WAV is a WAV.
pub fn output_kind_for_plan<'a>(plan: &'a UpnpRenderPlan) -> (r: &'a str)
    ensures
        r@ == spec_output_kind(plan.container@),
{
    let container = plan.container.as_str();
    if *container == *"dop_wav" {
        "wav"
    } else {
        container
    }
}

/// What the identifier of a generated asset covers.
pub open spec fn asset_id_preimage(source_key: Seq<char>, signature: Seq<char>) -> Seq<u8> {
    bytes::text_bytes("generated-upnp-dsp"@) + bytes::text_bytes(source_key) + bytes::text_bytes(
        signature,
    )
}

/// The identifier of a generated asset.
pub fn generated_dsp_asset_id(source_ref: &SourceRef, signature: &str) -> (r: String)
    ensures
        r@ == digest::fingerprint_text(asset_id_preimage(source_ref.spec_key(), signature@)),
{
    let mut out: Vec<u8> = Vec::new();
    bytes::push_text(&mut out, "generated-upnp-dsp");
    bytes::push_text(&mut out, source_ref.key().as_str());
    bytes::push_text(&mut out, signature);
    proof {
        assert(out@ =~= asset_id_preimage(source_ref.spec_key(), signature@));
    }
    digest::fingerprint(&out)
}

/// The signature of the plan for a source, from a playback configuration.
pub fn passthrough_render_signature(
    source_ref: &SourceRef,
    source_rate: u32,
    source_bits: u32,
    render_config: &UpnpDspRenderConfig,
) -> (r: String)
    ensures
        ({
            let shape = plan_shape(*render_config, source_rate, source_bits);
            r@ == digest::fingerprint_text(
                signature_preimage(
                    source_ref.spec_key(),
                    source_rate,
                    source_bits,
                    shape.output_rate,
                    shape.output_bits,
                    shape.container,
                    *render_config,
                ),
            )
        }),
{
    render_plan_for_source(render_config, source_ref, source_rate, source_bits).signature
}

/// The name of the temporary file that a cache file is written to first: a
/// hidden sibling with a random part.
pub fn cache_temp_file_name(file_name: Option<&str>, token: &[u8]) -> (r: String)
    ensures
        r@ == "."@ + (match file_name {
            Some(name) => name@,
            None => "upnp-dsp"@,
        }) + "."@ + digest::base64_text(token@) + ".tmp"@,
{
    let mut name = ".".to_string();
    match file_name {
        Some(given) => name.append(given),
        None => name.append("upnp-dsp"),
    }
    name.append(".");
    name.append(digest::base64_encode(token).as_str());
    name.append(".tmp");
    name
}

/// The dither as a fingerprint covers it.
spec fn dither_bytes(config: UpnpDspRenderConfig, output_bits: u32) -> Seq<u8> {
    if output_bits == 16 {
        bytes::text_bytes(config.dither_mode.spec_name())
    } else {
        Seq::empty()
    }
}

spec fn flag_value(flag: bool) -> nat {
    if flag {
        1
    } else {
        0
    }
}

/// Two configurations differ in exactly one setting of the processing.
spec fn differ_in_one(a: UpnpDspRenderConfig, b: UpnpDspRenderConfig) -> bool {
    ||| b == (UpnpDspRenderConfig { filter_type: b.filter_type, ..a }) && !(a.filter_type.name@ == b.filter_type.name@)
    ||| b == (UpnpDspRenderConfig { target_rate: b.target_rate, ..a }) && !(a.target_rate == b.target_rate)
    ||| b == (UpnpDspRenderConfig { target_bit_depth: b.target_bit_depth, ..a }) && !(a.target_bit_depth == b.target_bit_depth)
    ||| b == (UpnpDspRenderConfig { upsampling_enabled: b.upsampling_enabled, ..a }) && !(a.upsampling_enabled == b.upsampling_enabled)
    ||| b == (UpnpDspRenderConfig { output_mode: b.output_mode, ..a }) && !(a.output_mode == b.output_mode)
    ||| b == (UpnpDspRenderConfig { dsd_modulator: b.dsd_modulator, ..a }) && !(a.dsd_modulator@ == b.dsd_modulator@)
    ||| b == (UpnpDspRenderConfig { dsd_isi_penalty: b.dsd_isi_penalty, ..a }) && !(a.dsd_isi_penalty == b.dsd_isi_penalty)
    ||| b == (UpnpDspRenderConfig { headroom: b.headroom, ..a }) && !(a.headroom.db == b.headroom.db)
    ||| b == (UpnpDspRenderConfig { eq: b.eq, ..a }) && !(a.eq.encoded@ == b.eq.encoded@)
    ||| b == (UpnpDspRenderConfig { dsd_rules_encoded: b.dsd_rules_encoded, ..a }) && !(a.dsd_rules_encoded@ == b.dsd_rules_encoded@)
}

proof fn lemma_processing_covers_filter_type(a: UpnpDspRenderConfig, b: UpnpDspRenderConfig, bits: u32)
    requires
        b == (UpnpDspRenderConfig { filter_type: b.filter_type, ..a }),
        processing_bytes(a, bits) == processing_bytes(b, bits),
    ensures
        a.filter_type.name@ == b.filter_type.name@,
{
    bytes::lemma_byte_spans();
    let before = dither_bytes(a, bits);
    let after = bytes::le_bytes(a.target_rate as nat, 4) + bytes::le_bytes(a.target_bit_depth as nat, 4) + bytes::le_bytes(flag_value(a.upsampling_enabled), 1) + bytes::text_bytes(a.output_mode.spec_name()) + bytes::text_bytes(a.dsd_modulator@) + bytes::le_bytes(a.dsd_isi_penalty.bits as nat, 4) + bytes::le_bytes(a.headroom.db.bits as nat, 4) + a.eq.encoded@ + a.dsd_rules_encoded@;
    assert(processing_bytes(a, bits) =~= before + bytes::text_bytes(a.filter_type.name@) + after);
    assert(processing_bytes(b, bits) =~= before + bytes::text_bytes(b.filter_type.name@) + after);
    bytes::law_middle_cancels(
        before,
        bytes::text_bytes(a.filter_type.name@),
        bytes::text_bytes(b.filter_type.name@),
        after,
    );
    bytes::law_text_bytes_injective(a.filter_type.name@, b.filter_type.name@);
}

proof fn lemma_processing_covers_target_rate(a: UpnpDspRenderConfig, b: UpnpDspRenderConfig, bits: u32)
    requires
        b == (UpnpDspRenderConfig { target_rate: b.target_rate, ..a }),
        processing_bytes(a, bits) == processing_bytes(b, bits),
    ensures
        a.target_rate == b.target_rate,
{
    bytes::lemma_byte_spans();
    let before = dither_bytes(a, bits) + bytes::text_bytes(a.filter_type.name@);
    let after = bytes::le_bytes(a.target_bit_depth as nat, 4) + bytes::le_bytes(flag_value(a.upsampling_enabled), 1) + bytes::text_bytes(a.output_mode.spec_name()) + bytes::text_bytes(a.dsd_modulator@) + bytes::le_bytes(a.dsd_isi_penalty.bits as nat, 4) + bytes::le_bytes(a.headroom.db.bits as nat, 4) + a.eq.encoded@ + a.dsd_rules_encoded@;
    assert(processing_bytes(a, bits) =~= before + bytes::le_bytes(a.target_rate as nat, 4) + after);
    assert(processing_bytes(b, bits) =~= before + bytes::le_bytes(b.target_rate as nat, 4) + after);
    bytes::law_middle_cancels(
        before,
        bytes::le_bytes(a.target_rate as nat, 4),
        bytes::le_bytes(b.target_rate as nat, 4),
        after,
    );
    bytes::law_le_bytes_injective(a.target_rate as nat, b.target_rate as nat, 4);
}

proof fn lemma_processing_covers_target_bit_depth(a: UpnpDspRenderConfig, b: UpnpDspRenderConfig, bits: u32)
    requires
        b == (UpnpDspRenderConfig { target_bit_depth: b.target_bit_depth, ..a }),
        processing_bytes(a, bits) == processing_bytes(b, bits),
    ensures
        a.target_bit_depth == b.target_bit_depth,
{
    bytes::lemma_byte_spans();
    let before = dither_bytes(a, bits) + bytes::text_bytes(a.filter_type.name@) + bytes::le_bytes(a.target_rate as nat, 4);
    let after = bytes::le_bytes(flag_value(a.upsampling_enabled), 1) + bytes::text_bytes(a.output_mode.spec_name()) + bytes::text_bytes(a.dsd_modulator@) + bytes::le_bytes(a.dsd_isi_penalty.bits as nat, 4) + bytes::le_bytes(a.headroom.db.bits as nat, 4) + a.eq.encoded@ + a.dsd_rules_encoded@;
    assert(processing_bytes(a, bits) =~= before + bytes::le_bytes(a.target_bit_depth as nat, 4) + after);
    assert(processing_bytes(b, bits) =~= before + bytes::le_bytes(b.target_bit_depth as nat, 4) + after);
    bytes::law_middle_cancels(
        before,
        bytes::le_bytes(a.target_bit_depth as nat, 4),
        bytes::le_bytes(b.target_bit_depth as nat, 4),
        after,
    );
    bytes::law_le_bytes_injective(a.target_bit_depth as nat, b.target_bit_depth as nat, 4);
}

proof fn lemma_processing_covers_upsampling_enabled(a: UpnpDspRenderConfig, b: UpnpDspRenderConfig, bits: u32)
    requires
        b == (UpnpDspRenderConfig { upsampling_enabled: b.upsampling_enabled, ..a }),
        processing_bytes(a, bits) == processing_bytes(b, bits),
    ensures
        a.upsampling_enabled == b.upsampling_enabled,
{
    bytes::lemma_byte_spans();
    let before = dither_bytes(a, bits) + bytes::text_bytes(a.filter_type.name@) + bytes::le_bytes(a.target_rate as nat, 4) + bytes::le_bytes(a.target_bit_depth as nat, 4);
    let after = bytes::text_bytes(a.output_mode.spec_name()) + bytes::text_bytes(a.dsd_modulator@) + bytes::le_bytes(a.dsd_isi_penalty.bits as nat, 4) + bytes::le_bytes(a.headroom.db.bits as nat, 4) + a.eq.encoded@ + a.dsd_rules_encoded@;
    assert(processing_bytes(a, bits) =~= before + bytes::le_bytes(flag_value(a.upsampling_enabled), 1) + after);
    assert(processing_bytes(b, bits) =~= before + bytes::le_bytes(flag_value(b.upsampling_enabled), 1) + after);
    bytes::law_middle_cancels(
        before,
        bytes::le_bytes(flag_value(a.upsampling_enabled), 1),
        bytes::le_bytes(flag_value(b.upsampling_enabled), 1),
        after,
    );
    bytes::law_le_bytes_injective(flag_value(a.upsampling_enabled), flag_value(b.upsampling_enabled), 1);
}

proof fn lemma_processing_covers_output_mode(a: UpnpDspRenderConfig, b: UpnpDspRenderConfig, bits: u32)
    requires
        b == (UpnpDspRenderConfig { output_mode: b.output_mode, ..a }),
        processing_bytes(a, bits) == processing_bytes(b, bits),
    ensures
        a.output_mode == b.output_mode,
{
    bytes::lemma_byte_spans();
    let before = dither_bytes(a, bits) + bytes::text_bytes(a.filter_type.name@) + bytes::le_bytes(a.target_rate as nat, 4) + bytes::le_bytes(a.target_bit_depth as nat, 4) + bytes::le_bytes(flag_value(a.upsampling_enabled), 1);
    let after = bytes::text_bytes(a.dsd_modulator@) + bytes::le_bytes(a.dsd_isi_penalty.bits as nat, 4) + bytes::le_bytes(a.headroom.db.bits as nat, 4) + a.eq.encoded@ + a.dsd_rules_encoded@;
    assert(processing_bytes(a, bits) =~= before + bytes::text_bytes(a.output_mode.spec_name()) + after);
    assert(processing_bytes(b, bits) =~= before + bytes::text_bytes(b.output_mode.spec_name()) + after);
    bytes::law_middle_cancels(
        before,
        bytes::text_bytes(a.output_mode.spec_name()),
        bytes::text_bytes(b.output_mode.spec_name()),
        after,
    );
    bytes::law_text_bytes_injective(a.output_mode.spec_name(), b.output_mode.spec_name());
            law_output_mode_names_round_trip(a.output_mode);
            law_output_mode_names_round_trip(b.output_mode);
}

proof fn lemma_processing_covers_dsd_modulator(a: UpnpDspRenderConfig, b: UpnpDspRenderConfig, bits: u32)
    requires
        b == (UpnpDspRenderConfig { dsd_modulator: b.dsd_modulator, ..a }),
        processing_bytes(a, bits) == processing_bytes(b, bits),
    ensures
        a.dsd_modulator@ == b.dsd_modulator@,
{
    bytes::lemma_byte_spans();
    let before = dither_bytes(a, bits) + bytes::text_bytes(a.filter_type.name@) + bytes::le_bytes(a.target_rate as nat, 4) + bytes::le_bytes(a.target_bit_depth as nat, 4) + bytes::le_bytes(flag_value(a.upsampling_enabled), 1) + bytes::text_bytes(a.output_mode.spec_name());
    let after = bytes::le_bytes(a.dsd_isi_penalty.bits as nat, 4) + bytes::le_bytes(a.headroom.db.bits as nat, 4) + a.eq.encoded@ + a.dsd_rules_encoded@;
    assert(processing_bytes(a, bits) =~= before + bytes::text_bytes(a.dsd_modulator@) + after);
    assert(processing_bytes(b, bits) =~= before + bytes::text_bytes(b.dsd_modulator@) + after);
    bytes::law_middle_cancels(
        before,
        bytes::text_bytes(a.dsd_modulator@),
        bytes::text_bytes(b.dsd_modulator@),
        after,
    );
    bytes::law_text_bytes_injective(a.dsd_modulator@, b.dsd_modulator@);
}

proof fn lemma_processing_covers_dsd_isi_penalty(a: UpnpDspRenderConfig, b: UpnpDspRenderConfig, bits: u32)
    requires
        b == (UpnpDspRenderConfig { dsd_isi_penalty: b.dsd_isi_penalty, ..a }),
        processing_bytes(a, bits) == processing_bytes(b, bits),
    ensures
        a.dsd_isi_penalty == b.dsd_isi_penalty,
{
    bytes::lemma_byte_spans();
    let before = dither_bytes(a, bits) + bytes::text_bytes(a.filter_type.name@) + bytes::le_bytes(a.target_rate as nat, 4) + bytes::le_bytes(a.target_bit_depth as nat, 4) + bytes::le_bytes(flag_value(a.upsampling_enabled), 1) + bytes::text_bytes(a.output_mode.spec_name()) + bytes::text_bytes(a.dsd_modulator@);
    let after = bytes::le_bytes(a.headroom.db.bits as nat, 4) + a.eq.encoded@ + a.dsd_rules_encoded@;
    assert(processing_bytes(a, bits) =~= before + bytes::le_bytes(a.dsd_isi_penalty.bits as nat, 4) + after);
    assert(processing_bytes(b, bits) =~= before + bytes::le_bytes(b.dsd_isi_penalty.bits as nat, 4) + after);
    bytes::law_middle_cancels(
        before,
        bytes::le_bytes(a.dsd_isi_penalty.bits as nat, 4),
        bytes::le_bytes(b.dsd_isi_penalty.bits as nat, 4),
        after,
    );
    bytes::law_le_bytes_injective(a.dsd_isi_penalty.bits as nat, b.dsd_isi_penalty.bits as nat, 4);
}

proof fn lemma_processing_covers_headroom(a: UpnpDspRenderConfig, b: UpnpDspRenderConfig, bits: u32)
    requires
        b == (UpnpDspRenderConfig { headroom: b.headroom, ..a }),
        processing_bytes(a, bits) == processing_bytes(b, bits),
    ensures
        a.headroom.db == b.headroom.db,
{
    bytes::lemma_byte_spans();
    let before = dither_bytes(a, bits) + bytes::text_bytes(a.filter_type.name@) + bytes::le_bytes(a.target_rate as nat, 4) + bytes::le_bytes(a.target_bit_depth as nat, 4) + bytes::le_bytes(flag_value(a.upsampling_enabled), 1) + bytes::text_bytes(a.output_mode.spec_name()) + bytes::text_bytes(a.dsd_modulator@) + bytes::le_bytes(a.dsd_isi_penalty.bits as nat, 4);
    let after = a.eq.encoded@ + a.dsd_rules_encoded@;
    assert(processing_bytes(a, bits) =~= before + bytes::le_bytes(a.headroom.db.bits as nat, 4) + after);
    assert(processing_bytes(b, bits) =~= before + bytes::le_bytes(b.headroom.db.bits as nat, 4) + after);
    bytes::law_middle_cancels(
        before,
        bytes::le_bytes(a.headroom.db.bits as nat, 4),
        bytes::le_bytes(b.headroom.db.bits as nat, 4),
        after,
    );
    bytes::law_le_bytes_injective(a.headroom.db.bits as nat, b.headroom.db.bits as nat, 4);
}

proof fn lemma_processing_covers_eq(a: UpnpDspRenderConfig, b: UpnpDspRenderConfig, bits: u32)
    requires
        b == (UpnpDspRenderConfig { eq: b.eq, ..a }),
        processing_bytes(a, bits) == processing_bytes(b, bits),
    ensures
        a.eq.encoded@ == b.eq.encoded@,
{
    bytes::lemma_byte_spans();
    let before = dither_bytes(a, bits) + bytes::text_bytes(a.filter_type.name@) + bytes::le_bytes(a.target_rate as nat, 4) + bytes::le_bytes(a.target_bit_depth as nat, 4) + bytes::le_bytes(flag_value(a.upsampling_enabled), 1) + bytes::text_bytes(a.output_mode.spec_name()) + bytes::text_bytes(a.dsd_modulator@) + bytes::le_bytes(a.dsd_isi_penalty.bits as nat, 4) + bytes::le_bytes(a.headroom.db.bits as nat, 4);
    let after = a.dsd_rules_encoded@;
    assert(processing_bytes(a, bits) =~= before + a.eq.encoded@ + after);
    assert(processing_bytes(b, bits) =~= before + b.eq.encoded@ + after);
    bytes::law_middle_cancels(
        before,
        a.eq.encoded@,
        b.eq.encoded@,
        after,
    );
}

proof fn lemma_processing_covers_dsd_rules_encoded(a: UpnpDspRenderConfig, b: UpnpDspRenderConfig, bits: u32)
    requires
        b == (UpnpDspRenderConfig { dsd_rules_encoded: b.dsd_rules_encoded, ..a }),
        processing_bytes(a, bits) == processing_bytes(b, bits),
    ensures
        a.dsd_rules_encoded@ == b.dsd_rules_encoded@,
{
    bytes::lemma_byte_spans();
    let before = dither_bytes(a, bits) + bytes::text_bytes(a.filter_type.name@) + bytes::le_bytes(a.target_rate as nat, 4) + bytes::le_bytes(a.target_bit_depth as nat, 4) + bytes::le_bytes(flag_value(a.upsampling_enabled), 1) + bytes::text_bytes(a.output_mode.spec_name()) + bytes::text_bytes(a.dsd_modulator@) + bytes::le_bytes(a.dsd_isi_penalty.bits as nat, 4) + bytes::le_bytes(a.headroom.db.bits as nat, 4) + a.eq.encoded@;
    let after = Seq::<u8>::empty();
    assert(processing_bytes(a, bits) =~= before + a.dsd_rules_encoded@ + after);
    assert(processing_bytes(b, bits) =~= before + b.dsd_rules_encoded@ + after);
    bytes::law_middle_cancels(
        before,
        a.dsd_rules_encoded@,
        b.dsd_rules_encoded@,
        after,
    );
}

/// Processing that differs in one setting is told apart.
proof fn lemma_processing_tells_settings_apart(
    a: UpnpDspRenderConfig,
    b: UpnpDspRenderConfig,
    bits: u32,
)
    requires
        differ_in_one(a, b),
    ensures
        processing_bytes(a, bits) != processing_bytes(b, bits),
{
    if processing_bytes(a, bits) == processing_bytes(b, bits) {
        if b == (UpnpDspRenderConfig { filter_type: b.filter_type, ..a }) && !(a.filter_type.name@ == b.filter_type.name@) {
            lemma_processing_covers_filter_type(a, b, bits);
        }
        if b == (UpnpDspRenderConfig { target_rate: b.target_rate, ..a }) && !(a.target_rate == b.target_rate) {
            lemma_processing_covers_target_rate(a, b, bits);
        }
        if b == (UpnpDspRenderConfig { target_bit_depth: b.target_bit_depth, ..a }) && !(a.target_bit_depth == b.target_bit_depth) {
            lemma_processing_covers_target_bit_depth(a, b, bits);
        }
        if b == (UpnpDspRenderConfig { upsampling_enabled: b.upsampling_enabled, ..a }) && !(a.upsampling_enabled == b.upsampling_enabled) {
            lemma_processing_covers_upsampling_enabled(a, b, bits);
        }
        if b == (UpnpDspRenderConfig { output_mode: b.output_mode, ..a }) && !(a.output_mode == b.output_mode) {
            lemma_processing_covers_output_mode(a, b, bits);
        }
        if b == (UpnpDspRenderConfig { dsd_modulator: b.dsd_modulator, ..a }) && !(a.dsd_modulator@ == b.dsd_modulator@) {
            lemma_processing_covers_dsd_modulator(a, b, bits);
        }
        if b == (UpnpDspRenderConfig { dsd_isi_penalty: b.dsd_isi_penalty, ..a }) && !(a.dsd_isi_penalty == b.dsd_isi_penalty) {
            lemma_processing_covers_dsd_isi_penalty(a, b, bits);
        }
        if b == (UpnpDspRenderConfig { headroom: b.headroom, ..a }) && !(a.headroom.db == b.headroom.db) {
            lemma_processing_covers_headroom(a, b, bits);
        }
        if b == (UpnpDspRenderConfig { eq: b.eq, ..a }) && !(a.eq.encoded@ == b.eq.encoded@) {
            lemma_processing_covers_eq(a, b, bits);
        }
        if b == (UpnpDspRenderConfig { dsd_rules_encoded: b.dsd_rules_encoded, ..a }) && !(a.dsd_rules_encoded@ == b.dsd_rules_encoded@) {
            lemma_processing_covers_dsd_rules_encoded(a, b, bits);
        }
    }
}

/// A changed setting is rendered anew: two configurations that differ in the
/// filter, the rate, the depth, the upsampling, the output mode, the
/// modulator, its penalty, the headroom, the equalizer or the one-bit rules
/// have different cache keys before hashing, and different signatures of every
/// output that is rendered.
pub proof fn law_changed_setting_is_rendered_anew(
    source_key: Seq<char>,
    source_rate: u32,
    source_bits: u32,
    output_rate: u32,
    output_bits: u32,
    container: Seq<char>,
    plan: UpnpRenderPlan,
    a: UpnpDspRenderConfig,
    b: UpnpDspRenderConfig,
)
    requires
        (b == (UpnpDspRenderConfig { filter_type: b.filter_type, ..a }) && !(a.filter_type.name@ == b.filter_type.name@))
            || (b == (UpnpDspRenderConfig { target_rate: b.target_rate, ..a }) && !(a.target_rate == b.target_rate))
            || (b == (UpnpDspRenderConfig { target_bit_depth: b.target_bit_depth, ..a }) && !(a.target_bit_depth == b.target_bit_depth))
            || (b == (UpnpDspRenderConfig { upsampling_enabled: b.upsampling_enabled, ..a }) && !(a.upsampling_enabled == b.upsampling_enabled))
            || (b == (UpnpDspRenderConfig { output_mode: b.output_mode, ..a }) && !(a.output_mode == b.output_mode))
            || (b == (UpnpDspRenderConfig { dsd_modulator: b.dsd_modulator, ..a }) && !(a.dsd_modulator@ == b.dsd_modulator@))
            || (b == (UpnpDspRenderConfig { dsd_isi_penalty: b.dsd_isi_penalty, ..a }) && !(a.dsd_isi_penalty == b.dsd_isi_penalty))
            || (b == (UpnpDspRenderConfig { headroom: b.headroom, ..a }) && !(a.headroom.db == b.headroom.db))
            || (b == (UpnpDspRenderConfig { eq: b.eq, ..a }) && !(a.eq.encoded@ == b.eq.encoded@))
            || (b == (UpnpDspRenderConfig { dsd_rules_encoded: b.dsd_rules_encoded, ..a }) && !(a.dsd_rules_encoded@ == b.dsd_rules_encoded@)),
    ensures
        cache_key_preimage(source_key, a, plan) != cache_key_preimage(source_key, b, plan),
        container != "passthrough"@ ==> signature_preimage(
            source_key,
            source_rate,
            source_bits,
            output_rate,
            output_bits,
            container,
            a,
        ) != signature_preimage(
            source_key,
            source_rate,
            source_bits,
            output_rate,
            output_bits,
            container,
            b,
        ),
{
    lemma_processing_tells_settings_apart(a, b, plan.output_bits);
    lemma_processing_tells_settings_apart(a, b, output_bits);
    let before = bytes::text_bytes(cache_schema()) + bytes::text_bytes(source_key)
        + bytes::le_bytes(plan.output_rate as nat, 4) + bytes::le_bytes(
        plan.output_bits as nat,
        4,
    ) + bytes::text_bytes(plan.container@);
    let after = target_bytes(a.target);
    if cache_key_preimage(source_key, a, plan) == cache_key_preimage(source_key, b, plan) {
        bytes::law_middle_cancels(
            before,
            processing_bytes(a, plan.output_bits),
            processing_bytes(b, plan.output_bits),
            after,
        );
    }
    let common = bytes::text_bytes(cache_schema()) + bytes::text_bytes(source_key)
        + bytes::le_bytes(source_rate as nat, 4) + bytes::le_bytes(source_bits as nat, 4)
        + bytes::le_bytes(output_rate as nat, 4) + bytes::le_bytes(output_bits as nat, 4)
        + bytes::text_bytes(container) + target_bytes(a.target);
    let x = processing_bytes(a, output_bits);
    let y = processing_bytes(b, output_bits);
    if common + x == common + y {
        assert(common + x + Seq::<u8>::empty() =~= common + x);
        assert(common + y + Seq::<u8>::empty() =~= common + y);
        bytes::law_middle_cancels(common, x, y, Seq::empty());
    }
}

/// Another output is rendered anew: cache keys before hashing tell apart the
/// source, the rate, the depth and the container of the output, and what is
/// known of the renderer.
#[verifier::rlimit(100)]
#[verifier::spinoff_prover]
pub proof fn law_changed_output_is_cached_apart(
    key_a: Seq<char>,
    key_b: Seq<char>,
    config: UpnpDspRenderConfig,
    target: UpnpRendererTarget,
    a: UpnpRenderPlan,
    b: UpnpRenderPlan,
)
    ensures
        cache_key_preimage(key_a, config, a) == cache_key_preimage(key_b, config, a) ==> key_a
            == key_b,
        b.output_bits == a.output_bits && b.container == a.container && cache_key_preimage(
            key_a,
            config,
            a,
        ) == cache_key_preimage(key_a, config, b) ==> a.output_rate == b.output_rate,
        b.output_rate == a.output_rate && b.container == a.container && cache_key_preimage(
            key_a,
            config,
            a,
        ) == cache_key_preimage(key_a, config, b) ==> a.output_bits == b.output_bits,
        b.output_rate == a.output_rate && b.output_bits == a.output_bits && cache_key_preimage(
            key_a,
            config,
            a,
        ) == cache_key_preimage(key_a, config, b) ==> a.container@ == b.container@,
        ({
            let other = UpnpDspRenderConfig { target, ..config };
            cache_key_preimage(key_a, config, a) == cache_key_preimage(key_a, other, a)
                ==> target_bytes(config.target) == target_bytes(target)
        }),
{
    bytes::lemma_byte_spans();
    let schema = bytes::text_bytes(cache_schema());
    let key = bytes::text_bytes(key_a);
    let rate = bytes::le_bytes(a.output_rate as nat, 4);
    let bits = bytes::le_bytes(a.output_bits as nat, 4);
    let container = bytes::text_bytes(a.container@);
    let processing = processing_bytes(config, a.output_bits);
    let renderer = target_bytes(config.target);
    let whole = cache_key_preimage(key_a, config, a);
    assert(whole =~= schema + key + (rate + bits + container + processing + renderer));
    assert(whole =~= (schema + key) + rate + (bits + container + processing + renderer));
    assert(whole =~= (schema + key + rate) + bits + (container + processing + renderer));
    assert(whole =~= (schema + key + rate + bits) + container + (processing + renderer));
    if whole == cache_key_preimage(key_b, config, a) {
        assert(cache_key_preimage(key_b, config, a) =~= schema + bytes::text_bytes(key_b) + (rate
            + bits + container + processing + renderer));
        bytes::law_middle_cancels(
            schema,
            key,
            bytes::text_bytes(key_b),
            rate + bits + container + processing + renderer,
        );
        bytes::law_text_bytes_injective(key_a, key_b);
    }
    let rate_b = bytes::le_bytes(b.output_rate as nat, 4);
    let bits_b = bytes::le_bytes(b.output_bits as nat, 4);
    let container_b = bytes::text_bytes(b.container@);
    let processing_b = processing_bytes(config, b.output_bits);
    let whole_b = cache_key_preimage(key_a, config, b);
    bytes::lemma_le_bytes_len(a.output_rate as nat, 4);
    bytes::lemma_le_bytes_len(b.output_rate as nat, 4);
    bytes::lemma_le_bytes_len(a.output_bits as nat, 4);
    bytes::lemma_le_bytes_len(b.output_bits as nat, 4);
    assert(whole_b =~= (schema + key) + rate_b + (bits_b + container_b + processing_b + renderer));
    assert(whole_b =~= (schema + key + rate_b) + bits_b + (container_b + processing_b + renderer));
    assert(whole_b =~= (schema + key + rate_b + bits_b) + container_b + (processing_b + renderer));
    if whole == whole_b {
        bytes::law_head_cancels(
            schema + key,
            rate,
            rate_b,
            bits + container + processing + renderer,
            bits_b + container_b + processing_b + renderer,
        );
        bytes::law_le_bytes_injective(a.output_rate as nat, b.output_rate as nat, 4);
        bytes::law_head_cancels(
            schema + key + rate,
            bits,
            bits_b,
            container + processing + renderer,
            container_b + processing_b + renderer,
        );
        bytes::law_le_bytes_injective(a.output_bits as nat, b.output_bits as nat, 4);
        bytes::law_middle_cancels(
            schema + key + rate + bits,
            container,
            container_b,
            processing + renderer,
        );
        bytes::law_text_bytes_injective(a.container@, b.container@);
    }
    let other = UpnpDspRenderConfig { target, ..config };
    if whole == cache_key_preimage(key_a, other, a) {
        let before = schema + key + rate + bits + container + processing;
        assert(whole =~= before + renderer + Seq::<u8>::empty());
        assert(cache_key_preimage(key_a, other, a) =~= before + target_bytes(target) + Seq::<
            u8,
        >::empty());
        bytes::law_middle_cancels(before, renderer, target_bytes(target), Seq::empty());
    }
}

/// Signatures before hashing tell apart the source with its rate and depth,
/// the rate, the depth and the container of the output, and what is known of
/// the renderer.
#[verifier::rlimit(100)]
#[verifier::spinoff_prover]
pub proof fn law_changed_output_is_signed_apart(
    key_a: Seq<char>,
    key_b: Seq<char>,
    source_rate_a: u32,
    source_rate_b: u32,
    source_bits_a: u32,
    source_bits_b: u32,
    output_rate_a: u32,
    output_rate_b: u32,
    output_bits_a: u32,
    output_bits_b: u32,
    container: Seq<char>,
    config: UpnpDspRenderConfig,
)
    requires
        signature_preimage(
            key_a,
            source_rate_a,
            source_bits_a,
            output_rate_a,
            output_bits_a,
            container,
            config,
        ) == signature_preimage(
            key_b,
            source_rate_b,
            source_bits_b,
            output_rate_b,
            output_bits_b,
            container,
            config,
        ),
    ensures
        key_a == key_b ==> source_rate_a == source_rate_b && source_bits_a == source_bits_b
            && output_rate_a == output_rate_b && output_bits_a == output_bits_b,
        source_rate_a == source_rate_b && source_bits_a == source_bits_b && output_rate_a
            == output_rate_b && output_bits_a == output_bits_b ==> key_a == key_b,
{
    bytes::lemma_byte_spans();
    let schema = bytes::text_bytes(cache_schema());
    let ka = bytes::text_bytes(key_a);
    let kb = bytes::text_bytes(key_b);
    let sa = bytes::le_bytes(source_rate_a as nat, 4);
    let sb = bytes::le_bytes(source_rate_b as nat, 4);
    let da = bytes::le_bytes(source_bits_a as nat, 4);
    let db = bytes::le_bytes(source_bits_b as nat, 4);
    let ra = bytes::le_bytes(output_rate_a as nat, 4);
    let rb = bytes::le_bytes(output_rate_b as nat, 4);
    let oa = bytes::le_bytes(output_bits_a as nat, 4);
    let ob = bytes::le_bytes(output_bits_b as nat, 4);
    let tail = bytes::text_bytes(container) + target_bytes(config.target);
    let ta = tail + (if container == "passthrough"@ {
        Seq::empty()
    } else {
        processing_bytes(config, output_bits_a)
    });
    let tb = tail + (if container == "passthrough"@ {
        Seq::empty()
    } else {
        processing_bytes(config, output_bits_b)
    });
    let a = signature_preimage(
        key_a,
        source_rate_a,
        source_bits_a,
        output_rate_a,
        output_bits_a,
        container,
        config,
    );
    let b = signature_preimage(
        key_b,
        source_rate_b,
        source_bits_b,
        output_rate_b,
        output_bits_b,
        container,
        config,
    );
    assert(a =~= schema + ka + (sa + da + ra + oa + ta));
    assert(b =~= schema + kb + (sb + db + rb + ob + tb));
    bytes::lemma_le_bytes_len(source_rate_a as nat, 4);
    bytes::lemma_le_bytes_len(source_rate_b as nat, 4);
    bytes::lemma_le_bytes_len(source_bits_a as nat, 4);
    bytes::lemma_le_bytes_len(source_bits_b as nat, 4);
    bytes::lemma_le_bytes_len(output_rate_a as nat, 4);
    bytes::lemma_le_bytes_len(output_rate_b as nat, 4);
    bytes::lemma_le_bytes_len(output_bits_a as nat, 4);
    bytes::lemma_le_bytes_len(output_bits_b as nat, 4);
    if key_a == key_b {
        let quad_a = sa + da + ra + oa;
        let quad_b = sb + db + rb + ob;
        assert(a =~= (schema + ka) + quad_a + ta);
        assert(b =~= (schema + ka) + quad_b + tb);
        bytes::law_head_cancels(schema + ka, quad_a, quad_b, ta, tb);
        assert(sa =~= quad_a.subrange(0, 4) && sb =~= quad_b.subrange(0, 4));
        assert(da =~= quad_a.subrange(4, 8) && db =~= quad_b.subrange(4, 8));
        assert(ra =~= quad_a.subrange(8, 12) && rb =~= quad_b.subrange(8, 12));
        assert(oa =~= quad_a.subrange(12, 16) && ob =~= quad_b.subrange(12, 16));
        bytes::law_le_bytes_injective(source_rate_a as nat, source_rate_b as nat, 4);
        bytes::law_le_bytes_injective(source_bits_a as nat, source_bits_b as nat, 4);
        bytes::law_le_bytes_injective(output_rate_a as nat, output_rate_b as nat, 4);
        bytes::law_le_bytes_injective(output_bits_a as nat, output_bits_b as nat, 4);
    }
    if source_rate_a == source_rate_b && source_bits_a == source_bits_b && output_rate_a
        == output_rate_b && output_bits_a == output_bits_b {
        bytes::law_middle_cancels(schema, ka, kb, sa + da + ra + oa + ta);
        bytes::law_text_bytes_injective(key_a, key_b);
    }
}

/// What fingerprints cover of a renderer tells apart its name on the network
/// and each of its limits.
pub proof fn law_renderer_is_covered(a: UpnpRendererTarget, b: UpnpRendererTarget)
    requires
        target_bytes(a) == target_bytes(b),
    ensures
        a.id@ == b.id@ ==> a.max_sample_rate == b.max_sample_rate && a.max_bit_depth
            == b.max_bit_depth && a.max_dsd_rate.unwrap_or(0) == b.max_dsd_rate.unwrap_or(0),
        a.max_sample_rate == b.max_sample_rate && a.max_bit_depth == b.max_bit_depth
            && a.max_dsd_rate == b.max_dsd_rate ==> a.id@ == b.id@,
{
    bytes::lemma_byte_spans();
    let ia = bytes::text_bytes(a.id@);
    let ib = bytes::text_bytes(b.id@);
    let ra = bytes::le_bytes(a.max_sample_rate as nat, 4);
    let rb = bytes::le_bytes(b.max_sample_rate as nat, 4);
    let da = bytes::le_bytes(a.max_bit_depth as nat, 1);
    let db = bytes::le_bytes(b.max_bit_depth as nat, 1);
    let na: nat = a.max_dsd_rate.unwrap_or(0) as nat;
    let nb: nat = b.max_dsd_rate.unwrap_or(0) as nat;
    let oa = bytes::le_bytes(na, 2);
    let ob = bytes::le_bytes(nb, 2);
    bytes::lemma_le_bytes_len(a.max_sample_rate as nat, 4);
    bytes::lemma_le_bytes_len(b.max_sample_rate as nat, 4);
    bytes::lemma_le_bytes_len(a.max_bit_depth as nat, 1);
    bytes::lemma_le_bytes_len(b.max_bit_depth as nat, 1);
    bytes::lemma_le_bytes_len(na, 2);
    bytes::lemma_le_bytes_len(nb, 2);
    let qa = ra + da + oa;
    let qb = rb + db + ob;
    assert(target_bytes(a) =~= Seq::<u8>::empty() + ia + qa);
    assert(target_bytes(b) =~= Seq::<u8>::empty() + ib + qb);
    if a.id@ == b.id@ {
        assert(target_bytes(a) =~= ia + qa + Seq::<u8>::empty());
        assert(target_bytes(b) =~= ia + qb + Seq::<u8>::empty());
        bytes::law_middle_cancels(ia, qa, qb, Seq::empty());
        assert(ra =~= qa.subrange(0, 4) && rb =~= qb.subrange(0, 4));
        assert(da =~= qa.subrange(4, 5) && db =~= qb.subrange(4, 5));
        assert(oa =~= qa.subrange(5, 7) && ob =~= qb.subrange(5, 7));
        bytes::law_le_bytes_injective(a.max_sample_rate as nat, b.max_sample_rate as nat, 4);
        bytes::law_le_bytes_injective(a.max_bit_depth as nat, b.max_bit_depth as nat, 1);
        bytes::law_le_bytes_injective(na, nb, 2);
    }
    if qa == qb {
        bytes::law_middle_cancels(Seq::empty(), ia, ib, qa);
        bytes::law_text_bytes_injective(a.id@, b.id@);
    }
}

/// Fingerprints are as different as what they cover, unless the digests
/// collide in the eighteen bytes that are kept.
pub proof fn law_fingerprints_tell_apart(x: Seq<u8>, y: Seq<u8>)
    ensures
        digest::fingerprint_text(x) == digest::fingerprint_text(y) ==> digest::sha256_digest(
            x,
        ).take(18) == digest::sha256_digest(y).take(18),
{
    if digest::fingerprint_text(x) == digest::fingerprint_text(y) {
        digest::law_base64_injective(
            digest::sha256_digest(x).take(18),
            digest::sha256_digest(y).take(18),
        );
    }
}

proof fn lemma_lock_key_parts(key_a: Seq<char>, key_b: Seq<char>, a: UpnpRenderPlan)
    requires
        lock_key(key_a, a) == lock_key(key_b, a),
    ensures
        key_a == key_b,
{
    let none = Seq::<char>::empty();
    let after = ":"@ + a.container@ + ":"@ + text::decimal(a.output_rate as nat) + ":"@
        + text::decimal(a.output_bits as nat);
    assert(lock_key(key_a, a) =~= none + key_a + after);
    assert(lock_key(key_b, a) =~= none + key_b + after);
    bytes::law_middle_cancels(none, key_a, key_b, after);
}

proof fn lemma_lock_key_rate(key: Seq<char>, a: UpnpRenderPlan, b: UpnpRenderPlan)
    requires
        lock_key(key, a) == lock_key(key, b),
        a.container == b.container,
        a.output_bits == b.output_bits,
    ensures
        a.output_rate == b.output_rate,
{
    let before = key + ":"@ + a.container@ + ":"@;
    let after = ":"@ + text::decimal(a.output_bits as nat);
    let ra = text::decimal(a.output_rate as nat);
    let rb = text::decimal(b.output_rate as nat);
    assert(lock_key(key, a) =~= before + ra + after);
    assert(lock_key(key, b) =~= before + rb + after);
    bytes::law_middle_cancels(before, ra, rb, after);
    text::lemma_decimal_injective(a.output_rate as nat, b.output_rate as nat);
}

proof fn lemma_lock_key_bits(key: Seq<char>, a: UpnpRenderPlan, b: UpnpRenderPlan)
    requires
        lock_key(key, a) == lock_key(key, b),
        a.container == b.container,
        a.output_rate == b.output_rate,
    ensures
        a.output_bits == b.output_bits,
{
    let none = Seq::<char>::empty();
    let before = key + ":"@ + a.container@ + ":"@ + text::decimal(a.output_rate as nat) + ":"@;
    let da = text::decimal(a.output_bits as nat);
    let db = text::decimal(b.output_bits as nat);
    assert(lock_key(key, a) =~= before + da + none);
    assert(lock_key(key, b) =~= before + db + none);
    bytes::law_middle_cancels(before, da, db, none);
    text::lemma_decimal_injective(a.output_bits as nat, b.output_bits as nat);
}

proof fn lemma_lock_key_container(key: Seq<char>, a: UpnpRenderPlan, b: UpnpRenderPlan)
    requires
        lock_key(key, a) == lock_key(key, b),
        a.output_rate == b.output_rate,
        a.output_bits == b.output_bits,
    ensures
        a.container@ == b.container@,
{
    let before = key + ":"@;
    let after = ":"@ + text::decimal(a.output_rate as nat) + ":"@ + text::decimal(
        a.output_bits as nat,
    );
    assert(lock_key(key, a) =~= before + a.container@ + after);
    assert(lock_key(key, b) =~= before + b.container@ + after);
    bytes::law_middle_cancels(before, a.container@, b.container@, after);
}

/// Renders wait for each other only where they make one file: those of another
/// cache key, rate, depth or container go on.
pub proof fn law_other_renders_do_not_wait(
    key_a: Seq<char>,
    key_b: Seq<char>,
    a: UpnpRenderPlan,
    b: UpnpRenderPlan,
)
    ensures
        key_a != key_b ==> lock_key(key_a, a) != lock_key(key_b, a),
        a.container == b.container && a.output_bits == b.output_bits && a.output_rate
            != b.output_rate ==> lock_key(key_a, a) != lock_key(key_a, b),
        a.container == b.container && a.output_rate == b.output_rate && a.output_bits
            != b.output_bits ==> lock_key(key_a, a) != lock_key(key_a, b),
        a.output_rate == b.output_rate && a.output_bits == b.output_bits && a.container@
            != b.container@ ==> lock_key(key_a, a) != lock_key(key_a, b),
{
    if lock_key(key_a, a) == lock_key(key_b, a) {
        lemma_lock_key_parts(key_a, key_b, a);
    }
    if lock_key(key_a, a) == lock_key(key_a, b) {
        if a.container == b.container && a.output_bits == b.output_bits {
            lemma_lock_key_rate(key_a, a, b);
        }
        if a.container == b.container && a.output_rate == b.output_rate {
            lemma_lock_key_bits(key_a, a, b);
        }
        if a.output_rate == b.output_rate && a.output_bits == b.output_bits {
            lemma_lock_key_container(key_a, a, b);
        }
    }
}

proof fn lemma_file_name_key(key_a: Seq<char>, key_b: Seq<char>, a: UpnpRenderPlan)
    requires
        cache_file_name(key_a, a) is Some,
        cache_file_name(key_a, a) == cache_file_name(key_b, a),
    ensures
        key_a == key_b,
{
    let none = Seq::<char>::empty();
    let after = "-"@ + text::decimal(a.output_rate as nat) + "-"@ + text::decimal(
        a.output_bits as nat,
    ) + "."@ + cache_extension(a.container@)->0;
    assert(cache_file_name(key_a, a)->0 =~= none + key_a + after);
    assert(cache_file_name(key_b, a)->0 =~= none + key_b + after);
    bytes::law_middle_cancels(none, key_a, key_b, after);
}

proof fn lemma_file_name_rate(key: Seq<char>, a: UpnpRenderPlan, b: UpnpRenderPlan)
    requires
        cache_file_name(key, a) is Some,
        cache_file_name(key, a) == cache_file_name(key, b),
        a.container == b.container,
        a.output_bits == b.output_bits,
    ensures
        a.output_rate == b.output_rate,
{
    let before = key + "-"@;
    let after = "-"@ + text::decimal(a.output_bits as nat) + "."@ + cache_extension(
        a.container@,
    )->0;
    let ra = text::decimal(a.output_rate as nat);
    let rb = text::decimal(b.output_rate as nat);
    assert(cache_file_name(key, a)->0 =~= before + ra + after);
    assert(cache_file_name(key, b)->0 =~= before + rb + after);
    bytes::law_middle_cancels(before, ra, rb, after);
    text::lemma_decimal_injective(a.output_rate as nat, b.output_rate as nat);
}

proof fn lemma_file_name_bits(key: Seq<char>, a: UpnpRenderPlan, b: UpnpRenderPlan)
    requires
        cache_file_name(key, a) is Some,
        cache_file_name(key, a) == cache_file_name(key, b),
        a.container == b.container,
        a.output_rate == b.output_rate,
    ensures
        a.output_bits == b.output_bits,
{
    let before = key + "-"@ + text::decimal(a.output_rate as nat) + "-"@;
    let after = "."@ + cache_extension(a.container@)->0;
    let da = text::decimal(a.output_bits as nat);
    let db = text::decimal(b.output_bits as nat);
    assert(cache_file_name(key, a)->0 =~= before + da + after);
    assert(cache_file_name(key, b)->0 =~= before + db + after);
    bytes::law_middle_cancels(before, da, db, after);
    text::lemma_decimal_injective(a.output_bits as nat, b.output_bits as nat);
}

/// Cached files of another cache key, rate or depth have another name, and a
/// name ends in what the container is.
pub proof fn law_cached_files_have_names_of_their_own(
    key_a: Seq<char>,
    key_b: Seq<char>,
    a: UpnpRenderPlan,
    b: UpnpRenderPlan,
)
    ensures
        cache_file_name(key_a, a) is Some && key_a != key_b ==> cache_file_name(key_a, a)
            != cache_file_name(key_b, a),
        cache_file_name(key_a, a) is Some && a.container == b.container && a.output_bits
            == b.output_bits && a.output_rate != b.output_rate ==> cache_file_name(key_a, a)
            != cache_file_name(key_a, b),
        cache_file_name(key_a, a) is Some && a.container == b.container && a.output_rate
            == b.output_rate && a.output_bits != b.output_bits ==> cache_file_name(key_a, a)
            != cache_file_name(key_a, b),
        a.container@ == "flac"@ ==> cache_file_name(key_a, a) is Some && text::ends_in(
            cache_file_name(key_a, a)->0,
            ".flac"@,
        ),
        a.container@ == "wav"@ || a.container@ == "dop_wav"@ ==> cache_file_name(key_a, a) is Some
            && text::ends_in(cache_file_name(key_a, a)->0, ".wav"@),
        a.container@ == "dsf"@ || a.container@ == "passthrough"@ ==> cache_file_name(
            key_a,
            a,
        ) is None,
{
    if cache_file_name(key_a, a) is Some {
        if cache_file_name(key_a, a) == cache_file_name(key_b, a) {
            lemma_file_name_key(key_a, key_b, a);
        }
        if a.container == b.container && cache_file_name(key_a, a) == cache_file_name(key_a, b) {
            if a.output_bits == b.output_bits {
                lemma_file_name_rate(key_a, a, b);
            }
            if a.output_rate == b.output_rate {
                lemma_file_name_bits(key_a, a, b);
            }
        }
    }
    lemma_container_names();
    let stem = key_a + "-"@ + text::decimal(a.output_rate as nat) + "-"@ + text::decimal(
        a.output_bits as nat,
    );
    assert(stem + "."@ + "flac"@ =~= stem + ".flac"@);
    assert(stem + "."@ + "wav"@ =~= stem + ".wav"@);
    text::lemma_ends_in(stem, ".flac"@);
    text::lemma_ends_in(stem, ".wav"@);
}

/// The names of the containers are different.
proof fn lemma_container_names()
    ensures
        "flac"@ != "wav"@,
        "dsf"@ != "wav"@,
        "dop_wav"@ != "wav"@,
        "dop_wav"@ != "flac"@,
        "dop_wav"@ != "dsf"@,
        "dsf"@ != "flac"@,
        "passthrough"@ != "wav"@,
        "passthrough"@ != "flac"@,
        "passthrough"@ != "dop_wav"@,
        "passthrough"@ != "dsf"@,
        ".flac"@ == "."@ + "flac"@,
        ".wav"@ == "."@ + "wav"@,
{
    reveal_strlit("flac");
    reveal_strlit("wav");
    reveal_strlit("dsf");
    reveal_strlit("dop_wav");
    reveal_strlit("passthrough");
    reveal_strlit(".flac");
    reveal_strlit(".wav");
    reveal_strlit(".");
    assert("wav"@[0] == 'w' && "dsf"@[0] == 'd');
    assert("flac"@.len() == 4 && "wav"@.len() == 3 && "dsf"@.len() == 3);
    assert("dop_wav"@.len() == 7 && "passthrough"@.len() == 11);
    assert(".flac"@ =~= "."@ + "flac"@);
    assert(".wav"@ =~= "."@ + "wav"@);
}

/// Assets of different sources, or of one source under different signatures,
/// are told apart before hashing.
pub proof fn law_assets_are_told_apart(
    key_a: Seq<char>,
    key_b: Seq<char>,
    signature_a: Seq<char>,
    signature_b: Seq<char>,
)
    ensures
        asset_id_preimage(key_a, signature_a) == asset_id_preimage(key_b, signature_a) ==> key_a
            == key_b,
        asset_id_preimage(key_a, signature_a) == asset_id_preimage(key_a, signature_b)
            ==> signature_a == signature_b,
{
    let tag = bytes::text_bytes("generated-upnp-dsp"@);
    let ka = bytes::text_bytes(key_a);
    let kb = bytes::text_bytes(key_b);
    let sa = bytes::text_bytes(signature_a);
    let sb = bytes::text_bytes(signature_b);
    if tag + ka + sa == tag + kb + sa {
        bytes::law_middle_cancels(tag, ka, kb, sa);
        bytes::law_text_bytes_injective(key_a, key_b);
    }
    if tag + ka + sa == tag + ka + sb {
        assert(tag + ka + sa =~= (tag + ka) + sa + Seq::<u8>::empty());
        assert(tag + ka + sb =~= (tag + ka) + sb + Seq::<u8>::empty());
        bytes::law_middle_cancels(tag + ka, sa, sb, Seq::empty());
        bytes::law_text_bytes_injective(signature_a, signature_b);
    }
}

/// A rate that the user asks for is the rate that is rendered, as far as the
/// renderer takes it: up to the renderer's limit, which never lies below the
/// source. A higher one is brought down to that limit.
pub proof fn law_requested_rate_is_rendered(source_rate: u32, config: UpnpDspRenderConfig)
    requires
        config.upsampling_enabled,
        config.target.capability_detection_source is Probed
            || config.target.capability_detection_source is Advertised,
        config.target.capability_detection_status is Complete,
        !upnp_target::spec_is_kef(config.target),
        config.target_rate > 0,
    ensures
        ({
            let rate = spec_pcm_rate(source_rate, config);
            let wished = config.target_rate;
            let limit = config.target.max_sample_rate;
            &&& wished <= limit || wished <= source_rate ==> rate == wished
            &&& wished > limit && wished > source_rate && limit >= source_rate && limit > 0
                ==> rate == limit
            &&& wished > limit && wished > source_rate && limit < source_rate ==> rate
                == source_rate
            &&& rate > 0
        }),
{
}

/// Without upsampling, or while the renderer's limits are only a guess, the
/// rate of the source stays.
pub proof fn law_rate_stays_without_upsampling(source_rate: u32, config: UpnpDspRenderConfig)
    requires
        !config.upsampling_enabled || config.target.capability_detection_source is Fallback
            || config.target.capability_detection_source is Probing
            || config.target.capability_detection_status is Unknown
            || config.target.capability_detection_status is Failed
            || config.target.capability_detection_status is Deferred
            || config.target.capability_detection_status is Probing,
    ensures
        spec_pcm_rate(source_rate, config) == source_rate,
{
}

/// The automatic rate is the highest of the source's clock family that the
/// renderer takes.
pub proof fn law_automatic_rate_fits_renderer(source_rate: u32, config: UpnpDspRenderConfig)
    requires
        config.upsampling_enabled,
        config.target.capability_detection_source is Probed
            || config.target.capability_detection_source is Advertised,
        config.target.capability_detection_status is Complete,
        !upnp_target::spec_is_kef(config.target),
        config.target_rate == 0,
        config.target.max_sample_rate >= 48_000,
    ensures
        ({
            let rate = spec_pcm_rate(source_rate, config) as int;
            let limit = config.target.max_sample_rate;
            &&& source_rate == 44_100 || source_rate == 88_200 || source_rate == 176_400 ==> {
                &&& rate % 44_100 == 0
                &&& rate <= limit
                &&& 2 * rate > limit
            }
            &&& source_rate == 48_000 || source_rate == 96_000 || source_rate == 192_000 ==> {
                &&& rate % 48_000 == 0
                &&& rate <= limit
                &&& 2 * rate > limit
            }
        }),
{
    audio::law_automatic_rate_is_highest_multiple(source_rate, config.target.max_sample_rate);
}

/// A KEF renderer that offers FLAC gets no more than 96 kHz from a source that
/// has no more.
pub proof fn law_kef_rate_is_limited(source_rate: u32, config: UpnpDspRenderConfig)
    requires
        upnp_target::spec_is_kef(config.target),
        formats::spec_offers(config.target, UpnpPcmContainer::Flac),
        source_rate <= 96_000,
    ensures
        spec_pcm_rate(source_rate, config) <= 96_000,
{
    audio::law_automatic_rate_keeps_cap(source_rate, 96_000);
    audio::law_automatic_rate_keeps_cap(source_rate, config.target_rate);
    audio::law_automatic_rate_keeps_cap(source_rate, config.target.max_sample_rate);
    audio::law_automatic_rate_keeps_cap(
        source_rate,
        audio::auto_target(source_rate, config.target.max_sample_rate),
    );
    audio::law_automatic_rate_keeps_cap(source_rate, source_rate);
    audio::law_automatic_rate_keeps_cap(source_rate, 1);
}

/// The depth that a user asks for is the depth that is rendered where encoders
/// know it, else 24 bits.
pub proof fn law_requested_depth_is_rendered(config: UpnpDspRenderConfig)
    requires
        !upnp_target::spec_is_kef(config.target),
    ensures
        ({
            let bits = spec_pcm_bits(config);
            let wished = config.target_bit_depth;
            &&& wished == 16 || wished == 24 || wished == 32 ==> bits == wished
            &&& wished != 16 && wished != 32 ==> bits == 24
        }),
{
}

/// A one-bit mode is named after how many one-bit samples it takes for one
/// sample of the base rate.
pub proof fn law_one_bit_modes_are_named_by_rate(mode: OutputModeForUpnp)
    requires
        !(mode is Pcm),
    ensures
        mode.spec_dsd_rate() is Some,
        mode.spec_name() == "Dsd"@ + text::decimal(
            mode.spec_dsd_rate()->0.spec_oversample() as nat,
        ),
        OutputModeForUpnp::spec_from_name(mode.spec_name()) == mode,
        OutputModeForUpnp::spec_from_name("Pcm"@) is Pcm,
{
    law_output_mode_names_round_trip(mode);
    law_output_mode_names_round_trip(OutputModeForUpnp::Pcm);
    reveal_with_fuel(text::decimal, 4);
    reveal_strlit("Dsd");
    reveal_strlit("Dsd64");
    reveal_strlit("Dsd128");
    reveal_strlit("Dsd256");
    let name = "Dsd"@ + text::decimal(mode.spec_dsd_rate()->0.spec_oversample() as nat);
    match mode {
        OutputModeForUpnp::Dsd64 => assert(name =~= "Dsd64"@),
        OutputModeForUpnp::Dsd128 => assert(name =~= "Dsd128"@),
        OutputModeForUpnp::Dsd256 => assert(name =~= "Dsd256"@),
        OutputModeForUpnp::Pcm => {},
    }
}

/// A configuration renders in the mode that it names.
pub proof fn law_named_mode_is_rendered(config: PlaybackConfig, mode: OutputModeForUpnp)
    requires
        config.output_mode@ == mode.spec_name(),
    ensures
        spec_mode_of_config(config) == mode,
{
    law_output_mode_names_round_trip(mode);
}

/// What is rendered keeps every setting of the configuration and what the
/// renderer can do.
pub proof fn law_render_config_keeps_settings(
    config: PlaybackConfig,
    names: ResolvedNames,
    target: UpnpRendererTarget,
    r: UpnpDspRenderConfig,
)
    requires
        call_ensures(render_config_for, (&config, names, &target), r),
    ensures
        r.filter_type == names.filter_type,
        r.dsd_modulator == names.dsd_modulator,
        r.dither_mode == names.dither_mode,
        r.target_rate == config.target_rate,
        config.target_bit_depth == 16 || config.target_bit_depth == 24 || config.target_bit_depth
            == 32 ==> r.target_bit_depth == config.target_bit_depth,
        r.upsampling_enabled == config.upsampling_enabled,
        r.output_mode.spec_name() == config.output_mode@ || r.output_mode is Pcm,
        r.dsd_isi_penalty == config.dsd_isi_penalty,
        r.dsd_rules@ == config.dsd_rules@,
        r.dsd_rules_encoded@ == config.dsd_rules_encoded@,
        r.headroom == config.headroom,
        r.eq.enabled == config.eq.enabled,
        r.eq.encoded@ == config.eq.encoded@,
        r.target.id@ == target.id@,
        r.target.name@ == target.name@,
        r.target.manufacturer == target.manufacturer,
        r.target.max_sample_rate == target.max_sample_rate,
        r.target.max_bit_depth == target.max_bit_depth,
        r.target.max_dsd_rate == target.max_dsd_rate,
        r.target.capability_detection_status == target.capability_detection_status,
        r.target.protocol_info@ == target.protocol_info@,
        r.target.pcm_containers@ == target.pcm_containers@,
{
}

/// Only 16-bit output is dithered, in the way that the user prefers.
pub proof fn law_only_16_bit_output_is_dithered(preference: DitherPreference, output_bits: u32)
    ensures
        spec_dither(preference, output_bits) is Off <==> output_bits != 16 || preference is Off,
        spec_dither(preference, output_bits) is Tpdf <==> output_bits == 16 && preference is Tpdf,
        spec_dither(preference, output_bits) is Shaped16 <==> output_bits == 16
            && preference is Auto,
{
}

proof fn lemma_first_rule(
    before: Seq<DsdSourceRule>,
    rest: Seq<DsdSourceRule>,
    source_rate: u32,
)
    requires
        forall|i: int| 0 <= i < before.len() ==> (#[trigger] before[i]).source_rate != source_rate,
    ensures
        first_rule(before + rest, source_rate) == first_rule(rest, source_rate),
    decreases before.len(),
{
    if before.len() == 0 {
        assert(before + rest =~= rest);
    } else {
        assert((before + rest).skip(1) =~= before.skip(1) + rest);
        assert((before + rest)[0] == before[0]);
        assert forall|i: int| 0 <= i < before.skip(1).len() implies (
        #[trigger] before.skip(1)[i]).source_rate != source_rate by {
            assert(before.skip(1)[i] == before[i + 1]);
        }
        lemma_first_rule(before.skip(1), rest, source_rate);
    }
}

/// In a one-bit mode the first rule for the source's rate decides on the mode
/// and, where it names one, on the filter.
pub proof fn law_first_rule_decides(
    requested: OutputModeForUpnp,
    filter: FilterType,
    source_rate: u32,
    before: Seq<DsdSourceRule>,
    rule: DsdSourceRule,
    after: Seq<DsdSourceRule>,
    mode: OutputModeForUpnp,
)
    requires
        !(requested is Pcm),
        !(mode is Pcm),
        forall|i: int| 0 <= i < before.len() ==> (#[trigger] before[i]).source_rate != source_rate,
        rule.source_rate == source_rate,
        rule.output_mode@ == mode.spec_name(),
    ensures
        ({
            let policy = spec_policy(requested, filter, source_rate, before + (seq![rule] + after));
            &&& policy.output_mode == mode
            &&& rule.filter is Some ==> policy.filter_type == rule.filter->0
            &&& rule.filter is None ==> policy.filter_type == filter
        }),
{
    lemma_first_rule(before, seq![rule] + after, source_rate);
    law_output_mode_names_round_trip(mode);
}

/// A source without a rule of its own, and every source of PCM, is rendered in
/// the mode and with the filter that were asked for.
pub proof fn law_policy_stays_without_rule(
    requested: OutputModeForUpnp,
    filter: FilterType,
    source_rate: u32,
    rules: Seq<DsdSourceRule>,
)
    requires
        requested is Pcm || forall|i: int|
            0 <= i < rules.len() ==> (#[trigger] rules[i]).source_rate != source_rate,
    ensures
        spec_policy(requested, filter, source_rate, rules).output_mode == requested,
        spec_policy(requested, filter, source_rate, rules).filter_type == filter,
{
    if !(requested is Pcm) {
        lemma_first_rule(rules, Seq::empty(), source_rate);
        assert(rules + Seq::<DsdSourceRule>::empty() =~= rules);
    }
}

/// What changes the sound is rendered: an equalizer, a gain while something is
/// processed, another rate, another depth while something is processed, and
/// every one-bit mode. Of a renderer without peculiarities nothing else is.
pub proof fn law_what_changes_sound_is_rendered(
    config: UpnpDspRenderConfig,
    source: SourceRef,
    source_rate: u32,
    source_bits: u32,
    plan: UpnpRenderPlan,
)
    requires
        call_ensures(render_plan_for_source, (&config, &source, source_rate, source_bits), plan),
        source_rate > 0,
        source_bits > 0,
        config.output_mode is Pcm,
        !upnp_target::spec_is_kef(config.target),
    ensures
        config.eq.enabled ==> plan.render_needed,
        config.upsampling_enabled && !config.headroom.unity ==> plan.render_needed,
        spec_pcm_rate(source_rate, config) != source_rate ==> plan.render_needed,
        config.upsampling_enabled && spec_pcm_bits(config) != source_bits ==> plan.render_needed,
        !config.eq.enabled && !config.upsampling_enabled ==> !plan.render_needed,
        !config.eq.enabled && config.headroom.unity && spec_pcm_rate(source_rate, config)
            == source_rate && spec_pcm_bits(config) == source_bits ==> !plan.render_needed,
{
}

/// A PCM render has the resolved rate and depth, in a file of PCM samples.
pub proof fn law_pcm_renders_have_resolved_format(
    config: UpnpDspRenderConfig,
    source: SourceRef,
    source_rate: u32,
    source_bits: u32,
    plan: UpnpRenderPlan,
)
    requires
        call_ensures(render_plan_for_source, (&config, &source, source_rate, source_bits), plan),
        config.output_mode is Pcm,
    ensures
        plan.active_output_mode is Pcm,
        plan.render_needed ==> {
            &&& plan.output_rate == spec_pcm_rate(source_rate, config)
            &&& plan.output_bits == spec_pcm_bits(config)
            &&& plan.container@ == "wav"@ || plan.container@ == "flac"@
            &&& plan.container@ == "flac"@ <==> formats::spec_render_container(
                plan.output_rate,
                plan.output_bits,
                config.target,
            ) is Flac
        },
        !plan.render_needed ==> plan.output_rate == source_rate && plan.output_bits == source_bits
            && plan.container@ == "passthrough"@,
{
    reveal_strlit("wav");
    reveal_strlit("flac");
    assert("wav"@.len() == 3 && "flac"@.len() == 4);
}

/// A source in a one-bit mode goes out as a marked stream where the renderer
/// takes one, else as a one-bit file where the renderer takes that rate, else
/// as PCM. A marked frame carries sixteen one-bit samples of each channel.
pub proof fn law_one_bit_sources_find_their_way(
    config: UpnpDspRenderConfig,
    source: SourceRef,
    source_rate: u32,
    source_bits: u32,
    base: u32,
    plan: UpnpRenderPlan,
)
    requires
        call_ensures(render_plan_for_source, (&config, &source, source_rate, source_bits), plan),
        !(config.output_mode is Pcm),
        config.dsd_rules@.len() == 0,
        audio::clock_family(source_rate) == Some(base),
        base == 44_100 || base == 48_000,
    ensures
        ({
            let oversample = config.output_mode.spec_dsd_rate()->0.spec_oversample();
            let frame_rate = ((oversample / 16) * base) as u32;
            let marked = formats::spec_supports_dop_wav(config.target, frame_rate, 24);
            let native = config.target.max_dsd_rate is Some && config.target.max_dsd_rate->0
                >= oversample;
            &&& plan.render_needed
            &&& marked ==> plan.container@ == "dop_wav"@ && plan.output_rate == frame_rate
                && plan.output_bits == 24 && plan.active_output_mode == config.output_mode
            &&& !marked && native ==> plan.container@ == "dsf"@ && plan.output_rate == oversample
                * base && plan.output_bits == 1 && plan.active_output_mode == config.output_mode
            &&& !marked && !native ==> plan.active_output_mode is Pcm && (plan.container@ == "wav"@
                || plan.container@ == "flac"@)
        }),
{
    law_policy_stays_without_rule(
        config.output_mode,
        config.filter_type,
        source_rate,
        config.dsd_rules@,
    );
}

/// Equal sources, formats and settings have equal signatures.
pub proof fn law_plans_are_signed_by_what_they_render(
    config: UpnpDspRenderConfig,
    source: SourceRef,
    source_rate: u32,
    source_bits: u32,
    plan: UpnpRenderPlan,
)
    requires
        call_ensures(render_plan_for_source, (&config, &source, source_rate, source_bits), plan),
    ensures
        plan.signature@ == digest::fingerprint_text(
            signature_preimage(
                source.spec_key(),
                source_rate,
                source_bits,
                plan.output_rate,
                plan.output_bits,
                plan.container@,
                config,
            ),
        ),
{
}

/// The rate that a render is resolved to is the rate that the user asks for, up
/// to what the renderer takes or the source already has.
pub proof fn law_resolved_rate_is_the_requested_one(
    source_rate: u32,
    config: UpnpDspRenderConfig,
    r: u32,
)
    requires
        call_ensures(resolve_pcm_target_rate, (source_rate, &config), r),
        config.upsampling_enabled,
        config.target.capability_detection_source is Probed
            || config.target.capability_detection_source is Advertised,
        config.target.capability_detection_status is Complete,
        !upnp_target::spec_is_kef(config.target),
        config.target_rate > 0,
    ensures
        config.target_rate <= config.target.max_sample_rate || config.target_rate <= source_rate
            ==> r == config.target_rate,
        config.target_rate > config.target.max_sample_rate && config.target_rate > source_rate
            && config.target.max_sample_rate >= source_rate && config.target.max_sample_rate > 0
            ==> r == config.target.max_sample_rate,
        config.target_rate > config.target.max_sample_rate && config.target_rate > source_rate
            && config.target.max_sample_rate < source_rate ==> r == source_rate,
{
    law_requested_rate_is_rendered(source_rate, config);
}

/// Renders of the same source and format whose equalizer, filter, headroom or
/// modulator differs are never given the same bytes to hash, neither for their
/// cache key nor for the signature of a rendered output.
pub proof fn law_hashed_bytes_differ_with_settings(
    source_key: &str,
    source: SourceRef,
    source_rate: u32,
    source_bits: u32,
    plan: UpnpRenderPlan,
    container: &str,
    a: UpnpDspRenderConfig,
    b: UpnpDspRenderConfig,
    key_a: Vec<u8>,
    key_b: Vec<u8>,
    signed_a: Vec<u8>,
    signed_b: Vec<u8>,
)
    requires
        call_ensures(rendered_cache_key_preimage, (source_key, &a, &plan), key_a),
        call_ensures(rendered_cache_key_preimage, (source_key, &b, &plan), key_b),
        call_ensures(
            render_signature_preimage,
            (
                &source,
                source_rate,
                source_bits,
                plan.output_rate,
                plan.output_bits,
                container,
                &a,
            ),
            signed_a,
        ),
        call_ensures(
            render_signature_preimage,
            (
                &source,
                source_rate,
                source_bits,
                plan.output_rate,
                plan.output_bits,
                container,
                &b,
            ),
            signed_b,
        ),
        container@ != "passthrough"@,
        (b == (UpnpDspRenderConfig { eq: b.eq, ..a }) && a.eq.encoded@ != b.eq.encoded@) || (b == (
        UpnpDspRenderConfig { filter_type: b.filter_type, ..a }) && a.filter_type.name@
            != b.filter_type.name@) || (b == (UpnpDspRenderConfig { headroom: b.headroom, ..a })
            && a.headroom.db != b.headroom.db) || (b == (UpnpDspRenderConfig {
            dsd_modulator: b.dsd_modulator,
            ..a
        }) && a.dsd_modulator@ != b.dsd_modulator@),
    ensures
        key_a@ != key_b@,
        signed_a@ != signed_b@,
{
    law_changed_setting_is_rendered_anew(
        source_key@,
        source_rate,
        source_bits,
        plan.output_rate,
        plan.output_bits,
        container@,
        plan,
        a,
        b,
    );
    law_changed_setting_is_rendered_anew(
        source.spec_key(),
        source_rate,
        source_bits,
        plan.output_rate,
        plan.output_bits,
        container@,
        plan,
        a,
        b,
    );
}

/// A marked WAV file is a WAV file to everyone else; other files are what they
/// are.
pub proof fn law_marked_files_are_wav_files(container: Seq<char>)
    ensures
        spec_output_kind("dop_wav"@) == "wav"@,
        container != "dop_wav"@ ==> spec_output_kind(container) == container,
        cache_extension("dop_wav"@) == cache_extension("wav"@),
        cache_extension("wav"@) == Some("wav"@),
        cache_extension("flac"@) == Some("flac"@),
        cache_extension("dsf"@) is None,
{
    reveal_strlit("wav");
    reveal_strlit("flac");
    reveal_strlit("dop_wav");
    reveal_strlit("dsf");
    assert("wav"@.len() == 3 && "flac"@.len() == 4 && "dop_wav"@.len() == 7 && "dsf"@.len() == 3);
    assert("wav"@[0] != "dsf"@[0]);
}

/// A renderer takes one-bit files up to its own rate.
pub proof fn law_one_bit_files_keep_to_the_renderer(
    mode: OutputModeForUpnp,
    target: UpnpRendererTarget,
    r: Option<DsdRate>,
)
    requires
        call_ensures(dsd_rate_for_target, (mode, &target), r),
    ensures
        r is Some ==> r == mode.spec_dsd_rate() && target.max_dsd_rate is Some
            && target.max_dsd_rate->0 >= r->0.spec_oversample(),
        mode is Pcm || target.max_dsd_rate is None ==> r is None,
        mode is Dsd64 && target.max_dsd_rate == Some(64u16) ==> r is Some,
        mode is Dsd128 && target.max_dsd_rate == Some(64u16) ==> r is None,
        mode is Dsd256 && target.max_dsd_rate == Some(256u16) ==> r is Some,
{
}

} // verus!
