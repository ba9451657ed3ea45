//! The playback configuration of a zone.

use crate::audio::{FilterType, Real32};
use vstd::prelude::*;

verus! {

/// A per-source-rate choice of filter and DSD mode.
#[derive(Debug)]
pub struct DsdSourceRule {
    pub source_rate: u32,
    pub filter_type: String,
    pub output_mode: String,
    /// The filter that `filter_type` names, when the resampler knows it.
    pub filter: Option<FilterType>,
}

impl Clone for DsdSourceRule {
    fn clone(&self) -> (r: DsdSourceRule)
        ensures
            r == *self,
    {
        DsdSourceRule {
            source_rate: self.source_rate,
            filter_type: self.filter_type.clone(),
            output_mode: self.output_mode.clone(),
            filter: self.filter.clone(),
        }
    }
}

/// The equalizer, as far as playback planning reads it.
#[derive(Debug)]
pub struct EqConfig {
    pub enabled: bool,
    /// The serialized settings, which fingerprints cover.
    pub encoded: Vec<u8>,
}

impl EqConfig {
    pub open spec fn same_as(self, other: EqConfig) -> bool {
        self.enabled == other.enabled && self.encoded@ == other.encoded@
    }
}

impl Clone for EqConfig {
    fn clone(&self) -> (r: EqConfig)
        ensures
            r.same_as(*self),
    {
        EqConfig { enabled: self.enabled, encoded: self.encoded.clone() }
    }
}

/// The headroom setting, with what its gain amounts to.
#[derive(Clone, Copy, Debug, PartialEq, Eq, Structural)]
pub struct Headroom {
    /// The setting in decibels.
    pub db: Real32,
    /// Whether the gain at this setting is one, as far as gains are told apart.
    pub unity: bool,
}

/// What a sink is configured to do with a source.
#[derive(Debug)]
pub struct PlaybackConfig {
    pub filter_type: String,
    pub target_rate: u32,
    pub target_bit_depth: u32,
    pub upsampling_enabled: bool,
    pub exclusive: bool,
    pub dither_mode: String,
    pub output_mode: String,
    pub dsd_modulator: String,
    pub dsd_isi_penalty: Real32,
    pub dsd_rules: Vec<DsdSourceRule>,
    /// The serialized rules, which fingerprints cover.
    pub dsd_rules_encoded: Vec<u8>,
    pub headroom: Headroom,
    pub dsp_buffer_ms: u32,
    pub volume: Real32,
    pub eq: EqConfig,
    pub output_device: Option<String>,
}

impl PlaybackConfig {
    /// Equality up to the storage of the lists.
    pub open spec fn same_as(self, other: PlaybackConfig) -> bool {
        &&& self.filter_type == other.filter_type
        &&& self.target_rate == other.target_rate
        &&& self.target_bit_depth == other.target_bit_depth
        &&& self.upsampling_enabled == other.upsampling_enabled
        &&& self.exclusive == other.exclusive
        &&& self.dither_mode == other.dither_mode
        &&& self.output_mode == other.output_mode
        &&& self.dsd_modulator == other.dsd_modulator
        &&& self.dsd_isi_penalty == other.dsd_isi_penalty
        &&& self.dsd_rules@ == other.dsd_rules@
        &&& self.dsd_rules_encoded@ == other.dsd_rules_encoded@
        &&& self.headroom == other.headroom
        &&& self.dsp_buffer_ms == other.dsp_buffer_ms
        &&& self.volume == other.volume
        &&& self.eq.same_as(other.eq)
        &&& self.output_device == other.output_device
    }
}

impl Clone for PlaybackConfig {
    fn clone(&self) -> (r: PlaybackConfig)
        ensures
            r.same_as(*self),
    {
        let r = PlaybackConfig {
            filter_type: self.filter_type.clone(),
            target_rate: self.target_rate,
            target_bit_depth: self.target_bit_depth,
            upsampling_enabled: self.upsampling_enabled,
            exclusive: self.exclusive,
            dither_mode: self.dither_mode.clone(),
            output_mode: self.output_mode.clone(),
            dsd_modulator: self.dsd_modulator.clone(),
            dsd_isi_penalty: self.dsd_isi_penalty,
            dsd_rules: self.dsd_rules.clone(),
            dsd_rules_encoded: self.dsd_rules_encoded.clone(),
            headroom: self.headroom,
            dsp_buffer_ms: self.dsp_buffer_ms,
            volume: self.volume,
            eq: self.eq.clone(),
            output_device: self.output_device.clone(),
        };
        proof {
            assert(r.dsd_rules@ =~= self.dsd_rules@);
            assert(r.dsd_rules_encoded@ =~= self.dsd_rules_encoded@);
        }
        r
    }
}

/// The output mode of a configuration that names none.
pub fn default_output_mode() -> (r: String)
    ensures
        r@ == "Pcm"@,
{
    "Pcm".to_string()
}

/// The bit depth of a configuration that names none.
pub fn default_target_bit_depth() -> (r: u32)
    ensures
        r == 24,
{
    24
}

/// The DSD modulator of a configuration that names none.
pub fn default_dsd_modulator() -> (r: String)
    ensures
        r@ == "EcDepth2"@,
{
    "EcDepth2".to_string()
}

/// Configurations that are the same agree in every setting.
pub proof fn law_same_configurations_agree(a: PlaybackConfig, b: PlaybackConfig)
    requires
        a.same_as(b),
    ensures
        a.filter_type == b.filter_type,
        a.target_rate == b.target_rate,
        a.target_bit_depth == b.target_bit_depth,
        a.upsampling_enabled == b.upsampling_enabled,
        a.exclusive == b.exclusive,
        a.dither_mode == b.dither_mode,
        a.output_mode == b.output_mode,
        a.dsd_modulator == b.dsd_modulator,
        a.dsd_isi_penalty == b.dsd_isi_penalty,
        a.dsd_rules@ == b.dsd_rules@,
        a.dsd_rules_encoded@ == b.dsd_rules_encoded@,
        a.headroom == b.headroom,
        a.dsp_buffer_ms == b.dsp_buffer_ms,
        a.volume == b.volume,
        a.eq.enabled == b.eq.enabled,
        a.eq.encoded@ == b.eq.encoded@,
        a.output_device == b.output_device,
{
}

} // verus!
