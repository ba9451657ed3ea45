//! Zones and their capabilities.

use crate::audio::Real32;
use crate::protocol::sink::{SinkProtocol, UpnpPcmContainerCapability};
use vstd::prelude::*;

verus! {

/// Where capability figures come from.
#[derive(Clone, Copy, Debug, PartialEq, Eq, Structural)]
pub enum CapabilityDetectionSource {
    Advertised,
    Probed,
    Probing,
    Fallback,
}

impl Default for CapabilityDetectionSource {
    fn default() -> (r: CapabilityDetectionSource)
        ensures
            r == CapabilityDetectionSource::Fallback,
    {
        CapabilityDetectionSource::Fallback
    }
}

/// How far capability detection has come.
#[derive(Clone, Copy, Debug, PartialEq, Eq, Structural)]
pub enum CapabilityDetectionStatus {
    Complete,
    Probing,
    Deferred,
    Failed,
    Unknown,
}

impl Default for CapabilityDetectionStatus {
    fn default() -> (r: CapabilityDetectionStatus)
        ensures
            r == CapabilityDetectionStatus::Unknown,
    {
        CapabilityDetectionStatus::Unknown
    }
}

/// What a zone can play.
#[derive(Clone, Debug)]
pub struct ZoneCapabilities {
    pub max_sample_rate: u32,
    pub max_bit_depth: u8,
    pub max_dsd_rate: Option<u16>,
    pub exclusive_supported: bool,
    pub gapless_supported: bool,
    pub supports_dsd128: bool,
    pub supports_dsd256: bool,
    pub capability_detection_source: CapabilityDetectionSource,
    pub capability_detection_status: CapabilityDetectionStatus,
    pub capability_detection_message: Option<String>,
}

impl Default for ZoneCapabilities {
    fn default() -> (r: ZoneCapabilities)
        ensures
            r == (ZoneCapabilities {
                max_sample_rate: 384_000,
                max_bit_depth: 32,
                max_dsd_rate: None,
                exclusive_supported: true,
                gapless_supported: true,
                supports_dsd128: false,
                supports_dsd256: false,
                capability_detection_source: CapabilityDetectionSource::Fallback,
                capability_detection_status: CapabilityDetectionStatus::Unknown,
                capability_detection_message: None,
            }),
    {
        ZoneCapabilities {
            max_sample_rate: 384_000,
            max_bit_depth: 32,
            max_dsd_rate: None,
            exclusive_supported: true,
            gapless_supported: true,
            supports_dsd128: false,
            supports_dsd256: false,
            capability_detection_source: CapabilityDetectionSource::Fallback,
            capability_detection_status: CapabilityDetectionStatus::Unknown,
            capability_detection_message: None,
        }
    }
}

/// The DSP settings that a zone advertises.
#[derive(Clone, Debug)]
pub struct DspProfile {
    pub upsampling_enabled: bool,
    pub filter_type: String,
    pub target_rate: u32,
    pub dither_mode: String,
}

impl DspProfile {
    /// The profile of a zone without settings of its own, given the name of
    /// the resampler's default filter.
    pub fn with_default_filter(default_filter_name: &str) -> (r: DspProfile)
        ensures
            !r.upsampling_enabled,
            r.filter_type@ == default_filter_name@,
            r.target_rate == 0,
            r.dither_mode@ == "Auto"@,
    {
        DspProfile {
            upsampling_enabled: false,
            filter_type: default_filter_name.to_string(),
            target_rate: 0,
            dither_mode: "Auto".to_string(),
        }
    }
}

/// How an amplifier is reached and driven.
#[derive(Debug)]
pub struct ZoneHegelSettings {
    pub linked_airplay_zone_id: Option<String>,
    pub host: Option<String>,
    pub port: u16,
    pub input: u8,
    pub default_volume: u8,
    pub max_volume: u8,
    pub standby_usb_visible: bool,
    pub model: Option<String>,
}

impl Clone for ZoneHegelSettings {
    fn clone(&self) -> (r: ZoneHegelSettings)
        ensures
            r == *self,
    {
        ZoneHegelSettings {
            linked_airplay_zone_id: self.linked_airplay_zone_id.clone(),
            host: self.host.clone(),
            port: self.port,
            input: self.input,
            default_volume: self.default_volume,
            max_volume: self.max_volume,
            standby_usb_visible: self.standby_usb_visible,
            model: self.model.clone(),
        }
    }
}

/// Stream delivery for browser zones.
#[derive(Debug)]
pub struct BrowserStreamSettings {
    pub format: String,
    pub opus_kbps: u32,
}

impl Clone for BrowserStreamSettings {
    fn clone(&self) -> (r: BrowserStreamSettings)
        ensures
            r == *self,
    {
        BrowserStreamSettings { format: self.format.clone(), opus_kbps: self.opus_kbps }
    }
}

/// Saved renderer capabilities.
#[derive(Debug)]
pub struct ZoneUpnpCapabilities {
    pub max_sample_rate: u32,
    pub max_bit_depth: u8,
    pub max_dsd_rate: Option<u16>,
    pub pcm_containers: Vec<UpnpPcmContainerCapability>,
}

impl ZoneUpnpCapabilities {
    /// Equality up to the storage of the list.
    pub open spec fn same_as(self, other: ZoneUpnpCapabilities) -> bool {
        &&& self.max_sample_rate == other.max_sample_rate
        &&& self.max_bit_depth == other.max_bit_depth
        &&& self.max_dsd_rate == other.max_dsd_rate
        &&& self.pcm_containers@ == other.pcm_containers@
    }
}

impl Clone for ZoneUpnpCapabilities {
    fn clone(&self) -> (r: ZoneUpnpCapabilities)
        ensures
            r.same_as(*self),
    {
        let r = ZoneUpnpCapabilities {
            max_sample_rate: self.max_sample_rate,
            max_bit_depth: self.max_bit_depth,
            max_dsd_rate: self.max_dsd_rate,
            pcm_containers: self.pcm_containers.clone(),
        };
        proof {
            assert(r.pcm_containers@ =~= self.pcm_containers@);
        }
        r
    }
}

/// A zone as clients see it.
#[derive(Debug)]
pub struct ZoneProfile {
    pub id: String,
    pub name: String,
    pub protocol: SinkProtocol,
    pub agent_name: Option<String>,
    pub backend: Option<String>,
    pub capabilities: ZoneCapabilities,
    pub dsp_profile: DspProfile,
    pub status: ZoneStatus,
    pub enabled: bool,
    pub device_name: Option<String>,
    pub network_address: Option<String>,
    pub status_message: Option<String>,
    pub playing_state: Option<String>,
    pub track_title: Option<String>,
    pub airplay_default_volume: Option<Real32>,
    pub airplay_max_volume: Option<Real32>,
    pub airplay_last_volume: Option<Real32>,
    pub qobuz_hires_enabled: bool,
    pub icon: Option<String>,
    pub device_type: Option<String>,
    pub hegel: Option<ZoneHegelSettings>,
    pub upnp_calibrated_capabilities: Option<ZoneUpnpCapabilities>,
    /// True for a browser-private zone, playable only from the browser
    /// session that registered it.
    pub browser: bool,
    /// Stream delivery choice for browser zones.
    pub browser_stream: Option<BrowserStreamSettings>,
}

/// Whether a zone can be used.
#[derive(Clone, Copy, Debug, PartialEq, Eq, Structural)]
pub enum ZoneStatus {
    Available,
    Active,
    Offline,
}

} // verus!
