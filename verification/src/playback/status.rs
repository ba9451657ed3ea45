//! The status of a zone, as clients show it.

use crate::audio::{Real32, Real64, TrackTags};
use crate::protocol::agent::{AgentBufferState, AgentPlaybackState};
use crate::protocol::playback::DsdSourceRule;
use crate::protocol::signal::{BrowserStreamSignal, DsdBufferHealth, SyncSignalPath};
use crate::protocol::sink::SinkProtocol;
use crate::protocol::source::SourceRef;
use crate::protocol::zone::ZoneProfile;
use crate::text;
use vstd::prelude::*;
use vstd::string::*;

verus! {

/// How long a speaker's playback state stays fresh, in milliseconds.
pub const SONOS_PLAYBACK_POLL_INTERVAL_MS: u64 = 750;

/// How long a speaker's volume stays fresh, in milliseconds.
pub const SONOS_VOLUME_POLL_INTERVAL_MS: u64 = 5_000;

/// How long a renderer's playback state stays fresh, in milliseconds.
pub const UPNP_PLAYBACK_POLL_INTERVAL_MS: u64 = 900;

/// How long a renderer's volume stays fresh, in milliseconds.
pub const UPNP_VOLUME_POLL_INTERVAL_MS: u64 = 5_000;

/// How long an amplifier's status stays fresh, in milliseconds.
pub const HEGEL_STATUS_POLL_INTERVAL_MS: u64 = 5_000;

/// What this build was made with.
#[derive(Debug)]
pub struct BuildCapabilities {
    pub names: Vec<String>,
}

/// The diagnostics of a marked DSD output.
#[derive(Clone, Copy, Debug)]
pub struct DopDebugFields {
    pub ring_capacity_ms: Real64,
    pub ring_fill_ms: Real64,
    pub ring_low_watermark_ms: Real64,
    pub callback_frames: u32,
    pub callback_ms: Real64,
    pub requested_hardware_buffer_frames: u32,
    pub requested_hardware_buffer_ms: Real64,
    pub hardware_buffer_min_frames: u32,
    pub hardware_buffer_max_frames: u32,
    pub hardware_buffer_frames: u32,
    pub hardware_buffer_ms: Real64,
    pub lock_miss_events: u64,
    pub callback_deadline_miss_events: u64,
    pub soft_callback_gap_125_events: u64,
    pub soft_callback_gap_150_events: u64,
    pub soft_callback_gap_175_events: u64,
    pub last_soft_callback_gap_ms: Real64,
    pub last_soft_callback_gap_at_ms: u64,
    pub ring_below_250ms_events: u64,
    pub ring_below_100ms_events: u64,
    pub ring_below_50ms_events: u64,
    pub ring_below_callback_events: u64,
    pub last_ring_pressure_at_ms: u64,
    pub marker_error_events: u64,
    pub program_idle_splice_events: u64,
    pub program_to_idle_events: u64,
    pub idle_to_program_events: u64,
    pub mixed_output_events: u64,
    pub last_output_transition_id: u32,
    pub last_output_transition_at_ms: u64,
    pub repeated_payload_events: u64,
    pub callback_index: u64,
    pub last_callback_at_ms: u64,
    pub last_callback_gap_ms: Real64,
    pub last_callback_frames: u32,
    pub last_output_kind_id: u32,
    pub last_ring_fill_samples: u64,
    pub last_program_read_samples: u64,
    pub ring_read_cursor_samples: u64,
    pub last_payload_fingerprint: u64,
    pub last_payload_fingerprint_at_ms: u64,
    pub marker_scan_count: u64,
    pub every_callback_scan_enabled: bool,
    pub last_underrun_at_ms: u64,
}

/// What a player or an agent measures.
#[derive(Clone, Copy, Debug)]
pub struct OutputMetrics {
    pub resample_time_ns: u64,
    pub dsd_upsample_time_ns: u64,
    pub dsd_modulate_time_ns: u64,
    pub dsd_output_pending_samples: u64,
    pub dsd_buffer_health: Option<DsdBufferHealth>,
    pub dsd_overbudget_blocks: u64,
    pub dsd_last_load: Real32,
    pub dsd_recent_load_p95: Real32,
    pub dsd_recent_load_p99: Real32,
    pub block_duration_ns: u64,
    pub meter_l: Real32,
    pub meter_r: Real32,
    pub signal_peak: Real32,
    pub signal_peak_max: Real32,
    pub signal_clipping: bool,
    pub signal_clip_events: u64,
    pub signal_clip_samples: u64,
    pub dsd_limiter_peak_ratio: Real32,
    pub dsd_limiter_peak_ratio_max: Real32,
    pub dsd_limiter_active: bool,
    pub dsd_limiter_events: u64,
    pub dsd_limiter_samples: u64,
    pub underrun_events: u64,
    pub underrun_samples: u64,
}

/// The diagnostics of an output.
#[derive(Debug)]
pub struct OutputDiagnostics {
    pub output_ring_fill_now_ms: Real64,
    pub output_ring_fill_min_ms: Real64,
    pub startup_ring_low_watermark_ms: Real64,
    pub startup_ready_ms: u64,
    pub startup_first_render_block_ms: Real64,
    pub startup_producer_over_budget_count: u64,
    pub startup_callback_gaps_ms: Vec<Real64>,
    pub underrun_count: u64,
    pub producer_over_budget_count: u64,
    pub max_render_block_ms: Real64,
    pub max_audio_callback_gap_ms: Real64,
    pub dsp_graph_rebuild_count: u64,
    pub sample_rate_change_count: u64,
    pub dop_alignment_reset_count: u64,
    pub coreaudio_dop_open_count: u64,
    pub coreaudio_dop_start_count: u64,
    pub coreaudio_dop_stop_count: u64,
    pub coreaudio_dop_drop_count: u64,
    pub coreaudio_dop_quiesce_count: u64,
    pub coreaudio_dop_last_lifecycle_event_id: u32,
    pub coreaudio_dop_last_lifecycle_at_ms: u64,
    pub reopen_reason_count: u64,
    pub last_reopen_reason_id: u32,
    pub last_reopen_reason_at_ms: u64,
    pub flush_reason_count: u64,
    pub last_flush_reason_id: u32,
    pub last_flush_reason_at_ms: u64,
    pub modulator_reset_count: u64,
    pub decoder_starved_count: u64,
    pub source_read_time_ms: Real64,
    pub max_source_read_ms: Real64,
    pub source_read_stall_count: u64,
    pub source_read_stall_last_at_ms: u64,
    pub decoder_decode_time_ms: Real64,
    pub max_decoder_decode_ms: Real64,
    pub decoder_decode_stall_count: u64,
    pub decoder_decode_stall_last_at_ms: u64,
    pub lock_wait_max_ms: Real64,
}

/// The status of a zone.
#[derive(Debug)]
pub struct StatusResponse {
    pub surface: String,
    pub capabilities: BuildCapabilities,
    /// Runtime state of the separately built direct-AirPlay process.
    pub airplay_helper_state: String,
    pub state: String,
    pub file_name: Option<String>,
    pub current_source: Option<SourceRef>,
    pub track_title: Option<String>,
    pub track_artist: Option<String>,
    pub track_album: Option<String>,
    pub cover_version: u64,
    pub source_rate: u32,
    pub target_rate: u32,
    pub source_bits: u32,
    pub target_bits: u32,
    pub configured_target_rate: u32,
    pub configured_target_bit_depth: u32,
    pub upsampling_enabled: bool,
    pub filter_type: String,
    pub active_filter_type: String,
    pub src_path_kind: Option<String>,
    pub src_capped_fallback: bool,
    pub src_phase_profile_preserved: bool,
    pub src_ratio_num: u32,
    pub src_ratio_den: u32,
    pub dither_mode: String,
    pub output_mode: String,
    pub active_output_mode: String,
    pub dsd_modulator: String,
    pub dsd_isi_penalty: Real32,
    pub output_transport: String,
    pub output_notice_id: u64,
    pub output_notice: Option<String>,
    pub upnp_config_applied_to_current_playback: bool,
    pub upnp_restart_pending: bool,
    pub upnp_render_status: String,
    pub upnp_active_render_signature: Option<String>,
    pub upnp_configured_render_signature: Option<String>,
    pub upnp_last_render_ms: Option<u64>,
    pub upnp_last_prepare_ms: Option<u64>,
    pub upnp_last_cache_hit: Option<bool>,
    pub transport_pending: String,
    pub transport_pending_position_secs: Option<Real64>,
    pub dsd_stability_resets: u64,
    pub dsd_rules_enabled: bool,
    pub dsd_rules: Vec<DsdSourceRule>,
    pub volume: Real32,
    pub device_volume: Option<Real32>,
    pub device_volume_supported: bool,
    pub device_volume_max: Option<Real32>,
    pub device_volume_message: Option<String>,
    pub headroom_db: Real32,
    pub dsp_buffer_ms: u32,
    pub exclusive: bool,
    pub position_secs: Real64,
    pub duration_secs: Real64,
    pub playback_speed: Option<String>,
    pub cpu_percent: Real32,
    pub selected_device: Option<String>,
    pub active_zone_id: String,
    pub active_zone_name: String,
    pub zone_protocol: SinkProtocol,
    pub remote_connected: bool,
    pub remote_signal_path: Option<SyncSignalPath>,
    pub remote_buffer_state: Option<AgentBufferState>,
    /// Server-side chain for the active browser-zone stream, when known.
    pub browser_stream_signal: Option<BrowserStreamSignal>,
    pub metrics: OutputMetrics,
    pub dop: DopDebugFields,
    pub diagnostics: OutputDiagnostics,
}

impl DopDebugFields {
    /// No diagnostics.
    pub open spec fn spec_none() -> DopDebugFields {
        DopDebugFields {
            ring_capacity_ms: Real64::spec_zero(),
            ring_fill_ms: Real64::spec_zero(),
            ring_low_watermark_ms: Real64::spec_zero(),
            callback_frames: 0,
            callback_ms: Real64::spec_zero(),
            requested_hardware_buffer_frames: 0,
            requested_hardware_buffer_ms: Real64::spec_zero(),
            hardware_buffer_min_frames: 0,
            hardware_buffer_max_frames: 0,
            hardware_buffer_frames: 0,
            hardware_buffer_ms: Real64::spec_zero(),
            lock_miss_events: 0,
            callback_deadline_miss_events: 0,
            soft_callback_gap_125_events: 0,
            soft_callback_gap_150_events: 0,
            soft_callback_gap_175_events: 0,
            last_soft_callback_gap_ms: Real64::spec_zero(),
            last_soft_callback_gap_at_ms: 0,
            ring_below_250ms_events: 0,
            ring_below_100ms_events: 0,
            ring_below_50ms_events: 0,
            ring_below_callback_events: 0,
            last_ring_pressure_at_ms: 0,
            marker_error_events: 0,
            program_idle_splice_events: 0,
            program_to_idle_events: 0,
            idle_to_program_events: 0,
            mixed_output_events: 0,
            last_output_transition_id: 0,
            last_output_transition_at_ms: 0,
            repeated_payload_events: 0,
            callback_index: 0,
            last_callback_at_ms: 0,
            last_callback_gap_ms: Real64::spec_zero(),
            last_callback_frames: 0,
            last_output_kind_id: 0,
            last_ring_fill_samples: 0,
            last_program_read_samples: 0,
            ring_read_cursor_samples: 0,
            last_payload_fingerprint: 0,
            last_payload_fingerprint_at_ms: 0,
            marker_scan_count: 0,
            every_callback_scan_enabled: false,
            last_underrun_at_ms: 0,
        }
    }

    /// No diagnostics.
    pub fn none() -> (r: DopDebugFields)
        ensures
            r == DopDebugFields::spec_none(),
    {
        DopDebugFields {
            ring_capacity_ms: Real64::zero(),
            ring_fill_ms: Real64::zero(),
            ring_low_watermark_ms: Real64::zero(),
            callback_frames: 0,
            callback_ms: Real64::zero(),
            requested_hardware_buffer_frames: 0,
            requested_hardware_buffer_ms: Real64::zero(),
            hardware_buffer_min_frames: 0,
            hardware_buffer_max_frames: 0,
            hardware_buffer_frames: 0,
            hardware_buffer_ms: Real64::zero(),
            lock_miss_events: 0,
            callback_deadline_miss_events: 0,
            soft_callback_gap_125_events: 0,
            soft_callback_gap_150_events: 0,
            soft_callback_gap_175_events: 0,
            last_soft_callback_gap_ms: Real64::zero(),
            last_soft_callback_gap_at_ms: 0,
            ring_below_250ms_events: 0,
            ring_below_100ms_events: 0,
            ring_below_50ms_events: 0,
            ring_below_callback_events: 0,
            last_ring_pressure_at_ms: 0,
            marker_error_events: 0,
            program_idle_splice_events: 0,
            program_to_idle_events: 0,
            idle_to_program_events: 0,
            mixed_output_events: 0,
            last_output_transition_id: 0,
            last_output_transition_at_ms: 0,
            repeated_payload_events: 0,
            callback_index: 0,
            last_callback_at_ms: 0,
            last_callback_gap_ms: Real64::zero(),
            last_callback_frames: 0,
            last_output_kind_id: 0,
            last_ring_fill_samples: 0,
            last_program_read_samples: 0,
            ring_read_cursor_samples: 0,
            last_payload_fingerprint: 0,
            last_payload_fingerprint_at_ms: 0,
            marker_scan_count: 0,
            every_callback_scan_enabled: false,
            last_underrun_at_ms: 0,
        }
    }

    /// The diagnostics of a ring.
    pub open spec fn spec_from_health(health: Option<DsdBufferHealth>) -> DopDebugFields {
        match health {
            Some(health) => DopDebugFields {
                ring_capacity_ms: health.ring_capacity_ms,
                ring_fill_ms: health.ring_fill_ms,
                ring_low_watermark_ms: health.ring_low_watermark_ms,
                callback_frames: health.callback_frames,
                callback_ms: health.callback_ms,
                requested_hardware_buffer_frames: health.requested_hardware_buffer_frames,
                requested_hardware_buffer_ms: health.requested_hardware_buffer_ms,
                hardware_buffer_min_frames: health.hardware_buffer_min_frames,
                hardware_buffer_max_frames: health.hardware_buffer_max_frames,
                hardware_buffer_frames: health.hardware_buffer_frames,
                hardware_buffer_ms: health.hardware_buffer_ms,
                lock_miss_events: health.lock_miss_events,
                callback_deadline_miss_events: health.callback_deadline_miss_events,
                soft_callback_gap_125_events: health.soft_callback_gap_125_events,
                soft_callback_gap_150_events: health.soft_callback_gap_150_events,
                soft_callback_gap_175_events: health.soft_callback_gap_175_events,
                last_soft_callback_gap_ms: health.last_soft_callback_gap_ms,
                last_soft_callback_gap_at_ms: health.last_soft_callback_gap_at_ms,
                ring_below_250ms_events: health.ring_below_250ms_events,
                ring_below_100ms_events: health.ring_below_100ms_events,
                ring_below_50ms_events: health.ring_below_50ms_events,
                ring_below_callback_events: health.ring_below_callback_events,
                last_ring_pressure_at_ms: health.last_ring_pressure_at_ms,
                marker_error_events: health.marker_error_events,
                program_idle_splice_events: health.program_idle_splice_events,
                program_to_idle_events: health.program_to_idle_events,
                idle_to_program_events: health.idle_to_program_events,
                mixed_output_events: health.mixed_output_events,
                last_output_transition_id: health.last_output_transition_id,
                last_output_transition_at_ms: health.last_output_transition_at_ms,
                repeated_payload_events: health.repeated_payload_events,
                callback_index: health.callback_index,
                last_callback_at_ms: health.last_callback_at_ms,
                last_callback_gap_ms: health.last_callback_gap_ms,
                last_callback_frames: health.last_callback_frames,
                last_output_kind_id: health.last_output_kind_id,
                last_ring_fill_samples: health.last_ring_fill_samples,
                last_program_read_samples: health.last_program_read_samples,
                ring_read_cursor_samples: health.ring_read_cursor_samples,
                last_payload_fingerprint: health.last_payload_fingerprint,
                last_payload_fingerprint_at_ms: health.last_payload_fingerprint_at_ms,
                marker_scan_count: health.marker_scan_count,
                every_callback_scan_enabled: health.every_callback_scan_enabled,
                last_underrun_at_ms: health.last_underrun_at_ms,
            },
            None => DopDebugFields::spec_none(),
        }
    }

    /// The diagnostics of a ring.
    pub fn from_health(health: Option<DsdBufferHealth>) -> (r: DopDebugFields)
        ensures
            r == DopDebugFields::spec_from_health(health),
    {
        match health {
            Some(health) => DopDebugFields {
                ring_capacity_ms: health.ring_capacity_ms,
                ring_fill_ms: health.ring_fill_ms,
                ring_low_watermark_ms: health.ring_low_watermark_ms,
                callback_frames: health.callback_frames,
                callback_ms: health.callback_ms,
                requested_hardware_buffer_frames: health.requested_hardware_buffer_frames,
                requested_hardware_buffer_ms: health.requested_hardware_buffer_ms,
                hardware_buffer_min_frames: health.hardware_buffer_min_frames,
                hardware_buffer_max_frames: health.hardware_buffer_max_frames,
                hardware_buffer_frames: health.hardware_buffer_frames,
                hardware_buffer_ms: health.hardware_buffer_ms,
                lock_miss_events: health.lock_miss_events,
                callback_deadline_miss_events: health.callback_deadline_miss_events,
                soft_callback_gap_125_events: health.soft_callback_gap_125_events,
                soft_callback_gap_150_events: health.soft_callback_gap_150_events,
                soft_callback_gap_175_events: health.soft_callback_gap_175_events,
                last_soft_callback_gap_ms: health.last_soft_callback_gap_ms,
                last_soft_callback_gap_at_ms: health.last_soft_callback_gap_at_ms,
                ring_below_250ms_events: health.ring_below_250ms_events,
                ring_below_100ms_events: health.ring_below_100ms_events,
                ring_below_50ms_events: health.ring_below_50ms_events,
                ring_below_callback_events: health.ring_below_callback_events,
                last_ring_pressure_at_ms: health.last_ring_pressure_at_ms,
                marker_error_events: health.marker_error_events,
                program_idle_splice_events: health.program_idle_splice_events,
                program_to_idle_events: health.program_to_idle_events,
                idle_to_program_events: health.idle_to_program_events,
                mixed_output_events: health.mixed_output_events,
                last_output_transition_id: health.last_output_transition_id,
                last_output_transition_at_ms: health.last_output_transition_at_ms,
                repeated_payload_events: health.repeated_payload_events,
                callback_index: health.callback_index,
                last_callback_at_ms: health.last_callback_at_ms,
                last_callback_gap_ms: health.last_callback_gap_ms,
                last_callback_frames: health.last_callback_frames,
                last_output_kind_id: health.last_output_kind_id,
                last_ring_fill_samples: health.last_ring_fill_samples,
                last_program_read_samples: health.last_program_read_samples,
                ring_read_cursor_samples: health.ring_read_cursor_samples,
                last_payload_fingerprint: health.last_payload_fingerprint,
                last_payload_fingerprint_at_ms: health.last_payload_fingerprint_at_ms,
                marker_scan_count: health.marker_scan_count,
                every_callback_scan_enabled: health.every_callback_scan_enabled,
                last_underrun_at_ms: health.last_underrun_at_ms,
            },
            None => DopDebugFields::none(),
        }
    }

    /// The diagnostics that an agent reports.
    pub open spec fn spec_from_signal(signal: SyncSignalPath) -> DopDebugFields {
        DopDebugFields {
            ring_capacity_ms: signal.dop_ring_capacity_ms,
            ring_fill_ms: signal.dop_ring_fill_ms,
            ring_low_watermark_ms: signal.dop_ring_low_watermark_ms,
            callback_frames: signal.dop_callback_frames,
            callback_ms: signal.dop_callback_ms,
            requested_hardware_buffer_frames: signal.dop_requested_hardware_buffer_frames,
            requested_hardware_buffer_ms: signal.dop_requested_hardware_buffer_ms,
            hardware_buffer_min_frames: signal.dop_hardware_buffer_min_frames,
            hardware_buffer_max_frames: signal.dop_hardware_buffer_max_frames,
            hardware_buffer_frames: signal.dop_hardware_buffer_frames,
            hardware_buffer_ms: signal.dop_hardware_buffer_ms,
            lock_miss_events: signal.dop_lock_miss_events,
            callback_deadline_miss_events: signal.dop_callback_deadline_miss_events,
            soft_callback_gap_125_events: signal.dop_soft_callback_gap_125_events,
            soft_callback_gap_150_events: signal.dop_soft_callback_gap_150_events,
            soft_callback_gap_175_events: signal.dop_soft_callback_gap_175_events,
            last_soft_callback_gap_ms: signal.dop_last_soft_callback_gap_ms,
            last_soft_callback_gap_at_ms: signal.dop_last_soft_callback_gap_at_ms,
            ring_below_250ms_events: signal.dop_ring_below_250ms_events,
            ring_below_100ms_events: signal.dop_ring_below_100ms_events,
            ring_below_50ms_events: signal.dop_ring_below_50ms_events,
            ring_below_callback_events: signal.dop_ring_below_callback_events,
            last_ring_pressure_at_ms: signal.dop_last_ring_pressure_at_ms,
            marker_error_events: signal.dop_marker_error_events,
            program_idle_splice_events: signal.dop_program_idle_splice_events,
            program_to_idle_events: signal.dop_program_to_idle_events,
            idle_to_program_events: signal.dop_idle_to_program_events,
            mixed_output_events: signal.dop_mixed_output_events,
            last_output_transition_id: signal.dop_last_output_transition_id,
            last_output_transition_at_ms: signal.dop_last_output_transition_at_ms,
            repeated_payload_events: signal.dop_repeated_payload_events,
            callback_index: signal.dop_callback_index,
            last_callback_at_ms: signal.dop_last_callback_at_ms,
            last_callback_gap_ms: signal.dop_last_callback_gap_ms,
            last_callback_frames: signal.dop_last_callback_frames,
            last_output_kind_id: signal.dop_last_output_kind_id,
            last_ring_fill_samples: signal.dop_last_ring_fill_samples,
            last_program_read_samples: signal.dop_last_program_read_samples,
            ring_read_cursor_samples: signal.dop_ring_read_cursor_samples,
            last_payload_fingerprint: signal.dop_last_payload_fingerprint,
            last_payload_fingerprint_at_ms: signal.dop_last_payload_fingerprint_at_ms,
            marker_scan_count: signal.dop_marker_scan_count,
            every_callback_scan_enabled: signal.dop_every_callback_scan_enabled,
            last_underrun_at_ms: signal.dop_last_underrun_at_ms,
        }
    }

    /// The diagnostics that an agent reports.
    pub fn from_signal(signal: &SyncSignalPath) -> (r: DopDebugFields)
        ensures
            r == DopDebugFields::spec_from_signal(*signal),
    {
        DopDebugFields {
            ring_capacity_ms: signal.dop_ring_capacity_ms,
            ring_fill_ms: signal.dop_ring_fill_ms,
            ring_low_watermark_ms: signal.dop_ring_low_watermark_ms,
            callback_frames: signal.dop_callback_frames,
            callback_ms: signal.dop_callback_ms,
            requested_hardware_buffer_frames: signal.dop_requested_hardware_buffer_frames,
            requested_hardware_buffer_ms: signal.dop_requested_hardware_buffer_ms,
            hardware_buffer_min_frames: signal.dop_hardware_buffer_min_frames,
            hardware_buffer_max_frames: signal.dop_hardware_buffer_max_frames,
            hardware_buffer_frames: signal.dop_hardware_buffer_frames,
            hardware_buffer_ms: signal.dop_hardware_buffer_ms,
            lock_miss_events: signal.dop_lock_miss_events,
            callback_deadline_miss_events: signal.dop_callback_deadline_miss_events,
            soft_callback_gap_125_events: signal.dop_soft_callback_gap_125_events,
            soft_callback_gap_150_events: signal.dop_soft_callback_gap_150_events,
            soft_callback_gap_175_events: signal.dop_soft_callback_gap_175_events,
            last_soft_callback_gap_ms: signal.dop_last_soft_callback_gap_ms,
            last_soft_callback_gap_at_ms: signal.dop_last_soft_callback_gap_at_ms,
            ring_below_250ms_events: signal.dop_ring_below_250ms_events,
            ring_below_100ms_events: signal.dop_ring_below_100ms_events,
            ring_below_50ms_events: signal.dop_ring_below_50ms_events,
            ring_below_callback_events: signal.dop_ring_below_callback_events,
            last_ring_pressure_at_ms: signal.dop_last_ring_pressure_at_ms,
            marker_error_events: signal.dop_marker_error_events,
            program_idle_splice_events: signal.dop_program_idle_splice_events,
            program_to_idle_events: signal.dop_program_to_idle_events,
            idle_to_program_events: signal.dop_idle_to_program_events,
            mixed_output_events: signal.dop_mixed_output_events,
            last_output_transition_id: signal.dop_last_output_transition_id,
            last_output_transition_at_ms: signal.dop_last_output_transition_at_ms,
            repeated_payload_events: signal.dop_repeated_payload_events,
            callback_index: signal.dop_callback_index,
            last_callback_at_ms: signal.dop_last_callback_at_ms,
            last_callback_gap_ms: signal.dop_last_callback_gap_ms,
            last_callback_frames: signal.dop_last_callback_frames,
            last_output_kind_id: signal.dop_last_output_kind_id,
            last_ring_fill_samples: signal.dop_last_ring_fill_samples,
            last_program_read_samples: signal.dop_last_program_read_samples,
            ring_read_cursor_samples: signal.dop_ring_read_cursor_samples,
            last_payload_fingerprint: signal.dop_last_payload_fingerprint,
            last_payload_fingerprint_at_ms: signal.dop_last_payload_fingerprint_at_ms,
            marker_scan_count: signal.dop_marker_scan_count,
            every_callback_scan_enabled: signal.dop_every_callback_scan_enabled,
            last_underrun_at_ms: signal.dop_last_underrun_at_ms,
        }
    }
}

impl OutputMetrics {
    /// The metrics without what they say of live playback.
    pub open spec fn spec_cleared(self) -> OutputMetrics {
        OutputMetrics {
            dsd_buffer_health: None,
            signal_peak: Real32::spec_zero(),
            signal_peak_max: Real32::spec_zero(),
            signal_clipping: false,
            signal_clip_events: 0,
            signal_clip_samples: 0,
            dsd_limiter_peak_ratio: Real32::spec_zero(),
            dsd_limiter_peak_ratio_max: Real32::spec_zero(),
            dsd_limiter_active: false,
            dsd_limiter_events: 0,
            dsd_limiter_samples: 0,
            ..self
        }
    }

    /// The metrics without what they say of live playback.
    pub fn cleared(self) -> (r: OutputMetrics)
        ensures
            r == self.spec_cleared(),
    {
        OutputMetrics {
            dsd_buffer_health: None,
            signal_peak: Real32::zero(),
            signal_peak_max: Real32::zero(),
            signal_clipping: false,
            signal_clip_events: 0,
            signal_clip_samples: 0,
            dsd_limiter_peak_ratio: Real32::zero(),
            dsd_limiter_peak_ratio_max: Real32::zero(),
            dsd_limiter_active: false,
            dsd_limiter_events: 0,
            dsd_limiter_samples: 0,
            ..self
        }
    }

    /// The metrics that an agent reports; it has no meters.
    pub open spec fn spec_with_signal(self, signal: SyncSignalPath) -> OutputMetrics {
        OutputMetrics {
            resample_time_ns: signal.resample_time_ns,
            dsd_upsample_time_ns: signal.dsd_upsample_time_ns,
            dsd_modulate_time_ns: signal.dsd_modulate_time_ns,
            dsd_output_pending_samples: signal.dsd_output_pending_samples,
            dsd_buffer_health: signal.dsd_buffer_health,
            dsd_overbudget_blocks: signal.dsd_overbudget_blocks,
            dsd_last_load: signal.dsd_last_load,
            dsd_recent_load_p95: signal.dsd_recent_load_p95,
            dsd_recent_load_p99: signal.dsd_recent_load_p99,
            block_duration_ns: signal.block_duration_ns,
            signal_peak: signal.signal_peak,
            signal_peak_max: signal.signal_peak_max,
            signal_clipping: signal.signal_clipping,
            signal_clip_events: signal.signal_clip_events,
            signal_clip_samples: signal.signal_clip_samples,
            dsd_limiter_peak_ratio: signal.dsd_limiter_peak_ratio,
            dsd_limiter_peak_ratio_max: signal.dsd_limiter_peak_ratio_max,
            dsd_limiter_active: signal.dsd_limiter_active,
            dsd_limiter_events: signal.dsd_limiter_events,
            dsd_limiter_samples: signal.dsd_limiter_samples,
            underrun_events: signal.underrun_events,
            underrun_samples: signal.underrun_samples,
            ..self
        }
    }

    /// The metrics that an agent reports; it has no meters.
    pub fn with_signal(self, signal: &SyncSignalPath) -> (r: OutputMetrics)
        ensures
            r == self.spec_with_signal(*signal),
    {
        OutputMetrics {
            resample_time_ns: signal.resample_time_ns,
            dsd_upsample_time_ns: signal.dsd_upsample_time_ns,
            dsd_modulate_time_ns: signal.dsd_modulate_time_ns,
            dsd_output_pending_samples: signal.dsd_output_pending_samples,
            dsd_buffer_health: signal.dsd_buffer_health,
            dsd_overbudget_blocks: signal.dsd_overbudget_blocks,
            dsd_last_load: signal.dsd_last_load,
            dsd_recent_load_p95: signal.dsd_recent_load_p95,
            dsd_recent_load_p99: signal.dsd_recent_load_p99,
            block_duration_ns: signal.block_duration_ns,
            signal_peak: signal.signal_peak,
            signal_peak_max: signal.signal_peak_max,
            signal_clipping: signal.signal_clipping,
            signal_clip_events: signal.signal_clip_events,
            signal_clip_samples: signal.signal_clip_samples,
            dsd_limiter_peak_ratio: signal.dsd_limiter_peak_ratio,
            dsd_limiter_peak_ratio_max: signal.dsd_limiter_peak_ratio_max,
            dsd_limiter_active: signal.dsd_limiter_active,
            dsd_limiter_events: signal.dsd_limiter_events,
            dsd_limiter_samples: signal.dsd_limiter_samples,
            underrun_events: signal.underrun_events,
            underrun_samples: signal.underrun_samples,
            ..self
        }
    }
}

impl OutputDiagnostics {
    /// `self` is `before` without what it says of live playback. What was seen
    /// of reading and decoding the source stays.
    pub open spec fn cleared_from(self, before: OutputDiagnostics) -> bool {
        &&& self == (OutputDiagnostics {
            output_ring_fill_now_ms: Real64::spec_zero(),
            output_ring_fill_min_ms: Real64::spec_zero(),
            startup_ring_low_watermark_ms: Real64::spec_zero(),
            startup_ready_ms: 0,
            startup_first_render_block_ms: Real64::spec_zero(),
            startup_producer_over_budget_count: 0,
            startup_callback_gaps_ms: self.startup_callback_gaps_ms,
            underrun_count: 0,
            producer_over_budget_count: 0,
            max_render_block_ms: Real64::spec_zero(),
            max_audio_callback_gap_ms: Real64::spec_zero(),
            dsp_graph_rebuild_count: 0,
            sample_rate_change_count: 0,
            dop_alignment_reset_count: 0,
            coreaudio_dop_open_count: 0,
            coreaudio_dop_start_count: 0,
            coreaudio_dop_stop_count: 0,
            coreaudio_dop_drop_count: 0,
            coreaudio_dop_quiesce_count: 0,
            coreaudio_dop_last_lifecycle_event_id: 0,
            coreaudio_dop_last_lifecycle_at_ms: 0,
            reopen_reason_count: 0,
            last_reopen_reason_id: 0,
            last_reopen_reason_at_ms: 0,
            flush_reason_count: 0,
            last_flush_reason_id: 0,
            last_flush_reason_at_ms: 0,
            modulator_reset_count: 0,
            decoder_starved_count: 0,
            lock_wait_max_ms: Real64::spec_zero(),
            ..before
        })
        &&& self.startup_callback_gaps_ms@ == Seq::<Real64>::empty()
    }

    /// The diagnostics without what they say of live playback.
    pub fn clear(&mut self)
        ensures
            final(self).cleared_from(*old(self)),
    {
        self.output_ring_fill_now_ms = Real64::zero();
        self.output_ring_fill_min_ms = Real64::zero();
        self.startup_ring_low_watermark_ms = Real64::zero();
        self.startup_ready_ms = 0;
        self.startup_first_render_block_ms = Real64::zero();
        self.startup_producer_over_budget_count = 0;
        self.startup_callback_gaps_ms = Vec::new();
        self.underrun_count = 0;
        self.producer_over_budget_count = 0;
        self.max_render_block_ms = Real64::zero();
        self.max_audio_callback_gap_ms = Real64::zero();
        self.dsp_graph_rebuild_count = 0;
        self.sample_rate_change_count = 0;
        self.dop_alignment_reset_count = 0;
        self.coreaudio_dop_open_count = 0;
        self.coreaudio_dop_start_count = 0;
        self.coreaudio_dop_stop_count = 0;
        self.coreaudio_dop_drop_count = 0;
        self.coreaudio_dop_quiesce_count = 0;
        self.coreaudio_dop_last_lifecycle_event_id = 0;
        self.coreaudio_dop_last_lifecycle_at_ms = 0;
        self.reopen_reason_count = 0;
        self.last_reopen_reason_id = 0;
        self.last_reopen_reason_at_ms = 0;
        self.flush_reason_count = 0;
        self.last_flush_reason_id = 0;
        self.last_flush_reason_at_ms = 0;
        self.modulator_reset_count = 0;
        self.decoder_starved_count = 0;
        self.lock_wait_max_ms = Real64::zero();
    }

    /// The diagnostics are those that an agent reports.
    pub open spec fn reported_by(self, signal: SyncSignalPath) -> bool {
        &&& self == (OutputDiagnostics {
            output_ring_fill_now_ms: signal.output_ring_fill_now_ms,
            output_ring_fill_min_ms: signal.output_ring_fill_min_ms,
            startup_ring_low_watermark_ms: signal.startup_ring_low_watermark_ms,
            startup_ready_ms: signal.startup_ready_ms,
            startup_first_render_block_ms: signal.startup_first_render_block_ms,
            startup_producer_over_budget_count: signal.startup_producer_over_budget_count,
            startup_callback_gaps_ms: self.startup_callback_gaps_ms,
            underrun_count: signal.underrun_count,
            producer_over_budget_count: signal.producer_over_budget_count,
            max_render_block_ms: signal.max_render_block_ms,
            max_audio_callback_gap_ms: signal.max_audio_callback_gap_ms,
            dsp_graph_rebuild_count: signal.dsp_graph_rebuild_count,
            sample_rate_change_count: signal.sample_rate_change_count,
            dop_alignment_reset_count: signal.dop_alignment_reset_count,
            coreaudio_dop_open_count: signal.coreaudio_dop_open_count,
            coreaudio_dop_start_count: signal.coreaudio_dop_start_count,
            coreaudio_dop_stop_count: signal.coreaudio_dop_stop_count,
            coreaudio_dop_drop_count: signal.coreaudio_dop_drop_count,
            coreaudio_dop_quiesce_count: signal.coreaudio_dop_quiesce_count,
            coreaudio_dop_last_lifecycle_event_id: signal.coreaudio_dop_last_lifecycle_event_id,
            coreaudio_dop_last_lifecycle_at_ms: signal.coreaudio_dop_last_lifecycle_at_ms,
            reopen_reason_count: signal.reopen_reason_count,
            last_reopen_reason_id: signal.last_reopen_reason_id,
            last_reopen_reason_at_ms: signal.last_reopen_reason_at_ms,
            flush_reason_count: signal.flush_reason_count,
            last_flush_reason_id: signal.last_flush_reason_id,
            last_flush_reason_at_ms: signal.last_flush_reason_at_ms,
            modulator_reset_count: signal.modulator_reset_count,
            decoder_starved_count: signal.decoder_starved_count,
            source_read_time_ms: signal.source_read_time_ms,
            max_source_read_ms: signal.max_source_read_ms,
            source_read_stall_count: signal.source_read_stall_count,
            source_read_stall_last_at_ms: signal.source_read_stall_last_at_ms,
            decoder_decode_time_ms: signal.decoder_decode_time_ms,
            max_decoder_decode_ms: signal.max_decoder_decode_ms,
            decoder_decode_stall_count: signal.decoder_decode_stall_count,
            decoder_decode_stall_last_at_ms: signal.decoder_decode_stall_last_at_ms,
            lock_wait_max_ms: signal.lock_wait_max_ms,
        })
        &&& self.startup_callback_gaps_ms@ == signal.startup_callback_gaps_ms@
    }

    /// The diagnostics that an agent reports.
    pub fn from_signal(signal: &SyncSignalPath) -> (r: OutputDiagnostics)
        ensures
            r.reported_by(*signal),
    {
        let startup_callback_gaps_ms = signal.startup_callback_gaps_ms.clone();
        proof {
            assert(startup_callback_gaps_ms@ =~= signal.startup_callback_gaps_ms@);
        }
        OutputDiagnostics {
            output_ring_fill_now_ms: signal.output_ring_fill_now_ms,
            output_ring_fill_min_ms: signal.output_ring_fill_min_ms,
            startup_ring_low_watermark_ms: signal.startup_ring_low_watermark_ms,
            startup_ready_ms: signal.startup_ready_ms,
            startup_first_render_block_ms: signal.startup_first_render_block_ms,
            startup_producer_over_budget_count: signal.startup_producer_over_budget_count,
            startup_callback_gaps_ms,
            underrun_count: signal.underrun_count,
            producer_over_budget_count: signal.producer_over_budget_count,
            max_render_block_ms: signal.max_render_block_ms,
            max_audio_callback_gap_ms: signal.max_audio_callback_gap_ms,
            dsp_graph_rebuild_count: signal.dsp_graph_rebuild_count,
            sample_rate_change_count: signal.sample_rate_change_count,
            dop_alignment_reset_count: signal.dop_alignment_reset_count,
            coreaudio_dop_open_count: signal.coreaudio_dop_open_count,
            coreaudio_dop_start_count: signal.coreaudio_dop_start_count,
            coreaudio_dop_stop_count: signal.coreaudio_dop_stop_count,
            coreaudio_dop_drop_count: signal.coreaudio_dop_drop_count,
            coreaudio_dop_quiesce_count: signal.coreaudio_dop_quiesce_count,
            coreaudio_dop_last_lifecycle_event_id: signal.coreaudio_dop_last_lifecycle_event_id,
            coreaudio_dop_last_lifecycle_at_ms: signal.coreaudio_dop_last_lifecycle_at_ms,
            reopen_reason_count: signal.reopen_reason_count,
            last_reopen_reason_id: signal.last_reopen_reason_id,
            last_reopen_reason_at_ms: signal.last_reopen_reason_at_ms,
            flush_reason_count: signal.flush_reason_count,
            last_flush_reason_id: signal.last_flush_reason_id,
            last_flush_reason_at_ms: signal.last_flush_reason_at_ms,
            modulator_reset_count: signal.modulator_reset_count,
            decoder_starved_count: signal.decoder_starved_count,
            source_read_time_ms: signal.source_read_time_ms,
            max_source_read_ms: signal.max_source_read_ms,
            source_read_stall_count: signal.source_read_stall_count,
            source_read_stall_last_at_ms: signal.source_read_stall_last_at_ms,
            decoder_decode_time_ms: signal.decoder_decode_time_ms,
            max_decoder_decode_ms: signal.max_decoder_decode_ms,
            decoder_decode_stall_count: signal.decoder_decode_stall_count,
            decoder_decode_stall_last_at_ms: signal.decoder_decode_stall_last_at_ms,
            lock_wait_max_ms: signal.lock_wait_max_ms,
        }
    }
}

/// `after` is `before` without what it says of live playback: no track, no
/// rates, no diagnostics. The position may stay.
pub open spec fn identity_cleared(
    before: StatusResponse,
    after: StatusResponse,
    preserve_timeline: bool,
) -> bool {
    &&& after == (StatusResponse {
        state: after.state,
        file_name: None,
        current_source: None,
        track_title: None,
        track_artist: None,
        track_album: None,
        cover_version: 0,
        source_rate: 0,
        target_rate: 0,
        source_bits: 0,
        target_bits: 0,
        transport_pending: after.transport_pending,
        transport_pending_position_secs: None,
        src_path_kind: None,
        src_capped_fallback: false,
        src_phase_profile_preserved: true,
        src_ratio_num: 0,
        src_ratio_den: 0,
        position_secs: if preserve_timeline {
            before.position_secs
        } else {
            Real64::spec_zero()
        },
        duration_secs: if preserve_timeline {
            before.duration_secs
        } else {
            Real64::spec_zero()
        },
        metrics: before.metrics.spec_cleared(),
        dop: DopDebugFields::spec_none(),
        diagnostics: after.diagnostics,
        ..before
    })
    &&& after.state@ == "Stopped"@
    &&& after.transport_pending@ == "none"@
    &&& after.diagnostics.cleared_from(before.diagnostics)
}

/// Takes out of a status what it says of live playback.
pub fn clear_live_playback_identity(response: &mut StatusResponse, preserve_timeline: bool)
    ensures
        identity_cleared(*old(response), *final(response), preserve_timeline),
{
    response.state = "Stopped".to_string();
    response.file_name = None;
    response.current_source = None;
    response.track_title = None;
    response.track_artist = None;
    response.track_album = None;
    response.cover_version = 0;
    response.source_rate = 0;
    response.target_rate = 0;
    response.source_bits = 0;
    response.target_bits = 0;
    response.transport_pending = "none".to_string();
    response.transport_pending_position_secs = None;
    response.src_path_kind = None;
    response.src_capped_fallback = false;
    response.src_phase_profile_preserved = true;
    response.src_ratio_num = 0;
    response.src_ratio_den = 0;
    if !preserve_timeline {
        response.position_secs = Real64::zero();
        response.duration_secs = Real64::zero();
    }
    response.metrics = response.metrics.cleared();
    response.dop = DopDebugFields::none();
    response.diagnostics.clear();
}

/// `after` is `before` with the signal path that an agent reports. What was
/// asked of the resampler is shown as it was set while it is switched off.
/// `modulator` is the modulator that the agent reports, when it is known.
pub open spec fn signal_applied(
    before: StatusResponse,
    after: StatusResponse,
    signal: SyncSignalPath,
    modulator: Option<String>,
) -> bool {
    &&& after == (StatusResponse {
        filter_type: if before.upsampling_enabled {
            signal.dsp_filter
        } else {
            before.filter_type
        },
        output_mode: if before.upsampling_enabled && signal.output_mode is Some {
            signal.output_mode->0
        } else {
            before.output_mode
        },
        active_output_mode: if signal.active_output_mode is Some {
            signal.active_output_mode->0
        } else {
            before.active_output_mode
        },
        output_transport: if signal.output_transport is Some {
            signal.output_transport->0
        } else {
            before.output_transport
        },
        dsd_modulator: if before.upsampling_enabled && modulator is Some {
            modulator->0
        } else {
            before.dsd_modulator
        },
        active_filter_type: signal.dsp_filter,
        src_path_kind: signal.src_path_kind,
        src_capped_fallback: signal.src_capped_fallback,
        src_phase_profile_preserved: signal.src_phase_profile_preserved,
        src_ratio_num: signal.src_ratio_num,
        src_ratio_den: signal.src_ratio_den,
        dsd_stability_resets: signal.dsd_stability_resets,
        cpu_percent: signal.cpu_percent,
        selected_device: signal.output_device,
        metrics: before.metrics.spec_with_signal(signal),
        dop: DopDebugFields::spec_from_signal(signal),
        diagnostics: after.diagnostics,
        ..before
    })
    &&& after.diagnostics.reported_by(signal)
}

/// A status that shows the signal path that its agent reports, if it does.
/// `modulator` is the modulator that the agent reports, when it is known.
pub fn apply_remote_signal(response: StatusResponse, modulator: Option<String>) -> (r:
    StatusResponse)
    ensures
        match response.remote_signal_path {
            Some(signal) => signal_applied(response, r, signal, modulator),
            None => r == response,
        },
{
    let signal = match response.remote_signal_path {
        Some(signal) => signal,
        None => return StatusResponse { remote_signal_path: None, ..response },
    };
    let upsampling_enabled = response.upsampling_enabled;
    let filter_type = if upsampling_enabled {
        signal.dsp_filter.clone()
    } else {
        response.filter_type
    };
    let output_mode = match (upsampling_enabled, &signal.output_mode) {
        (true, Some(mode)) => mode.clone(),
        _ => response.output_mode,
    };
    let active_output_mode = match &signal.active_output_mode {
        Some(mode) => mode.clone(),
        None => response.active_output_mode,
    };
    let output_transport = match &signal.output_transport {
        Some(transport) => transport.clone(),
        None => response.output_transport,
    };
    let dsd_modulator = match (upsampling_enabled, modulator) {
        (true, Some(modulator)) => modulator,
        _ => response.dsd_modulator,
    };
    StatusResponse {
        filter_type,
        output_mode,
        active_output_mode,
        output_transport,
        dsd_modulator,
        active_filter_type: signal.dsp_filter.clone(),
        src_path_kind: signal.src_path_kind.clone(),
        src_capped_fallback: signal.src_capped_fallback,
        src_phase_profile_preserved: signal.src_phase_profile_preserved,
        src_ratio_num: signal.src_ratio_num,
        src_ratio_den: signal.src_ratio_den,
        dsd_stability_resets: signal.dsd_stability_resets,
        cpu_percent: signal.cpu_percent,
        selected_device: signal.output_device.clone(),
        metrics: response.metrics.with_signal(&signal),
        dop: DopDebugFields::from_signal(&signal),
        diagnostics: OutputDiagnostics::from_signal(&signal),
        remote_signal_path: Some(signal),
        ..response
    }
}

/// The signal path of a player.
#[derive(Debug)]
pub struct PlayerSignal {
    pub src_path_kind: Option<String>,
    pub src_capped_fallback: bool,
    pub src_phase_profile_preserved: bool,
    pub src_ratio_num: u32,
    pub src_ratio_den: u32,
    pub output_notice_id: u64,
    pub dsd_stability_resets: u64,
    pub source_rate: u32,
    pub target_rate: u32,
    pub source_bits: u32,
    pub target_bits: u32,
    /// The name of the output mode that was asked for.
    pub output_mode: String,
    pub active_output_mode: String,
    pub output_transport: String,
}

/// The configuration of a player.
#[derive(Debug)]
pub struct PlayerConfig {
    /// The name of the filter that was asked for.
    pub filter_type: Option<String>,
    pub active_filter_type: Option<String>,
    pub dsd_modulator: String,
    pub dsp_buffer_ms: u32,
    pub dsd_isi_penalty: Real32,
    pub headroom_db: Real32,
    pub exclusive: bool,
    pub configured_target_rate: u32,
    pub upsampling_enabled: bool,
    pub volume: Real32,
}

/// What a player says of itself.
#[derive(Debug)]
pub struct PlayerSnapshot {
    /// The name of the playback state.
    pub state: String,
    pub signal: PlayerSignal,
    pub config: PlayerConfig,
    /// The position in seconds at the target rate, if there is one.
    pub position_secs: Real64,
    /// The duration in seconds at the source rate, if there is one.
    pub duration_secs: Real64,
    pub metrics: OutputMetrics,
    pub diagnostics: OutputDiagnostics,
    pub output_notice: Option<String>,
    pub file_name: Option<String>,
    pub track_tags: TrackTags,
    pub cover_version: u64,
    pub device_name: Option<String>,
}

/// The playback settings of a zone. Names are those of known filters, modes and
/// modulators.
#[derive(Debug)]
pub struct ZonePlaybackSettings {
    pub filter_type: Option<String>,
    pub output_mode: Option<String>,
    pub dsd_modulator: Option<String>,
    pub dsp_buffer_ms: Option<u32>,
    pub dsd_isi_penalty: Option<Real32>,
    pub headroom_db: Option<Real32>,
    pub exclusive: Option<bool>,
    pub target_rate: Option<u32>,
    pub target_bit_depth: Option<u32>,
    pub upsampling_enabled: Option<bool>,
    pub dsd_rules_enabled: bool,
    pub dsd_rules: Vec<DsdSourceRule>,
}

/// What the library knows of a track's names.
#[derive(Debug)]
pub struct LibraryTags {
    pub title: Option<String>,
    pub artist: Option<String>,
    pub album: Option<String>,
}

/// What an agent reported last.
#[derive(Debug)]
pub struct RemoteSnapshot {
    pub signal_path: Option<SyncSignalPath>,
    pub buffer: Option<AgentBufferState>,
    pub playback: Option<AgentPlaybackState>,
}

/// The volume of an output device.
#[derive(Debug)]
pub struct DeviceVolumeStatus {
    pub supported: bool,
    pub volume: Option<Real32>,
    pub message: Option<String>,
}

/// The volume of an amplifier, in hundredths.
#[derive(Clone, Copy, Debug)]
pub struct HegelVolume {
    pub max_volume: u8,
    pub volume: Option<u8>,
}

/// All that a status is made of.
#[derive(Debug)]
pub struct StatusInputs {
    pub capabilities: BuildCapabilities,
    pub airplay_helper_state: String,
    pub player: PlayerSnapshot,
    pub settings: ZonePlaybackSettings,
    pub zone_id: String,
    pub zone_name: String,
    pub zone_protocol: Option<SinkProtocol>,
    pub cpu_percent: Real32,
    /// The source that the player's file name stands for.
    pub player_source: Option<SourceRef>,
    /// The names of that source, when it is a local track that is known.
    pub track_tags: Option<LibraryTags>,
    /// The names that go with the player's file name.
    pub file_tags: LibraryTags,
    /// What the agent of an agent's zone reported.
    pub remote: Option<RemoteSnapshot>,
    /// The source that the agent's file name stands for.
    pub remote_source: Option<SourceRef>,
    /// The source that the zone was last told to play.
    pub active_source: Option<SourceRef>,
    /// The modulator that the agent reports, when it is known.
    pub remote_modulator: Option<String>,
    pub hegel: Option<HegelVolume>,
    pub upnp_volume: Option<Real32>,
    pub airplay_volume: Option<Real32>,
    pub local_volume: DeviceVolumeStatus,
    pub browser_stream_signal: Option<BrowserStreamSignal>,
}

/// The source that a file name stands for: what was listened to under it, else
/// the track that the library has under it.
pub fn status_source_for_file_name(
    listened: Option<SourceRef>,
    library: Option<SourceRef>,
) -> (r: Option<SourceRef>)
    ensures
        r == (if listened is Some {
            listened
        } else {
            library
        }),
{
    match listened {
        Some(source) => Some(source),
        None => library,
    }
}

/// A setting, or what holds without it.
pub open spec fn set_or<T>(setting: Option<T>, fallback: T) -> T {
    match setting {
        Some(value) => value,
        None => fallback,
    }
}

/// The first of two optional texts that is there.
pub open spec fn preferred(first: Option<String>, second: Option<String>) -> Option<String> {
    if first is Some {
        first
    } else {
        second
    }
}

fn first_of(first: Option<String>, second: Option<String>) -> (r: Option<String>)
    ensures
        r == preferred(first, second),
{
    match first {
        Some(text) => Some(text),
        None => second,
    }
}

/// The depth that a zone asks for; anything unusual stands for 24.
pub open spec fn spec_configured_depth(setting: Option<u32>) -> u32 {
    if setting == Some(16u32) || setting == Some(32u32) {
        setting->0
    } else {
        24
    }
}

fn configured_depth(setting: Option<u32>) -> (r: u32)
    ensures
        r == spec_configured_depth(setting),
{
    match setting {
        Some(bits) => if bits == 16 || bits == 32 {
            bits
        } else {
            24
        },
        None => 24,
    }
}

/// A point in time counts only at a rate.
pub open spec fn timeline(seconds: Real64, rate: u32) -> Real64 {
    if rate > 0 {
        seconds
    } else {
        Real64::spec_zero()
    }
}

/// The source that the player plays.
pub open spec fn player_source(inputs: StatusInputs) -> Option<SourceRef> {
    if inputs.player.file_name is Some {
        inputs.player_source
    } else {
        None
    }
}

/// What the library knows of what the player plays: the names of the track,
/// else those that go with the file name.
pub open spec fn library_tags(inputs: StatusInputs) -> LibraryTags {
    if player_source(inputs) is Some && player_source(inputs)->0 is LocalTrack
        && inputs.track_tags is Some {
        inputs.track_tags->0
    } else if inputs.player.file_name is Some {
        inputs.file_tags
    } else {
        LibraryTags { title: None, artist: None, album: None }
    }
}

/// The protocol that a status shows; an unknown zone is a local one.
pub open spec fn shown_protocol(inputs: StatusInputs) -> SinkProtocol {
    set_or(inputs.zone_protocol, SinkProtocol::LocalCoreAudio)
}

/// The agent behind the zone, if there is one.
pub open spec fn agent_of(inputs: StatusInputs) -> Option<RemoteSnapshot> {
    if shown_protocol(inputs) == SinkProtocol::RemoteAgent {
        inputs.remote
    } else {
        None
    }
}

/// The device volume that a status shows, with its limit: that of the
/// amplifier, if there is one, else what the protocol offers.
pub open spec fn device_shown(
    inputs: StatusInputs,
    shown: DeviceVolumeStatus,
    max: Option<Real32>,
) -> bool {
    let protocol = shown_protocol(inputs);
    match inputs.hegel {
        Some(hegel) => {
            &&& shown.supported
            &&& shown.volume is Some <==> hegel.volume is Some
            &&& hegel.volume is Some ==> shown.volume->0.is_hundredths(
                if hegel.volume->0 <= hegel.max_volume {
                    hegel.volume->0
                } else {
                    hegel.max_volume
                },
            )
            &&& text::opt_text(shown.message) == Some(
                "Hegel volume; max "@ + text::decimal(hegel.max_volume as nat) + "%"@,
            )
            &&& max is Some
            &&& max->0.is_hundredths(hegel.max_volume)
        },
        None => {
            &&& max is None
            &&& if protocol == SinkProtocol::RemoteAgent {
                &&& !shown.supported
                &&& shown.volume is None
                &&& text::opt_text(shown.message) == Some(
                    "Device volume for remote agents is not available from this control"@,
                )
            } else if protocol == SinkProtocol::UpnpAvRenderer {
                &&& shown.supported
                &&& shown.volume == inputs.upnp_volume
                &&& shown.message is None
            } else if protocol == SinkProtocol::AirPlayRaop || protocol == SinkProtocol::AirPlay2 {
                &&& shown.supported
                &&& shown.volume == inputs.airplay_volume
                &&& text::opt_text(shown.message) == (if inputs.airplay_volume is Some {
                    None
                } else {
                    Some(
                        "AirPlay receiver volume is unknown; current receiver volume will be preserved"@,
                    )
                })
            } else {
                shown == inputs.local_volume
            }
        },
    }
}

/// The device volume that a status shows, with its limit. The volume of a
/// local device is taken from `local`.
fn device_volume(
    hegel: Option<HegelVolume>,
    protocol: SinkProtocol,
    upnp_volume: Option<Real32>,
    airplay_volume: Option<Real32>,
    local: DeviceVolumeStatus,
) -> (r: (DeviceVolumeStatus, Option<Real32>))
    ensures
        forall|inputs: StatusInputs|
            inputs.hegel == hegel && shown_protocol(inputs) == protocol && inputs.upnp_volume
                == upnp_volume && inputs.airplay_volume == airplay_volume && inputs.local_volume
                == local ==> #[trigger] device_shown(inputs, r.0, r.1),
{
    match hegel {
        Some(hegel) => {
            let mut message = "Hegel volume; max ".to_string();
            text::push_decimal(&mut message, hegel.max_volume as u64);
            message.append("%");
            let volume = match hegel.volume {
                Some(volume) => Some(
                    Real32::hundredths(
                        if volume <= hegel.max_volume {
                            volume
                        } else {
                            hegel.max_volume
                        },
                    ),
                ),
                None => None,
            };
            return (
                DeviceVolumeStatus { supported: true, volume, message: Some(message) },
                Some(Real32::hundredths(hegel.max_volume)),
            );
        },
        None => {},
    }
    match protocol {
        SinkProtocol::RemoteAgent => (
            DeviceVolumeStatus {
                supported: false,
                volume: None,
                message: Some(
                    "Device volume for remote agents is not available from this control".to_string(),
                ),
            },
            None,
        ),
        SinkProtocol::UpnpAvRenderer => (
            DeviceVolumeStatus { supported: true, volume: upnp_volume, message: None },
            None,
        ),
        SinkProtocol::AirPlayRaop | SinkProtocol::AirPlay2 => {
            let message = match airplay_volume {
                Some(_) => None,
                None => Some(
                    "AirPlay receiver volume is unknown; current receiver volume will be preserved".to_string(),
                ),
            };
            (DeviceVolumeStatus { supported: true, volume: airplay_volume, message }, None)
        },
        _ => (local, None),
    }
}

/// What the player and the settings of a zone come to, before an agent is
/// heard.
pub open spec fn base_status(inputs: StatusInputs, r: StatusResponse) -> bool {
    &&& r == (StatusResponse {
        surface: r.surface,
        capabilities: inputs.capabilities,
        airplay_helper_state: inputs.airplay_helper_state,
        state: inputs.player.state,
        file_name: inputs.player.file_name,
        current_source: player_source(inputs),
        track_title: preferred(library_tags(inputs).title, inputs.player.track_tags.title),
        track_artist: preferred(library_tags(inputs).artist, inputs.player.track_tags.artist),
        track_album: preferred(library_tags(inputs).album, inputs.player.track_tags.album),
        cover_version: inputs.player.cover_version,
        source_rate: inputs.player.signal.source_rate,
        target_rate: inputs.player.signal.target_rate,
        source_bits: inputs.player.signal.source_bits,
        target_bits: inputs.player.signal.target_bits,
        configured_target_rate: set_or(inputs.settings.target_rate, inputs.player.config.configured_target_rate),
        configured_target_bit_depth: spec_configured_depth(inputs.settings.target_bit_depth),
        upsampling_enabled: set_or(inputs.settings.upsampling_enabled, inputs.player.config.upsampling_enabled),
        filter_type: r.filter_type,
        active_filter_type: r.active_filter_type,
        src_path_kind: inputs.player.signal.src_path_kind,
        src_capped_fallback: inputs.player.signal.src_capped_fallback,
        src_phase_profile_preserved: inputs.player.signal.src_phase_profile_preserved,
        src_ratio_num: inputs.player.signal.src_ratio_num,
        src_ratio_den: inputs.player.signal.src_ratio_den,
        dither_mode: r.dither_mode,
        output_mode: set_or(inputs.settings.output_mode, inputs.player.signal.output_mode),
        active_output_mode: inputs.player.signal.active_output_mode,
        dsd_modulator: set_or(inputs.settings.dsd_modulator, inputs.player.config.dsd_modulator),
        dsd_isi_penalty: set_or(inputs.settings.dsd_isi_penalty, inputs.player.config.dsd_isi_penalty),
        output_transport: inputs.player.signal.output_transport,
        output_notice_id: inputs.player.signal.output_notice_id,
        output_notice: inputs.player.output_notice,
        upnp_config_applied_to_current_playback: true,
        upnp_restart_pending: false,
        upnp_render_status: r.upnp_render_status,
        upnp_active_render_signature: None,
        upnp_configured_render_signature: None,
        upnp_last_render_ms: None,
        upnp_last_prepare_ms: None,
        upnp_last_cache_hit: None,
        transport_pending: r.transport_pending,
        transport_pending_position_secs: None,
        dsd_stability_resets: inputs.player.signal.dsd_stability_resets,
        dsd_rules_enabled: inputs.settings.dsd_rules_enabled,
        dsd_rules: inputs.settings.dsd_rules,
        volume: inputs.player.config.volume,
        device_volume: r.device_volume,
        device_volume_supported: r.device_volume_supported,
        device_volume_max: r.device_volume_max,
        device_volume_message: r.device_volume_message,
        headroom_db: set_or(inputs.settings.headroom_db, inputs.player.config.headroom_db),
        dsp_buffer_ms: set_or(inputs.settings.dsp_buffer_ms, inputs.player.config.dsp_buffer_ms),
        exclusive: set_or(inputs.settings.exclusive, inputs.player.config.exclusive),
        position_secs: timeline(inputs.player.position_secs, inputs.player.signal.target_rate),
        duration_secs: timeline(inputs.player.duration_secs, inputs.player.signal.source_rate),
        playback_speed: None,
        cpu_percent: inputs.cpu_percent,
        selected_device: inputs.player.device_name,
        active_zone_id: inputs.zone_id,
        active_zone_name: inputs.zone_name,
        zone_protocol: shown_protocol(inputs),
        remote_connected: agent_of(inputs) is Some,
        remote_signal_path: match agent_of(inputs) {
            Some(agent) => agent.signal_path,
            None => None,
        },
        remote_buffer_state: match agent_of(inputs) {
            Some(agent) => agent.buffer,
            None => None,
        },
        browser_stream_signal: inputs.browser_stream_signal,
        metrics: inputs.player.metrics,
        dop: DopDebugFields::spec_from_health(inputs.player.metrics.dsd_buffer_health),
        diagnostics: inputs.player.diagnostics,
    })
    &&& r.surface@ == "local"@
    &&& r.filter_type@ == (if inputs.settings.filter_type is Some {
        inputs.settings.filter_type->0@
    } else if inputs.player.config.filter_type is Some {
        inputs.player.config.filter_type->0@
    } else {
        "Unknown"@
    })
    &&& r.active_filter_type@ == (if inputs.player.config.active_filter_type is Some {
        inputs.player.config.active_filter_type->0@
    } else if inputs.player.config.filter_type is Some {
        inputs.player.config.filter_type->0@
    } else {
        "Unknown"@
    })
    &&& r.dither_mode@ == "Auto"@
    &&& r.upnp_render_status@ == "idle"@
    &&& r.transport_pending@ == "none"@
    &&& device_shown(
        inputs,
        DeviceVolumeStatus {
            supported: r.device_volume_supported,
            volume: r.device_volume,
            message: r.device_volume_message,
        },
        r.device_volume_max,
    )
}

/// `after` is `before` with what an agent plays, and the signal path that it
/// reports.
pub open spec fn playback_applied(
    before: StatusResponse,
    after: StatusResponse,
    playback: AgentPlaybackState,
    found: Option<SourceRef>,
    active: Option<SourceRef>,
    modulator: Option<String>,
) -> bool {
    let played = StatusResponse {
        state: playback.state,
        file_name: playback.file_name,
        current_source: if playback.current_source is Some {
            playback.current_source
        } else if playback.file_name is Some && found is Some {
            found
        } else {
            active
        },
        track_title: playback.track_title,
        track_artist: playback.track_artist,
        track_album: playback.track_album,
        cover_version: 0,
        source_rate: playback.source_rate,
        target_rate: playback.target_rate,
        source_bits: playback.source_bits,
        target_bits: playback.target_bits,
        position_secs: playback.position_secs,
        duration_secs: playback.duration_secs,
        volume: playback.volume,
        ..before
    };
    match before.remote_signal_path {
        Some(signal) => signal_applied(played, after, signal, modulator),
        None => after == played,
    }
}

/// A status with what an agent plays. `found` is the source that its file name
/// stands for, `active` the one that the zone was last told to play.
pub fn apply_remote_playback(
    response: StatusResponse,
    playback: AgentPlaybackState,
    found: Option<SourceRef>,
    active: Option<SourceRef>,
    modulator: Option<String>,
) -> (r: StatusResponse)
    ensures
        playback_applied(response, r, playback, found, active, modulator),
{
    let current_source = match playback.current_source {
        Some(source) => Some(source),
        None => match (playback.file_name.is_some(), found) {
            (true, Some(source)) => Some(source),
            _ => active,
        },
    };
    let played = StatusResponse {
        state: playback.state,
        file_name: playback.file_name,
        current_source,
        track_title: playback.track_title,
        track_artist: playback.track_artist,
        track_album: playback.track_album,
        cover_version: 0,
        source_rate: playback.source_rate,
        target_rate: playback.target_rate,
        source_bits: playback.source_bits,
        target_bits: playback.target_bits,
        position_secs: playback.position_secs,
        duration_secs: playback.duration_secs,
        volume: playback.volume,
        ..response
    };
    apply_remote_signal(played, modulator)
}

/// What an agent has to say. Without word of what it plays, nothing is played.
pub open spec fn agent_heard(
    inputs: StatusInputs,
    before: StatusResponse,
    after: StatusResponse,
) -> bool {
    match agent_of(inputs) {
        Some(RemoteSnapshot { playback: Some(playback), .. }) => playback_applied(
            before,
            after,
            playback,
            inputs.remote_source,
            inputs.active_source,
            inputs.remote_modulator,
        ),
        _ => if shown_protocol(inputs) == SinkProtocol::RemoteAgent {
            identity_cleared(before, after, false)
        } else {
            after == before
        },
    }
}

/// A playback state in which there is live playback to show.
pub open spec fn is_live(state: Seq<char>) -> bool {
    state == "Playing"@ || state == "Paused"@ || state == "Starting"@
}

/// Nothing live is shown while nothing is live; the position of a local
/// player stays.
pub open spec fn settled(before: StatusResponse, after: StatusResponse) -> bool {
    if is_live(before.state@) {
        after == before
    } else {
        identity_cleared(before, after, before.zone_protocol != SinkProtocol::RemoteAgent)
    }
}

/// The status of a zone that a player or an agent plays for.
pub open spec fn player_status(inputs: StatusInputs, r: StatusResponse) -> bool {
    exists|base: StatusResponse, heard: StatusResponse|
        #![trigger base_status(inputs, base), agent_heard(inputs, base, heard)]
        base_status(inputs, base) && agent_heard(inputs, base, heard) && settled(heard, r)
}

/// What an agent has to say, with the sources that it can mean.
struct AgentWord {
    playback: Option<AgentPlaybackState>,
    found: Option<SourceRef>,
    active: Option<SourceRef>,
    modulator: Option<String>,
}

/// What the player and the settings of a zone come to, and what is still to be
/// heard of an agent.
#[verifier::spinoff_prover]
fn base_response(inputs: StatusInputs) -> (r: (StatusResponse, AgentWord))
    ensures
        base_status(inputs, r.0),
        r.1.playback == (match agent_of(inputs) {
            Some(agent) => agent.playback,
            None => None,
        }),
        r.1.found == inputs.remote_source,
        r.1.active == inputs.active_source,
        r.1.modulator == inputs.remote_modulator,
{
    let ghost all = inputs;
    let zone_protocol = match inputs.zone_protocol {
        Some(protocol) => protocol,
        None => SinkProtocol::LocalCoreAudio,
    };
    let is_agent = zone_protocol == SinkProtocol::RemoteAgent;
    let filter_type: String = match &inputs.settings.filter_type {
        Some(name) => name.clone(),
        None => match &inputs.player.config.filter_type {
            Some(name) => name.clone(),
            None => "Unknown".to_string(),
        },
    };
    let active_filter_type: String = match inputs.player.config.active_filter_type {
        Some(name) => name,
        None => match inputs.player.config.filter_type {
            Some(name) => name,
            None => "Unknown".to_string(),
        },
    };
    let has_file = inputs.player.file_name.is_some();
    let current_source = if has_file {
        inputs.player_source
    } else {
        None
    };
    let is_local_track = match &current_source {
        Some(SourceRef::LocalTrack { .. }) => true,
        _ => false,
    };
    let tags: LibraryTags = match (is_local_track, inputs.track_tags) {
        (true, Some(tags)) => tags,
        _ => if has_file {
            inputs.file_tags
        } else {
            LibraryTags { title: None, artist: None, album: None }
        },
    };
    let title = first_of(tags.title, inputs.player.track_tags.title);
    let artist = first_of(tags.artist, inputs.player.track_tags.artist);
    let album = first_of(tags.album, inputs.player.track_tags.album);
    let position_secs = if inputs.player.signal.target_rate > 0 {
        inputs.player.position_secs
    } else {
        Real64::zero()
    };
    let duration_secs = if inputs.player.signal.source_rate > 0 {
        inputs.player.duration_secs
    } else {
        Real64::zero()
    };
    let (device, device_max) = device_volume(
        inputs.hegel,
        zone_protocol,
        inputs.upnp_volume,
        inputs.airplay_volume,
        inputs.local_volume,
    );
    let (remote_connected, remote_signal_path, remote_buffer_state, playback) = match (
        is_agent,
        inputs.remote,
    ) {
        (true, Some(remote)) => (true, remote.signal_path, remote.buffer, remote.playback),
        _ => (false, None, None, None),
    };
    let response = StatusResponse {
        surface: "local".to_string(),
        capabilities: inputs.capabilities,
        airplay_helper_state: inputs.airplay_helper_state,
        state: inputs.player.state,
        file_name: inputs.player.file_name,
        current_source,
        track_title: title,
        track_artist: artist,
        track_album: album,
        cover_version: inputs.player.cover_version,
        source_rate: inputs.player.signal.source_rate,
        target_rate: inputs.player.signal.target_rate,
        source_bits: inputs.player.signal.source_bits,
        target_bits: inputs.player.signal.target_bits,
        configured_target_rate: match inputs.settings.target_rate {
            Some(value) => value,
            None => inputs.player.config.configured_target_rate,
        },
        configured_target_bit_depth: configured_depth(inputs.settings.target_bit_depth),
        upsampling_enabled: match inputs.settings.upsampling_enabled {
            Some(value) => value,
            None => inputs.player.config.upsampling_enabled,
        },
        filter_type,
        active_filter_type,
        src_path_kind: inputs.player.signal.src_path_kind,
        src_capped_fallback: inputs.player.signal.src_capped_fallback,
        src_phase_profile_preserved: inputs.player.signal.src_phase_profile_preserved,
        src_ratio_num: inputs.player.signal.src_ratio_num,
        src_ratio_den: inputs.player.signal.src_ratio_den,
        dither_mode: "Auto".to_string(),
        output_mode: match inputs.settings.output_mode {
            Some(value) => value,
            None => inputs.player.signal.output_mode,
        },
        active_output_mode: inputs.player.signal.active_output_mode,
        dsd_modulator: match inputs.settings.dsd_modulator {
            Some(value) => value,
            None => inputs.player.config.dsd_modulator,
        },
        dsd_isi_penalty: match inputs.settings.dsd_isi_penalty {
            Some(value) => value,
            None => inputs.player.config.dsd_isi_penalty,
        },
        output_transport: inputs.player.signal.output_transport,
        output_notice_id: inputs.player.signal.output_notice_id,
        output_notice: inputs.player.output_notice,
        upnp_config_applied_to_current_playback: true,
        upnp_restart_pending: false,
        upnp_render_status: "idle".to_string(),
        upnp_active_render_signature: None,
        upnp_configured_render_signature: None,
        upnp_last_render_ms: None,
        upnp_last_prepare_ms: None,
        upnp_last_cache_hit: None,
        transport_pending: "none".to_string(),
        transport_pending_position_secs: None,
        dsd_stability_resets: inputs.player.signal.dsd_stability_resets,
        dsd_rules_enabled: inputs.settings.dsd_rules_enabled,
        dsd_rules: inputs.settings.dsd_rules,
        volume: inputs.player.config.volume,
        device_volume: device.volume,
        device_volume_supported: device.supported,
        device_volume_max: device_max,
        device_volume_message: device.message,
        headroom_db: match inputs.settings.headroom_db {
            Some(value) => value,
            None => inputs.player.config.headroom_db,
        },
        dsp_buffer_ms: match inputs.settings.dsp_buffer_ms {
            Some(value) => value,
            None => inputs.player.config.dsp_buffer_ms,
        },
        exclusive: match inputs.settings.exclusive {
            Some(value) => value,
            None => inputs.player.config.exclusive,
        },
        position_secs,
        duration_secs,
        playback_speed: None,
        cpu_percent: inputs.cpu_percent,
        selected_device: inputs.player.device_name,
        active_zone_id: inputs.zone_id,
        active_zone_name: inputs.zone_name,
        zone_protocol,
        remote_connected,
        remote_signal_path,
        remote_buffer_state,
        browser_stream_signal: inputs.browser_stream_signal,
        metrics: inputs.player.metrics,
        dop: DopDebugFields::from_health(inputs.player.metrics.dsd_buffer_health),
        diagnostics: inputs.player.diagnostics,
    };
    proof {
        assert(device_shown(all, device, device_max));
    }
    let word = AgentWord {
        playback,
        found: inputs.remote_source,
        active: inputs.active_source,
        modulator: inputs.remote_modulator,
    };
    (response, word)
}

/// The status of a zone that a player or an agent plays for.
pub fn build_status_response_for_player(inputs: StatusInputs) -> (r: StatusResponse)
    ensures
        player_status(inputs, r),
{
    let ghost all = inputs;
    let is_agent = match inputs.zone_protocol {
        Some(SinkProtocol::RemoteAgent) => true,
        _ => false,
    };
    let (base, word) = base_response(inputs);
    let ghost silent = base;
    let mut response = match word.playback {
        Some(playback) => apply_remote_playback(
            base,
            playback,
            word.found,
            word.active,
            word.modulator,
        ),
        None => {
            let mut response = base;
            if is_agent {
                clear_live_playback_identity(&mut response, false);
            }
            response
        },
    };
    proof {
        assert(base_status(all, silent) && agent_heard(all, silent, response));
    }
    let live = {
        let state = response.state.as_str();
        *state == *"Playing" || *state == *"Paused" || *state == *"Starting"
    };
    if !live {
        let preserve_timeline = response.zone_protocol != SinkProtocol::RemoteAgent;
        clear_live_playback_identity(&mut response, preserve_timeline);
    }
    response
}

/// What a speaker reported last.
#[derive(Debug)]
pub struct SonosSnapshot {
    pub state: String,
    pub file_name: Option<String>,
    pub track_title: Option<String>,
    pub track_artist: Option<String>,
    pub track_album: Option<String>,
    pub source_rate: u32,
    pub target_rate: u32,
    pub source_bits: u32,
    pub target_bits: u32,
    pub position_secs: Real64,
    pub duration_secs: Real64,
    pub volume: Option<Real32>,
    pub notice: Option<String>,
}

/// The status of a speaker's zone, over that of its player.
pub open spec fn sonos_status(
    before: StatusResponse,
    after: StatusResponse,
    snapshot: Option<SonosSnapshot>,
    found: Option<SourceRef>,
) -> bool {
    let zone = StatusResponse {
        zone_protocol: SinkProtocol::SonosUpnp,
        output_transport: after.output_transport,
        exclusive: false,
        device_volume_supported: true,
        device_volume_max: None,
        ..before
    };
    &&& after.output_transport@ == "sonos_upnp"@
    &&& match snapshot {
        Some(s) => after == (StatusResponse {
            state: s.state,
            file_name: s.file_name,
            current_source: if s.file_name is Some {
                found
            } else {
                None
            },
            track_title: s.track_title,
            track_artist: s.track_artist,
            track_album: s.track_album,
            source_rate: s.source_rate,
            target_rate: s.target_rate,
            source_bits: s.source_bits,
            target_bits: s.target_bits,
            position_secs: s.position_secs,
            duration_secs: s.duration_secs,
            device_volume: s.volume,
            volume: set_or(s.volume, before.volume),
            output_notice: s.notice,
            ..zone
        }),
        None => identity_cleared(zone, after, false),
    }
}

/// The status of a speaker's zone. `found` is the source that the speaker's
/// file name stands for.
pub fn build_status_response_for_sonos(
    inputs: StatusInputs,
    snapshot: Option<SonosSnapshot>,
    found: Option<SourceRef>,
) -> (r: StatusResponse)
    ensures
        exists|before: StatusResponse|
            #[trigger] player_status(inputs, before) && sonos_status(before, r, snapshot, found),
{
    let ghost all = inputs;
    let before = build_status_response_for_player(inputs);
    let ghost player = before;
    let r = match snapshot {
        Some(s) => {
            let current_source = if s.file_name.is_some() {
                found
            } else {
                None
            };
            let volume = match s.volume {
                Some(volume) => volume,
                None => before.volume,
            };
            StatusResponse {
                zone_protocol: SinkProtocol::SonosUpnp,
                output_transport: "sonos_upnp".to_string(),
                exclusive: false,
                device_volume_supported: true,
                device_volume_max: None,
                current_source,
                volume,
                state: s.state,
                file_name: s.file_name,
                track_title: s.track_title,
                track_artist: s.track_artist,
                track_album: s.track_album,
                source_rate: s.source_rate,
                target_rate: s.target_rate,
                source_bits: s.source_bits,
                target_bits: s.target_bits,
                position_secs: s.position_secs,
                duration_secs: s.duration_secs,
                device_volume: s.volume,
                output_notice: s.notice,
                ..before
            }
        },
        None => {
            let mut cleared = StatusResponse {
                zone_protocol: SinkProtocol::SonosUpnp,
                output_transport: "sonos_upnp".to_string(),
                exclusive: false,
                device_volume_supported: true,
                device_volume_max: None,
                ..before
            };
            clear_live_playback_identity(&mut cleared, false);
            cleared
        },
    };
    proof {
        assert(player_status(all, player) && sonos_status(player, r, snapshot, found));
    }
    r
}

/// What a renderer reported last.
#[derive(Debug)]
pub struct UpnpSnapshot {
    pub state: String,
    pub file_name: Option<String>,
    pub current_source: Option<SourceRef>,
    pub track_title: Option<String>,
    pub track_artist: Option<String>,
    pub track_album: Option<String>,
    pub source_rate: u32,
    pub target_rate: u32,
    pub source_bits: u32,
    pub target_bits: u32,
    pub active_output_mode: Option<String>,
    pub position_secs: Real64,
    pub duration_secs: Real64,
    pub volume: Option<Real32>,
    pub playback_speed: Option<String>,
    pub notice: Option<String>,
    pub config_applied_to_current_playback: bool,
    pub restart_pending: bool,
    pub render_status: String,
    pub active_render_signature: Option<String>,
    pub configured_render_signature: Option<String>,
    pub last_render_ms: Option<u64>,
    pub last_prepare_ms: Option<u64>,
    pub last_cache_hit: Option<bool>,
    pub transport_pending: String,
    pub transport_pending_position_secs: Option<Real64>,
}

/// The status of a renderer's zone, over that of its player.
pub open spec fn upnp_status(
    before: StatusResponse,
    after: StatusResponse,
    snapshot: Option<UpnpSnapshot>,
    found: Option<SourceRef>,
) -> bool {
    let zone = StatusResponse {
        zone_protocol: SinkProtocol::UpnpAvRenderer,
        output_transport: after.output_transport,
        exclusive: false,
        device_volume_supported: true,
        device_volume_max: None,
        ..before
    };
    &&& after.output_transport@ == "upnp_av_renderer"@
    &&& match snapshot {
        Some(s) => after == (StatusResponse {
            state: s.state,
            file_name: s.file_name,
            current_source: if s.current_source is Some {
                s.current_source
            } else if s.file_name is Some {
                found
            } else {
                None
            },
            track_title: s.track_title,
            track_artist: s.track_artist,
            track_album: s.track_album,
            source_rate: s.source_rate,
            target_rate: s.target_rate,
            source_bits: s.source_bits,
            target_bits: s.target_bits,
            active_output_mode: set_or(s.active_output_mode, before.active_output_mode),
            position_secs: s.position_secs,
            duration_secs: s.duration_secs,
            device_volume: s.volume,
            volume: set_or(s.volume, before.volume),
            playback_speed: s.playback_speed,
            output_notice: s.notice,
            upnp_config_applied_to_current_playback: s.config_applied_to_current_playback,
            upnp_restart_pending: s.restart_pending,
            upnp_render_status: s.render_status,
            upnp_active_render_signature: s.active_render_signature,
            upnp_configured_render_signature: s.configured_render_signature,
            upnp_last_render_ms: s.last_render_ms,
            upnp_last_prepare_ms: s.last_prepare_ms,
            upnp_last_cache_hit: s.last_cache_hit,
            transport_pending: s.transport_pending,
            transport_pending_position_secs: s.transport_pending_position_secs,
            ..zone
        }),
        None => identity_cleared(zone, after, false),
    }
}

/// The status of a renderer's zone. `found` is the source that the renderer's
/// file name stands for.
pub fn build_status_response_for_upnp(
    inputs: StatusInputs,
    snapshot: Option<UpnpSnapshot>,
    found: Option<SourceRef>,
) -> (r: StatusResponse)
    ensures
        exists|before: StatusResponse|
            #[trigger] player_status(inputs, before) && upnp_status(before, r, snapshot, found),
{
    let ghost all = inputs;
    let before = build_status_response_for_player(inputs);
    let ghost player = before;
    let r = match snapshot {
        Some(s) => {
            let current_source = match s.current_source {
                Some(source) => Some(source),
                None => if s.file_name.is_some() {
                    found
                } else {
                    None
                },
            };
            let volume = match s.volume {
                Some(volume) => volume,
                None => before.volume,
            };
            let active_output_mode = match s.active_output_mode {
                Some(mode) => mode,
                None => before.active_output_mode,
            };
            StatusResponse {
                zone_protocol: SinkProtocol::UpnpAvRenderer,
                output_transport: "upnp_av_renderer".to_string(),
                exclusive: false,
                device_volume_supported: true,
                device_volume_max: None,
                current_source,
                volume,
                active_output_mode,
                state: s.state,
                file_name: s.file_name,
                track_title: s.track_title,
                track_artist: s.track_artist,
                track_album: s.track_album,
                source_rate: s.source_rate,
                target_rate: s.target_rate,
                source_bits: s.source_bits,
                target_bits: s.target_bits,
                position_secs: s.position_secs,
                duration_secs: s.duration_secs,
                device_volume: s.volume,
                playback_speed: s.playback_speed,
                output_notice: s.notice,
                upnp_config_applied_to_current_playback: s.config_applied_to_current_playback,
                upnp_restart_pending: s.restart_pending,
                upnp_render_status: s.render_status,
                upnp_active_render_signature: s.active_render_signature,
                upnp_configured_render_signature: s.configured_render_signature,
                upnp_last_render_ms: s.last_render_ms,
                upnp_last_prepare_ms: s.last_prepare_ms,
                upnp_last_cache_hit: s.last_cache_hit,
                transport_pending: s.transport_pending,
                transport_pending_position_secs: s.transport_pending_position_secs,
                ..before
            }
        },
        None => {
            let mut cleared = StatusResponse {
                zone_protocol: SinkProtocol::UpnpAvRenderer,
                output_transport: "upnp_av_renderer".to_string(),
                exclusive: false,
                device_volume_supported: true,
                device_volume_max: None,
                ..before
            };
            clear_live_playback_identity(&mut cleared, false);
            cleared
        },
    };
    proof {
        assert(player_status(all, player) && upnp_status(player, r, snapshot, found));
    }
    r
}

/// Which player a zone's status is read from.
#[derive(Clone, Copy, Debug, PartialEq, Eq, Structural)]
pub enum StatusPlayer {
    /// The zone's own.
    OfZone,
    /// The active one.
    Active,
}

/// Which player a zone's status is read from, if the zone is there. An agent's
/// zone has none of its own; the zones of speakers and renderers can do
/// without.
pub open spec fn spec_status_player(
    protocol: Option<SinkProtocol>,
    zone_has_player: bool,
) -> Option<StatusPlayer> {
    if protocol == Some(SinkProtocol::RemoteAgent) {
        Some(StatusPlayer::Active)
    } else if zone_has_player {
        Some(StatusPlayer::OfZone)
    } else if protocol == Some(SinkProtocol::SonosUpnp) || protocol == Some(
        SinkProtocol::UpnpAvRenderer,
    ) {
        Some(StatusPlayer::Active)
    } else {
        None
    }
}

/// Which player a zone's status is read from, if the zone is there.
pub fn status_player(protocol: Option<SinkProtocol>, zone_has_player: bool) -> (r: Option<
    StatusPlayer,
>)
    ensures
        r == spec_status_player(protocol, zone_has_player),
{
    match protocol {
        Some(SinkProtocol::RemoteAgent) => return Some(StatusPlayer::Active),
        _ => {},
    }
    if zone_has_player {
        return Some(StatusPlayer::OfZone);
    }
    match protocol {
        Some(SinkProtocol::SonosUpnp) => Some(StatusPlayer::Active),
        Some(SinkProtocol::UpnpAvRenderer) => Some(StatusPlayer::Active),
        _ => None,
    }
}

/// The status of a zone, whatever plays for it.
pub open spec fn zone_status(
    inputs: StatusInputs,
    sonos: Option<SonosSnapshot>,
    upnp: Option<UpnpSnapshot>,
    found: Option<SourceRef>,
    r: StatusResponse,
) -> bool {
    if inputs.zone_protocol == Some(SinkProtocol::SonosUpnp) {
        exists|before: StatusResponse|
            #[trigger] player_status(inputs, before) && sonos_status(before, r, sonos, found)
    } else if inputs.zone_protocol == Some(SinkProtocol::UpnpAvRenderer) {
        exists|before: StatusResponse|
            #[trigger] player_status(inputs, before) && upnp_status(before, r, upnp, found)
    } else {
        player_status(inputs, r)
    }
}

/// The status of the active zone. One that is not there shows the active
/// player. `found` is the source that the file name of the zone's speaker or
/// renderer stands for.
pub fn build_status_response(
    inputs: StatusInputs,
    sonos: Option<SonosSnapshot>,
    upnp: Option<UpnpSnapshot>,
    found: Option<SourceRef>,
) -> (r: StatusResponse)
    ensures
        zone_status(inputs, sonos, upnp, found, r),
{
    match inputs.zone_protocol {
        Some(SinkProtocol::SonosUpnp) => build_status_response_for_sonos(inputs, sonos, found),
        Some(SinkProtocol::UpnpAvRenderer) => build_status_response_for_upnp(inputs, upnp, found),
        _ => build_status_response_for_player(inputs),
    }
}

/// The status of a zone, if it is there. `found` is the source that the file
/// name of the zone's speaker or renderer stands for.
pub fn build_status_response_for_zone(
    inputs: StatusInputs,
    zone_has_player: bool,
    sonos: Option<SonosSnapshot>,
    upnp: Option<UpnpSnapshot>,
    found: Option<SourceRef>,
) -> (r: Result<StatusResponse, String>)
    ensures
        r is Ok <==> spec_status_player(inputs.zone_protocol, zone_has_player) is Some,
        r is Ok ==> zone_status(inputs, sonos, upnp, found, r->Ok_0),
        r is Err ==> r->Err_0@ == "Zone '"@ + inputs.zone_id@ + "' is not available"@,
{
    match status_player(inputs.zone_protocol, zone_has_player) {
        Some(_) => Ok(build_status_response(inputs, sonos, upnp, found)),
        None => {
            let mut message = "Zone '".to_string();
            message.append(inputs.zone_id.as_str());
            message.append("' is not available");
            Err(message)
        },
    }
}

/// While nothing is live, a status shows no track, no rates and no output
/// diagnostics.
pub proof fn law_stopped_status_shows_no_track(inputs: StatusInputs, r: StatusResponse)
    requires
        player_status(inputs, r),
        !is_live(r.state@),
    ensures
        r.state@ == "Stopped"@,
        r.file_name is None,
        r.current_source is None,
        r.track_title is None && r.track_artist is None && r.track_album is None,
        r.cover_version == 0,
        r.source_rate == 0 && r.target_rate == 0,
        r.source_bits == 0 && r.target_bits == 0,
        r.metrics.dsd_buffer_health is None,
        r.dop == DopDebugFields::spec_none(),
{
}

/// The status of an agent's zone never shows what the local player plays: no
/// cover of its own, and without word from the agent no track at all.
pub proof fn law_agent_status_hides_local_player(inputs: StatusInputs, r: StatusResponse)
    requires
        player_status(inputs, r),
        inputs.zone_protocol == Some(SinkProtocol::RemoteAgent),
    ensures
        r.zone_protocol == SinkProtocol::RemoteAgent,
        r.cover_version == 0,
        inputs.remote is None || inputs.remote->0.playback is None ==> {
            &&& r.state@ == "Stopped"@
            &&& r.file_name is None
            &&& r.current_source is None
            &&& r.position_secs == Real64::spec_zero()
            &&& r.duration_secs == Real64::spec_zero()
        },
{
}

/// With the resampler switched off, a status shows what the settings ask for,
/// whatever an agent reports.
pub proof fn law_disabled_resampler_shows_settings(inputs: StatusInputs, r: StatusResponse)
    requires
        player_status(inputs, r),
        inputs.settings.upsampling_enabled == Some(false),
    ensures
        !r.upsampling_enabled,
        inputs.settings.filter_type is Some ==> r.filter_type@ == inputs.settings.filter_type->0@,
        inputs.settings.output_mode is Some ==> r.output_mode == inputs.settings.output_mode->0,
        inputs.settings.dsd_modulator is Some ==> r.dsd_modulator
            == inputs.settings.dsd_modulator->0,
{
}

/// The ids of the enabled zones of a protocol.
pub open spec fn refreshed_ids(zones: Seq<ZoneProfile>, protocol: SinkProtocol) -> Seq<String>
    decreases zones.len(),
{
    if zones.len() == 0 {
        Seq::empty()
    } else {
        let before = refreshed_ids(zones.drop_last(), protocol);
        let zone = zones.last();
        if zone.enabled && zone.protocol == protocol {
            before.push(zone.id)
        } else {
            before
        }
    }
}

/// The zones of a protocol whose devices are asked for news.
pub fn zones_to_refresh(zones: &[ZoneProfile], protocol: SinkProtocol) -> (r: Vec<String>)
    ensures
        r@ == refreshed_ids(zones@, protocol),
{
    let mut out: Vec<String> = Vec::new();
    let mut i: usize = 0;
    proof {
        assert(zones@.take(0) =~= Seq::<ZoneProfile>::empty());
    }
    while i < zones.len()
        invariant
            i <= zones@.len(),
            out@ == refreshed_ids(zones@.take(i as int), protocol),
        decreases zones@.len() - i,
    {
        proof {
            assert(zones@.take(i + 1).drop_last() =~= zones@.take(i as int));
            assert(zones@.take(i + 1).last() == zones@[i as int]);
        }
        if zones[i].enabled && zones[i].protocol == protocol {
            out.push(zones[i].id.clone());
        }
        i = i + 1;
    }
    proof {
        assert(zones@.take(i as int) =~= zones@);
    }
    out
}

/// Each diagnostic of a ring is shown under its own name.
pub proof fn law_ring_health_is_shown(health: DsdBufferHealth, shown: DopDebugFields)
    requires
        shown == DopDebugFields::spec_from_health(Some(health)),
    ensures
        shown.ring_capacity_ms == health.ring_capacity_ms,
        shown.ring_fill_ms == health.ring_fill_ms,
        shown.ring_low_watermark_ms == health.ring_low_watermark_ms,
        shown.callback_frames == health.callback_frames,
        shown.callback_ms == health.callback_ms,
        shown.requested_hardware_buffer_frames == health.requested_hardware_buffer_frames,
        shown.requested_hardware_buffer_ms == health.requested_hardware_buffer_ms,
        shown.hardware_buffer_min_frames == health.hardware_buffer_min_frames,
        shown.hardware_buffer_max_frames == health.hardware_buffer_max_frames,
        shown.hardware_buffer_frames == health.hardware_buffer_frames,
        shown.hardware_buffer_ms == health.hardware_buffer_ms,
        shown.lock_miss_events == health.lock_miss_events,
        shown.callback_deadline_miss_events == health.callback_deadline_miss_events,
        shown.soft_callback_gap_125_events == health.soft_callback_gap_125_events,
        shown.soft_callback_gap_150_events == health.soft_callback_gap_150_events,
        shown.soft_callback_gap_175_events == health.soft_callback_gap_175_events,
        shown.last_soft_callback_gap_ms == health.last_soft_callback_gap_ms,
        shown.last_soft_callback_gap_at_ms == health.last_soft_callback_gap_at_ms,
        shown.ring_below_250ms_events == health.ring_below_250ms_events,
        shown.ring_below_100ms_events == health.ring_below_100ms_events,
        shown.ring_below_50ms_events == health.ring_below_50ms_events,
        shown.ring_below_callback_events == health.ring_below_callback_events,
        shown.last_ring_pressure_at_ms == health.last_ring_pressure_at_ms,
        shown.marker_error_events == health.marker_error_events,
        shown.program_idle_splice_events == health.program_idle_splice_events,
        shown.program_to_idle_events == health.program_to_idle_events,
        shown.idle_to_program_events == health.idle_to_program_events,
        shown.mixed_output_events == health.mixed_output_events,
        shown.last_output_transition_id == health.last_output_transition_id,
        shown.last_output_transition_at_ms == health.last_output_transition_at_ms,
        shown.repeated_payload_events == health.repeated_payload_events,
        shown.callback_index == health.callback_index,
        shown.last_callback_at_ms == health.last_callback_at_ms,
        shown.last_callback_gap_ms == health.last_callback_gap_ms,
        shown.last_callback_frames == health.last_callback_frames,
        shown.last_output_kind_id == health.last_output_kind_id,
        shown.last_ring_fill_samples == health.last_ring_fill_samples,
        shown.last_program_read_samples == health.last_program_read_samples,
        shown.ring_read_cursor_samples == health.ring_read_cursor_samples,
        shown.last_payload_fingerprint == health.last_payload_fingerprint,
        shown.last_payload_fingerprint_at_ms == health.last_payload_fingerprint_at_ms,
        shown.marker_scan_count == health.marker_scan_count,
        shown.every_callback_scan_enabled == health.every_callback_scan_enabled,
        shown.last_underrun_at_ms == health.last_underrun_at_ms,
{
}

/// Each diagnostic of a ring that an agent reports is shown under its own
/// name.
pub proof fn law_reported_ring_is_shown(signal: SyncSignalPath, shown: DopDebugFields)
    requires
        shown == DopDebugFields::spec_from_signal(signal),
    ensures
        shown.ring_capacity_ms == signal.dop_ring_capacity_ms,
        shown.ring_fill_ms == signal.dop_ring_fill_ms,
        shown.ring_low_watermark_ms == signal.dop_ring_low_watermark_ms,
        shown.callback_frames == signal.dop_callback_frames,
        shown.callback_ms == signal.dop_callback_ms,
        shown.requested_hardware_buffer_frames == signal.dop_requested_hardware_buffer_frames,
        shown.requested_hardware_buffer_ms == signal.dop_requested_hardware_buffer_ms,
        shown.hardware_buffer_min_frames == signal.dop_hardware_buffer_min_frames,
        shown.hardware_buffer_max_frames == signal.dop_hardware_buffer_max_frames,
        shown.hardware_buffer_frames == signal.dop_hardware_buffer_frames,
        shown.hardware_buffer_ms == signal.dop_hardware_buffer_ms,
        shown.lock_miss_events == signal.dop_lock_miss_events,
        shown.callback_deadline_miss_events == signal.dop_callback_deadline_miss_events,
        shown.soft_callback_gap_125_events == signal.dop_soft_callback_gap_125_events,
        shown.soft_callback_gap_150_events == signal.dop_soft_callback_gap_150_events,
        shown.soft_callback_gap_175_events == signal.dop_soft_callback_gap_175_events,
        shown.last_soft_callback_gap_ms == signal.dop_last_soft_callback_gap_ms,
        shown.last_soft_callback_gap_at_ms == signal.dop_last_soft_callback_gap_at_ms,
        shown.ring_below_250ms_events == signal.dop_ring_below_250ms_events,
        shown.ring_below_100ms_events == signal.dop_ring_below_100ms_events,
        shown.ring_below_50ms_events == signal.dop_ring_below_50ms_events,
        shown.ring_below_callback_events == signal.dop_ring_below_callback_events,
        shown.last_ring_pressure_at_ms == signal.dop_last_ring_pressure_at_ms,
        shown.marker_error_events == signal.dop_marker_error_events,
        shown.program_idle_splice_events == signal.dop_program_idle_splice_events,
        shown.program_to_idle_events == signal.dop_program_to_idle_events,
        shown.idle_to_program_events == signal.dop_idle_to_program_events,
        shown.mixed_output_events == signal.dop_mixed_output_events,
        shown.last_output_transition_id == signal.dop_last_output_transition_id,
        shown.last_output_transition_at_ms == signal.dop_last_output_transition_at_ms,
        shown.repeated_payload_events == signal.dop_repeated_payload_events,
        shown.callback_index == signal.dop_callback_index,
        shown.last_callback_at_ms == signal.dop_last_callback_at_ms,
        shown.last_callback_gap_ms == signal.dop_last_callback_gap_ms,
        shown.last_callback_frames == signal.dop_last_callback_frames,
        shown.last_output_kind_id == signal.dop_last_output_kind_id,
        shown.last_ring_fill_samples == signal.dop_last_ring_fill_samples,
        shown.last_program_read_samples == signal.dop_last_program_read_samples,
        shown.ring_read_cursor_samples == signal.dop_ring_read_cursor_samples,
        shown.last_payload_fingerprint == signal.dop_last_payload_fingerprint,
        shown.last_payload_fingerprint_at_ms == signal.dop_last_payload_fingerprint_at_ms,
        shown.marker_scan_count == signal.dop_marker_scan_count,
        shown.every_callback_scan_enabled == signal.dop_every_callback_scan_enabled,
        shown.last_underrun_at_ms == signal.dop_last_underrun_at_ms,
{
}

/// Each metric that an agent reports is shown under its own name.
pub proof fn law_reported_metrics_are_shown(
    before: OutputMetrics,
    signal: SyncSignalPath,
    shown: OutputMetrics,
)
    requires
        shown == before.spec_with_signal(signal),
    ensures
        shown.resample_time_ns == signal.resample_time_ns,
        shown.dsd_upsample_time_ns == signal.dsd_upsample_time_ns,
        shown.dsd_modulate_time_ns == signal.dsd_modulate_time_ns,
        shown.dsd_output_pending_samples == signal.dsd_output_pending_samples,
        shown.dsd_buffer_health == signal.dsd_buffer_health,
        shown.dsd_overbudget_blocks == signal.dsd_overbudget_blocks,
        shown.dsd_last_load == signal.dsd_last_load,
        shown.dsd_recent_load_p95 == signal.dsd_recent_load_p95,
        shown.dsd_recent_load_p99 == signal.dsd_recent_load_p99,
        shown.block_duration_ns == signal.block_duration_ns,
        shown.signal_peak == signal.signal_peak,
        shown.signal_peak_max == signal.signal_peak_max,
        shown.signal_clipping == signal.signal_clipping,
        shown.signal_clip_events == signal.signal_clip_events,
        shown.signal_clip_samples == signal.signal_clip_samples,
        shown.dsd_limiter_peak_ratio == signal.dsd_limiter_peak_ratio,
        shown.dsd_limiter_peak_ratio_max == signal.dsd_limiter_peak_ratio_max,
        shown.dsd_limiter_active == signal.dsd_limiter_active,
        shown.dsd_limiter_events == signal.dsd_limiter_events,
        shown.dsd_limiter_samples == signal.dsd_limiter_samples,
        shown.underrun_events == signal.underrun_events,
        shown.underrun_samples == signal.underrun_samples,
{
}

/// Each diagnostic of the output that an agent reports is shown under its own
/// name.
pub proof fn law_reported_diagnostics_are_shown(signal: SyncSignalPath, shown: OutputDiagnostics)
    requires
        shown.reported_by(signal),
    ensures
        shown.output_ring_fill_now_ms == signal.output_ring_fill_now_ms,
        shown.output_ring_fill_min_ms == signal.output_ring_fill_min_ms,
        shown.startup_ring_low_watermark_ms == signal.startup_ring_low_watermark_ms,
        shown.startup_ready_ms == signal.startup_ready_ms,
        shown.startup_first_render_block_ms == signal.startup_first_render_block_ms,
        shown.startup_producer_over_budget_count == signal.startup_producer_over_budget_count,
        shown.underrun_count == signal.underrun_count,
        shown.producer_over_budget_count == signal.producer_over_budget_count,
        shown.max_render_block_ms == signal.max_render_block_ms,
        shown.max_audio_callback_gap_ms == signal.max_audio_callback_gap_ms,
        shown.dsp_graph_rebuild_count == signal.dsp_graph_rebuild_count,
        shown.sample_rate_change_count == signal.sample_rate_change_count,
        shown.dop_alignment_reset_count == signal.dop_alignment_reset_count,
        shown.coreaudio_dop_open_count == signal.coreaudio_dop_open_count,
        shown.coreaudio_dop_start_count == signal.coreaudio_dop_start_count,
        shown.coreaudio_dop_stop_count == signal.coreaudio_dop_stop_count,
        shown.coreaudio_dop_drop_count == signal.coreaudio_dop_drop_count,
        shown.coreaudio_dop_quiesce_count == signal.coreaudio_dop_quiesce_count,
        shown.coreaudio_dop_last_lifecycle_event_id == signal.coreaudio_dop_last_lifecycle_event_id,
        shown.coreaudio_dop_last_lifecycle_at_ms == signal.coreaudio_dop_last_lifecycle_at_ms,
        shown.reopen_reason_count == signal.reopen_reason_count,
        shown.last_reopen_reason_id == signal.last_reopen_reason_id,
        shown.last_reopen_reason_at_ms == signal.last_reopen_reason_at_ms,
        shown.flush_reason_count == signal.flush_reason_count,
        shown.last_flush_reason_id == signal.last_flush_reason_id,
        shown.last_flush_reason_at_ms == signal.last_flush_reason_at_ms,
        shown.modulator_reset_count == signal.modulator_reset_count,
        shown.decoder_starved_count == signal.decoder_starved_count,
        shown.source_read_time_ms == signal.source_read_time_ms,
        shown.max_source_read_ms == signal.max_source_read_ms,
        shown.source_read_stall_count == signal.source_read_stall_count,
        shown.source_read_stall_last_at_ms == signal.source_read_stall_last_at_ms,
        shown.decoder_decode_time_ms == signal.decoder_decode_time_ms,
        shown.max_decoder_decode_ms == signal.max_decoder_decode_ms,
        shown.decoder_decode_stall_count == signal.decoder_decode_stall_count,
        shown.decoder_decode_stall_last_at_ms == signal.decoder_decode_stall_last_at_ms,
        shown.lock_wait_max_ms == signal.lock_wait_max_ms,
        shown.startup_callback_gaps_ms@ == signal.startup_callback_gaps_ms@,
{
}

/// While an agent reports live playback, the status of its zone shows what it
/// reports, each in the field of its name: the state, the track, the position
/// and the duration, the rates, the depths and the volume.
pub proof fn law_agent_status_shows_agent(inputs: StatusInputs, r: StatusResponse)
    requires
        player_status(inputs, r),
        inputs.zone_protocol == Some(SinkProtocol::RemoteAgent),
        inputs.remote is Some,
        inputs.remote->0.playback is Some,
        ({
            let state = inputs.remote->0.playback->0.state@;
            state == "Playing"@ || state == "Paused"@ || state == "Starting"@
        }),
    ensures
        ({
            let p = inputs.remote->0.playback->0;
            &&& r.state == p.state
            &&& r.file_name == p.file_name
            &&& r.track_title == p.track_title
            &&& r.track_artist == p.track_artist
            &&& r.track_album == p.track_album
            &&& r.source_rate == p.source_rate
            &&& r.target_rate == p.target_rate
            &&& r.source_bits == p.source_bits
            &&& r.target_bits == p.target_bits
            &&& r.position_secs == p.position_secs
            &&& r.duration_secs == p.duration_secs
            &&& r.volume == p.volume
            &&& r.cover_version == 0
            &&& r.remote_connected
            &&& r.remote_buffer_state == inputs.remote->0.buffer
            &&& r.remote_signal_path == inputs.remote->0.signal_path
            &&& p.current_source is Some ==> r.current_source == p.current_source
            &&& p.current_source is None && p.file_name is Some && inputs.remote_source is Some
                ==> r.current_source == inputs.remote_source
            &&& p.current_source is None && (p.file_name is None || inputs.remote_source is None)
                ==> r.current_source == inputs.active_source
        }),
{
}

/// What an agent says of its signal path is shown, each in the field of its
/// name; the settings of a resampler that is switched on are those that the
/// agent reports.
pub proof fn law_agent_status_shows_signal_path(inputs: StatusInputs, r: StatusResponse)
    requires
        player_status(inputs, r),
        inputs.zone_protocol == Some(SinkProtocol::RemoteAgent),
        inputs.remote is Some,
        inputs.remote->0.playback is Some,
        inputs.remote->0.signal_path is Some,
        ({
            let state = inputs.remote->0.playback->0.state@;
            state == "Playing"@ || state == "Paused"@ || state == "Starting"@
        }),
    ensures
        ({
            let signal = inputs.remote->0.signal_path->0;
            &&& r.active_filter_type == signal.dsp_filter
            &&& r.src_path_kind == signal.src_path_kind
            &&& r.src_capped_fallback == signal.src_capped_fallback
            &&& r.src_phase_profile_preserved == signal.src_phase_profile_preserved
            &&& r.src_ratio_num == signal.src_ratio_num
            &&& r.src_ratio_den == signal.src_ratio_den
            &&& r.dsd_stability_resets == signal.dsd_stability_resets
            &&& r.cpu_percent == signal.cpu_percent
            &&& r.selected_device == signal.output_device
            &&& signal.active_output_mode is Some ==> r.active_output_mode
                == signal.active_output_mode->0
            &&& signal.output_transport is Some ==> r.output_transport
                == signal.output_transport->0
            &&& r.upsampling_enabled ==> r.filter_type == signal.dsp_filter
            &&& r.upsampling_enabled && signal.output_mode is Some ==> r.output_mode
                == signal.output_mode->0
            &&& r.upsampling_enabled && inputs.remote_modulator is Some ==> r.dsd_modulator
                == inputs.remote_modulator->0
            &&& r.diagnostics.reported_by(signal)
            &&& r.dop == DopDebugFields::spec_from_signal(signal)
        }),
{
}

/// The status of a zone with a player of its own shows that player while it
/// plays: its state, its track, its signal path, its volume and, at known
/// rates, its position and duration.
pub proof fn law_player_status_shows_player(inputs: StatusInputs, r: StatusResponse)
    requires
        player_status(inputs, r),
        inputs.zone_protocol != Some(SinkProtocol::RemoteAgent),
        ({
            let state = inputs.player.state@;
            state == "Playing"@ || state == "Paused"@ || state == "Starting"@
        }),
    ensures
        ({
            let p = inputs.player;
            &&& r.state == p.state
            &&& r.file_name == p.file_name
            &&& r.cover_version == p.cover_version
            &&& r.source_rate == p.signal.source_rate
            &&& r.target_rate == p.signal.target_rate
            &&& r.source_bits == p.signal.source_bits
            &&& r.target_bits == p.signal.target_bits
            &&& p.signal.target_rate > 0 ==> r.position_secs == p.position_secs
            &&& p.signal.target_rate == 0 ==> r.position_secs.bits == 0
            &&& p.signal.source_rate > 0 ==> r.duration_secs == p.duration_secs
            &&& p.signal.source_rate == 0 ==> r.duration_secs.bits == 0
            &&& r.volume == p.config.volume
            &&& r.src_path_kind == p.signal.src_path_kind
            &&& r.src_capped_fallback == p.signal.src_capped_fallback
            &&& r.src_phase_profile_preserved == p.signal.src_phase_profile_preserved
            &&& r.src_ratio_num == p.signal.src_ratio_num
            &&& r.src_ratio_den == p.signal.src_ratio_den
            &&& r.active_output_mode == p.signal.active_output_mode
            &&& r.output_transport == p.signal.output_transport
            &&& r.output_notice_id == p.signal.output_notice_id
            &&& r.output_notice == p.output_notice
            &&& r.dsd_stability_resets == p.signal.dsd_stability_resets
            &&& r.selected_device == p.device_name
            &&& r.metrics == p.metrics
            &&& r.diagnostics == p.diagnostics
            &&& r.cpu_percent == inputs.cpu_percent
            &&& !r.remote_connected
            &&& p.file_name is Some ==> r.current_source == inputs.player_source
            &&& p.file_name is None ==> r.current_source is None
        }),
{
}

/// The names of a track are those that the library has for it, else those in
/// its file.
pub proof fn law_player_status_names_track(inputs: StatusInputs, r: StatusResponse)
    requires
        player_status(inputs, r),
        inputs.zone_protocol != Some(SinkProtocol::RemoteAgent),
        inputs.player.file_name is Some,
        ({
            let state = inputs.player.state@;
            state == "Playing"@ || state == "Paused"@ || state == "Starting"@
        }),
    ensures
        ({
            let own = inputs.player.track_tags;
            let local = inputs.player_source is Some && inputs.player_source->0 is LocalTrack
                && inputs.track_tags is Some;
            let known = if local {
                inputs.track_tags->0
            } else {
                inputs.file_tags
            };
            &&& known.title is Some ==> r.track_title == known.title
            &&& known.title is None ==> r.track_title == own.title
            &&& known.artist is Some ==> r.track_artist == known.artist
            &&& known.artist is None ==> r.track_artist == own.artist
            &&& known.album is Some ==> r.track_album == known.album
            &&& known.album is None ==> r.track_album == own.album
        }),
{
}

/// Whatever plays, a status names its zone and shows the settings of the zone,
/// where they are set, and those of the player where they are not.
pub proof fn law_status_shows_settings(inputs: StatusInputs, r: StatusResponse)
    requires
        player_status(inputs, r),
    ensures
        r.active_zone_id == inputs.zone_id,
        r.active_zone_name == inputs.zone_name,
        inputs.zone_protocol is Some ==> r.zone_protocol == inputs.zone_protocol->0,
        inputs.zone_protocol is None ==> r.zone_protocol == SinkProtocol::LocalCoreAudio,
        r.capabilities == inputs.capabilities,
        r.airplay_helper_state == inputs.airplay_helper_state,
        r.browser_stream_signal == inputs.browser_stream_signal,
        r.dsd_rules_enabled == inputs.settings.dsd_rules_enabled,
        r.dsd_rules == inputs.settings.dsd_rules,
        inputs.settings.target_rate is Some ==> r.configured_target_rate
            == inputs.settings.target_rate->0,
        inputs.settings.target_rate is None ==> r.configured_target_rate
            == inputs.player.config.configured_target_rate,
        inputs.settings.target_bit_depth == Some(16u32) ==> r.configured_target_bit_depth == 16,
        inputs.settings.target_bit_depth == Some(32u32) ==> r.configured_target_bit_depth == 32,
        inputs.settings.target_bit_depth != Some(16u32) && inputs.settings.target_bit_depth
            != Some(32u32) ==> r.configured_target_bit_depth == 24,
        inputs.settings.upsampling_enabled is Some ==> r.upsampling_enabled
            == inputs.settings.upsampling_enabled->0,
        inputs.settings.upsampling_enabled is None ==> r.upsampling_enabled
            == inputs.player.config.upsampling_enabled,
        inputs.settings.dsd_isi_penalty is Some ==> r.dsd_isi_penalty
            == inputs.settings.dsd_isi_penalty->0,
        inputs.settings.dsd_isi_penalty is None ==> r.dsd_isi_penalty
            == inputs.player.config.dsd_isi_penalty,
        inputs.settings.headroom_db is Some ==> r.headroom_db == inputs.settings.headroom_db->0,
        inputs.settings.headroom_db is None ==> r.headroom_db
            == inputs.player.config.headroom_db,
        inputs.settings.dsp_buffer_ms is Some ==> r.dsp_buffer_ms
            == inputs.settings.dsp_buffer_ms->0,
        inputs.settings.dsp_buffer_ms is None ==> r.dsp_buffer_ms
            == inputs.player.config.dsp_buffer_ms,
        inputs.settings.exclusive is Some ==> r.exclusive == inputs.settings.exclusive->0,
        inputs.settings.exclusive is None ==> r.exclusive == inputs.player.config.exclusive,
{
}

/// A zone with an amplifier shows the amplifier's volume within its limit; one
/// without shows the volume of its own kind of device.
pub proof fn law_status_shows_device_volume(inputs: StatusInputs, r: StatusResponse)
    requires
        player_status(inputs, r),
    ensures
        inputs.hegel is Some ==> {
            let hegel = inputs.hegel->0;
            &&& r.device_volume_supported
            &&& r.device_volume_max is Some
            &&& r.device_volume_max->0.is_hundredths(hegel.max_volume)
            &&& hegel.volume is None ==> r.device_volume is None
            &&& hegel.volume is Some && hegel.volume->0 <= hegel.max_volume ==> r.device_volume
                is Some && r.device_volume->0.is_hundredths(hegel.volume->0)
            &&& hegel.volume is Some && hegel.volume->0 > hegel.max_volume ==> r.device_volume
                is Some && r.device_volume->0.is_hundredths(hegel.max_volume)
        },
        inputs.hegel is None && inputs.zone_protocol == Some(SinkProtocol::RemoteAgent) ==> {
            &&& !r.device_volume_supported
            &&& r.device_volume is None
        },
        inputs.hegel is None && inputs.zone_protocol == Some(SinkProtocol::UpnpAvRenderer) ==> {
            &&& r.device_volume_supported
            &&& r.device_volume == inputs.upnp_volume
        },
        inputs.hegel is None && (inputs.zone_protocol == Some(SinkProtocol::AirPlayRaop)
            || inputs.zone_protocol == Some(SinkProtocol::AirPlay2)) ==> {
            &&& r.device_volume_supported
            &&& r.device_volume == inputs.airplay_volume
        },
        inputs.hegel is None && (inputs.zone_protocol == Some(SinkProtocol::LocalCoreAudio)
            || inputs.zone_protocol == Some(SinkProtocol::AsioOutput)) ==> {
            &&& r.device_volume_supported == inputs.local_volume.supported
            &&& r.device_volume == inputs.local_volume.volume
            &&& r.device_volume_message == inputs.local_volume.message
        },
{
}

/// The status of a speaker's zone shows what the speaker reported, each in the
/// field of its name; without a report nothing plays.
pub proof fn law_speaker_status_shows_speaker(
    inputs: StatusInputs,
    sonos: Option<SonosSnapshot>,
    upnp: Option<UpnpSnapshot>,
    found: Option<SourceRef>,
    r: StatusResponse,
)
    requires
        zone_status(inputs, sonos, upnp, found, r),
        inputs.zone_protocol == Some(SinkProtocol::SonosUpnp),
    ensures
        r.output_transport@ == "sonos_upnp"@,
        r.zone_protocol == SinkProtocol::SonosUpnp,
        r.active_zone_id == inputs.zone_id,
        !r.exclusive,
        sonos is Some ==> {
            let s = sonos->0;
            &&& r.state == s.state
            &&& r.file_name == s.file_name
            &&& r.track_title == s.track_title
            &&& r.track_artist == s.track_artist
            &&& r.track_album == s.track_album
            &&& r.source_rate == s.source_rate
            &&& r.target_rate == s.target_rate
            &&& r.source_bits == s.source_bits
            &&& r.target_bits == s.target_bits
            &&& r.position_secs == s.position_secs
            &&& r.duration_secs == s.duration_secs
            &&& r.device_volume == s.volume
            &&& s.volume is Some ==> r.volume == s.volume->0
            &&& r.output_notice == s.notice
            &&& s.file_name is Some ==> r.current_source == found
            &&& s.file_name is None ==> r.current_source is None
        },
        sonos is None ==> {
            &&& r.state@ == "Stopped"@
            &&& r.file_name is None
            &&& r.current_source is None
            &&& r.position_secs.bits == 0
            &&& r.duration_secs.bits == 0
            &&& r.source_rate == 0
        },
{
}

/// The status of a renderer's zone shows what the renderer reported, each in
/// the field of its name; without a report nothing plays.
pub proof fn law_renderer_status_shows_renderer(
    inputs: StatusInputs,
    sonos: Option<SonosSnapshot>,
    upnp: Option<UpnpSnapshot>,
    found: Option<SourceRef>,
    r: StatusResponse,
)
    requires
        zone_status(inputs, sonos, upnp, found, r),
        inputs.zone_protocol == Some(SinkProtocol::UpnpAvRenderer),
    ensures
        r.output_transport@ == "upnp_av_renderer"@,
        r.zone_protocol == SinkProtocol::UpnpAvRenderer,
        r.active_zone_id == inputs.zone_id,
        !r.exclusive,
        upnp is Some ==> {
            let s = upnp->0;
            &&& r.state == s.state
            &&& r.file_name == s.file_name
            &&& r.track_title == s.track_title
            &&& r.track_artist == s.track_artist
            &&& r.track_album == s.track_album
            &&& r.source_rate == s.source_rate
            &&& r.target_rate == s.target_rate
            &&& r.source_bits == s.source_bits
            &&& r.target_bits == s.target_bits
            &&& r.position_secs == s.position_secs
            &&& r.duration_secs == s.duration_secs
            &&& r.device_volume == s.volume
            &&& s.volume is Some ==> r.volume == s.volume->0
            &&& r.output_notice == s.notice
            &&& r.playback_speed == s.playback_speed
            &&& r.upnp_config_applied_to_current_playback == s.config_applied_to_current_playback
            &&& r.upnp_restart_pending == s.restart_pending
            &&& r.upnp_render_status == s.render_status
            &&& r.upnp_active_render_signature == s.active_render_signature
            &&& r.upnp_configured_render_signature == s.configured_render_signature
            &&& r.upnp_last_render_ms == s.last_render_ms
            &&& r.upnp_last_prepare_ms == s.last_prepare_ms
            &&& r.upnp_last_cache_hit == s.last_cache_hit
            &&& r.transport_pending == s.transport_pending
            &&& r.transport_pending_position_secs == s.transport_pending_position_secs
            &&& s.active_output_mode is Some ==> r.active_output_mode == s.active_output_mode->0
            &&& s.current_source is Some ==> r.current_source == s.current_source
            &&& s.current_source is None && s.file_name is Some ==> r.current_source == found
            &&& s.current_source is None && s.file_name is None ==> r.current_source is None
        },
        upnp is None ==> {
            &&& r.state@ == "Stopped"@
            &&& r.file_name is None
            &&& r.current_source is None
            &&& r.position_secs.bits == 0
            &&& r.duration_secs.bits == 0
            &&& r.source_rate == 0
        },
{
}

/// A player that has stopped keeps its position and duration in the status; an
/// agent that has stopped does not.
pub proof fn law_stopped_status_keeps_local_position(inputs: StatusInputs, r: StatusResponse)
    requires
        player_status(inputs, r),
        !(r.state@ == "Playing"@ || r.state@ == "Paused"@ || r.state@ == "Starting"@),
    ensures
        inputs.zone_protocol != Some(SinkProtocol::RemoteAgent) && inputs.player.signal.target_rate
            > 0 ==> r.position_secs == inputs.player.position_secs,
        inputs.zone_protocol != Some(SinkProtocol::RemoteAgent) && inputs.player.signal.source_rate
            > 0 ==> r.duration_secs == inputs.player.duration_secs,
        inputs.zone_protocol == Some(SinkProtocol::RemoteAgent) ==> r.position_secs.bits == 0
            && r.duration_secs.bits == 0,
        r.source_rate == 0 && r.target_rate == 0 && r.source_bits == 0 && r.target_bits == 0,
        r.src_path_kind is None && r.src_ratio_num == 0 && r.src_ratio_den == 0,
        r.transport_pending@ == "none"@,
        r.transport_pending_position_secs is None,
        !r.metrics.signal_clipping && r.metrics.signal_clip_events == 0,
        r.metrics.signal_peak.bits == 0 && r.metrics.signal_peak_max.bits == 0,
        !r.metrics.dsd_limiter_active && r.metrics.dsd_limiter_events == 0,
        r.dop.ring_fill_ms.bits == 0 && r.dop.callback_frames == 0 && r.dop.marker_error_events == 0,
{
    reveal_strlit("Stopped");
    reveal_strlit("Playing");
    reveal_strlit("Paused");
    reveal_strlit("Starting");
    assert("Stopped"@[0] == 'S' && "Stopped"@[2] == 'o' && "Starting"@[2] == 'a');
    assert("Playing"@[0] == 'P' && "Paused"@[0] == 'P');
}

/// An enabled zone of the protocol has this id.
pub open spec fn has_enabled_zone(
    zones: Seq<ZoneProfile>,
    protocol: SinkProtocol,
    id: String,
) -> bool {
    exists|i: int|
        0 <= i < zones.len() && (#[trigger] zones[i]).enabled && zones[i].protocol == protocol
            && zones[i].id == id
}

/// A zone is asked for news exactly where it is enabled and of the protocol.
pub proof fn law_refreshed_zones_are_those_of_the_protocol(
    zones: Seq<ZoneProfile>,
    protocol: SinkProtocol,
)
    ensures
        forall|i: int|
            0 <= i < zones.len() && (#[trigger] zones[i]).enabled && zones[i].protocol == protocol
                ==> refreshed_ids(zones, protocol).contains(zones[i].id),
        forall|k: int|
            0 <= k < refreshed_ids(zones, protocol).len() ==> has_enabled_zone(
                zones,
                protocol,
                #[trigger] refreshed_ids(zones, protocol)[k],
            ),
    decreases zones.len(),
{
    if zones.len() > 0 {
        let rest = zones.drop_last();
        law_refreshed_zones_are_those_of_the_protocol(rest, protocol);
        let before = refreshed_ids(rest, protocol);
        let all = refreshed_ids(zones, protocol);
        assert forall|i: int|
            0 <= i < zones.len() && (#[trigger] zones[i]).enabled && zones[i].protocol
                == protocol implies all.contains(zones[i].id) by {
            if i < rest.len() {
                assert(rest[i] == zones[i]);
                let k = choose|k: int| 0 <= k < before.len() && before[k] == rest[i].id;
                assert(all[k] == zones[i].id);
            } else {
                assert(all[all.len() - 1] == zones[i].id);
            }
        }
        assert forall|k: int| 0 <= k < all.len() implies has_enabled_zone(
            zones,
            protocol,
            #[trigger] all[k],
        ) by {
            if k < before.len() {
                assert(has_enabled_zone(rest, protocol, before[k]));
                let i = choose|i: int|
                    0 <= i < rest.len() && (#[trigger] rest[i]).enabled && rest[i].protocol
                        == protocol && rest[i].id == before[k];
                assert(zones[i] == rest[i]);
            } else {
                assert(zones[zones.len() - 1].id == all[k]);
            }
        }
    }
}

/// The status of a zone is read where there is something to read it from: an
/// agent's zone and those of speakers and renderers always, any other while it
/// has a player. A player of the zone's own comes first, except behind an
/// agent.
pub proof fn law_status_player_is_the_zones_own(
    protocol: Option<SinkProtocol>,
    zone_has_player: bool,
)
    ensures
        zone_has_player && protocol != Some(SinkProtocol::RemoteAgent) ==> spec_status_player(
            protocol,
            zone_has_player,
        ) == Some(StatusPlayer::OfZone),
        spec_status_player(protocol, zone_has_player) is None <==> !zone_has_player && protocol
            != Some(SinkProtocol::RemoteAgent) && protocol != Some(SinkProtocol::SonosUpnp)
            && protocol != Some(SinkProtocol::UpnpAvRenderer),
        protocol == Some(SinkProtocol::RemoteAgent) ==> spec_status_player(
            protocol,
            zone_has_player,
        ) == Some(StatusPlayer::Active),
{
}

/// What an agent says that it plays is shown, each value in the field of its
/// name.
pub proof fn law_agent_playback_is_shown(
    response: StatusResponse,
    playback: AgentPlaybackState,
    found: Option<SourceRef>,
    active: Option<SourceRef>,
    modulator: Option<String>,
    r: StatusResponse,
)
    requires
        call_ensures(apply_remote_playback, (response, playback, found, active, modulator), r),
    ensures
        r.state == playback.state,
        r.file_name == playback.file_name,
        r.track_title == playback.track_title,
        r.track_artist == playback.track_artist,
        r.track_album == playback.track_album,
        r.position_secs == playback.position_secs,
        r.duration_secs == playback.duration_secs,
        r.source_rate == playback.source_rate,
        r.target_rate == playback.target_rate,
        r.source_bits == playback.source_bits,
        r.target_bits == playback.target_bits,
        r.volume == playback.volume,
        r.active_zone_id == response.active_zone_id,
        r.zone_protocol == response.zone_protocol,
        playback.current_source is Some ==> r.current_source == playback.current_source,
{
}

/// The status of a zone that is there is that of its player, speaker or
/// renderer.
pub proof fn law_zone_status_is_answered(
    inputs: StatusInputs,
    zone_has_player: bool,
    sonos: Option<SonosSnapshot>,
    upnp: Option<UpnpSnapshot>,
    found: Option<SourceRef>,
    r: Result<StatusResponse, String>,
)
    requires
        call_ensures(
            build_status_response_for_zone,
            (inputs, zone_has_player, sonos, upnp, found),
            r,
        ),
    ensures
        zone_has_player ==> r is Ok,
        inputs.zone_protocol == Some(SinkProtocol::RemoteAgent) ==> r is Ok,
        !zone_has_player && inputs.zone_protocol is None ==> r is Err,
        r is Ok ==> r->Ok_0.active_zone_id == inputs.zone_id,
        r is Ok && inputs.zone_protocol == Some(SinkProtocol::SonosUpnp) && sonos is Some ==> {
            &&& r->Ok_0.state == sonos->0.state
            &&& r->Ok_0.position_secs == sonos->0.position_secs
            &&& r->Ok_0.duration_secs == sonos->0.duration_secs
            &&& r->Ok_0.track_title == sonos->0.track_title
        },
        r is Ok && inputs.zone_protocol == Some(SinkProtocol::UpnpAvRenderer) && upnp is Some ==> {
            &&& r->Ok_0.state == upnp->0.state
            &&& r->Ok_0.position_secs == upnp->0.position_secs
            &&& r->Ok_0.duration_secs == upnp->0.duration_secs
            &&& r->Ok_0.track_title == upnp->0.track_title
        },
        r is Ok && inputs.zone_protocol == Some(SinkProtocol::LocalCoreAudio)
            && inputs.player.state@ == "Playing"@ && inputs.player.signal.target_rate > 0
            && inputs.player.signal.source_rate > 0 ==> {
            &&& r->Ok_0.state == inputs.player.state
            &&& r->Ok_0.position_secs == inputs.player.position_secs
            &&& r->Ok_0.duration_secs == inputs.player.duration_secs
        },
{
    law_status_player_is_the_zones_own(inputs.zone_protocol, zone_has_player);
    if r is Ok {
        let s = r->Ok_0;
        if inputs.zone_protocol == Some(SinkProtocol::SonosUpnp) {
            law_speaker_status_shows_speaker(inputs, sonos, upnp, found, s);
        } else if inputs.zone_protocol == Some(SinkProtocol::UpnpAvRenderer) {
            law_renderer_status_shows_renderer(inputs, sonos, upnp, found, s);
        } else {
            law_status_shows_settings(inputs, s);
            if inputs.zone_protocol == Some(SinkProtocol::LocalCoreAudio) && inputs.player.state@
                == "Playing"@ {
                law_player_status_shows_player(inputs, s);
            }
        }
    }
}

/// A file that is known from the listening session goes by that source, else by
/// the library's.
pub proof fn law_session_names_files_first(
    listened: Option<SourceRef>,
    library: Option<SourceRef>,
    r: Option<SourceRef>,
)
    requires
        call_ensures(status_source_for_file_name, (listened, library), r),
    ensures
        listened is Some ==> r == listened,
        listened is None ==> r == library,
{
}

} // verus!
