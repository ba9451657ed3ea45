//! Signal-path and buffer diagnostics that agents and players report.

use crate::audio::{Real32, Real64};
use vstd::prelude::*;

verus! {

/// Fill level and callback health of a DSD output ring.
#[derive(Clone, Copy, Debug, Default, PartialEq, Eq)]
pub struct DsdBufferHealth {
    pub ring_capacity_samples: u64,
    pub ring_fill_samples: u64,
    pub ring_low_watermark_samples: u64,
    pub ring_capacity_ms: Real64,
    pub ring_fill_ms: Real64,
    pub ring_low_watermark_ms: Real64,
    pub callback_frames: u32,
    pub callback_ms: Real64,
    pub requested_hardware_buffer_frames: u32,
    pub requested_hardware_buffer_ms: Real64,
    pub hardware_buffer_min_frames: u32,
    pub hardware_buffer_max_frames: u32,
    pub hardware_buffer_frames: u32,
    pub hardware_buffer_ms: Real64,
    pub lock_miss_events: u64,
    pub callback_deadline_miss_events: u64,
    pub soft_callback_gap_125_events: u64,
    pub soft_callback_gap_150_events: u64,
    pub soft_callback_gap_175_events: u64,
    pub last_soft_callback_gap_ms: Real64,
    pub last_soft_callback_gap_at_ms: u64,
    pub ring_below_250ms_events: u64,
    pub ring_below_100ms_events: u64,
    pub ring_below_50ms_events: u64,
    pub ring_below_callback_events: u64,
    pub last_ring_pressure_at_ms: u64,
    pub marker_error_events: u64,
    pub program_idle_splice_events: u64,
    pub program_to_idle_events: u64,
    pub idle_to_program_events: u64,
    pub mixed_output_events: u64,
    pub last_output_transition_id: u32,
    pub last_output_transition_at_ms: u64,
    pub repeated_payload_events: u64,
    pub callback_index: u64,
    pub last_callback_at_ms: u64,
    pub last_callback_gap_ms: Real64,
    pub last_callback_frames: u32,
    pub last_output_kind_id: u32,
    pub last_ring_fill_samples: u64,
    pub last_program_read_samples: u64,
    pub ring_read_cursor_samples: u64,
    pub last_payload_fingerprint: u64,
    pub last_payload_fingerprint_at_ms: u64,
    pub marker_scan_count: u64,
    pub every_callback_scan_enabled: bool,
    pub last_underrun_at_ms: u64,
}

/// The signal path and diagnostics of one renderer.
#[derive(Clone, Debug, Default)]
pub struct SyncSignalPath {
    pub source_format: Option<String>,
    pub source_rate: u32,
    pub source_bit_depth: u32,
    pub dsp_filter: String,
    pub dsp_target_rate: u32,
    pub src_path_kind: Option<String>,
    pub src_capped_fallback: bool,
    pub src_phase_profile_preserved: bool,
    pub src_ratio_num: u32,
    pub src_ratio_den: u32,
    pub output_device: Option<String>,
    pub output_rate: u32,
    pub output_bit_depth: u32,
    pub output_mode: Option<String>,
    pub active_output_mode: Option<String>,
    pub output_transport: Option<String>,
    pub dsd_stability_resets: u64,
    pub dsd_modulator: Option<String>,
    pub exclusive: bool,
    pub cpu_percent: Real32,
    pub resample_time_ns: u64,
    pub dsd_upsample_time_ns: u64,
    pub dsd_modulate_time_ns: u64,
    pub dsd_output_pending_samples: u64,
    pub dsd_overbudget_blocks: u64,
    pub dsd_last_load: Real32,
    pub dsd_recent_load_p95: Real32,
    pub dsd_recent_load_p99: Real32,
    pub dsd_buffer_health: Option<DsdBufferHealth>,
    pub dop_ring_capacity_ms: Real64,
    pub dop_ring_fill_ms: Real64,
    pub dop_ring_low_watermark_ms: Real64,
    pub dop_callback_frames: u32,
    pub dop_callback_ms: Real64,
    pub dop_requested_hardware_buffer_frames: u32,
    pub dop_requested_hardware_buffer_ms: Real64,
    pub dop_hardware_buffer_min_frames: u32,
    pub dop_hardware_buffer_max_frames: u32,
    pub dop_hardware_buffer_frames: u32,
    pub dop_hardware_buffer_ms: Real64,
    pub dop_lock_miss_events: u64,
    pub dop_callback_deadline_miss_events: u64,
    pub dop_soft_callback_gap_125_events: u64,
    pub dop_soft_callback_gap_150_events: u64,
    pub dop_soft_callback_gap_175_events: u64,
    pub dop_last_soft_callback_gap_ms: Real64,
    pub dop_last_soft_callback_gap_at_ms: u64,
    pub dop_ring_below_250ms_events: u64,
    pub dop_ring_below_100ms_events: u64,
    pub dop_ring_below_50ms_events: u64,
    pub dop_ring_below_callback_events: u64,
    pub dop_last_ring_pressure_at_ms: u64,
    pub dop_marker_error_events: u64,
    pub dop_program_idle_splice_events: u64,
    pub dop_program_to_idle_events: u64,
    pub dop_idle_to_program_events: u64,
    pub dop_mixed_output_events: u64,
    pub dop_last_output_transition_id: u32,
    pub dop_last_output_transition_at_ms: u64,
    pub dop_repeated_payload_events: u64,
    pub dop_callback_index: u64,
    pub dop_last_callback_at_ms: u64,
    pub dop_last_callback_gap_ms: Real64,
    pub dop_last_callback_frames: u32,
    pub dop_last_output_kind_id: u32,
    pub dop_last_ring_fill_samples: u64,
    pub dop_last_program_read_samples: u64,
    pub dop_ring_read_cursor_samples: u64,
    pub dop_last_payload_fingerprint: u64,
    pub dop_last_payload_fingerprint_at_ms: u64,
    pub dop_marker_scan_count: u64,
    pub dop_every_callback_scan_enabled: bool,
    pub dop_last_underrun_at_ms: u64,
    pub output_ring_fill_now_ms: Real64,
    pub output_ring_fill_min_ms: Real64,
    pub startup_ring_low_watermark_ms: Real64,
    pub startup_ready_ms: u64,
    pub startup_first_render_block_ms: Real64,
    pub startup_producer_over_budget_count: u64,
    pub startup_callback_gaps_ms: Vec<Real64>,
    pub underrun_count: u64,
    pub producer_over_budget_count: u64,
    pub max_render_block_ms: Real64,
    pub max_audio_callback_gap_ms: Real64,
    pub dsp_graph_rebuild_count: u64,
    pub sample_rate_change_count: u64,
    pub dop_alignment_reset_count: u64,
    pub coreaudio_dop_open_count: u64,
    pub coreaudio_dop_start_count: u64,
    pub coreaudio_dop_stop_count: u64,
    pub coreaudio_dop_drop_count: u64,
    pub coreaudio_dop_quiesce_count: u64,
    pub coreaudio_dop_last_lifecycle_event_id: u32,
    pub coreaudio_dop_last_lifecycle_at_ms: u64,
    pub reopen_reason_count: u64,
    pub last_reopen_reason_id: u32,
    pub last_reopen_reason_at_ms: u64,
    pub flush_reason_count: u64,
    pub last_flush_reason_id: u32,
    pub last_flush_reason_at_ms: u64,
    pub modulator_reset_count: u64,
    pub decoder_starved_count: u64,
    pub source_read_time_ms: Real64,
    pub max_source_read_ms: Real64,
    pub source_read_stall_count: u64,
    pub source_read_stall_last_at_ms: u64,
    pub decoder_decode_time_ms: Real64,
    pub max_decoder_decode_ms: Real64,
    pub decoder_decode_stall_count: u64,
    pub decoder_decode_stall_last_at_ms: u64,
    pub lock_wait_max_ms: Real64,
    pub block_duration_ns: u64,
    pub signal_peak: Real32,
    pub signal_peak_max: Real32,
    pub signal_clipping: bool,
    pub signal_clip_events: u64,
    pub signal_clip_samples: u64,
    pub dsd_limiter_peak_ratio: Real32,
    pub dsd_limiter_peak_ratio_max: Real32,
    pub dsd_limiter_active: bool,
    pub dsd_limiter_events: u64,
    pub dsd_limiter_samples: u64,
    pub underrun_events: u64,
    pub underrun_samples: u64,
}

/// The server-side chain for a browser-zone stream, recorded when a local
/// track is served, or its transcoding starts, for that zone.
#[derive(Clone, Debug, Default)]
pub struct BrowserStreamSignal {
    /// Local library track this signal describes.
    pub track_id: i64,
    /// "original", "flac" (lossless derivative), "flac_passthrough", "opus".
    pub variant: String,
    pub opus_kbps: Option<u32>,
    pub eq_active: bool,
    pub eq_active_bands: u32,
    /// Uppercase source container label, e.g. "FLAC".
    pub source_format: Option<String>,
    /// 0 when the library has no technical metadata for the track.
    pub source_rate: u32,
    pub source_bits: u32,
    /// Delivered stream rate/bits: 48000/0 for Opus, source rate/24 for the
    /// EQ'd FLAC derivative, source rate/bits for passthrough.
    pub output_rate: u32,
    pub output_bits: u32,
}

/// Whether the resampler keeps its phase profile, in a report that does not
/// say.
pub fn default_true() -> (r: bool)
    ensures
        r,
{
    true
}

} // verus!
