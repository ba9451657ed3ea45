//! Playback on UPnP renderers: preparing assets, and what to do when playback
//! changes while an asset is prepared.

use crate::audio::Real64;
use crate::digest;
use crate::playback::error::{ErrorKind, PlaybackError};
use crate::playback::request::PlaybackGuard;
use crate::playback::sequencer::PlaybackCommandSequencer;
use crate::playback::upnp_dsp::layout;
use crate::playback::upnp_dsp::plan;
use crate::playback::upnp_dsp::plan::UpnpDspRenderConfig;
use crate::playback::upnp_dsp::render;
use crate::playback::upnp_dsp::render::{UpnpDspDecision, UpnpSource};
use crate::protocol::sink::SinkProtocol;
use crate::protocol::source::SourceRef;
use crate::text;
use vstd::prelude::*;
use vstd::string::*;

verus! {

/// How long settings have to rest before they are applied to what plays.
pub const UPNP_RECONFIGURE_DEBOUNCE_MS: u64 = 400;

/// What a renderer is sent.
pub struct UpnpAsset {
    pub id: String,
    pub source_ref: SourceRef,
    pub stream_url: String,
    pub mime_type: String,
    pub byte_len: Option<u64>,
    pub art_url: Option<String>,
    pub title: Option<String>,
    pub artist: Option<String>,
    pub album: Option<String>,
    pub duration_secs: Option<Real64>,
    pub source_rate: u32,
    pub target_rate: u32,
    pub source_bits: u32,
    pub target_bits: u32,
    pub active_output_mode: Option<String>,
    pub qobuz_resolve_ms: Option<u64>,
    pub asset_registration_ms: Option<u64>,
    pub render_signature: Option<String>,
    pub configured_render_signature: Option<String>,
    pub render_ms: Option<u64>,
    pub prepare_ms: Option<u64>,
    pub cache_hit: Option<bool>,
    pub render_or_stream_plan: Option<String>,
    pub cache_lookup_ms: Option<u64>,
    pub cache_wait_ms: Option<u64>,
}

/// Two optional sources are the same track.
pub open spec fn same_track(a: Option<SourceRef>, b: SourceRef) -> bool {
    a is Some && a->0.spec_key() == b.spec_key()
}

/// Whether an optional source is the given track.
pub fn is_same_track(a: Option<&SourceRef>, b: &SourceRef) -> (r: bool)
    ensures
        r == (a is Some && a->0.spec_key() == b.spec_key()),
{
    match a {
        Some(a) => a.key() == b.key(),
        None => false,
    }
}

/// Where a play command stands.
#[derive(Clone, Copy, Debug, PartialEq, Eq, Structural)]
pub enum UpnpPlayStage {
    /// The renderer is known.
    Resolved,
    /// The asset is prepared.
    Prepared,
    /// The renderer plays it.
    Sent,
}

/// What a play command does next.
#[derive(Clone, Copy, Debug, PartialEq, Eq, Structural)]
pub enum UpnpPlayStep {
    /// Prepare the asset.
    Prepare,
    /// Send it to the renderer.
    Send,
    /// Note that it plays, with its queue.
    Record,
    /// Stop: another command came in between.
    Discard,
}

pub open spec fn spec_play_step(
    stage: UpnpPlayStage,
    current: bool,
    generation_matches: bool,
) -> UpnpPlayStep {
    if !current || (stage == UpnpPlayStage::Prepared && !generation_matches) {
        UpnpPlayStep::Discard
    } else {
        match stage {
            UpnpPlayStage::Resolved => UpnpPlayStep::Prepare,
            UpnpPlayStage::Prepared => UpnpPlayStep::Send,
            UpnpPlayStage::Sent => UpnpPlayStep::Record,
        }
    }
}

/// What a play command does next. It goes on only while no newer command of
/// its client has been seen, and sends only what no other command has
/// prepared over.
pub fn play_upnp_source_for_zone(
    stage: UpnpPlayStage,
    guard: &PlaybackGuard,
    sequencer: &PlaybackCommandSequencer,
    generation_matches: bool,
) -> (r: UpnpPlayStep)
    requires
        sequencer.wf(),
    ensures
        r == spec_play_step(stage, guard.spec_current(*sequencer), generation_matches),
{
    let current = guard.is_current(sequencer);
    match stage {
        UpnpPlayStage::Resolved => if current {
            UpnpPlayStep::Prepare
        } else {
            UpnpPlayStep::Discard
        },
        UpnpPlayStage::Prepared => if generation_matches && current {
            UpnpPlayStep::Send
        } else {
            UpnpPlayStep::Discard
        },
        UpnpPlayStage::Sent => if current {
            UpnpPlayStep::Record
        } else {
            UpnpPlayStep::Discard
        },
    }
}

/// The note that a discarded command leaves: where it was stopped.
pub open spec fn spec_discard_reason(
    stage: UpnpPlayStage,
    generation_matches: bool,
) -> Seq<char> {
    match stage {
        UpnpPlayStage::Resolved => "before_upnp_prepare"@,
        UpnpPlayStage::Prepared => if generation_matches {
            "after_upnp_prepare"@
        } else {
            "after_upnp_prepare_generation"@
        },
        UpnpPlayStage::Sent => "after_upnp_play"@,
    }
}

/// The note and the error of a discarded command.
pub fn discarded_play(stage: UpnpPlayStage, generation_matches: bool) -> (r: (
    &'static str,
    PlaybackError,
))
    ensures
        r.0@ == spec_discard_reason(stage, generation_matches),
        r.1.is(ErrorKind::Conflict, "Playback changed"@),
{
    let reason = match stage {
        UpnpPlayStage::Resolved => "before_upnp_prepare",
        UpnpPlayStage::Prepared => if generation_matches {
            "after_upnp_prepare"
        } else {
            "after_upnp_prepare_generation"
        },
        UpnpPlayStage::Sent => "after_upnp_play",
    };
    (reason, PlaybackError::conflict("Playback changed"))
}

/// The source is the first of the queue.
pub open spec fn spec_next_matches(queue: Seq<SourceRef>, source: SourceRef) -> bool {
    queue.len() > 0 && queue[0].spec_key() == source.spec_key()
}

/// Whether the source is the first of the queue.
pub fn upnp_queued_next_matches(queue: &[SourceRef], source_ref: &SourceRef) -> (r: bool)
    ensures
        r == spec_next_matches(queue@, *source_ref),
{
    queue.len() > 0 && queue[0].key() == source_ref.key()
}

/// Why a source may not be prepared ahead of time, if so.
pub open spec fn spec_prewarm_refusal(
    require_queued_next: bool,
    next_matches: bool,
    current: bool,
    expected_active: Option<SourceRef>,
    active: Option<SourceRef>,
) -> Option<Seq<char>> {
    if require_queued_next && !next_matches {
        Some("Track is no longer next in queue"@)
    } else if !current || (expected_active is Some && !same_track(active, expected_active->0)) {
        Some("Playback changed"@)
    } else {
        None
    }
}

/// Checks, before and after an asset is prepared ahead of time, that it is
/// still wanted: the track is next where that is required, the command is
/// current, and the expected track plays. Says whether the track is next.
pub fn prewarm_upnp_source_for_zone(
    queue: &[SourceRef],
    source_ref: &SourceRef,
    require_queued_next: bool,
    guard: &PlaybackGuard,
    sequencer: &PlaybackCommandSequencer,
    expected_active: Option<&SourceRef>,
    active: Option<&SourceRef>,
) -> (r: Result<bool, PlaybackError>)
    requires
        sequencer.wf(),
    ensures
        ({
            let refusal = spec_prewarm_refusal(
                require_queued_next,
                spec_next_matches(queue@, *source_ref),
                guard.spec_current(*sequencer),
                (match expected_active {
                    Some(s) => Some(*s),
                    None => None,
                }),
                (match active {
                    Some(s) => Some(*s),
                    None => None,
                }),
            );
            &&& r is Err <==> refusal is Some
            &&& r is Err ==> r->Err_0.is(ErrorKind::Conflict, refusal->0)
            &&& r is Ok ==> r->Ok_0 == spec_next_matches(queue@, *source_ref)
        }),
{
    let next_matches = upnp_queued_next_matches(queue, source_ref);
    if require_queued_next && !next_matches {
        return Err(PlaybackError::conflict("Track is no longer next in queue"));
    }
    if !guard.is_current(sequencer) {
        return Err(PlaybackError::conflict("Playback changed"));
    }
    match expected_active {
        Some(expected) => {
            if !is_same_track(active, expected) {
                return Err(PlaybackError::conflict("Playback changed"));
            }
        },
        None => {},
    }
    Ok(next_matches)
}

/// What follows from handing the next track to a renderer: a refusal because
/// playback has changed is an error; any other only leaves a notice, since the
/// stopped state still advances the queue.
pub fn after_next_handoff(armed: Result<(), String>) -> (r: Result<Option<String>, PlaybackError>)
    ensures
        armed is Ok ==> r == Ok::<Option<String>, PlaybackError>(None),
        armed is Err && armed->Err_0@ == "Playback changed"@ ==> r is Err && r->Err_0.is(
            ErrorKind::Conflict,
            "Playback changed"@,
        ),
        armed is Err && armed->Err_0@ != "Playback changed"@ ==> r is Ok && r->Ok_0 is Some
            && r->Ok_0->0@
            == "UPnP renderer did not accept next-track handoff; fallback auto-advance remains active: "@
            + armed->Err_0@,
{
    match armed {
        Ok(()) => Ok(None),
        Err(error) => {
            if *error.as_str() == *"Playback changed" {
                return Err(PlaybackError::conflict("Playback changed"));
            }
            Ok(
                Some(
                    text::joined(
                        "UPnP renderer did not accept next-track handoff; fallback auto-advance remains active: ",
                        error.as_str(),
                    ),
                ),
            )
        },
    }
}

/// Only UPnP renderers need settings to be applied by preparing anew.
pub fn enqueue_upnp_config_reapply_for_zone(protocol: Option<SinkProtocol>) -> (r: bool)
    ensures
        r == (protocol == Some(SinkProtocol::UpnpAvRenderer)),
{
    match protocol {
        Some(protocol) => protocol == SinkProtocol::UpnpAvRenderer,
        None => false,
    }
}

/// The source that has to be rendered completely after a seek, if any: the
/// renderer did not confirm a seek in a stream that is generated on demand.
pub fn seek_upnp_with_dsp_fallback(
    needs_completed_render_fallback: bool,
    current_plan: Option<&str>,
    current_source: Option<SourceRef>,
) -> (r: Option<SourceRef>)
    ensures
        r == (if needs_completed_render_fallback && text::opt_str(current_plan) == Some(
            "progressive_wav_stream"@,
        ) {
            current_source
        } else {
            None
        }),
{
    if !needs_completed_render_fallback {
        return None;
    }
    match current_plan {
        Some(plan) => {
            if *plan == *"progressive_wav_stream" {
                current_source
            } else {
                None
            }
        },
        None => None,
    }
}

/// What a zone's renderer is doing.
pub struct UpnpZoneSnapshot {
    pub state: String,
    pub current_source: Option<SourceRef>,
    pub active_render_signature: Option<String>,
    pub configured_render_signature: Option<String>,
    pub last_render_ms: Option<u64>,
    pub last_prepare_ms: Option<u64>,
    pub last_cache_hit: Option<bool>,
    pub position_secs: Real64,
}

/// How an attempt to apply settings ended.
pub struct ReconfigureReport {
    pub status: &'static str,
    pub configured_render_signature: Option<String>,
    pub render_ms: Option<u64>,
    pub prepare_ms: Option<u64>,
    pub cache_hit: Option<bool>,
}

/// The report says nothing of a render.
pub open spec fn bare_report(r: ReconfigureReport, status: Seq<char>) -> bool {
    &&& r.status@ == status
    &&& r.configured_render_signature is None
    &&& r.render_ms is None
    &&& r.prepare_ms is None
    &&& r.cache_hit is None
}

fn bare(status: &'static str) -> (r: ReconfigureReport)
    ensures
        bare_report(r, status@),
{
    ReconfigureReport {
        status,
        configured_render_signature: None,
        render_ms: None,
        prepare_ms: None,
        cache_hit: None,
    }
}

/// The report tells of a prepared asset.
pub open spec fn asset_report(r: ReconfigureReport, status: Seq<char>, asset: UpnpAsset) -> bool {
    &&& r.status@ == status
    &&& r.configured_render_signature == asset.configured_render_signature
    &&& r.render_ms == asset.render_ms
    &&& r.prepare_ms == asset.prepare_ms
    &&& r.cache_hit == asset.cache_hit
}

fn report_asset(status: &'static str, asset: &UpnpAsset) -> (r: ReconfigureReport)
    ensures
        asset_report(r, status@, *asset),
{
    ReconfigureReport {
        status,
        configured_render_signature: asset.configured_render_signature.clone(),
        render_ms: asset.render_ms,
        prepare_ms: asset.prepare_ms,
        cache_hit: asset.cache_hit,
    }
}

/// The first step of applying settings.
pub enum ReapplyStart {
    /// Nothing plays: the settings are saved, and that is all.
    Finish(ReconfigureReport),
    /// Prepare this source with the new settings.
    Prepare(SourceRef),
}

/// The first step of applying settings to what plays.
pub fn begin_config_reapply(snapshot: Option<&UpnpZoneSnapshot>) -> (r: ReapplyStart)
    ensures
        snapshot is None || snapshot->0.current_source is None ==> r is Finish && bare_report(
            r->Finish_0,
            "saved"@,
        ),
        snapshot is Some && snapshot->0.current_source is Some && snapshot->0.state@ == "Stopped"@
            ==> r is Finish && r->Finish_0.status@ == "saved"@
            && r->Finish_0.configured_render_signature == snapshot->0.configured_render_signature
            && r->Finish_0.render_ms == snapshot->0.last_render_ms && r->Finish_0.prepare_ms
            == snapshot->0.last_prepare_ms && r->Finish_0.cache_hit == snapshot->0.last_cache_hit,
        snapshot is Some && snapshot->0.current_source is Some && snapshot->0.state@ != "Stopped"@
            ==> r == ReapplyStart::Prepare(snapshot->0.current_source->0),
{
    match snapshot {
        Some(snapshot) => match &snapshot.current_source {
            Some(source) => {
                if *snapshot.state.as_str() == *"Stopped" {
                    return ReapplyStart::Finish(
                        ReconfigureReport {
                            status: "saved",
                            configured_render_signature: snapshot.configured_render_signature.clone(),
                            render_ms: snapshot.last_render_ms,
                            prepare_ms: snapshot.last_prepare_ms,
                            cache_hit: snapshot.last_cache_hit,
                        },
                    );
                }
                ReapplyStart::Prepare(source.clone())
            },
            None => ReapplyStart::Finish(bare("saved")),
        },
        None => ReapplyStart::Finish(bare("saved")),
    }
}

/// The step after an asset was prepared with the new settings.
pub enum ReapplyStep {
    /// Newer settings came in: they take care of everything.
    Superseded,
    Finish(ReconfigureReport),
    /// Play the asset, and go on where playback stands.
    Switch { resume_position: Real64 },
}

/// The step after an asset was prepared with the new settings. Nothing is
/// switched when newer settings, another command or another track came in
/// between, or when the renderer already plays what was prepared.
pub fn apply_pending_upnp_config_reapply(
    reconfigure_generation_matches: bool,
    command_generation_matches: bool,
    current: Option<&UpnpZoneSnapshot>,
    source_ref: &SourceRef,
    asset: &UpnpAsset,
) -> (r: ReapplyStep)
    ensures
        !reconfigure_generation_matches ==> r is Superseded,
        reconfigure_generation_matches && current is None ==> r is Finish && asset_report(
            r->Finish_0,
            "saved"@,
            *asset,
        ),
        reconfigure_generation_matches && current is Some && (!command_generation_matches
            || !same_track(current->0.current_source, *source_ref)) ==> r is Finish
            && asset_report(r->Finish_0, "stale"@, *asset),
        reconfigure_generation_matches && current is Some && command_generation_matches
            && same_track(current->0.current_source, *source_ref) && text::opt_text(
            current->0.active_render_signature,
        ) == text::opt_text(asset.render_signature) ==> r is Finish && asset_report(
            r->Finish_0,
            "applied"@,
            *asset,
        ),
        reconfigure_generation_matches && current is Some && command_generation_matches
            && same_track(current->0.current_source, *source_ref) && text::opt_text(
            current->0.active_render_signature,
        ) != text::opt_text(asset.render_signature) ==> r == (ReapplyStep::Switch {
            resume_position: current->0.position_secs,
        }),
{
    if !reconfigure_generation_matches {
        return ReapplyStep::Superseded;
    }
    let current = match current {
        Some(current) => current,
        None => return ReapplyStep::Finish(report_asset("saved", asset)),
    };
    let playing = match &current.current_source {
        Some(source) => Some(source),
        None => None,
    };
    if !command_generation_matches || !is_same_track(playing, source_ref) {
        return ReapplyStep::Finish(report_asset("stale", asset));
    }
    if text::opt_eq(&current.active_render_signature, &asset.render_signature) {
        return ReapplyStep::Finish(report_asset("applied", asset));
    }
    ReapplyStep::Switch { resume_position: current.position_secs }
}

/// What follows from switching to the prepared asset.
pub struct ReapplyEnd {
    /// Seek here first.
    pub seek_to: Option<Real64>,
    pub report: ReconfigureReport,
}

/// What follows from switching to the prepared asset: playback goes on where
/// it stood, unless that was within the first second.
pub fn after_config_switch(played: Result<(), String>, resume_position: Real64) -> (r: Result<
    ReapplyEnd,
    PlaybackError,
>)
    ensures
        played is Ok ==> r is Ok && bare_report(r->Ok_0.report, "applied"@) && r->Ok_0.seek_to == (
        if resume_position.spec_finite() && resume_position.spec_above_one() {
            Some(resume_position)
        } else {
            None
        }),
        played is Err && played->Err_0@ == "Playback changed"@ ==> r is Ok && bare_report(
            r->Ok_0.report,
            "stale"@,
        ) && r->Ok_0.seek_to is None,
        played is Err && played->Err_0@ != "Playback changed"@ ==> r is Err && r->Err_0.is(
            ErrorKind::Integration,
            played->Err_0@,
        ),
{
    match played {
        Ok(()) => Ok(
            ReapplyEnd {
                seek_to: if resume_position.is_finite() && resume_position.is_above_one() {
                    Some(resume_position)
                } else {
                    None
                },
                report: bare("applied"),
            },
        ),
        Err(error) => {
            if *error.as_str() == *"Playback changed" {
                return Ok(ReapplyEnd { seek_to: None, report: bare("stale") });
            }
            Err(PlaybackError::Integration(error))
        },
    }
}

/// Writes the rendered signal path of a decision into an asset. A source that
/// is served as it is keeps its own.
pub fn apply_rendered_signal_path_to_asset(asset: &mut UpnpAsset, decision: &UpnpDspDecision)
    ensures
        decision.render_ms is None ==> *final(asset) == *old(asset),
        decision.render_ms is Some ==> *final(asset) == (UpnpAsset {
            source_rate: decision.source_rate,
            source_bits: decision.source_bits,
            target_rate: decision.output_rate,
            target_bits: decision.output_bits,
            active_output_mode: Some(decision.active_output_mode),
            ..*old(asset)
        }),
{
    if decision.render_ms.is_none() {
        return;
    }
    asset.source_rate = decision.source_rate;
    asset.source_bits = decision.source_bits;
    asset.target_rate = decision.output_rate;
    asset.target_bits = decision.output_bits;
    asset.active_output_mode = Some(decision.active_output_mode.clone());
}

/// The reference and the format of what a renderer is given.
pub open spec fn spec_source_format(source: UpnpSource) -> (SourceRef, u32, u32) {
    match source {
        UpnpSource::LocalFile { source_ref, source_rate, source_bits, .. } => (
            source_ref,
            source_rate,
            source_bits,
        ),
        UpnpSource::RemoteStream { source_ref, source_rate, source_bits, .. } => (
            source_ref,
            source_rate,
            source_bits,
        ),
        UpnpSource::GeneratedDspStream { source_ref, source_rate, source_bits, .. } => (
            source_ref,
            source_rate,
            source_bits,
        ),
    }
}

/// The signature of a plan for a source of known format.
pub open spec fn spec_planned_signature(
    source: SourceRef,
    rate: u32,
    bits: u32,
    config: UpnpDspRenderConfig,
) -> Seq<char> {
    let shape = plan::plan_shape(config, rate, bits);
    digest::fingerprint_text(
        plan::signature_preimage(
            source.spec_key(),
            rate,
            bits,
            shape.output_rate,
            shape.output_bits,
            shape.container,
            config,
        ),
    )
}

/// The signature of what a renderer is given when nothing was rendered.
pub fn source_render_signature(source: &UpnpSource, config: &UpnpDspRenderConfig) -> (r: String)
    ensures
        r@ == spec_planned_signature(
            spec_source_format(*source).0,
            spec_source_format(*source).1,
            spec_source_format(*source).2,
            *config,
        ),
{
    match source {
        UpnpSource::LocalFile { source_ref, source_rate, source_bits, .. } =>
            plan::passthrough_render_signature(source_ref, *source_rate, *source_bits, config),
        UpnpSource::RemoteStream { source_ref, source_rate, source_bits, .. } =>
            plan::passthrough_render_signature(source_ref, *source_rate, *source_bits, config),
        UpnpSource::GeneratedDspStream { source_ref, source_rate, source_bits, .. } =>
            plan::passthrough_render_signature(source_ref, *source_rate, *source_bits, config),
    }
}

/// The signature that an asset carries: that of the render, or that of the
/// plan for the source as it is.
pub fn asset_render_signature(
    decision: &UpnpDspDecision,
    source: &UpnpSource,
    config: &UpnpDspRenderConfig,
) -> (r: String)
    ensures
        r@ == (if decision.render_ms is Some {
            decision.render_signature@
        } else {
            spec_planned_signature(
                spec_source_format(*source).0,
                spec_source_format(*source).1,
                spec_source_format(*source).2,
                *config,
            )
        }),
{
    if decision.render_ms.is_some() {
        decision.render_signature.clone()
    } else {
        source_render_signature(source, config)
    }
}

/// A prepared asset with what was decided for it.
pub open spec fn spec_finished(
    asset: UpnpAsset,
    decision: UpnpDspDecision,
    render_signature: String,
    prepare_ms: u64,
) -> UpnpAsset {
    UpnpAsset {
        source_rate: if decision.render_ms is Some {
            decision.source_rate
        } else {
            asset.source_rate
        },
        source_bits: if decision.render_ms is Some {
            decision.source_bits
        } else {
            asset.source_bits
        },
        target_rate: if decision.render_ms is Some {
            decision.output_rate
        } else {
            asset.target_rate
        },
        target_bits: if decision.render_ms is Some {
            decision.output_bits
        } else {
            asset.target_bits
        },
        active_output_mode: Some(decision.active_output_mode),
        render_signature: Some(render_signature),
        configured_render_signature: Some(render_signature),
        render_ms: decision.render_ms,
        prepare_ms: Some(prepare_ms),
        cache_hit: decision.cache_hit,
        render_or_stream_plan: decision.render_or_stream_plan,
        cache_lookup_ms: decision.cache_lookup_ms,
        cache_wait_ms: decision.cache_wait_ms,
        ..asset
    }
}

/// Writes a decision and its signature into a registered asset.
pub fn finish_upnp_asset(
    asset: &mut UpnpAsset,
    decision: &UpnpDspDecision,
    render_signature: String,
    prepare_ms: u64,
)
    ensures
        *final(asset) == spec_finished(*old(asset), *decision, render_signature, prepare_ms),
{
    apply_rendered_signal_path_to_asset(asset, decision);
    asset.active_output_mode = Some(decision.active_output_mode.clone());
    asset.render_signature = Some(render_signature.clone());
    asset.configured_render_signature = Some(render_signature);
    asset.render_ms = decision.render_ms;
    asset.prepare_ms = Some(prepare_ms);
    asset.cache_hit = decision.cache_hit;
    asset.render_or_stream_plan = decision.render_or_stream_plan.clone();
    asset.cache_lookup_ms = decision.cache_lookup_ms;
    asset.cache_wait_ms = decision.cache_wait_ms;
}

/// A positive number of the library as a format field, at most the largest
/// that fits.
pub open spec fn spec_format_field(value: Option<i64>) -> u32 {
    match value {
        Some(v) => if v <= 0 {
            0
        } else if v <= u32::MAX {
            v as u32
        } else {
            u32::MAX
        },
        None => 0,
    }
}

/// A positive number of the library as a format field, at most the largest
/// that fits.
pub fn positive_i64_as_u32(value: Option<i64>) -> (r: Option<u32>)
    ensures
        r is Some <==> value is Some && value->0 > 0,
        r is Some ==> r->0 == spec_format_field(value),
{
    match value {
        Some(value) => {
            if value <= 0 {
                None
            } else if value <= 0xffff_ffff {
                Some(value as u32)
            } else {
                Some(0xffff_ffff)
            }
        },
        None => None,
    }
}

/// A local file as it is: with the format that the library knows.
pub fn local_upnp_source(
    source_ref: &SourceRef,
    path: String,
    byte_len: Option<u64>,
    sample_rate: Option<i64>,
    bit_depth: Option<i64>,
) -> (r: UpnpSource)
    ensures
        r == (UpnpSource::LocalFile {
            source_ref: *source_ref,
            path,
            tags: render::spec_file_tags(*source_ref),
            cover: None,
            byte_len,
            source_rate: spec_format_field(sample_rate),
            source_bits: spec_format_field(bit_depth),
        }),
{
    UpnpSource::LocalFile {
        source_ref: source_ref.clone(),
        path,
        tags: render::file_tags(source_ref),
        cover: None,
        byte_len,
        source_rate: positive_i64_as_u32(sample_rate).unwrap_or(0),
        source_bits: positive_i64_as_u32(bit_depth).unwrap_or(0),
    }
}

/// The id under which a stream of the service is registered.
pub open spec fn spec_stream_asset_id(track_id: u64, format_id: u32) -> Seq<char> {
    "qobuz-"@ + text::decimal(track_id as nat) + "-"@ + text::decimal(format_id as nat)
}

/// The id under which a stream of the service is registered.
pub fn upnp_qobuz_asset_id(track_id: u64, format_id: u32) -> (r: String)
    ensures
        r@ == spec_stream_asset_id(track_id, format_id),
{
    let mut id = "qobuz-".to_string();
    text::push_decimal(&mut id, track_id);
    id.append("-");
    text::push_decimal(&mut id, format_id as u64);
    id
}

/// The address of a registered stream: all of it is path, so that renderers
/// which mangle queries can use it.
pub open spec fn spec_stream_url(
    base: Seq<char>,
    asset_id: Seq<char>,
    token: Seq<char>,
    track_id: u64,
) -> Seq<char> {
    text::without_trailing(base, '/') + "/upnp/qobuz/"@ + digest::percent_text(asset_id) + "/"@
        + digest::percent_text(token) + "/"@ + text::decimal(track_id as nat)
}

/// The address of a registered stream.
pub fn upnp_qobuz_stream_url(public_base_url: &str, asset_id: &str, token: &str, track_id: u64)
    -> (r: String)
    ensures
        r@ == spec_stream_url(public_base_url@, asset_id@, token@, track_id),
{
    let mut url = text::trim_end_char(public_base_url, '/');
    url.append("/upnp/qobuz/");
    url.append(digest::percent_encode(asset_id).as_str());
    url.append("/");
    url.append(digest::percent_encode(token).as_str());
    url.append("/");
    text::push_decimal(&mut url, track_id);
    url
}

/// A stream as the service resolved it.
pub struct ResolvedStream {
    pub format_id: u32,
    pub mime_type: String,
    pub byte_len: Option<u64>,
    pub sample_rate_hz: u32,
    pub bit_depth: u32,
}

/// A stream of the service as it is, under the address it is registered for.
pub fn remote_upnp_source(
    source_ref: &SourceRef,
    track_id: u64,
    stream: ResolvedStream,
    public_base_url: &str,
    token: &str,
    qobuz_resolve_ms: u64,
    asset_registration_ms: u64,
) -> (r: UpnpSource)
    requires
        source_ref.spec_qobuz_track_id() == Some(track_id),
    ensures
        r is RemoteStream,
        r == (UpnpSource::RemoteStream {
            id: r->RemoteStream_id,
            source_ref: *source_ref,
            stream_url: r->RemoteStream_stream_url,
            mime_type: stream.mime_type,
            byte_len: stream.byte_len,
            art_url: None,
            tags: layout::spec_tags(*source_ref),
            source_rate: stream.sample_rate_hz,
            source_bits: stream.bit_depth,
            qobuz_resolve_ms: Some(qobuz_resolve_ms),
            asset_registration_ms: Some(asset_registration_ms),
        }),
        r->RemoteStream_id@ == spec_stream_asset_id(track_id, stream.format_id),
        r->RemoteStream_stream_url@ == spec_stream_url(
            public_base_url@,
            spec_stream_asset_id(track_id, stream.format_id),
            token@,
            track_id,
        ),
{
    let id = upnp_qobuz_asset_id(track_id, stream.format_id);
    let stream_url = upnp_qobuz_stream_url(public_base_url, id.as_str(), token, track_id);
    UpnpSource::RemoteStream {
        id,
        source_ref: source_ref.clone(),
        stream_url,
        mime_type: stream.mime_type,
        byte_len: stream.byte_len,
        art_url: None,
        tags: layout::tags_for_source_ref(source_ref),
        source_rate: stream.sample_rate_hz,
        source_bits: stream.bit_depth,
        qobuz_resolve_ms: Some(qobuz_resolve_ms),
        asset_registration_ms: Some(asset_registration_ms),
    }
}

/// What a renderer is given for a source that is not rendered.
pub enum UpnpSourceLookup {
    /// The file of a library track.
    File { track_id: i64 },
    /// A stream of the service in the given format.
    Stream { track_id: u64, format_id: u32 },
}

/// What has to be looked up for a source that is not rendered.
pub fn upnp_source_from_ref(
    source_ref: &SourceRef,
    target: &crate::playback::upnp_target::UpnpRendererTarget,
    hires_enabled: Option<bool>,
) -> (r: UpnpSourceLookup)
    ensures
        match *source_ref {
            SourceRef::LocalTrack { track_id, .. } => r == (UpnpSourceLookup::File { track_id }),
            SourceRef::QobuzTrack { track_id, .. } => r == (UpnpSourceLookup::Stream {
                track_id,
                format_id: crate::playback::upnp_target::spec_qobuz_format_id(
                    *target,
                    hires_enabled.unwrap_or(false),
                ),
            }),
        },
{
    match source_ref {
        SourceRef::LocalTrack { track_id, .. } => UpnpSourceLookup::File { track_id: *track_id },
        SourceRef::QobuzTrack { track_id, .. } => UpnpSourceLookup::Stream {
            track_id: *track_id,
            format_id: crate::playback::upnp_target::qobuz_format_id_for_upnp_target(
                target,
                hires_enabled.unwrap_or(false),
            ),
        },
    }
}

/// Two sources are the same track when they have the same number at the same
/// origin.
pub proof fn law_same_track_has_same_number(a: SourceRef, b: SourceRef)
    ensures
        same_track(Some(a), b) <==> a.spec_local_track_id() == b.spec_local_track_id()
            && a.spec_qobuz_track_id() == b.spec_qobuz_track_id(),
        !same_track(None, b),
{
    crate::protocol::source::law_key_identifies_track(a, b);
}

/// A play that is still current goes from preparing to sending to recording;
/// one that is not is discarded, and so is one that was prepared for another
/// generation.
pub proof fn law_current_plays_go_on(stage: UpnpPlayStage, generation_matches: bool)
    ensures
        spec_play_step(stage, false, generation_matches) is Discard,
        spec_play_step(UpnpPlayStage::Resolved, true, generation_matches) is Prepare,
        spec_play_step(UpnpPlayStage::Prepared, true, true) is Send,
        spec_play_step(UpnpPlayStage::Prepared, true, false) is Discard,
        spec_play_step(UpnpPlayStage::Sent, true, generation_matches) is Record,
{
}

/// Only the head of the queue is the queued next source.
pub proof fn law_only_the_head_is_next(queue: Seq<SourceRef>, source: SourceRef)
    ensures
        spec_next_matches(seq![source] + queue, source),
        queue.len() > 0 && queue[0].spec_key() != source.spec_key() ==> !spec_next_matches(
            queue,
            source,
        ),
        queue.len() == 0 ==> !spec_next_matches(queue, source),
{
}

/// A source is prepared ahead unless it had to be next and is not, or playback
/// has moved on.
pub proof fn law_prewarming_follows_playback(
    require_queued_next: bool,
    next_matches: bool,
    expected: SourceRef,
    active: Option<SourceRef>,
)
    ensures
        spec_prewarm_refusal(require_queued_next, true, true, None, active) is None,
        spec_prewarm_refusal(false, next_matches, true, None, active) is None,
        spec_prewarm_refusal(true, false, true, None, active) is Some,
        spec_prewarm_refusal(require_queued_next, next_matches, false, None, active) is Some,
        spec_prewarm_refusal(false, next_matches, true, Some(expected), active) is None
            <==> same_track(active, expected),
{
}

/// A changed configuration is applied to what plays; what is stopped only keeps
/// it.
pub proof fn law_changed_configuration_reaches_what_plays(
    snapshot: UpnpZoneSnapshot,
    r: ReapplyStart,
)
    requires
        call_ensures(begin_config_reapply, (Some(&snapshot),), r),
    ensures
        snapshot.current_source is Some && snapshot.state@ != "Stopped"@ ==> r
            == ReapplyStart::Prepare(snapshot.current_source->0),
        snapshot.current_source is None || snapshot.state@ == "Stopped"@ ==> r is Finish
            && r->Finish_0.status@ == "saved"@,
        snapshot.current_source is Some && snapshot.state@ == "Stopped"@ ==> {
            &&& r->Finish_0.configured_render_signature == snapshot.configured_render_signature
            &&& r->Finish_0.render_ms == snapshot.last_render_ms
            &&& r->Finish_0.prepare_ms == snapshot.last_prepare_ms
            &&& r->Finish_0.cache_hit == snapshot.last_cache_hit
        },
{
}

/// What plays is switched to the new render at its present position, unless it
/// is that render already, or something else plays by now.
pub proof fn law_switch_resumes_at_position(
    current: UpnpZoneSnapshot,
    source: SourceRef,
    asset: UpnpAsset,
    command_generation_matches: bool,
    r: ReapplyStep,
)
    requires
        call_ensures(
            apply_pending_upnp_config_reapply,
            (true, command_generation_matches, Some(&current), &source, &asset),
            r,
        ),
    ensures
        r matches ReapplyStep::Switch { resume_position } ==> resume_position
            == current.position_secs && command_generation_matches && current.current_source is Some
            && current.current_source->0.spec_key() == source.spec_key() && text::opt_text(
            current.active_render_signature,
        ) != text::opt_text(asset.render_signature),
        command_generation_matches && current.current_source == Some(source) && text::opt_text(
            current.active_render_signature,
        ) != text::opt_text(asset.render_signature) ==> r is Switch,
        command_generation_matches && current.current_source == Some(source) && text::opt_text(
            current.active_render_signature,
        ) == text::opt_text(asset.render_signature) ==> r is Finish && r->Finish_0.status@
            == "applied"@ && r->Finish_0.render_ms == asset.render_ms && r->Finish_0.prepare_ms
            == asset.prepare_ms && r->Finish_0.cache_hit == asset.cache_hit,
        !command_generation_matches ==> r is Finish && r->Finish_0.status@ == "stale"@,
{
}

/// After a switch playback is moved to where it was, when it was more than a
/// second in.
pub proof fn law_switched_playback_is_moved(
    resume_position: Real64,
    r: Result<ReapplyEnd, PlaybackError>,
)
    requires
        call_ensures(after_config_switch, (Ok::<(), String>(()), resume_position), r),
    ensures
        r is Ok,
        r->Ok_0.report.status@ == "applied"@,
        r->Ok_0.seek_to is Some <==> 0x3ff0_0000_0000_0000 < resume_position.bits
            < 0x7ff0_0000_0000_0000,
        r->Ok_0.seek_to is Some ==> r->Ok_0.seek_to->0 == resume_position,
{
    assert(resume_position.bits < 0x7ff0_0000_0000_0000 ==> resume_position.bits
        / 0x10_0000_0000_0000 < 2047);
}

/// A seek falls back to a completed render only for a stream that is generated
/// while it plays, and then for the source that plays.
pub proof fn law_seek_falls_back_for_generated_streams(
    needs_fallback: bool,
    current_plan: Option<&str>,
    current_source: Option<SourceRef>,
    r: Option<SourceRef>,
)
    requires
        call_ensures(
            seek_upnp_with_dsp_fallback,
            (needs_fallback, current_plan, current_source),
            r,
        ),
    ensures
        r is Some ==> needs_fallback && r == current_source && current_plan is Some
            && current_plan->0@ == "progressive_wav_stream"@,
        needs_fallback && current_plan is Some && current_plan->0@ == "progressive_wav_stream"@
            ==> r == current_source,
{
}

/// What is prepared for a source is signed like the plan for it.
pub proof fn law_prepared_source_is_signed_like_its_plan(
    source: SourceRef,
    rate: u32,
    bits: u32,
    config: UpnpDspRenderConfig,
    planned: plan::UpnpRenderPlan,
)
    requires
        call_ensures(plan::render_plan_for_source, (&config, &source, rate, bits), planned),
    ensures
        spec_planned_signature(source, rate, bits, config) == planned.signature@,
{
}

/// A source's format is that of the source itself, not of what is made of it.
pub proof fn law_source_format_is_the_sources_own(source: UpnpSource)
    ensures
        source matches UpnpSource::LocalFile { source_ref, source_rate, source_bits, .. }
            ==> spec_source_format(source) == (source_ref, source_rate, source_bits),
        source matches UpnpSource::RemoteStream { source_ref, source_rate, source_bits, .. }
            ==> spec_source_format(source) == (source_ref, source_rate, source_bits),
        source matches UpnpSource::GeneratedDspStream { source_ref, source_rate, source_bits, .. }
            ==> spec_source_format(source) == (source_ref, source_rate, source_bits),
{
}

/// A finished asset carries what was decided for it, each in its own place:
/// the format where something was rendered, the signature, the plan and how
/// long everything took.
pub proof fn law_finished_asset_carries_decision(
    asset: UpnpAsset,
    decision: UpnpDspDecision,
    render_signature: String,
    prepare_ms: u64,
)
    ensures
        ({
            let r = spec_finished(asset, decision, render_signature, prepare_ms);
            &&& decision.render_ms is Some ==> {
                &&& r.source_rate == decision.source_rate
                &&& r.source_bits == decision.source_bits
                &&& r.target_rate == decision.output_rate
                &&& r.target_bits == decision.output_bits
            }
            &&& decision.render_ms is None ==> {
                &&& r.source_rate == asset.source_rate
                &&& r.source_bits == asset.source_bits
                &&& r.target_rate == asset.target_rate
                &&& r.target_bits == asset.target_bits
            }
            &&& r.active_output_mode == Some(decision.active_output_mode)
            &&& r.render_signature == Some(render_signature)
            &&& r.configured_render_signature == Some(render_signature)
            &&& r.render_ms == decision.render_ms
            &&& r.prepare_ms == Some(prepare_ms)
            &&& r.cache_hit == decision.cache_hit
            &&& r.render_or_stream_plan == decision.render_or_stream_plan
            &&& r.cache_lookup_ms == decision.cache_lookup_ms
            &&& r.cache_wait_ms == decision.cache_wait_ms
            &&& r.id == asset.id
            &&& r.source_ref == asset.source_ref
            &&& r.stream_url == asset.stream_url
            &&& r.mime_type == asset.mime_type
            &&& r.byte_len == asset.byte_len
            &&& r.art_url == asset.art_url
            &&& r.title == asset.title
            &&& r.artist == asset.artist
            &&& r.album == asset.album
            &&& r.duration_secs == asset.duration_secs
            &&& r.qobuz_resolve_ms == asset.qobuz_resolve_ms
            &&& r.asset_registration_ms == asset.asset_registration_ms
        }),
{
}

/// Rates and depths of the library that are positive and fit are taken as they
/// are; greater ones count as the greatest, others as unknown.
pub proof fn law_format_fields_are_kept(value: i64)
    ensures
        0 < value <= 0xffff_ffff ==> spec_format_field(Some(value)) == value,
        value > 0xffff_ffff ==> spec_format_field(Some(value)) == 0xffff_ffff,
        value <= 0 ==> spec_format_field(Some(value)) == 0,
        spec_format_field(None) == 0,
{
}

/// A file of the library is served from its path, with its source's tags and
/// its own rate and depth.
pub proof fn law_library_file_is_served(
    source: SourceRef,
    path: String,
    byte_len: Option<u64>,
    sample_rate: i64,
    bit_depth: i64,
    r: UpnpSource,
)
    requires
        0 < sample_rate <= 0xffff_ffff,
        0 < bit_depth <= 0xffff_ffff,
        call_ensures(
            local_upnp_source,
            (&source, path, byte_len, Some(sample_rate), Some(bit_depth)),
            r,
        ),
    ensures
        match r {
            UpnpSource::LocalFile {
                source_ref,
                path: from,
                tags,
                byte_len: len,
                source_rate,
                source_bits,
                ..
            } => {
                &&& source_ref == source
                &&& from == path
                &&& len == byte_len
                &&& source_rate == sample_rate
                &&& source_bits == bit_depth
                &&& tags.title == layout::spec_tags(source).title
                &&& tags.artist == layout::spec_tags(source).artist
                &&& tags.album == layout::spec_tags(source).album
                &&& tags.duration_secs == layout::spec_tags(source).duration_secs
            },
            _ => false,
        },
{
}

/// A stream of the service is served with its source's tags, in the format and
/// at the length that the service named.
pub proof fn law_service_stream_is_served(
    source: SourceRef,
    track_id: u64,
    stream: ResolvedStream,
    public_base_url: &str,
    token: &str,
    qobuz_resolve_ms: u64,
    asset_registration_ms: u64,
    r: UpnpSource,
)
    requires
        source.spec_qobuz_track_id() == Some(track_id),
        call_ensures(
            remote_upnp_source,
            (
                &source,
                track_id,
                stream,
                public_base_url,
                token,
                qobuz_resolve_ms,
                asset_registration_ms,
            ),
            r,
        ),
    ensures
        match r {
            UpnpSource::RemoteStream {
                source_ref,
                mime_type,
                byte_len,
                tags,
                source_rate,
                source_bits,
                qobuz_resolve_ms: resolved,
                asset_registration_ms: registered,
                ..
            } => {
                &&& source_ref == source
                &&& mime_type == stream.mime_type
                &&& byte_len == stream.byte_len
                &&& source_rate == stream.sample_rate_hz
                &&& source_bits == stream.bit_depth
                &&& tags.title == source->QobuzTrack_title
                &&& tags.artist == source->QobuzTrack_artist
                &&& tags.album == source->QobuzTrack_album
                &&& tags.duration_secs == source->QobuzTrack_duration_secs
                &&& resolved == Some(qobuz_resolve_ms)
                &&& registered == Some(asset_registration_ms)
            },
            _ => false,
        },
{
}

/// Different tracks, and one track in different formats, are different assets
/// at different addresses; slashes at the end of the server's address do not
/// matter.
pub proof fn law_assets_have_addresses_of_their_own(
    base: Seq<char>,
    asset_id: Seq<char>,
    token: Seq<char>,
    track: u64,
    other_track: u64,
    format: u32,
    other_format: u32,
)
    ensures
        track != other_track ==> spec_stream_asset_id(track, format) != spec_stream_asset_id(
            other_track,
            format,
        ),
        format != other_format ==> spec_stream_asset_id(track, format) != spec_stream_asset_id(
            track,
            other_format,
        ),
        track != other_track ==> spec_stream_url(base, asset_id, token, track) != spec_stream_url(
            base,
            asset_id,
            token,
            other_track,
        ),
        spec_stream_url(base.push('/'), asset_id, token, track) == spec_stream_url(
            base,
            asset_id,
            token,
            track,
        ),
{
    let (ta, tb) = (text::decimal(track as nat), text::decimal(other_track as nat));
    let (fa, fb) = (text::decimal(format as nat), text::decimal(other_format as nat));
    let none = Seq::<char>::empty();
    assert(base.push('/').drop_last() =~= base);
    if track != other_track {
        let after = "-"@ + fa;
        assert(spec_stream_asset_id(track, format) =~= "qobuz-"@ + ta + after);
        assert(spec_stream_asset_id(other_track, format) =~= "qobuz-"@ + tb + after);
        let before = text::without_trailing(base, '/') + "/upnp/qobuz/"@ + digest::percent_text(
            asset_id,
        ) + "/"@ + digest::percent_text(token) + "/"@;
        assert(spec_stream_url(base, asset_id, token, track) =~= before + ta + none);
        assert(spec_stream_url(base, asset_id, token, other_track) =~= before + tb + none);
        if spec_stream_asset_id(track, format) == spec_stream_asset_id(other_track, format) {
            crate::bytes::law_middle_cancels("qobuz-"@, ta, tb, after);
            text::lemma_decimal_injective(track as nat, other_track as nat);
        }
        if spec_stream_url(base, asset_id, token, track) == spec_stream_url(
            base,
            asset_id,
            token,
            other_track,
        ) {
            crate::bytes::law_middle_cancels(before, ta, tb, none);
            text::lemma_decimal_injective(track as nat, other_track as nat);
        }
    }
    if format != other_format {
        let before = "qobuz-"@ + ta + "-"@;
        assert(spec_stream_asset_id(track, format) =~= before + fa + none);
        assert(spec_stream_asset_id(track, other_format) =~= before + fb + none);
        if spec_stream_asset_id(track, format) == spec_stream_asset_id(track, other_format) {
            crate::bytes::law_middle_cancels(before, fa, fb, none);
            text::lemma_decimal_injective(format as nat, other_format as nat);
        }
    }
}

/// A refused handoff leaves the player to go on by itself, unless playback has
/// changed.
pub proof fn law_refused_handoff_is_no_failure(
    error: String,
    r: Result<Option<String>, PlaybackError>,
)
    requires
        call_ensures(after_next_handoff, (Err::<(), String>(error),), r),
    ensures
        r is Err <==> error@ == "Playback changed"@,
        r is Ok ==> r->Ok_0 is Some,
{
}

/// Only renderers are reconfigured.
pub proof fn law_only_renderers_are_reconfigured(protocol: Option<SinkProtocol>, r: bool)
    requires
        call_ensures(enqueue_upnp_config_reapply_for_zone, (protocol,), r),
    ensures
        r <==> protocol is Some && protocol->0 is UpnpAvRenderer,
{
}

/// A source is looked up where it is from: a file by its number, a stream by
/// its track in the format that the renderer takes.
pub proof fn law_sources_are_looked_up_where_they_are(
    source: SourceRef,
    target: crate::playback::upnp_target::UpnpRendererTarget,
    r: UpnpSourceLookup,
)
    requires
        call_ensures(upnp_source_from_ref, (&source, &target, None::<bool>), r),
    ensures
        source matches SourceRef::LocalTrack { track_id: asked, .. } ==> r == (
        UpnpSourceLookup::File { track_id: asked }),
        source matches SourceRef::QobuzTrack { track_id: asked, .. } ==> r == (
        UpnpSourceLookup::Stream { track_id: asked, format_id: 6 }),
{
}

/// The signature of an asset is that of its decision where something was
/// rendered, and that of its plan otherwise.
pub proof fn law_asset_is_signed_as_decided(
    decision: UpnpDspDecision,
    source: UpnpSource,
    config: UpnpDspRenderConfig,
    r: String,
)
    requires
        call_ensures(asset_render_signature, (&decision, &source, &config), r),
    ensures
        decision.render_ms is Some ==> r@ == decision.render_signature@,
        decision.render_ms is None ==> (source matches UpnpSource::LocalFile {
            source_ref,
            source_rate,
            source_bits,
            ..
        } ==> r@ == spec_planned_signature(source_ref, source_rate, source_bits, config)),
{
}

/// Each refusal of a play says when it came.
pub proof fn law_discarded_plays_say_when(generation_matches: bool)
    ensures
        spec_discard_reason(UpnpPlayStage::Resolved, generation_matches) == "before_upnp_prepare"@,
        spec_discard_reason(UpnpPlayStage::Prepared, true) == "after_upnp_prepare"@,
        spec_discard_reason(UpnpPlayStage::Prepared, false) == "after_upnp_prepare_generation"@,
        spec_discard_reason(UpnpPlayStage::Sent, generation_matches) == "after_upnp_play"@,
{
}

} // verus!
