//! Renderer targets: what is stored of a renderer, what discovery reports,
//! and how the two are combined for playback.

use crate::protocol::sink::UpnpPcmContainerCapability;
use crate::protocol::zone::{
    CapabilityDetectionSource, CapabilityDetectionStatus, ZoneUpnpCapabilities,
};
use crate::text;
use vstd::prelude::*;
use vstd::string::*;

verus! {

/// A renderer: its identity, endpoint and capabilities.
#[derive(Debug)]
pub struct UpnpRendererTarget {
    pub id: String,
    pub name: String,
    pub host: String,
    pub port: u16,
    pub model: Option<String>,
    pub manufacturer: Option<String>,
    pub av_transport_control_url: String,
    pub rendering_control_url: Option<String>,
    pub connection_manager_url: Option<String>,
    pub max_sample_rate: u32,
    pub max_bit_depth: u8,
    pub max_dsd_rate: Option<u16>,
    pub capability_detection_source: CapabilityDetectionSource,
    pub capability_detection_status: CapabilityDetectionStatus,
    pub capability_detection_message: Option<String>,
    pub protocol_info: Vec<String>,
    pub pcm_containers: Vec<UpnpPcmContainerCapability>,
}

impl UpnpRendererTarget {
    /// Equality up to the storage of the lists.
    pub open spec fn same_as(self, other: UpnpRendererTarget) -> bool {
        &&& self.id == other.id
        &&& self.name == other.name
        &&& self.host == other.host
        &&& self.port == other.port
        &&& self.model == other.model
        &&& self.manufacturer == other.manufacturer
        &&& self.av_transport_control_url == other.av_transport_control_url
        &&& self.rendering_control_url == other.rendering_control_url
        &&& self.connection_manager_url == other.connection_manager_url
        &&& self.max_sample_rate == other.max_sample_rate
        &&& self.max_bit_depth == other.max_bit_depth
        &&& self.max_dsd_rate == other.max_dsd_rate
        &&& self.capability_detection_source == other.capability_detection_source
        &&& self.capability_detection_status == other.capability_detection_status
        &&& self.capability_detection_message == other.capability_detection_message
        &&& self.protocol_info@ == other.protocol_info@
        &&& self.pcm_containers@ == other.pcm_containers@
    }
}

impl Clone for UpnpRendererTarget {
    fn clone(&self) -> (r: UpnpRendererTarget)
        ensures
            r.same_as(*self),
    {
        let r = UpnpRendererTarget {
            id: self.id.clone(),
            name: self.name.clone(),
            host: self.host.clone(),
            port: self.port,
            model: self.model.clone(),
            manufacturer: self.manufacturer.clone(),
            av_transport_control_url: self.av_transport_control_url.clone(),
            rendering_control_url: self.rendering_control_url.clone(),
            connection_manager_url: self.connection_manager_url.clone(),
            max_sample_rate: self.max_sample_rate,
            max_bit_depth: self.max_bit_depth,
            max_dsd_rate: self.max_dsd_rate,
            capability_detection_source: self.capability_detection_source,
            capability_detection_status: self.capability_detection_status,
            capability_detection_message: self.capability_detection_message.clone(),
            protocol_info: self.protocol_info.clone(),
            pcm_containers: self.pcm_containers.clone(),
        };
        proof {
            assert(r.protocol_info@ =~= self.protocol_info@);
            assert(r.pcm_containers@ =~= self.pcm_containers@);
        }
        r
    }
}

/// A renderer that discovery reports.
#[derive(Debug)]
pub struct UpnpRenderer {
    pub target: UpnpRendererTarget,
    pub online: bool,
}

/// How a discovered renderer relates to the stored one of the same id.
#[derive(Clone, Copy, Debug, PartialEq, Eq, Structural)]
pub enum UpnpTargetRefreshKind {
    SameOrigin,
    VerifiedEndpointMove,
    UnverifiedEndpointMove,
    IdentityCollision,
}

/// One origin is one host and port. On the same host, another port counts as
/// a verified move when the renderer still gives the same name, model and
/// manufacturer. Another host is another device.
pub open spec fn spec_refresh_kind(
    stored: UpnpRendererTarget,
    live: UpnpRendererTarget,
) -> UpnpTargetRefreshKind {
    if stored.host@ != live.host@ {
        UpnpTargetRefreshKind::IdentityCollision
    } else if stored.port == live.port {
        UpnpTargetRefreshKind::SameOrigin
    } else if stored.name@ == live.name@ && text::opt_text(stored.model) == text::opt_text(
        live.model,
    ) && text::opt_text(stored.manufacturer) == text::opt_text(live.manufacturer) {
        UpnpTargetRefreshKind::VerifiedEndpointMove
    } else {
        UpnpTargetRefreshKind::UnverifiedEndpointMove
    }
}

/// How the discovered renderer `live` relates to `stored`.
pub fn classify_upnp_target_refresh(
    stored: &UpnpRendererTarget,
    live: &UpnpRendererTarget,
) -> (r: UpnpTargetRefreshKind)
    ensures
        r == spec_refresh_kind(*stored, *live),
{
    if stored.host != live.host {
        UpnpTargetRefreshKind::IdentityCollision
    } else if stored.port == live.port {
        UpnpTargetRefreshKind::SameOrigin
    } else if stored.name == live.name && text::opt_eq(&stored.model, &live.model) && text::opt_eq(
        &stored.manufacturer,
        &live.manufacturer,
    ) {
        UpnpTargetRefreshKind::VerifiedEndpointMove
    } else {
        UpnpTargetRefreshKind::UnverifiedEndpointMove
    }
}

pub open spec fn spec_origin_label(target: UpnpRendererTarget) -> Seq<char> {
    target.host@ + ":"@ + text::decimal(target.port as nat)
}

/// The host and port of a renderer, as one text.
pub fn upnp_target_origin_label(target: &UpnpRendererTarget) -> (r: String)
    ensures
        r@ == spec_origin_label(*target),
{
    let mut label = target.host.clone();
    label.append(":");
    text::push_decimal(&mut label, target.port as u64);
    label
}

pub open spec fn spec_confidence(source: CapabilityDetectionSource) -> u8 {
    match source {
        CapabilityDetectionSource::Probed => 3,
        CapabilityDetectionSource::Advertised => 2,
        CapabilityDetectionSource::Probing => 1,
        CapabilityDetectionSource::Fallback => 0,
    }
}

/// How far figures from `source` can be relied on.
pub fn upnp_capability_confidence(source: CapabilityDetectionSource) -> (r: u8)
    ensures
        r == spec_confidence(source),
{
    match source {
        CapabilityDetectionSource::Probed => 3,
        CapabilityDetectionSource::Advertised => 2,
        CapabilityDetectionSource::Probing => 1,
        CapabilityDetectionSource::Fallback => 0,
    }
}

/// A single figure for how much a renderer can do: rate times depth, with
/// DSD support outweighing PCM.
pub open spec fn spec_extent(target: UpnpRendererTarget) -> int {
    let depth = if target.max_bit_depth == 0 {
        1
    } else {
        target.max_bit_depth as int
    };
    let dsd = match target.max_dsd_rate {
        Some(rate) => rate as int,
        None => 0,
    };
    target.max_sample_rate * depth + dsd * 1_000_000
}

/// A single figure for how much a renderer can do.
pub fn upnp_capability_extent(target: &UpnpRendererTarget) -> (r: u64)
    ensures
        r == spec_extent(*target),
{
    let depth: u64 = if target.max_bit_depth == 0 {
        1
    } else {
        target.max_bit_depth as u64
    };
    let dsd: u64 = match target.max_dsd_rate {
        Some(rate) => rate as u64,
        None => 0,
    };
    let rate: u64 = target.max_sample_rate as u64;
    proof {
        assert(rate * depth <= 0xffff_ffff * 0xff) by (nonlinear_arith)
            requires
                rate <= 0xffff_ffff,
                depth <= 0xff,
        ;
    }
    rate * depth + dsd * 1_000_000
}

/// Stored figures are kept when they come from a better source and promise
/// at least as much.
pub open spec fn spec_keep_stored(stored: UpnpRendererTarget, live: UpnpRendererTarget) -> bool {
    spec_confidence(stored.capability_detection_source) > spec_confidence(
        live.capability_detection_source,
    ) && spec_extent(stored) >= spec_extent(live)
}

/// Whether the stored capabilities outrank the discovered ones.
pub fn should_keep_stored_upnp_capabilities(
    stored: &UpnpRendererTarget,
    live: &UpnpRendererTarget,
) -> (r: bool)
    ensures
        r == spec_keep_stored(*stored, *live),
{
    upnp_capability_confidence(stored.capability_detection_source) > upnp_capability_confidence(
        live.capability_detection_source,
    ) && upnp_capability_extent(stored) >= upnp_capability_extent(live)
}

/// The stored renderer refreshed from a discovered one: names follow
/// discovery, the endpoint only when asked, capabilities unless the stored
/// ones outrank them, and protocol details whenever discovery has any.
pub open spec fn spec_merged(
    stored: UpnpRendererTarget,
    live: UpnpRendererTarget,
    use_live_endpoint: bool,
) -> UpnpRendererTarget {
    let endpoint = if use_live_endpoint {
        live
    } else {
        stored
    };
    let capable = if spec_keep_stored(stored, live) {
        stored
    } else {
        live
    };
    UpnpRendererTarget {
        id: stored.id,
        name: live.name,
        host: endpoint.host,
        port: endpoint.port,
        model: live.model,
        manufacturer: live.manufacturer,
        av_transport_control_url: endpoint.av_transport_control_url,
        rendering_control_url: endpoint.rendering_control_url,
        connection_manager_url: endpoint.connection_manager_url,
        max_sample_rate: capable.max_sample_rate,
        max_bit_depth: capable.max_bit_depth,
        max_dsd_rate: capable.max_dsd_rate,
        capability_detection_source: capable.capability_detection_source,
        capability_detection_status: capable.capability_detection_status,
        capability_detection_message: capable.capability_detection_message,
        protocol_info: if live.protocol_info@.len() > 0 {
            live.protocol_info
        } else {
            stored.protocol_info
        },
        pcm_containers: capable.pcm_containers,
    }
}

/// The stored renderer refreshed from a discovered one.
pub fn merge_upnp_playback_target(
    stored_target: UpnpRendererTarget,
    live_target: UpnpRendererTarget,
    use_live_endpoint: bool,
) -> (r: UpnpRendererTarget)
    ensures
        r == spec_merged(stored_target, live_target, use_live_endpoint),
{
    let keep_stored_capabilities = should_keep_stored_upnp_capabilities(
        &stored_target,
        &live_target,
    );
    let mut merged = stored_target;
    if use_live_endpoint {
        merged.host = live_target.host;
        merged.port = live_target.port;
        merged.av_transport_control_url = live_target.av_transport_control_url;
        merged.rendering_control_url = live_target.rendering_control_url;
        merged.connection_manager_url = live_target.connection_manager_url;
    }
    merged.name = live_target.name;
    merged.model = live_target.model;
    merged.manufacturer = live_target.manufacturer;
    if !keep_stored_capabilities {
        merged.max_sample_rate = live_target.max_sample_rate;
        merged.max_bit_depth = live_target.max_bit_depth;
        merged.max_dsd_rate = live_target.max_dsd_rate;
        merged.capability_detection_source = live_target.capability_detection_source;
        merged.capability_detection_status = live_target.capability_detection_status;
        merged.capability_detection_message = live_target.capability_detection_message;
        merged.pcm_containers = live_target.pcm_containers;
    }
    if !live_target.protocol_info.is_empty() {
        merged.protocol_info = live_target.protocol_info;
    }
    merged
}

/// Refreshing twice from one discovered renderer is refreshing once.
pub proof fn law_merge_idempotent(
    stored: UpnpRendererTarget,
    live: UpnpRendererTarget,
    use_live_endpoint: bool,
)
    ensures
        spec_merged(spec_merged(stored, live, use_live_endpoint), live, use_live_endpoint)
            == spec_merged(stored, live, use_live_endpoint),
{
}

/// A refresh never replaces stored capabilities by figures of lower
/// confidence that promise no more, and without a verified move it never
/// touches the endpoint.
pub proof fn law_merge_keeps_better_knowledge(
    stored: UpnpRendererTarget,
    live: UpnpRendererTarget,
    use_live_endpoint: bool,
)
    ensures
        ({
            let merged = spec_merged(stored, live, use_live_endpoint);
            &&& merged.id == stored.id
            &&& spec_extent(merged) >= spec_extent(live) || spec_confidence(
                merged.capability_detection_source,
            ) >= spec_confidence(live.capability_detection_source)
            &&& spec_keep_stored(stored, live) ==> {
                &&& merged.max_sample_rate == stored.max_sample_rate
                &&& merged.max_bit_depth == stored.max_bit_depth
                &&& merged.max_dsd_rate == stored.max_dsd_rate
                &&& merged.pcm_containers == stored.pcm_containers
                &&& merged.capability_detection_source == stored.capability_detection_source
            }
            &&& !use_live_endpoint ==> {
                &&& merged.host == stored.host
                &&& merged.port == stored.port
                &&& merged.av_transport_control_url == stored.av_transport_control_url
                &&& merged.rendering_control_url == stored.rendering_control_url
                &&& merged.connection_manager_url == stored.connection_manager_url
            }
        }),
{
}

/// The notice for a discovered renderer that is not taken over.
pub open spec fn spec_refresh_notice(
    stored: UpnpRendererTarget,
    live: UpnpRendererTarget,
) -> Seq<char> {
    if spec_refresh_kind(stored, live) is IdentityCollision {
        "UPnP renderer identity changed; re-pair this zone before playback"@
    } else {
        "UPnP renderer endpoint moved from "@ + spec_origin_label(stored) + " to "@
            + spec_origin_label(live) + " but could not be verified"@
    }
}

fn refresh_notice(
    stored: &UpnpRendererTarget,
    live: &UpnpRendererTarget,
    kind: UpnpTargetRefreshKind,
) -> (r: String)
    requires
        kind == spec_refresh_kind(*stored, *live),
    ensures
        r@ == spec_refresh_notice(*stored, *live),
{
    match kind {
        UpnpTargetRefreshKind::IdentityCollision => {
            "UPnP renderer identity changed; re-pair this zone before playback".to_string()
        },
        _ => {
            let mut notice = "UPnP renderer endpoint moved from ".to_string();
            notice.append(upnp_target_origin_label(stored).as_str());
            notice.append(" to ");
            notice.append(upnp_target_origin_label(live).as_str());
            notice.append(" but could not be verified");
            notice
        },
    }
}

/// A discovered renderer that speaks for the stored one: it is online and
/// has its id.
pub open spec fn is_candidate(stored: UpnpRendererTarget, renderer: UpnpRenderer) -> bool {
    renderer.online && renderer.target.id@ == stored.id@
}

/// A candidate whose figures may be taken over.
pub open spec fn is_trusted_candidate(stored: UpnpRendererTarget, renderer: UpnpRenderer) -> bool {
    is_candidate(stored, renderer) && (spec_refresh_kind(stored, renderer.target) is SameOrigin
        || spec_refresh_kind(stored, renderer.target) is VerifiedEndpointMove)
}

/// The position of the first trusted candidate from `from` on, or the end.
pub open spec fn first_trusted(
    stored: UpnpRendererTarget,
    renderers: Seq<UpnpRenderer>,
    from: int,
) -> int
    decreases renderers.len() - from,
{
    if from < 0 || from >= renderers.len() || is_trusted_candidate(stored, renderers[from]) {
        from
    } else {
        first_trusted(stored, renderers, from + 1)
    }
}

/// The notices for the refused candidates among `renderers[from..to]`, in
/// order.
pub open spec fn refusal_notices(
    stored: UpnpRendererTarget,
    renderers: Seq<UpnpRenderer>,
    to: int,
) -> Seq<Seq<char>>
    decreases to,
{
    if to <= 0 {
        Seq::empty()
    } else {
        let before = refusal_notices(stored, renderers, to - 1);
        if is_candidate(stored, renderers[to - 1]) && !is_trusted_candidate(
            stored,
            renderers[to - 1],
        ) {
            before.push(spec_refresh_notice(stored, renderers[to - 1].target))
        } else {
            before
        }
    }
}

/// A playback target with the notices that its selection raised.
pub struct FreshTarget {
    pub target: UpnpRendererTarget,
    pub notices: Vec<String>,
}

/// The texts of a list of strings.
pub open spec fn texts(v: Seq<String>) -> Seq<Seq<char>> {
    v.map_values(|s: String| s@)
}

/// The target to play on: the stored renderer refreshed from the first
/// discovered one that can be trusted to be it, with a notice for each
/// candidate that was refused before.
pub fn fresh_upnp_target_for_playback(
    stored_target: UpnpRendererTarget,
    renderers: Vec<UpnpRenderer>,
) -> (r: FreshTarget)
    ensures
        ({
            let n = first_trusted(stored_target, renderers@, 0);
            &&& n < renderers@.len() ==> r.target == spec_merged(
                stored_target,
                renderers@[n].target,
                spec_refresh_kind(stored_target, renderers@[n].target) is VerifiedEndpointMove,
            )
            &&& n >= renderers@.len() ==> r.target == stored_target
            &&& texts(r.notices@) == refusal_notices(stored_target, renderers@, n)
        }),
{
    let mut notices: Vec<String> = Vec::new();
    let mut rest = renderers;
    let ghost all = rest@;
    let mut i: usize = 0;
    proof {
        assert(texts(notices@) =~= refusal_notices(stored_target, all, 0));
    }
    while i < rest.len()
        invariant
            i <= rest@.len(),
            rest@ == all,
            all == renderers@,
            texts(notices@) == refusal_notices(stored_target, all, i as int),
            first_trusted(stored_target, all, i as int) == first_trusted(stored_target, all, 0),
        decreases rest@.len() - i,
    {
        if rest[i].online && rest[i].target.id == stored_target.id {
            let kind = classify_upnp_target_refresh(&stored_target, &rest[i].target);
            match kind {
                UpnpTargetRefreshKind::SameOrigin => {
                    let renderer = rest.swap_remove(i);
                    return FreshTarget {
                        target: merge_upnp_playback_target(stored_target, renderer.target, false),
                        notices,
                    };
                },
                UpnpTargetRefreshKind::VerifiedEndpointMove => {
                    let renderer = rest.swap_remove(i);
                    return FreshTarget {
                        target: merge_upnp_playback_target(stored_target, renderer.target, true),
                        notices,
                    };
                },
                _ => {
                    let notice = refresh_notice(&stored_target, &rest[i].target, kind);
                    let ghost before = notices@;
                    notices.push(notice);
                    proof {
                        assert(texts(notices@) =~= texts(before).push(notice@));
                    }
                },
            }
        }
        i = i + 1;
    }
    FreshTarget { target: stored_target, notices }
}

/// A target whose capabilities a saved override replaces.
pub open spec fn spec_with_saved(
    target: UpnpRendererTarget,
    capabilities: Option<ZoneUpnpCapabilities>,
    r: UpnpRendererTarget,
) -> bool {
    match capabilities {
        None => r == target,
        Some(saved) => {
            &&& r.capability_detection_message is Some
            &&& r.capability_detection_message->0@ == "Saved UPnP capability override"@
            &&& r == UpnpRendererTarget {
                max_sample_rate: saved.max_sample_rate,
                max_bit_depth: saved.max_bit_depth,
                max_dsd_rate: saved.max_dsd_rate,
                capability_detection_source: CapabilityDetectionSource::Probed,
                capability_detection_status: CapabilityDetectionStatus::Complete,
                capability_detection_message: r.capability_detection_message,
                pcm_containers: saved.pcm_containers,
                ..target
            }
        },
    }
}

/// Applies the saved capability override of a zone, if there is one.
pub fn apply_saved_upnp_capabilities(
    target: UpnpRendererTarget,
    capabilities: Option<ZoneUpnpCapabilities>,
) -> (r: UpnpRendererTarget)
    ensures
        spec_with_saved(target, capabilities, r),
{
    match capabilities {
        None => target,
        Some(saved) => {
            let mut r = target;
            r.max_sample_rate = saved.max_sample_rate;
            r.max_bit_depth = saved.max_bit_depth;
            r.max_dsd_rate = saved.max_dsd_rate;
            r.capability_detection_source = CapabilityDetectionSource::Probed;
            r.capability_detection_status = CapabilityDetectionStatus::Complete;
            r.capability_detection_message = Some("Saved UPnP capability override".to_string());
            r.pcm_containers = saved.pcm_containers;
            r
        },
    }
}

/// The renderer that a zone plays on, refreshed from discovery and with the
/// zone's saved capabilities. `None` stands for a zone that is bound to no
/// renderer.
pub fn upnp_target_for_zone(
    stored_target: Option<UpnpRendererTarget>,
    renderers: Vec<UpnpRenderer>,
    capabilities: Option<ZoneUpnpCapabilities>,
) -> (r: Result<FreshTarget, String>)
    ensures
        r is Err <==> stored_target is None,
        r is Err ==> r->Err_0@ == "UPnP renderer zone not available"@,
        r is Ok ==> ({
            let stored = stored_target->0;
            let n = first_trusted(stored, renderers@, 0);
            let fresh = if n < renderers@.len() {
                spec_merged(
                    stored,
                    renderers@[n].target,
                    spec_refresh_kind(stored, renderers@[n].target) is VerifiedEndpointMove,
                )
            } else {
                stored
            };
            &&& spec_with_saved(fresh, capabilities, r->Ok_0.target)
            &&& texts(r->Ok_0.notices@) == refusal_notices(stored, renderers@, n)
        }),
{
    match stored_target {
        None => Err("UPnP renderer zone not available".to_string()),
        Some(stored) => {
            let fresh = fresh_upnp_target_for_playback(stored, renderers);
            Ok(
                FreshTarget {
                    target: apply_saved_upnp_capabilities(fresh.target, capabilities),
                    notices: fresh.notices,
                },
            )
        },
    }
}

/// A renderer of the maker whose firmware needs a completed file: by its
/// manufacturer field, or by a name that begins with the brand.
pub open spec fn spec_is_kef(target: UpnpRendererTarget) -> bool {
    ||| target.manufacturer is Some && text::ascii_lower(
        text::trimmed(target.manufacturer->0@),
    ) == "kef"@
    ||| text::starts_with_text(text::ascii_lower(text::trimmed(target.name@)), "kef "@)
}

/// Whether the renderer is a KEF.
pub fn is_kef_upnp_target(target: &UpnpRendererTarget) -> (r: bool)
    ensures
        r == spec_is_kef(*target),
{
    let by_maker = match &target.manufacturer {
        Some(maker) => *maker.as_str().trim().to_ascii_lowercase().as_str() == *"kef",
        None => false,
    };
    by_maker || text::starts_with(
        target.name.as_str().trim().to_ascii_lowercase().as_str(),
        "kef ",
    )
}

/// Whether generated audio may be streamed while it is rendered.
#[derive(Clone, Copy, Debug, PartialEq, Eq, Structural)]
pub enum UpnpDspStreamingPolicy {
    Auto,
    ForceCompletedRender,
}

/// The streaming policy of a renderer: KEF renderers reject progressive WAV
/// and get a completed, seekable file.
pub fn upnp_dsp_streaming_policy_for_target(target: &UpnpRendererTarget) -> (r:
    UpnpDspStreamingPolicy)
    ensures
        r == (if spec_is_kef(*target) {
            UpnpDspStreamingPolicy::ForceCompletedRender
        } else {
            UpnpDspStreamingPolicy::Auto
        }),
{
    if is_kef_upnp_target(target) {
        UpnpDspStreamingPolicy::ForceCompletedRender
    } else {
        UpnpDspStreamingPolicy::Auto
    }
}

/// A text names Sonos, in any case.
pub open spec fn names_sonos(s: Seq<char>) -> bool {
    text::contains_text(text::ascii_lower(s), "sonos"@)
}

pub open spec fn spec_is_sonos(target: UpnpRendererTarget) -> bool {
    ||| target.manufacturer is Some && names_sonos(target.manufacturer->0@)
    ||| names_sonos(target.name@)
    ||| target.model is Some && names_sonos(target.model->0@)
}

/// Whether a text names Sonos.
pub fn mentions_sonos(s: &str) -> (r: bool)
    ensures
        r == names_sonos(s@),
{
    text::contains(s.to_ascii_lowercase().as_str(), "sonos")
}

/// Whether the renderer is a Sonos speaker.
pub fn is_sonos_upnp_target(target: &UpnpRendererTarget) -> (r: bool)
    ensures
        r == spec_is_sonos(*target),
{
    let by_maker = match &target.manufacturer {
        Some(maker) => mentions_sonos(maker.as_str()),
        None => false,
    };
    let by_model = match &target.model {
        Some(model) => mentions_sonos(model.as_str()),
        None => false,
    };
    by_maker || mentions_sonos(target.name.as_str()) || by_model
}

/// The streaming service's format for a renderer: CD quality unless high
/// resolution is enabled and the renderer takes 24 bits at 96 or 192 kHz.
pub open spec fn spec_qobuz_format_id(target: UpnpRendererTarget, hires_enabled: bool) -> u32 {
    if !hires_enabled || spec_is_sonos(target) || target.max_bit_depth < 24
        || target.max_sample_rate < 96_000 {
        6
    } else if target.max_sample_rate >= 192_000 {
        27
    } else {
        7
    }
}

/// The streaming service's format for a renderer.
pub fn qobuz_format_id_for_upnp_target(target: &UpnpRendererTarget, hires_enabled: bool) -> (r: u32)
    ensures
        r == spec_qobuz_format_id(*target, hires_enabled),
{
    if !hires_enabled || is_sonos_upnp_target(target) {
        return 6;
    }
    if target.max_bit_depth >= 24 && target.max_sample_rate >= 192_000 {
        27
    } else if target.max_bit_depth >= 24 && target.max_sample_rate >= 96_000 {
        7
    } else {
        6
    }
}

/// Whether what is known of a renderer is only a guess.
pub open spec fn spec_caps_unknown(target: UpnpRendererTarget) -> bool {
    ||| target.capability_detection_source is Fallback
    ||| target.capability_detection_source is Probing
    ||| !(target.capability_detection_status is Complete)
}

/// Whether what is known of a renderer is only a guess.
pub fn upnp_caps_unknown(target: &UpnpRendererTarget) -> (r: bool)
    ensures
        r == spec_caps_unknown(*target),
{
    matches!(
        target.capability_detection_source,
        CapabilityDetectionSource::Fallback | CapabilityDetectionSource::Probing
    ) || matches!(
        target.capability_detection_status,
        CapabilityDetectionStatus::Unknown
        | CapabilityDetectionStatus::Probing
        | CapabilityDetectionStatus::Deferred
        | CapabilityDetectionStatus::Failed
    )
}

/// A renderer seen at the stored address is the stored one; at another port it
/// is the stored one when it goes by the same name, model and maker; at another
/// host it never is.
pub proof fn law_renderers_are_known_by_address(
    stored: UpnpRendererTarget,
    live: UpnpRendererTarget,
)
    ensures
        spec_refresh_kind(stored, live) is SameOrigin <==> stored.host@ == live.host@ && stored.port
            == live.port,
        spec_refresh_kind(stored, live) is IdentityCollision <==> stored.host@ != live.host@,
        spec_refresh_kind(stored, live) is VerifiedEndpointMove <==> stored.host@ == live.host@
            && stored.port != live.port && stored.name@ == live.name@ && text::opt_text(
            stored.model,
        ) == text::opt_text(live.model) && text::opt_text(stored.manufacturer) == text::opt_text(
            live.manufacturer,
        ),
{
}

/// What was probed counts for more than what is advertised, and that for more
/// than a probe under way or a fallback.
pub proof fn law_probed_counts_most()
    ensures
        spec_confidence(CapabilityDetectionSource::Probed) > spec_confidence(
            CapabilityDetectionSource::Advertised,
        ),
        spec_confidence(CapabilityDetectionSource::Advertised) > spec_confidence(
            CapabilityDetectionSource::Probing,
        ),
        spec_confidence(CapabilityDetectionSource::Probing) > spec_confidence(
            CapabilityDetectionSource::Fallback,
        ),
{
}

/// A renderer that takes at least the rates and depths of another reaches at
/// least as far.
pub proof fn law_extent_grows_with_formats(a: UpnpRendererTarget, b: UpnpRendererTarget)
    requires
        a.max_sample_rate <= b.max_sample_rate,
        a.max_bit_depth <= b.max_bit_depth,
        a.max_dsd_rate is None || b.max_dsd_rate is Some && a.max_dsd_rate->0
            <= b.max_dsd_rate->0,
    ensures
        spec_extent(a) <= spec_extent(b),
        a.max_sample_rate < b.max_sample_rate ==> spec_extent(a) < spec_extent(b),
        a.max_sample_rate > 0 && 0 < a.max_bit_depth < b.max_bit_depth ==> spec_extent(a)
            < spec_extent(b),
        a.max_dsd_rate is Some && a.max_dsd_rate->0 < b.max_dsd_rate->0 ==> spec_extent(a)
            < spec_extent(b),
{
    let da = if a.max_bit_depth == 0 {
        1
    } else {
        a.max_bit_depth as int
    };
    let db = if b.max_bit_depth == 0 {
        1
    } else {
        b.max_bit_depth as int
    };
    lemma_product_grows(a.max_sample_rate as int, b.max_sample_rate as int, da, db);
}

proof fn lemma_product_grows(a: int, b: int, c: int, d: int)
    by (nonlinear_arith)
    requires
        0 <= a <= b,
        1 <= c <= d,
    ensures
        a * c <= b * d,
        a < b ==> a * c < b * d,
        a > 0 && c < d ==> a * c < b * d,
{
}

/// What a renderer says of itself now replaces what was stored, unless what was
/// stored is better known and reaches at least as far. Who it is and what it
/// is called never come from the other side, and where it is comes from the
/// live renderer only when that may move it.
pub proof fn law_merge_takes_what_is_live(
    stored: UpnpRendererTarget,
    live: UpnpRendererTarget,
    use_live_endpoint: bool,
)
    ensures
        ({
            let merged = spec_merged(stored, live, use_live_endpoint);
            &&& merged.id == stored.id
            &&& merged.name == live.name
            &&& merged.model == live.model
            &&& merged.manufacturer == live.manufacturer
            &&& use_live_endpoint ==> {
                &&& merged.host == live.host
                &&& merged.port == live.port
                &&& merged.av_transport_control_url == live.av_transport_control_url
                &&& merged.rendering_control_url == live.rendering_control_url
                &&& merged.connection_manager_url == live.connection_manager_url
            }
            &&& live.protocol_info@.len() > 0 ==> merged.protocol_info == live.protocol_info
            &&& live.protocol_info@.len() == 0 ==> merged.protocol_info == stored.protocol_info
            &&& live.capability_detection_source is Probed ==> {
                &&& merged.max_sample_rate == live.max_sample_rate
                &&& merged.max_bit_depth == live.max_bit_depth
                &&& merged.max_dsd_rate == live.max_dsd_rate
                &&& merged.pcm_containers == live.pcm_containers
                &&& merged.capability_detection_source == live.capability_detection_source
                &&& merged.capability_detection_status == live.capability_detection_status
                &&& merged.capability_detection_message == live.capability_detection_message
            }
            &&& stored.capability_detection_source is Probed && !(
            live.capability_detection_source is Probed) && stored.max_sample_rate
                >= live.max_sample_rate && stored.max_bit_depth >= live.max_bit_depth && (
            live.max_dsd_rate is None || stored.max_dsd_rate is Some && stored.max_dsd_rate->0
                >= live.max_dsd_rate->0) ==> {
                &&& merged.max_sample_rate == stored.max_sample_rate
                &&& merged.max_bit_depth == stored.max_bit_depth
                &&& merged.max_dsd_rate == stored.max_dsd_rate
                &&& merged.pcm_containers == stored.pcm_containers
                &&& merged.capability_detection_status == stored.capability_detection_status
            }
        }),
{
    if live.max_sample_rate <= stored.max_sample_rate && live.max_bit_depth
        <= stored.max_bit_depth && (live.max_dsd_rate is None || stored.max_dsd_rate is Some
        && live.max_dsd_rate->0 <= stored.max_dsd_rate->0) {
        law_extent_grows_with_formats(live, stored);
    }
}

proof fn lemma_first_trusted(stored: UpnpRendererTarget, renderers: Seq<UpnpRenderer>, from: int)
    requires
        0 <= from <= renderers.len(),
    ensures
        from <= first_trusted(stored, renderers, from) <= renderers.len(),
        first_trusted(stored, renderers, from) < renderers.len() ==> is_trusted_candidate(
            stored,
            renderers[first_trusted(stored, renderers, from)],
        ),
        forall|i: int|
            from <= i < first_trusted(stored, renderers, from) ==> !is_trusted_candidate(
                stored,
                #[trigger] renderers[i],
            ),
    decreases renderers.len() - from,
{
    if from < renderers.len() && !is_trusted_candidate(stored, renderers[from]) {
        lemma_first_trusted(stored, renderers, from + 1);
    }
}

/// Playback never follows a renderer to another host, and never to another
/// identity.
pub proof fn law_playback_stays_with_the_host(
    stored: UpnpRendererTarget,
    renderers: Vec<UpnpRenderer>,
    r: FreshTarget,
)
    requires
        call_ensures(fresh_upnp_target_for_playback, (stored, renderers), r),
    ensures
        r.target.id == stored.id,
        r.target.host@ == stored.host@,
{
    lemma_first_trusted(stored, renderers@, 0);
}

/// Renderers that are offline or go by another id do not touch the stored
/// target, and nothing is said of them.
pub proof fn law_other_renderers_do_not_matter(
    stored: UpnpRendererTarget,
    renderers: Vec<UpnpRenderer>,
    r: FreshTarget,
)
    requires
        call_ensures(fresh_upnp_target_for_playback, (stored, renderers), r),
        forall|i: int|
            0 <= i < renderers@.len() ==> !((#[trigger] renderers@[i]).online
                && renderers@[i].target.id@ == stored.id@),
    ensures
        r.target == stored,
        r.notices@.len() == 0,
{
    lemma_first_trusted(stored, renderers@, 0);
    let n = first_trusted(stored, renderers@, 0);
    if n < renderers@.len() {
        assert(is_candidate(stored, renderers@[n]));
    }
    lemma_no_notices(stored, renderers@, n);
    assert(texts(r.notices@).len() == r.notices@.len());
}

proof fn lemma_no_notices(stored: UpnpRendererTarget, renderers: Seq<UpnpRenderer>, to: int)
    requires
        0 <= to <= renderers.len(),
        forall|i: int| 0 <= i < to ==> !is_candidate(stored, #[trigger] renderers[i]),
    ensures
        refusal_notices(stored, renderers, to).len() == 0,
    decreases to,
{
    if to > 0 {
        lemma_no_notices(stored, renderers, to - 1);
    }
}

/// The renderer that is online under the stored id and at the stored address
/// is the one that is played on, with what it says of itself now.
pub proof fn law_renderer_at_its_address_is_used(
    stored: UpnpRendererTarget,
    renderers: Vec<UpnpRenderer>,
    k: int,
    r: FreshTarget,
)
    requires
        call_ensures(fresh_upnp_target_for_playback, (stored, renderers), r),
        0 <= k < renderers@.len(),
        renderers@[k].online,
        renderers@[k].target.id@ == stored.id@,
        renderers@[k].target.host@ == stored.host@,
        renderers@[k].target.port == stored.port,
        forall|i: int|
            0 <= i < k ==> !((#[trigger] renderers@[i]).online && renderers@[i].target.id@
                == stored.id@),
    ensures
        r.target.name == renderers@[k].target.name,
        r.target.port == stored.port,
        r.target.av_transport_control_url == stored.av_transport_control_url,
        r.notices@.len() == 0,
        renderers@[k].target.capability_detection_source is Probed ==> r.target.max_sample_rate
            == renderers@[k].target.max_sample_rate,
{
    lemma_first_trusted(stored, renderers@, 0);
    let n = first_trusted(stored, renderers@, 0);
    assert(is_trusted_candidate(stored, renderers@[k]));
    assert(n <= k);
    if n < k {
        assert(is_candidate(stored, renderers@[n]));
    }
    lemma_no_notices(stored, renderers@, n);
    assert(texts(r.notices@).len() == r.notices@.len());
}

/// What a user saved for a renderer replaces what was found, and nothing else.
pub proof fn law_saved_capabilities_replace_found_ones(
    target: UpnpRendererTarget,
    saved: ZoneUpnpCapabilities,
    r: UpnpRendererTarget,
)
    requires
        call_ensures(apply_saved_upnp_capabilities, (target, Some(saved)), r),
    ensures
        r.max_sample_rate == saved.max_sample_rate,
        r.max_bit_depth == saved.max_bit_depth,
        r.max_dsd_rate == saved.max_dsd_rate,
        r.pcm_containers == saved.pcm_containers,
        !spec_caps_unknown(r),
        r.id == target.id,
        r.name == target.name,
        r.host == target.host,
        r.port == target.port,
        r.model == target.model,
        r.manufacturer == target.manufacturer,
        r.av_transport_control_url == target.av_transport_control_url,
        r.protocol_info == target.protocol_info,
{
}

/// A renderer is a KEF by its maker's name, whatever its case and the white
/// space around it.
pub proof fn law_kef_is_known_by_maker(
    target: UpnpRendererTarget,
    before: Seq<char>,
    maker: Seq<char>,
    after: Seq<char>,
)
    requires
        forall|i: int| 0 <= i < before.len() ==> text::is_white_space(#[trigger] before[i]),
        forall|i: int| 0 <= i < after.len() ==> text::is_white_space(#[trigger] after[i]),
        text::is_trimmed(maker),
        text::ascii_lower(maker) == "kef"@,
        target.manufacturer is Some,
        target.manufacturer->0@ == before + maker + after,
    ensures
        spec_is_kef(target),
{
    reveal_strlit("kef");
    text::law_ascii_lower(maker);
    text::law_trimming_drops_surroundings(before, maker, after);
}

/// A renderer of another maker is a KEF only by a name that begins so.
pub proof fn law_kef_is_known_by_name(target: UpnpRendererTarget, rest: Seq<char>)
    ensures
        text::is_trimmed("kef "@ + rest) && target.name@ == "kef "@ + rest ==> spec_is_kef(target),
        target.manufacturer is None && target.name@.len() < 4 ==> !spec_is_kef(target),
        target.manufacturer is None && text::is_trimmed(target.name@) && target.name@.len() > 0
            && target.name@[0] != 'k' && target.name@[0] != 'K' ==> !spec_is_kef(target),
{
    reveal_strlit("kef ");
    let full = "kef "@ + rest;
    text::law_trimmed(target.name@);
    text::law_ascii_lower(text::trimmed(target.name@));
    if text::is_trimmed(full) && target.name@ == full {
        assert(text::ascii_lower(full).take(4) =~= "kef "@);
        assert(text::ascii_lower(full).subrange(0, 4) =~= "kef "@);
    }
    lemma_trimmed_is_no_longer(target.name@);
    let lower = text::ascii_lower(text::trimmed(target.name@));
    if text::starts_with_text(lower, "kef "@) {
        assert(lower.subrange(0, 4)[0] == 'k');
        assert(lower[0] == text::ascii_lower_char(text::trimmed(target.name@)[0]));
    }
}

proof fn lemma_trimmed_is_no_longer(s: Seq<char>)
    ensures
        text::trimmed(s).len() <= s.len(),
{
    lemma_trim_start_is_no_longer(s);
    lemma_trim_end_is_no_longer(text::trim_start(s));
}

proof fn lemma_trim_start_is_no_longer(s: Seq<char>)
    ensures
        text::trim_start(s).len() <= s.len(),
    decreases s.len(),
{
    if s.len() > 0 {
        lemma_trim_start_is_no_longer(s.drop_first());
    }
}

proof fn lemma_trim_end_is_no_longer(s: Seq<char>)
    ensures
        text::trim_end(s).len() <= s.len(),
    decreases s.len(),
{
    if s.len() > 0 {
        lemma_trim_end_is_no_longer(s.drop_last());
    }
}

/// Only a KEF waits for a completed render.
pub proof fn law_only_kef_waits_for_renders(
    target: UpnpRendererTarget,
    r: UpnpDspStreamingPolicy,
)
    requires
        call_ensures(upnp_dsp_streaming_policy_for_target, (&target,), r),
    ensures
        r is ForceCompletedRender <==> spec_is_kef(target),
        r is Auto <==> !spec_is_kef(target),
{
}

/// A renderer is a Sonos when its name, its model or its maker contains the
/// word, in any case.
pub proof fn law_sonos_is_known_by_any_name(
    target: UpnpRendererTarget,
    before: Seq<char>,
    word: Seq<char>,
    after: Seq<char>,
)
    requires
        text::ascii_lower(word) == "sonos"@,
        target.name@ == before + word + after || target.model is Some && target.model->0@ == before
            + word + after || target.manufacturer is Some && target.manufacturer->0@ == before
            + word + after,
    ensures
        spec_is_sonos(target),
{
    let whole = before + word + after;
    let n = before.len() as int;
    text::law_ascii_lower(word);
    assert(text::ascii_lower(whole).subrange(n, n + word.len()) =~= text::ascii_lower(word));
    assert(text::occurs_at(text::ascii_lower(whole), "sonos"@, n));
}

/// A renderer gets the best stream that it takes and that the listener allows:
/// compact-disc quality without the allowance or on a Sonos, the highest only
/// from 24 bits and 192 kHz on, the middle one from 24 bits and 96 kHz on.
pub proof fn law_stream_format_fits_renderer(target: UpnpRendererTarget, hires_enabled: bool)
    ensures
        ({
            let format = spec_qobuz_format_id(target, hires_enabled);
            let allowed = hires_enabled && !spec_is_sonos(target) && target.max_bit_depth >= 24;
            &&& format == 27 <==> allowed && target.max_sample_rate >= 192_000
            &&& format == 7 <==> allowed && 96_000 <= target.max_sample_rate < 192_000
            &&& format == 6 <==> !allowed || target.max_sample_rate < 96_000
        }),
{
}

/// What a renderer takes is known once a probe or its own word of it is
/// complete.
pub proof fn law_complete_capabilities_are_known(target: UpnpRendererTarget)
    ensures
        !spec_caps_unknown(target) <==> target.capability_detection_status is Complete && (
        target.capability_detection_source is Probed
            || target.capability_detection_source is Advertised),
{
}

/// A renderer that turned up at another host under the stored id is refused
/// with a notice, and the stored target stays.
pub proof fn law_stranger_under_the_id_is_refused(
    stored: UpnpRendererTarget,
    renderers: Vec<UpnpRenderer>,
    r: FreshTarget,
)
    requires
        call_ensures(fresh_upnp_target_for_playback, (stored, renderers), r),
        renderers@.len() == 1,
        renderers@[0].online,
        renderers@[0].target.id@ == stored.id@,
        renderers@[0].target.host@ != stored.host@,
    ensures
        r.target == stored,
        r.notices@.len() == 1,
        r.notices@[0]@ == "UPnP renderer identity changed; re-pair this zone before playback"@,
{
    let all = renderers@;
    reveal_with_fuel(first_trusted, 3);
    reveal_with_fuel(refusal_notices, 3);
    assert(!is_trusted_candidate(stored, all[0]));
    assert(is_candidate(stored, all[0]));
    assert(first_trusted(stored, all, 0) == 1);
    assert(texts(r.notices@).len() == r.notices@.len());
    assert(texts(r.notices@)[0] == r.notices@[0]@);
}

/// A renderer that moved to another port and goes by the same name, model and
/// maker is followed there.
pub proof fn law_moved_renderer_is_followed(
    stored: UpnpRendererTarget,
    renderers: Vec<UpnpRenderer>,
    r: FreshTarget,
)
    requires
        call_ensures(fresh_upnp_target_for_playback, (stored, renderers), r),
        renderers@.len() == 1,
        renderers@[0].online,
        renderers@[0].target.id@ == stored.id@,
        renderers@[0].target.host@ == stored.host@,
        renderers@[0].target.port != stored.port,
        renderers@[0].target.name@ == stored.name@,
        renderers@[0].target.model == stored.model,
        renderers@[0].target.manufacturer == stored.manufacturer,
    ensures
        r.target.port == renderers@[0].target.port,
        r.target.av_transport_control_url == renderers@[0].target.av_transport_control_url,
        r.target.rendering_control_url == renderers@[0].target.rendering_control_url,
        r.target.connection_manager_url == renderers@[0].target.connection_manager_url,
        r.notices@.len() == 0,
{
    let all = renderers@;
    assert(is_trusted_candidate(stored, all[0]));
    assert(first_trusted(stored, all, 0) == 0);
    assert(texts(r.notices@).len() == r.notices@.len());
}

/// Targets that are the same agree in every field.
pub proof fn law_same_targets_agree(a: UpnpRendererTarget, b: UpnpRendererTarget)
    requires
        a.same_as(b),
    ensures
        a.id == b.id && a.name == b.name && a.host == b.host && a.port == b.port,
        a.model == b.model && a.manufacturer == b.manufacturer,
        a.av_transport_control_url == b.av_transport_control_url,
        a.rendering_control_url == b.rendering_control_url,
        a.connection_manager_url == b.connection_manager_url,
        a.max_sample_rate == b.max_sample_rate && a.max_bit_depth == b.max_bit_depth,
        a.max_dsd_rate == b.max_dsd_rate,
        a.capability_detection_source == b.capability_detection_source,
        a.capability_detection_status == b.capability_detection_status,
        a.protocol_info@ == b.protocol_info@ && a.pcm_containers@ == b.pcm_containers@,
{
}

/// The label of a renderer is its host and its port.
pub proof fn law_labels_tell_ports_apart(a: UpnpRendererTarget, b: UpnpRendererTarget)
    requires
        a.host@ == b.host@,
        a.port != b.port,
    ensures
        spec_origin_label(a) != spec_origin_label(b),
        spec_origin_label(a).take(a.host@.len() as int) == a.host@,
{
    let none = Seq::<char>::empty();
    let before = a.host@ + ":"@;
    assert(spec_origin_label(a) =~= before + text::decimal(a.port as nat) + none);
    assert(spec_origin_label(b) =~= before + text::decimal(b.port as nat) + none);
    assert(spec_origin_label(a).take(a.host@.len() as int) =~= a.host@);
    if spec_origin_label(a) == spec_origin_label(b) {
        crate::bytes::law_middle_cancels(
            before,
            text::decimal(a.port as nat),
            text::decimal(b.port as nat),
            none,
        );
        text::lemma_decimal_injective(a.port as nat, b.port as nat);
    }
}

} // verus!
