//! Zones: their settings, and which one is used.

use crate::audio::Real32;
use crate::playback::error::{ErrorKind, PlaybackError};
use crate::playback::sinks;
use crate::playback::sinks::clamp_volume;
use crate::playback::upnp_target;
use crate::playback::upnp_target::{UpnpRenderer, UpnpRendererTarget};
use crate::protocol::sink::{SinkProtocol, UpnpPcmContainer, UpnpPcmContainerCapability};
use crate::protocol::zone::{
    BrowserStreamSettings, CapabilityDetectionSource, CapabilityDetectionStatus, ZoneCapabilities,
    ZoneHegelSettings, ZoneProfile, ZoneStatus, ZoneUpnpCapabilities,
};
use crate::text;
use vstd::prelude::*;
use vstd::string::*;

verus! {

/// The stored settings of a zone.
#[derive(Debug)]
pub struct ZoneSettings {
    pub airplay_default_volume: Option<Real32>,
    pub airplay_max_volume: Option<Real32>,
    pub airplay_last_volume: Option<Real32>,
    pub qobuz_hires_enabled: bool,
    pub icon: Option<String>,
    pub device_type: Option<String>,
    pub hegel: Option<ZoneHegelSettings>,
    pub browser_stream: Option<BrowserStreamSettings>,
    pub upnp_capabilities: Option<ZoneUpnpCapabilities>,
    pub upnp_calibrated_capabilities: Option<ZoneUpnpCapabilities>,
}

impl Default for ZoneSettings {
    fn default() -> (r: ZoneSettings)
        ensures
            r == (ZoneSettings {
                airplay_default_volume: None,
                airplay_max_volume: None,
                airplay_last_volume: None,
                qobuz_hires_enabled: false,
                icon: None,
                device_type: None,
                hegel: None,
                browser_stream: None,
                upnp_capabilities: None,
                upnp_calibrated_capabilities: None,
            }),
    {
        ZoneSettings {
            airplay_default_volume: None,
            airplay_max_volume: None,
            airplay_last_volume: None,
            qobuz_hires_enabled: false,
            icon: None,
            device_type: None,
            hegel: None,
            browser_stream: None,
            upnp_capabilities: None,
            upnp_calibrated_capabilities: None,
        }
    }
}

/// A change to a zone's settings; what is absent stays.
#[derive(Debug)]
pub struct ZoneSettingsUpdate {
    pub airplay_default_volume_enabled: Option<bool>,
    pub airplay_default_volume: Option<Real32>,
    pub airplay_max_volume: Option<Real32>,
    pub qobuz_hires_enabled: Option<bool>,
    pub icon: Option<String>,
    pub device_type: Option<String>,
    pub hegel: Option<ZoneHegelSettings>,
    pub upnp_capabilities: Option<ZoneUpnpCapabilities>,
    pub browser_stream: Option<BrowserStreamSettings>,
}

impl Default for ZoneSettingsUpdate {
    fn default() -> (r: ZoneSettingsUpdate)
        ensures
            r == (ZoneSettingsUpdate {
                airplay_default_volume_enabled: None,
                airplay_default_volume: None,
                airplay_max_volume: None,
                qobuz_hires_enabled: None,
                icon: None,
                device_type: None,
                hegel: None,
                upnp_capabilities: None,
                browser_stream: None,
            }),
    {
        ZoneSettingsUpdate {
            airplay_default_volume_enabled: None,
            airplay_default_volume: None,
            airplay_max_volume: None,
            qobuz_hires_enabled: None,
            icon: None,
            device_type: None,
            hegel: None,
            upnp_capabilities: None,
            browser_stream: None,
        }
    }
}

/// User input, as it is compared: trimmed and in lower case.
pub open spec fn normal_form(s: Seq<char>) -> Seq<char> {
    text::ascii_lower(text::trimmed(s))
}

fn normal_text(s: &str) -> (r: String)
    ensures
        r@ == normal_form(s@),
{
    s.trim().to_ascii_lowercase()
}

/// Browser streams are FLAC, or Opus at one of three bitrates.
pub open spec fn browser_stream_error(settings: BrowserStreamSettings) -> Option<Seq<char>> {
    let format = normal_form(settings.format@);
    if format != "flac"@ && format != "opus"@ {
        Some("Browser stream format must be \"flac\" or \"opus\""@)
    } else if settings.opus_kbps != 128 && settings.opus_kbps != 256 && settings.opus_kbps != 320 {
        Some("Browser Opus bitrate must be 128, 256, or 320"@)
    } else {
        None
    }
}

/// Browser stream settings in their normal form, if they are supported.
pub fn validate_browser_stream_settings(settings: BrowserStreamSettings) -> (r: Result<
    BrowserStreamSettings,
    PlaybackError,
>)
    ensures
        r is Ok <==> browser_stream_error(settings) is None,
        r is Ok ==> r->Ok_0.format@ == normal_form(settings.format@) && r->Ok_0.opus_kbps
            == settings.opus_kbps,
        r is Err ==> r->Err_0.is(ErrorKind::BadRequest, browser_stream_error(settings)->0),
{
    let format = normal_text(settings.format.as_str());
    if *format.as_str() != *"flac" && *format.as_str() != *"opus" {
        return Err(
            PlaybackError::bad_request("Browser stream format must be \"flac\" or \"opus\""),
        );
    }
    if settings.opus_kbps != 128 && settings.opus_kbps != 256 && settings.opus_kbps != 320 {
        return Err(PlaybackError::bad_request("Browser Opus bitrate must be 128, 256, or 320"));
    }
    Ok(BrowserStreamSettings { format, opus_kbps: settings.opus_kbps })
}

/// A known output icon.
pub open spec fn is_icon(s: Seq<char>) -> bool {
    s == "hegel"@ || s == "mac_mini"@ || s == "sonos"@ || s == "kef"@ || s == "airplay"@ || s
        == "computer"@ || s == "speaker"@
}

/// The words for no icon of its own.
pub open spec fn is_no_icon(s: Seq<char>) -> bool {
    s == ""@ || s == "auto"@ || s == "none"@
}

/// An icon in its normal form, or none.
pub fn normalize_zone_icon(value: &str) -> (r: Result<Option<String>, PlaybackError>)
    ensures
        r is Ok <==> is_no_icon(normal_form(value@)) || is_icon(normal_form(value@)),
        r is Ok ==> text::opt_text(r->Ok_0) == (if is_no_icon(normal_form(value@)) {
            None
        } else {
            Some(normal_form(value@))
        }),
        r is Err ==> r->Err_0.is(ErrorKind::BadRequest, "Unsupported output icon"@),
{
    let normalized = normal_text(value);
    let icon = normalized.as_str();
    if *icon == *"" || *icon == *"auto" || *icon == *"none" {
        return Ok(None);
    }
    if *icon == *"hegel" || *icon == *"mac_mini" || *icon == *"sonos" || *icon == *"kef" || *icon
        == *"airplay" || *icon == *"computer" || *icon == *"speaker" {
        return Ok(Some(normalized));
    }
    Err(PlaybackError::bad_request("Unsupported output icon"))
}

/// The device type that a word names, if it is known.
pub open spec fn spec_device_type(s: Seq<char>) -> Option<Seq<char>> {
    if normal_form(s) == "hegel"@ {
        Some("hegel"@)
    } else if normal_form(s) == ""@ || normal_form(s) == "none"@ {
        Some("none"@)
    } else {
        None
    }
}

/// A device type in its normal form.
pub fn normalize_zone_device_type(value: &str) -> (r: Result<&'static str, PlaybackError>)
    ensures
        r is Ok <==> spec_device_type(value@) is Some,
        r is Ok ==> Some(r->Ok_0@) == spec_device_type(value@),
        r is Err ==> r->Err_0.is(ErrorKind::BadRequest, "Unsupported device type"@),
{
    let normalized = normal_text(value);
    let word = normalized.as_str();
    if *word == *"hegel" {
        return Ok("hegel");
    }
    if *word == *"" || *word == *"none" {
        return Ok("none");
    }
    Err(PlaybackError::bad_request("Unsupported device type"))
}

/// A trimmed text, or none where nothing is left.
pub open spec fn kept_text(o: Option<String>) -> Option<Seq<char>> {
    match o {
        Some(t) => if text::trimmed(t@).len() > 0 {
            Some(text::trimmed(t@))
        } else {
            None
        },
        None => None,
    }
}

fn keep_text(o: Option<String>) -> (r: Option<String>)
    ensures
        text::opt_text(r) == kept_text(o),
{
    match o {
        Some(t) => {
            let trimmed = t.as_str().trim();
            if trimmed.is_empty() {
                None
            } else {
                Some(trimmed.to_string())
            }
        },
        None => None,
    }
}

/// `after` is `before` in its normal form: texts are trimmed, the port has a
/// default, and the input and the volumes stay within their limits.
pub open spec fn hegel_normalized(before: ZoneHegelSettings, after: ZoneHegelSettings) -> bool {
    let max_volume = if before.max_volume <= 100 {
        before.max_volume
    } else {
        100
    };
    &&& text::opt_text(after.host) == kept_text(before.host)
    &&& text::opt_text(after.linked_airplay_zone_id) == kept_text(before.linked_airplay_zone_id)
    &&& text::opt_text(after.model) == (match before.model {
        Some(m) => if normal_form(m@).len() > 0 {
            Some(normal_form(m@))
        } else {
            None
        },
        None => None,
    })
    &&& after.port == (if before.port == 0 {
        50001
    } else {
        before.port
    })
    &&& after.input == (if before.input < 1 {
        1
    } else if before.input > 20 {
        20
    } else {
        before.input
    })
    &&& after.max_volume == max_volume
    &&& after.default_volume == (if before.default_volume <= max_volume {
        before.default_volume
    } else {
        max_volume
    })
    &&& after.standby_usb_visible == before.standby_usb_visible
}

/// The settings of an amplifier in their normal form.
pub fn normalize_zone_hegel_settings(settings: ZoneHegelSettings) -> (r: ZoneHegelSettings)
    ensures
        hegel_normalized(settings, r),
{
    let max_volume: u8 = if settings.max_volume <= 100 {
        settings.max_volume
    } else {
        100
    };
    ZoneHegelSettings {
        host: keep_text(settings.host),
        linked_airplay_zone_id: keep_text(settings.linked_airplay_zone_id),
        model: match settings.model {
            Some(model) => {
                let model = normal_text(model.as_str());
                if model.as_str().is_empty() {
                    None
                } else {
                    Some(model)
                }
            },
            None => None,
        },
        port: if settings.port == 0 {
            50001
        } else {
            settings.port
        },
        input: if settings.input < 1 {
            1
        } else if settings.input > 20 {
            20
        } else {
            settings.input
        },
        max_volume,
        default_volume: if settings.default_volume <= max_volume {
            settings.default_volume
        } else {
            max_volume
        },
        standby_usb_visible: settings.standby_usb_visible,
    }
}

/// The volume that an amplifier starts at never exceeds its limit.
pub proof fn law_hegel_default_within_limit(before: ZoneHegelSettings, after: ZoneHegelSettings)
    requires
        hegel_normalized(before, after),
    ensures
        after.default_volume <= after.max_volume <= 100,
        1 <= after.input <= 20,
        after.port != 0,
{
}

proof fn lemma_normal_form_idempotent(s: Seq<char>)
    ensures
        normal_form(normal_form(s)) == normal_form(s),
{
    text::law_trimmed(s);
    text::law_ascii_lower(text::trimmed(s));
    text::law_trimmed(normal_form(s));
}

proof fn lemma_kept_text_idempotent(o: Option<String>, kept: Option<String>)
    requires
        text::opt_text(kept) == kept_text(o),
    ensures
        kept_text(kept) == kept_text(o),
{
    if o is Some {
        text::law_trimmed(o->0@);
        text::law_trimmed(text::trimmed(o->0@));
    }
}

/// Normalizing the settings of an amplifier a second time changes nothing.
pub proof fn law_hegel_normalization_is_idempotent(
    before: ZoneHegelSettings,
    once: ZoneHegelSettings,
    twice: ZoneHegelSettings,
)
    requires
        hegel_normalized(before, once),
        hegel_normalized(once, twice),
    ensures
        text::opt_text(twice.host) == text::opt_text(once.host),
        text::opt_text(twice.linked_airplay_zone_id) == text::opt_text(
            once.linked_airplay_zone_id,
        ),
        text::opt_text(twice.model) == text::opt_text(once.model),
        twice.port == once.port,
        twice.input == once.input,
        twice.max_volume == once.max_volume,
        twice.default_volume == once.default_volume,
        twice.standby_usb_visible == once.standby_usb_visible,
{
    lemma_kept_text_idempotent(before.host, once.host);
    lemma_kept_text_idempotent(before.linked_airplay_zone_id, once.linked_airplay_zone_id);
    if before.model is Some {
        lemma_normal_form_idempotent(before.model->0@);
    }
}

/// The PCM rates that a renderer can be given.
pub open spec fn is_pcm_rate(rate: u32) -> bool {
    rate == 44_100 || rate == 48_000 || rate == 88_200 || rate == 96_000 || rate == 176_400 || rate
        == 192_000 || rate == 352_800 || rate == 384_000
}

fn pcm_rate_known(rate: u32) -> (r: bool)
    ensures
        r == is_pcm_rate(rate),
{
    rate == 44_100 || rate == 48_000 || rate == 88_200 || rate == 96_000 || rate == 176_400 || rate
        == 192_000 || rate == 352_800 || rate == 384_000
}

/// A bit depth in its normal form; zero stands for 24.
pub open spec fn spec_depth(bits: u8) -> Option<u8> {
    if bits == 16 || bits == 24 || bits == 32 {
        Some(bits)
    } else if bits == 0 {
        Some(24)
    } else {
        None
    }
}

fn normal_depth(bits: u8) -> (r: Option<u8>)
    ensures
        r == spec_depth(bits),
{
    if bits == 16 || bits == 24 || bits == 32 {
        Some(bits)
    } else if bits == 0 {
        Some(24)
    } else {
        None
    }
}

/// Why a container entry is refused, if it is.
pub open spec fn container_error(c: UpnpPcmContainerCapability) -> Option<Seq<char>> {
    if !is_pcm_rate(c.max_sample_rate) {
        Some("Unsupported UPnP PCM container rate"@)
    } else if spec_depth(c.max_bit_depth) is None {
        Some("Unsupported UPnP PCM container bit depth"@)
    } else {
        None
    }
}

/// Why a list of containers is refused: its first refused entry.
pub open spec fn containers_error(containers: Seq<UpnpPcmContainerCapability>) -> Option<Seq<char>>
    decreases containers.len(),
{
    if containers.len() == 0 {
        None
    } else {
        match containers_error(containers.drop_last()) {
            Some(error) => Some(error),
            None => container_error(containers.last()),
        }
    }
}

/// The best of all entries for one container: the highest rate and the highest
/// depth that any of them gives.
pub open spec fn best_entry(
    containers: Seq<UpnpPcmContainerCapability>,
    container: UpnpPcmContainer,
) -> Option<UpnpPcmContainerCapability>
    decreases containers.len(),
{
    if containers.len() == 0 {
        None
    } else {
        let c = containers.last();
        let before = best_entry(containers.drop_last(), container);
        if c.container != container {
            before
        } else {
            let depth = spec_depth(c.max_bit_depth)->0;
            match before {
                None => Some(
                    UpnpPcmContainerCapability {
                        container,
                        max_sample_rate: c.max_sample_rate,
                        max_bit_depth: depth,
                    },
                ),
                Some(b) => Some(
                    UpnpPcmContainerCapability {
                        container,
                        max_sample_rate: if b.max_sample_rate >= c.max_sample_rate {
                            b.max_sample_rate
                        } else {
                            c.max_sample_rate
                        },
                        max_bit_depth: if b.max_bit_depth >= depth {
                            b.max_bit_depth
                        } else {
                            depth
                        },
                    },
                ),
            }
        }
    }
}

/// One entry per container, FLAC first.
pub open spec fn spec_containers(containers: Seq<UpnpPcmContainerCapability>) -> Seq<
    UpnpPcmContainerCapability,
> {
    (match best_entry(containers, UpnpPcmContainer::Flac) {
        Some(c) => seq![c],
        None => Seq::empty(),
    }) + (match best_entry(containers, UpnpPcmContainer::Wav) {
        Some(c) => seq![c],
        None => Seq::empty(),
    })
}

fn improved(
    best: Option<UpnpPcmContainerCapability>,
    container: UpnpPcmContainer,
    max_sample_rate: u32,
    max_bit_depth: u8,
) -> (r: UpnpPcmContainerCapability)
    ensures
        r.container == container,
        best is None ==> r.max_sample_rate == max_sample_rate && r.max_bit_depth == max_bit_depth,
        best is Some ==> r.max_sample_rate == (if best->0.max_sample_rate >= max_sample_rate {
            best->0.max_sample_rate
        } else {
            max_sample_rate
        }) && r.max_bit_depth == (if best->0.max_bit_depth >= max_bit_depth {
            best->0.max_bit_depth
        } else {
            max_bit_depth
        }),
{
    match best {
        None => UpnpPcmContainerCapability { container, max_sample_rate, max_bit_depth },
        Some(b) => UpnpPcmContainerCapability {
            container,
            max_sample_rate: if b.max_sample_rate >= max_sample_rate {
                b.max_sample_rate
            } else {
                max_sample_rate
            },
            max_bit_depth: if b.max_bit_depth >= max_bit_depth {
                b.max_bit_depth
            } else {
                max_bit_depth
            },
        },
    }
}

/// The containers of a renderer in their normal form.
pub fn normalize_upnp_pcm_containers(containers: Vec<UpnpPcmContainerCapability>) -> (r: Result<
    Vec<UpnpPcmContainerCapability>,
    PlaybackError,
>)
    ensures
        r is Ok <==> containers_error(containers@) is None,
        r is Ok ==> r->Ok_0@ == spec_containers(containers@),
        r is Err ==> r->Err_0.is(ErrorKind::BadRequest, containers_error(containers@)->0),
{
    let mut flac: Option<UpnpPcmContainerCapability> = None;
    let mut wav: Option<UpnpPcmContainerCapability> = None;
    let mut i: usize = 0;
    while i < containers.len()
        invariant
            i <= containers@.len(),
            containers_error(containers@.take(i as int)) is None,
            flac == best_entry(containers@.take(i as int), UpnpPcmContainer::Flac),
            wav == best_entry(containers@.take(i as int), UpnpPcmContainer::Wav),
        decreases containers@.len() - i,
    {
        let c = containers[i];
        proof {
            assert(containers@.take(i + 1).drop_last() =~= containers@.take(i as int));
            assert(containers@.take(i + 1).last() == c);
        }
        if !pcm_rate_known(c.max_sample_rate) {
            proof {
                lemma_first_error(containers@, i + 1);
            }
            return Err(PlaybackError::bad_request("Unsupported UPnP PCM container rate"));
        }
        let depth: u8 = match normal_depth(c.max_bit_depth) {
            Some(depth) => depth,
            None => {
                proof {
                    lemma_first_error(containers@, i + 1);
                }
                return Err(PlaybackError::bad_request("Unsupported UPnP PCM container bit depth"));
            },
        };
        match c.container {
            UpnpPcmContainer::Flac => {
                flac = Some(improved(flac, c.container, c.max_sample_rate, depth));
            },
            UpnpPcmContainer::Wav => {
                wav = Some(improved(wav, c.container, c.max_sample_rate, depth));
            },
        }
        i = i + 1;
    }
    proof {
        assert(containers@.take(i as int) =~= containers@);
    }
    let mut out: Vec<UpnpPcmContainerCapability> = Vec::new();
    match flac {
        Some(c) => {
            out.push(c);
        },
        None => {},
    }
    match wav {
        Some(c) => {
            out.push(c);
        },
        None => {},
    }
    proof {
        assert(out@ =~= spec_containers(containers@));
    }
    Ok(out)
}

proof fn lemma_first_error(containers: Seq<UpnpPcmContainerCapability>, n: int)
    requires
        0 <= n <= containers.len(),
        containers_error(containers.take(n)) is Some,
    ensures
        containers_error(containers) == containers_error(containers.take(n)),
    decreases containers.len() - n,
{
    if n < containers.len() {
        assert(containers.take(n + 1).drop_last() =~= containers.take(n));
        lemma_first_error(containers, n + 1);
    } else {
        assert(containers.take(n) =~= containers);
    }
}

/// Why capabilities are refused, if they are.
pub open spec fn capabilities_error(c: ZoneUpnpCapabilities) -> Option<Seq<char>> {
    if !is_pcm_rate(c.max_sample_rate) {
        Some("Unsupported UPnP PCM rate"@)
    } else if spec_depth(c.max_bit_depth) is None {
        Some("Unsupported UPnP bit depth"@)
    } else if c.max_dsd_rate is Some && c.max_dsd_rate->0 != 64 && c.max_dsd_rate->0 != 128
        && c.max_dsd_rate->0 != 256 {
        Some("Unsupported UPnP DSD rate"@)
    } else {
        containers_error(c.pcm_containers@)
    }
}

/// `after` is `before` in its normal form.
pub open spec fn capabilities_normalized(
    before: ZoneUpnpCapabilities,
    after: ZoneUpnpCapabilities,
) -> bool {
    &&& after.max_sample_rate == before.max_sample_rate
    &&& Some(after.max_bit_depth) == spec_depth(before.max_bit_depth)
    &&& after.max_dsd_rate == before.max_dsd_rate
    &&& after.pcm_containers@ == spec_containers(before.pcm_containers@)
}

/// The capabilities of a renderer in their normal form.
pub fn normalize_zone_upnp_capabilities(capabilities: ZoneUpnpCapabilities) -> (r: Result<
    ZoneUpnpCapabilities,
    PlaybackError,
>)
    ensures
        r is Ok <==> capabilities_error(capabilities) is None,
        r is Ok ==> capabilities_normalized(capabilities, r->Ok_0),
        r is Err ==> r->Err_0.is(ErrorKind::BadRequest, capabilities_error(capabilities)->0),
{
    if !pcm_rate_known(capabilities.max_sample_rate) {
        return Err(PlaybackError::bad_request("Unsupported UPnP PCM rate"));
    }
    let max_bit_depth: u8 = match normal_depth(capabilities.max_bit_depth) {
        Some(depth) => depth,
        None => return Err(PlaybackError::bad_request("Unsupported UPnP bit depth")),
    };
    match capabilities.max_dsd_rate {
        Some(rate) => {
            if rate != 64 && rate != 128 && rate != 256 {
                return Err(PlaybackError::bad_request("Unsupported UPnP DSD rate"));
            }
        },
        None => {},
    }
    let pcm_containers = match normalize_upnp_pcm_containers(capabilities.pcm_containers) {
        Ok(containers) => containers,
        Err(error) => return Err(error),
    };
    Ok(
        ZoneUpnpCapabilities {
            max_sample_rate: capabilities.max_sample_rate,
            max_bit_depth,
            max_dsd_rate: capabilities.max_dsd_rate,
            pcm_containers,
        },
    )
}

/// Normal forms stay as they are.
pub proof fn law_container_normalization_is_idempotent(
    containers: Seq<UpnpPcmContainerCapability>,
)
    requires
        containers_error(containers) is None,
    ensures
        containers_error(spec_containers(containers)) is None,
        spec_containers(spec_containers(containers)) == spec_containers(containers),
{
    lemma_best_valid(containers, UpnpPcmContainer::Flac);
    lemma_best_valid(containers, UpnpPcmContainer::Wav);
    let flac = best_entry(containers, UpnpPcmContainer::Flac);
    let wav = best_entry(containers, UpnpPcmContainer::Wav);
    let once = spec_containers(containers);
    let none = Seq::<UpnpPcmContainerCapability>::empty();
    assert(best_entry(none, UpnpPcmContainer::Flac) is None);
    assert(best_entry(none, UpnpPcmContainer::Wav) is None);
    match flac {
        Some(f) => {
            let one = seq![f];
            assert(one.drop_last() =~= none);
            assert(containers_error(one.drop_last()) is None);
            assert(containers_error(one) is None);
            assert(best_entry(one, UpnpPcmContainer::Flac) == Some(f));
            assert(best_entry(one, UpnpPcmContainer::Wav) is None);
            match wav {
                Some(w) => {
                    assert(once =~= seq![f, w]);
                    assert(once.drop_last() =~= one);
                    assert(containers_error(once) is None);
                    assert(best_entry(once, UpnpPcmContainer::Flac) == Some(f));
                    assert(best_entry(once, UpnpPcmContainer::Wav) == Some(w));
                },
                None => {
                    assert(once =~= one);
                },
            }
        },
        None => {
            match wav {
                Some(w) => {
                    let one = seq![w];
                    assert(one.drop_last() =~= none);
                    assert(containers_error(one.drop_last()) is None);
                    assert(once =~= one);
                    assert(best_entry(one, UpnpPcmContainer::Wav) == Some(w));
                    assert(best_entry(one, UpnpPcmContainer::Flac) is None);
                },
                None => {
                    assert(once =~= none);
                },
            }
        },
    }
}

proof fn lemma_best_valid(
    containers: Seq<UpnpPcmContainerCapability>,
    container: UpnpPcmContainer,
)
    requires
        containers_error(containers) is None,
    ensures
        best_entry(containers, container) is Some ==> ({
            let b = best_entry(containers, container)->0;
            &&& b.container == container
            &&& is_pcm_rate(b.max_sample_rate)
            &&& spec_depth(b.max_bit_depth) == Some(b.max_bit_depth)
        }),
    decreases containers.len(),
{
    if containers.len() > 0 {
        lemma_best_valid(containers.drop_last(), container);
    }
}

/// A default volume within the zone's maximum.
pub open spec fn spec_capped_volume(volume: Real32, max: Option<Real32>) -> Real32 {
    let unit = sinks::spec_clamped(volume, Real32 { bits: 0x3f80_0000 });
    match max {
        Some(limit) => sinks::spec_clamped(unit, limit),
        None => unit,
    }
}

fn capped_volume(volume: Real32, max: Option<Real32>) -> (r: Real32)
    ensures
        r == spec_capped_volume(volume, max),
{
    let unit = clamp_volume(volume, Real32 { bits: 0x3f80_0000 });
    match max {
        Some(limit) => clamp_volume(unit, limit),
        None => unit,
    }
}

/// The steps of a settings update that can be refused, in order.
#[derive(Clone, Copy, Debug, PartialEq, Eq, Structural)]
pub enum UpdateStep {
    Icon,
    DefaultVolume,
    BrowserStream,
    DeviceType,
    UpnpCapabilities,
}

/// The position of a step.
pub open spec fn step_rank(step: UpdateStep) -> int {
    match step {
        UpdateStep::Icon => 0,
        UpdateStep::DefaultVolume => 1,
        UpdateStep::BrowserStream => 2,
        UpdateStep::DeviceType => 3,
        UpdateStep::UpnpCapabilities => 4,
    }
}

/// The device type that an update asks for: the given one, else the stored
/// one, else none.
pub open spec fn wanted_device_type(settings: ZoneSettings, update: ZoneSettingsUpdate) -> Option<
    Seq<char>,
> {
    match update.device_type {
        Some(word) => spec_device_type(word@),
        None => match settings.device_type {
            Some(stored) => Some(stored@),
            None => Some("none"@),
        },
    }
}

/// The amplifier settings that an update ends up with.
pub open spec fn wanted_hegel(settings: ZoneSettings, update: ZoneSettingsUpdate) -> Option<
    ZoneHegelSettings,
> {
    if update.hegel is Some {
        update.hegel
    } else {
        settings.hegel
    }
}

/// Why the device type of an update is refused, if it is. An amplifier that
/// may not be reached is refused with `target_refusal`.
pub open spec fn device_error(
    settings: ZoneSettings,
    update: ZoneSettingsUpdate,
    target_refusal: Option<Seq<char>>,
) -> Option<Seq<char>> {
    let kind = wanted_device_type(settings, update);
    if update.device_type is None && update.hegel is None {
        None
    } else if kind is None {
        Some("Unsupported device type"@)
    } else if kind->0 == "none"@ {
        None
    } else if kind->0 == "hegel"@ {
        if wanted_hegel(settings, update) is None {
            Some("Hegel settings are required"@)
        } else if kept_text(wanted_hegel(settings, update)->0.host) is Some {
            target_refusal
        } else {
            None
        }
    } else {
        Some("Unsupported device type"@)
    }
}

/// The first step of an update that is refused, with the reason.
pub open spec fn update_refusal(
    settings: ZoneSettings,
    update: ZoneSettingsUpdate,
    protocol: SinkProtocol,
    target_refusal: Option<Seq<char>>,
) -> Option<(UpdateStep, Seq<char>)> {
    if update.icon is Some && !is_no_icon(normal_form(update.icon->0@)) && !is_icon(
        normal_form(update.icon->0@),
    ) {
        Some((UpdateStep::Icon, "Unsupported output icon"@))
    } else if update.airplay_default_volume_enabled == Some(true)
        && update.airplay_default_volume is None {
        Some((UpdateStep::DefaultVolume, "Default AirPlay volume is required"@))
    } else if update.browser_stream is Some && browser_stream_error(
        update.browser_stream->0,
    ) is Some {
        Some((UpdateStep::BrowserStream, browser_stream_error(update.browser_stream->0)->0))
    } else if device_error(settings, update, target_refusal) is Some {
        Some((UpdateStep::DeviceType, device_error(settings, update, target_refusal)->0))
    } else if update.upnp_capabilities is Some && protocol != SinkProtocol::UpnpAvRenderer {
        Some(
            (
                UpdateStep::UpnpCapabilities,
                "UPnP capabilities can only be set on UPnP zones"@,
            ),
        )
    } else if update.upnp_capabilities is Some && capabilities_error(
        update.upnp_capabilities->0,
    ) is Some {
        Some((UpdateStep::UpnpCapabilities, capabilities_error(update.upnp_capabilities->0)->0))
    } else {
        None
    }
}

/// The update got past `step` before it was refused, if it was.
pub open spec fn passed(refusal: Option<(UpdateStep, Seq<char>)>, step: UpdateStep) -> bool {
    refusal is None || step_rank((refusal->0).0) > step_rank(step)
}

/// The settings after an update: every step that was passed has been carried
/// out, in order, and nothing else has changed.
pub open spec fn settings_updated(
    before: ZoneSettings,
    after: ZoneSettings,
    update: ZoneSettingsUpdate,
    refusal: Option<(UpdateStep, Seq<char>)>,
) -> bool {
    let past_icon = passed(refusal, UpdateStep::Icon);
    let past_volume = passed(refusal, UpdateStep::DefaultVolume);
    let past_stream = passed(refusal, UpdateStep::BrowserStream);
    let past_device = passed(refusal, UpdateStep::DeviceType);
    let past_upnp = passed(refusal, UpdateStep::UpnpCapabilities);
    let device_asked = update.device_type is Some || update.hegel is Some;
    let kind = wanted_device_type(before, update);
    &&& after.airplay_last_volume == before.airplay_last_volume
    &&& after.airplay_max_volume == (if past_icon && update.airplay_max_volume is Some {
        Some(
            sinks::spec_clamped(
                update.airplay_max_volume->0,
                Real32 { bits: 0x3f80_0000 },
            ),
        )
    } else {
        before.airplay_max_volume
    })
    &&& after.airplay_default_volume == (if !past_volume {
        before.airplay_default_volume
    } else if update.airplay_default_volume_enabled == Some(false) {
        None
    } else if update.airplay_default_volume is Some {
        Some(spec_capped_volume(update.airplay_default_volume->0, after.airplay_max_volume))
    } else {
        before.airplay_default_volume
    })
    &&& text::opt_text(after.icon) == (if past_volume && update.icon is Some {
        if is_no_icon(normal_form(update.icon->0@)) {
            None
        } else {
            Some(normal_form(update.icon->0@))
        }
    } else {
        text::opt_text(before.icon)
    })
    &&& after.qobuz_hires_enabled == (if past_volume && update.qobuz_hires_enabled is Some {
        update.qobuz_hires_enabled->0
    } else {
        before.qobuz_hires_enabled
    })
    &&& if past_stream && update.browser_stream is Some {
        &&& after.browser_stream is Some
        &&& after.browser_stream->0.format@ == normal_form(update.browser_stream->0.format@)
        &&& after.browser_stream->0.opus_kbps == update.browser_stream->0.opus_kbps
    } else {
        after.browser_stream == before.browser_stream
    }
    &&& if past_device && device_asked {
        if kind->0 == "hegel"@ {
            &&& text::opt_text(after.device_type) == Some("hegel"@)
            &&& after.hegel is Some
            &&& hegel_normalized(wanted_hegel(before, update)->0, after.hegel->0)
        } else {
            &&& after.device_type is None
            &&& after.hegel is None
        }
    } else {
        &&& after.device_type == before.device_type
        &&& after.hegel == before.hegel
    }
    &&& if past_upnp && update.upnp_capabilities is Some {
        &&& after.upnp_capabilities is Some
        &&& capabilities_normalized(update.upnp_capabilities->0, after.upnp_capabilities->0)
        &&& if before.upnp_calibrated_capabilities is None && before.upnp_capabilities is Some {
            &&& after.upnp_calibrated_capabilities is Some
            &&& after.upnp_calibrated_capabilities->0.same_as(before.upnp_capabilities->0)
        } else {
            after.upnp_calibrated_capabilities == before.upnp_calibrated_capabilities
        }
    } else {
        &&& after.upnp_capabilities == before.upnp_capabilities
        &&& after.upnp_calibrated_capabilities == before.upnp_calibrated_capabilities
    }
}

/// The amplifier that an update would talk to, so that its address can be
/// checked first.
pub fn hegel_target_of_update(settings: &ZoneSettings, update: &ZoneSettingsUpdate) -> (r: Option<
    (String, u16),
>)
    ensures
        ({
            let asked = update.device_type is Some || update.hegel is Some;
            let kind = wanted_device_type(*settings, *update);
            let hegel = wanted_hegel(*settings, *update);
            &&& r is Some <==> asked && kind == Some("hegel"@) && hegel is Some && kept_text(
                hegel->0.host,
            ) is Some
            &&& r is Some ==> Some((r->0).0@) == kept_text(hegel->0.host) && (r->0).1 == (if
            hegel->0.port == 0 {
                50001
            } else {
                hegel->0.port
            })
        }),
{
    if update.device_type.is_none() && update.hegel.is_none() {
        return None;
    }
    let is_hegel = match &update.device_type {
        Some(word) => match normalize_zone_device_type(word.as_str()) {
            Ok(kind) => *kind == *"hegel",
            Err(_) => false,
        },
        None => match &settings.device_type {
            Some(stored) => *stored.as_str() == *"hegel",
            None => {
                proof {
                    reveal_strlit("none");
                    reveal_strlit("hegel");
                    assert("none"@.len() == 4);
                    assert("hegel"@.len() == 5);
                }
                false
            },
        },
    };
    if !is_hegel {
        return None;
    }
    let hegel = match &update.hegel {
        Some(hegel) => hegel.clone(),
        None => match &settings.hegel {
            Some(hegel) => hegel.clone(),
            None => return None,
        },
    };
    let normalized = normalize_zone_hegel_settings(hegel);
    match normalized.host {
        Some(host) => Some((host, normalized.port)),
        None => None,
    }
}

/// The volumes after an update: the limit first, and the default within it.
fn update_volumes(
    settings: &mut ZoneSettings,
    max_volume: Option<Real32>,
    default_enabled: Option<bool>,
    default_volume: Option<Real32>,
) -> (r: Result<(), PlaybackError>)
    ensures
        ({
            let max = if max_volume is Some {
                Some(sinks::spec_clamped(max_volume->0, Real32 { bits: 0x3f80_0000 }))
            } else {
                old(settings).airplay_max_volume
            };
            let missing = default_enabled == Some(true) && default_volume is None;
            &&& r is Err <==> missing
            &&& r is Err ==> r->Err_0.is(
                ErrorKind::BadRequest,
                "Default AirPlay volume is required"@,
            )
            &&& *final(settings) == (ZoneSettings {
                airplay_max_volume: max,
                airplay_default_volume: if missing {
                    old(settings).airplay_default_volume
                } else if default_enabled == Some(false) {
                    None
                } else if default_volume is Some {
                    Some(spec_capped_volume(default_volume->0, max))
                } else {
                    old(settings).airplay_default_volume
                },
                ..*old(settings)
            })
        }),
{
    match max_volume {
        Some(max_volume) => {
            settings.airplay_max_volume = Some(
                clamp_volume(max_volume, Real32 { bits: 0x3f80_0000 }),
            );
        },
        None => {},
    }
    match default_enabled {
        Some(false) => {
            settings.airplay_default_volume = None;
            return Ok(());
        },
        _ => {},
    }
    match default_volume {
        Some(volume) => {
            settings.airplay_default_volume = Some(
                capped_volume(volume, settings.airplay_max_volume),
            );
            Ok(())
        },
        None => match default_enabled {
            Some(true) => Err(PlaybackError::bad_request("Default AirPlay volume is required")),
            _ => Ok(()),
        },
    }
}

/// The device type and the amplifier's settings after an update.
fn update_device(
    settings: &mut ZoneSettings,
    update: &ZoneSettingsUpdate,
    target_refusal: Option<String>,
) -> (r: Result<(), PlaybackError>)
    ensures
        ({
            let error = device_error(*old(settings), *update, text::opt_text(target_refusal));
            let s = *final(settings);
            &&& r is Err <==> error is Some
            &&& r is Err ==> r->Err_0.is(ErrorKind::BadRequest, error->0) && s == *old(settings)
            &&& s == (ZoneSettings { device_type: s.device_type, hegel: s.hegel, ..*old(settings) })
            &&& r is Ok ==> if update.device_type is None && update.hegel is None {
                s == *old(settings)
            } else if wanted_device_type(*old(settings), *update)->0 == "hegel"@ {
                &&& text::opt_text(s.device_type) == Some("hegel"@)
                &&& s.hegel is Some
                &&& hegel_normalized(wanted_hegel(*old(settings), *update)->0, s.hegel->0)
            } else {
                &&& s.device_type is None
                &&& s.hegel is None
            }
        }),
{
    proof {
        reveal_strlit("none");
        reveal_strlit("hegel");
        assert("none"@.len() == 4);
        assert("hegel"@.len() == 5);
    }
    if update.device_type.is_none() && update.hegel.is_none() {
        return Ok(());
    }
    let kind: String = match &update.device_type {
        Some(word) => match normalize_zone_device_type(word.as_str()) {
            Ok(kind) => kind.to_string(),
            Err(error) => return Err(error),
        },
        None => match &settings.device_type {
            Some(stored) => stored.clone(),
            None => "none".to_string(),
        },
    };
    if *kind.as_str() == *"none" {
        settings.device_type = None;
        settings.hegel = None;
        return Ok(());
    }
    if *kind.as_str() != *"hegel" {
        return Err(PlaybackError::bad_request("Unsupported device type"));
    }
    let hegel = match &update.hegel {
        Some(hegel) => hegel.clone(),
        None => match &settings.hegel {
            Some(hegel) => hegel.clone(),
            None => return Err(PlaybackError::bad_request("Hegel settings are required")),
        },
    };
    let hegel = normalize_zone_hegel_settings(hegel);
    if hegel.host.is_some() {
        match target_refusal {
            Some(reason) => return Err(PlaybackError::BadRequest(reason)),
            None => {},
        }
    }
    settings.device_type = Some("hegel".to_string());
    settings.hegel = Some(hegel);
    Ok(())
}

/// Saved capabilities after an update. Those in use before are kept as the
/// ones to come back to, unless there are such already.
fn update_capabilities(
    settings: &mut ZoneSettings,
    protocol: SinkProtocol,
    capabilities: ZoneUpnpCapabilities,
) -> (r: Result<(), PlaybackError>)
    ensures
        ({
            let s = *final(settings);
            let error = if protocol != SinkProtocol::UpnpAvRenderer {
                Some("UPnP capabilities can only be set on UPnP zones"@)
            } else {
                capabilities_error(capabilities)
            };
            &&& r is Err <==> error is Some
            &&& r is Err ==> r->Err_0.is(ErrorKind::BadRequest, error->0) && s == *old(settings)
            &&& s == (ZoneSettings {
                upnp_capabilities: s.upnp_capabilities,
                upnp_calibrated_capabilities: s.upnp_calibrated_capabilities,
                ..*old(settings)
            })
            &&& r is Ok ==> s.upnp_capabilities is Some && capabilities_normalized(
                capabilities,
                s.upnp_capabilities->0,
            )
            &&& r is Ok ==> if old(settings).upnp_calibrated_capabilities is None && old(
                settings,
            ).upnp_capabilities is Some {
                &&& s.upnp_calibrated_capabilities is Some
                &&& s.upnp_calibrated_capabilities->0.same_as(old(settings).upnp_capabilities->0)
            } else {
                s.upnp_calibrated_capabilities == old(settings).upnp_calibrated_capabilities
            }
        }),
{
    if protocol != SinkProtocol::UpnpAvRenderer {
        return Err(PlaybackError::bad_request("UPnP capabilities can only be set on UPnP zones"));
    }
    let normalized = match normalize_zone_upnp_capabilities(capabilities) {
        Ok(normalized) => normalized,
        Err(error) => return Err(error),
    };
    if settings.upnp_calibrated_capabilities.is_none() {
        let stored = match &settings.upnp_capabilities {
            Some(stored) => Some(stored.clone()),
            None => None,
        };
        settings.upnp_calibrated_capabilities = stored;
    }
    settings.upnp_capabilities = Some(normalized);
    Ok(())
}

/// The protocol of the first zone with the given id.
pub open spec fn protocol_of(zones: Seq<ZoneProfile>, zone_id: Seq<char>) -> Option<SinkProtocol>
    decreases zones.len(),
{
    if zones.len() == 0 {
        None
    } else if zones[0].id@ == zone_id {
        Some(zones[0].protocol)
    } else {
        protocol_of(zones.skip(1), zone_id)
    }
}

fn find_protocol(zones: &[ZoneProfile], zone_id: &str) -> (r: Option<SinkProtocol>)
    ensures
        r == protocol_of(zones@, zone_id@),
{
    let mut i: usize = 0;
    proof {
        assert(zones@.skip(0) =~= zones@);
    }
    while i < zones.len()
        invariant
            i <= zones@.len(),
            protocol_of(zones@.skip(i as int), zone_id@) == protocol_of(zones@, zone_id@),
        decreases zones@.len() - i,
    {
        if *zones[i].id.as_str() == *zone_id {
            return Some(zones[i].protocol);
        }
        proof {
            assert(zones@.skip(i as int).skip(1) =~= zones@.skip(i + 1));
        }
        i = i + 1;
    }
    None
}

/// Carries out an update of a zone's settings, step by step. A refused step
/// ends it; what was carried out before stays. `target_refusal` says why the
/// amplifier's address is not allowed, if it is not.
pub fn update_playback_zone_settings(
    zones: &[ZoneProfile],
    zone_id: &str,
    settings: &mut ZoneSettings,
    update: ZoneSettingsUpdate,
    target_refusal: Option<String>,
) -> (r: Result<(), PlaybackError>)
    ensures
        match protocol_of(zones@, zone_id@) {
            None => r is Err && r->Err_0.is(
                ErrorKind::NotFound,
                "Zone '"@ + zone_id@ + "' is not available"@,
            ) && *final(settings) == *old(settings),
            Some(protocol) => {
                let refusal = update_refusal(
                    *old(settings),
                    update,
                    protocol,
                    text::opt_text(target_refusal),
                );
                &&& r is Ok <==> refusal is None
                &&& r is Err ==> r->Err_0.is(ErrorKind::BadRequest, (refusal->0).1)
                &&& settings_updated(*old(settings), *final(settings), update, refusal)
            },
        },
{
    let protocol = match find_protocol(zones, zone_id) {
        Some(protocol) => protocol,
        None => {
            let mut message = "Zone '".to_string();
            message.append(zone_id);
            message.append("' is not available");
            return Err(PlaybackError::NotFound(message));
        },
    };
    let icon_given = update.icon.is_some();
    let icon = match &update.icon {
        Some(icon) => match normalize_zone_icon(icon.as_str()) {
            Ok(icon) => icon,
            Err(error) => return Err(error),
        },
        None => None,
    };
    match update_volumes(
        settings,
        update.airplay_max_volume,
        update.airplay_default_volume_enabled,
        update.airplay_default_volume,
    ) {
        Ok(()) => {},
        Err(error) => return Err(error),
    }
    if icon_given {
        settings.icon = icon;
    }
    match update.qobuz_hires_enabled {
        Some(enabled) => {
            settings.qobuz_hires_enabled = enabled;
        },
        None => {},
    }
    match &update.browser_stream {
        Some(stream) => match validate_browser_stream_settings(stream.clone()) {
            Ok(stream) => {
                settings.browser_stream = Some(stream);
            },
            Err(error) => return Err(error),
        },
        None => {},
    }
    match update_device(settings, &update, target_refusal) {
        Ok(()) => {},
        Err(error) => return Err(error),
    }
    match update.upnp_capabilities {
        Some(capabilities) => update_capabilities(settings, protocol, capabilities),
        None => Ok(()),
    }
}

/// The capabilities of a renderer as they are saved.
pub open spec fn saves_target(c: ZoneUpnpCapabilities, target: UpnpRendererTarget) -> bool {
    &&& c.max_sample_rate == target.max_sample_rate
    &&& c.max_bit_depth == target.max_bit_depth
    &&& c.max_dsd_rate == target.max_dsd_rate
    &&& c.pcm_containers@ == target.pcm_containers@
}

/// Saves what a calibration found of a renderer, both as the capabilities in
/// use and as those to come back to.
pub fn persist_calibrated_upnp_capabilities(
    settings: &mut ZoneSettings,
    target: &UpnpRendererTarget,
)
    ensures
        final(settings).upnp_capabilities is Some,
        saves_target(final(settings).upnp_capabilities->0, *target),
        final(settings).upnp_calibrated_capabilities is Some,
        saves_target(final(settings).upnp_calibrated_capabilities->0, *target),
        *final(settings) == (ZoneSettings {
            upnp_capabilities: final(settings).upnp_capabilities,
            upnp_calibrated_capabilities: final(settings).upnp_calibrated_capabilities,
            ..*old(settings)
        }),
{
    let saved = ZoneUpnpCapabilities {
        max_sample_rate: target.max_sample_rate,
        max_bit_depth: target.max_bit_depth,
        max_dsd_rate: target.max_dsd_rate,
        pcm_containers: target.pcm_containers.clone(),
    };
    proof {
        assert(saved.pcm_containers@ =~= target.pcm_containers@);
    }
    settings.upnp_calibrated_capabilities = Some(saved.clone());
    settings.upnp_capabilities = Some(saved);
}

/// The first zone with the given id.
pub open spec fn zone_of(zones: Seq<ZoneProfile>, zone_id: Seq<char>) -> Option<ZoneProfile>
    decreases zones.len(),
{
    if zones.len() == 0 {
        None
    } else if zones[0].id@ == zone_id {
        Some(zones[0])
    } else {
        zone_of(zones.skip(1), zone_id)
    }
}

/// The definition under which a calibrated renderer is stored: it keeps the
/// name of its zone and whether that is enabled; a renderer without a zone
/// goes by its own name and is enabled.
pub fn calibrated_zone_definition(
    zones: &[ZoneProfile],
    zone_id: &str,
    target: &UpnpRendererTarget,
    device_name: String,
) -> (r: ZoneDefinition)
    ensures
        r.id@ == zone_id@,
        r.kind is Some,
        r.kind->0@ == "upnp_av_renderer"@,
        r.device_name == Some(device_name),
        match zone_of(zones@, zone_id@) {
            Some(zone) => r.name == zone.name && r.enabled == zone.enabled,
            None => r.name == target.name && r.enabled,
        },
{
    let mut name = target.name.clone();
    let mut enabled = true;
    let mut i: usize = 0;
    proof {
        assert(zones@.skip(0) =~= zones@);
    }
    while i < zones.len()
        invariant_except_break
            i <= zones@.len(),
            zone_of(zones@.skip(i as int), zone_id@) == zone_of(zones@, zone_id@),
            name == target.name,
            enabled,
        ensures
            match zone_of(zones@, zone_id@) {
                Some(zone) => name == zone.name && enabled == zone.enabled,
                None => name == target.name && enabled,
            },
        decreases zones@.len() - i,
    {
        if *zones[i].id.as_str() == *zone_id {
            name = zones[i].name.clone();
            enabled = zones[i].enabled;
            break;
        }
        proof {
            assert(zones@.skip(i as int).skip(1) =~= zones@.skip(i + 1));
        }
        i = i + 1;
    }
    ZoneDefinition {
        id: zone_id.to_string(),
        name,
        kind: Some("upnp_av_renderer".to_string()),
        device_name: Some(device_name),
        enabled,
    }
}

/// The zone that is selected when the core starts.
#[derive(Debug)]
pub struct ActiveZoneSettings {
    pub active_zone_id: Option<String>,
}

/// Selects a zone, once the zone itself could be selected.
pub fn select_playback_zone(
    settings: &mut ActiveZoneSettings,
    selected: Result<(), String>,
    zone_id: &str,
) -> (r: Result<(), PlaybackError>)
    ensures
        r is Ok <==> selected is Ok,
        r is Ok ==> text::opt_text(final(settings).active_zone_id) == Some(zone_id@),
        r is Err ==> *final(settings) == *old(settings) && r->Err_0.is(
            ErrorKind::BadRequest,
            selected->Err_0@,
        ),
{
    match selected {
        Ok(()) => {
            settings.active_zone_id = Some(zone_id.to_string());
            Ok(())
        },
        Err(error) => Err(PlaybackError::BadRequest(error)),
    }
}

/// After a zone was enabled, the zone that is preferred now is selected.
pub fn enable_playback_zone(
    settings: &mut ActiveZoneSettings,
    enabled: Result<(), String>,
    preferred_zone_id: &str,
) -> (r: Result<(), PlaybackError>)
    ensures
        r is Ok <==> enabled is Ok,
        r is Ok ==> text::opt_text(final(settings).active_zone_id) == Some(preferred_zone_id@),
        r is Err ==> *final(settings) == *old(settings) && r->Err_0.is(
            ErrorKind::BadRequest,
            enabled->Err_0@,
        ),
{
    select_playback_zone(settings, enabled, preferred_zone_id)
}

/// After a zone was disabled, the zone that is preferred now is selected.
pub fn disable_playback_zone(
    settings: &mut ActiveZoneSettings,
    disabled: Result<(), String>,
    preferred_zone_id: &str,
) -> (r: Result<(), PlaybackError>)
    ensures
        r is Ok <==> disabled is Ok,
        r is Ok ==> text::opt_text(final(settings).active_zone_id) == Some(preferred_zone_id@),
        r is Err ==> *final(settings) == *old(settings) && r->Err_0.is(
            ErrorKind::BadRequest,
            disabled->Err_0@,
        ),
{
    select_playback_zone(settings, disabled, preferred_zone_id)
}

/// The name under which a renamed zone is stored.
pub fn rename_playback_zone(name: &str) -> (r: String)
    ensures
        r@ == text::trimmed(name@),
{
    name.trim().to_string()
}

/// A speaker that discovery reports.
#[derive(Debug)]
pub struct SonosSpeaker {
    pub id: String,
    pub name: String,
    pub host: String,
    pub port: u16,
    pub model: Option<String>,
    pub coordinator: bool,
    pub group_name: Option<String>,
    pub online: bool,
}

/// A list of speakers has one of the given id.
pub open spec fn has_speaker(speakers: Seq<SonosSpeaker>, id: Seq<char>) -> bool {
    exists|i: int| 0 <= i < speakers.len() && (#[trigger] speakers[i]).id@ == id
}

/// A renderer that is a speaker: online, and made by Sonos.
pub open spec fn is_speaker(renderer: UpnpRenderer) -> bool {
    renderer.online && renderer.target.manufacturer is Some && upnp_target::names_sonos(
        renderer.target.manufacturer->0@,
    )
}

/// The speaker that a renderer is.
pub open spec fn speaker_of(renderer: UpnpRenderer) -> SonosSpeaker {
    SonosSpeaker {
        id: renderer.target.id,
        name: renderer.target.name,
        host: renderer.target.host,
        port: renderer.target.port,
        model: renderer.target.model,
        coordinator: true,
        group_name: None,
        online: true,
    }
}

/// The speakers, and behind them the renderers that are speakers but were not
/// discovered as such.
pub open spec fn all_speakers(speakers: Seq<SonosSpeaker>, renderers: Seq<UpnpRenderer>) -> Seq<
    SonosSpeaker,
>
    decreases renderers.len(),
{
    if renderers.len() == 0 {
        speakers
    } else {
        let before = all_speakers(speakers, renderers.drop_last());
        let renderer = renderers.last();
        if is_speaker(renderer) && !has_speaker(before, renderer.target.id@) {
            before.push(speaker_of(renderer))
        } else {
            before
        }
    }
}

fn knows_speaker(speakers: &Vec<SonosSpeaker>, id: &String) -> (r: bool)
    ensures
        r == has_speaker(speakers@, id@),
{
    let mut i: usize = 0;
    while i < speakers.len()
        invariant
            i <= speakers@.len(),
            forall|k: int| 0 <= k < i ==> (#[trigger] speakers@[k]).id@ != id@,
        decreases speakers@.len() - i,
    {
        if speakers[i].id == *id {
            return true;
        }
        i = i + 1;
    }
    false
}

/// The speakers, and behind them the renderers that are speakers but were not
/// discovered as such.
pub fn sonos_speakers_with_renderers(
    speakers: Vec<SonosSpeaker>,
    renderers: &[UpnpRenderer],
) -> (r: Vec<SonosSpeaker>)
    ensures
        r@ == all_speakers(speakers@, renderers@),
{
    let ghost known = speakers@;
    let mut out = speakers;
    let mut i: usize = 0;
    proof {
        assert(renderers@.take(0) =~= Seq::<UpnpRenderer>::empty());
    }
    while i < renderers.len()
        invariant
            i <= renderers@.len(),
            out@ == all_speakers(known, renderers@.take(i as int)),
        decreases renderers@.len() - i,
    {
        let renderer = &renderers[i];
        proof {
            assert(renderers@.take(i + 1).drop_last() =~= renderers@.take(i as int));
            assert(renderers@.take(i + 1).last() == *renderer);
        }
        let made_by_sonos = match &renderer.target.manufacturer {
            Some(name) => upnp_target::mentions_sonos(name.as_str()),
            None => false,
        };
        if renderer.online && made_by_sonos && !knows_speaker(&out, &renderer.target.id) {
            out.push(
                SonosSpeaker {
                    id: renderer.target.id.clone(),
                    name: renderer.target.name.clone(),
                    host: renderer.target.host.clone(),
                    port: renderer.target.port,
                    model: renderer.target.model.clone(),
                    coordinator: true,
                    group_name: None,
                    online: true,
                },
            );
        }
        i = i + 1;
    }
    proof {
        assert(renderers@.take(i as int) =~= renderers@);
    }
    out
}

/// What a refresh of the zones may touch.
#[derive(Clone, Copy, Debug, PartialEq, Eq, Structural)]
pub struct RefreshPlan {
    /// Take over the enumerated local devices.
    pub sync_local_devices: bool,
    /// Apply the active zone's settings, and select its device.
    pub apply_active_settings: bool,
}

/// What a refresh of the zones may touch. While a direct marked output owns a
/// device, the system may leave it out of its enumeration; taking that for the
/// truth would strand the zone. Ownership is asked before and after.
pub fn refresh_playback_zones_inner(owned_before: bool, owned_after: bool) -> (r: RefreshPlan)
    ensures
        r.sync_local_devices == (!owned_before && !owned_after),
        r.apply_active_settings == (!owned_before && !owned_after),
{
    let quiet = owned_before || owned_after;
    RefreshPlan { sync_local_devices: !quiet, apply_active_settings: !quiet }
}

/// A stored zone definition.
#[derive(Debug)]
pub struct ZoneDefinition {
    pub id: String,
    pub name: String,
    pub kind: Option<String>,
    pub device_name: Option<String>,
    pub enabled: bool,
}

/// A definition of an output of this machine.
pub open spec fn spec_is_local_output(kind: Option<Seq<char>>) -> bool {
    kind != Some("airplay_coreaudio"@) && kind != Some("airplay_raop"@) && kind != Some(
        "airplay2"@,
    ) && kind != Some("sonos_upnp"@) && kind != Some("remote_agent"@) && kind != Some(
        "upnp_av_renderer"@,
    )
}

/// Whether a definition is of an output of this machine.
pub fn definition_is_local_output(definition: &ZoneDefinition) -> (r: bool)
    ensures
        r == spec_is_local_output(text::opt_text(definition.kind)),
{
    match &definition.kind {
        Some(kind) => {
            let kind = kind.as_str();
            !(*kind == *"airplay_coreaudio" || *kind == *"airplay_raop" || *kind == *"airplay2"
                || *kind == *"sonos_upnp" || *kind == *"remote_agent" || *kind
                == *"upnp_av_renderer")
        },
        None => true,
    }
}

/// The settings of the amplifier behind a local output.
#[derive(Debug)]
pub struct HegelSettings {
    pub enabled: bool,
    pub zone_id: Option<String>,
    pub linked_airplay_zone_id: Option<String>,
    pub host: Option<String>,
    pub standby_usb_visible: bool,
}

/// A zone is the amplifier's network side, and it is there.
pub open spec fn is_network_link(zone: ZoneProfile, linked: Seq<char>) -> bool {
    zone.id@ == linked && (zone.protocol == SinkProtocol::AirPlayCoreAudio || zone.protocol
        == SinkProtocol::AirPlayRaop || zone.protocol == SinkProtocol::AirPlay2) && zone.status
        != ZoneStatus::Offline
}

/// The amplifier can be reached over the network: its linked zone is there, or
/// without one, its address is known.
pub open spec fn spec_link_visible(settings: HegelSettings, zones: Seq<ZoneProfile>) -> bool {
    match settings.linked_airplay_zone_id {
        Some(linked) => exists|i: int|
            0 <= i < zones.len() && is_network_link(#[trigger] zones[i], linked@),
        None => kept_text(settings.host) is Some,
    }
}

/// Whether the amplifier can be reached over the network.
pub fn hegel_network_link_visible(settings: &HegelSettings, zones: &[ZoneProfile]) -> (r: bool)
    ensures
        r == spec_link_visible(*settings, zones@),
{
    match &settings.linked_airplay_zone_id {
        Some(linked) => {
            let mut i: usize = 0;
            while i < zones.len()
                invariant
                    i <= zones@.len(),
                    settings.linked_airplay_zone_id == Some(*linked),
                    forall|k: int| 0 <= k < i ==> !is_network_link(#[trigger] zones@[k], linked@),
                decreases zones@.len() - i,
            {
                let zone = &zones[i];
                let airplay = match zone.protocol {
                    SinkProtocol::AirPlayCoreAudio => true,
                    SinkProtocol::AirPlayRaop => true,
                    SinkProtocol::AirPlay2 => true,
                    _ => false,
                };
                if zone.id == *linked && airplay && zone.status != ZoneStatus::Offline {
                    proof {
                        assert(is_network_link(zones@[i as int], linked@));
                    }
                    return true;
                }
                i = i + 1;
            }
            false
        },
        None => match &settings.host {
            Some(host) => !host.as_str().trim().is_empty(),
            None => false,
        },
    }
}

/// How the zone of a configured amplifier is kept.
#[derive(Debug)]
pub struct HegelZoneSync {
    pub zone_id: String,
    pub name: String,
    pub device_name: String,
    pub enabled: bool,
    /// What the zone says while its device is away.
    pub message: String,
    /// What the zone says when it is offered while its device is asleep.
    pub standby_message: Option<String>,
}

/// A definition is that of the amplifier's zone.
pub open spec fn is_hegel_definition(definition: ZoneDefinition, zone_id: Seq<char>) -> bool {
    definition.id@ == zone_id && spec_is_local_output(text::opt_text(definition.kind))
}

/// The first definition of the amplifier's zone.
pub open spec fn first_hegel_definition(
    definitions: Seq<ZoneDefinition>,
    zone_id: Seq<char>,
) -> Option<ZoneDefinition>
    decreases definitions.len(),
{
    if definitions.len() == 0 {
        None
    } else if is_hegel_definition(definitions[0], zone_id) {
        Some(definitions[0])
    } else {
        first_hegel_definition(definitions.skip(1), zone_id)
    }
}

/// How the zone of a configured amplifier is kept: it stays known while its
/// device is away, and is offered while the amplifier can be woken.
pub fn sync_hegel_configured_zone(
    settings: &HegelSettings,
    definitions: &[ZoneDefinition],
    zones: &[ZoneProfile],
) -> (r: Option<HegelZoneSync>)
    ensures
        ({
            let found = match settings.zone_id {
                Some(id) => first_hegel_definition(definitions@, id@),
                None => None,
            };
            &&& r is Some <==> settings.enabled && found is Some && kept_text(
                found->0.device_name,
            ) is Some
            &&& r is Some ==> r->0.zone_id == found->0.id && r->0.name == found->0.name && Some(
                r->0.device_name@,
            ) == kept_text(found->0.device_name) && r->0.enabled == found->0.enabled
                && r->0.message@
                == "Hegel USB is not currently detected; enable standby visibility to wake it from the network link."@
                && text::opt_text(r->0.standby_message) == (if settings.standby_usb_visible
                && spec_link_visible(*settings, zones@) {
                Some("Hegel network link is visible; USB will wake before playback starts."@)
            } else {
                None
            })
        }),
{
    if !settings.enabled {
        return None;
    }
    let zone_id = match &settings.zone_id {
        Some(zone_id) => zone_id,
        None => return None,
    };
    let mut i: usize = 0;
    proof {
        assert(definitions@.skip(0) =~= definitions@);
    }
    while i < definitions.len()
        invariant
            i <= definitions@.len(),
            settings.enabled,
            settings.zone_id == Some(*zone_id),
            first_hegel_definition(definitions@.skip(i as int), zone_id@)
                == first_hegel_definition(definitions@, zone_id@),
        decreases definitions@.len() - i,
    {
        let definition = &definitions[i];
        if definition.id == *zone_id && definition_is_local_output(definition) {
            let device_name = match &definition.device_name {
                Some(name) => {
                    let trimmed = name.as_str().trim();
                    if trimmed.is_empty() {
                        return None;
                    }
                    trimmed.to_string()
                },
                None => return None,
            };
            return Some(
                HegelZoneSync {
                    zone_id: definition.id.clone(),
                    name: definition.name.clone(),
                    device_name,
                    enabled: definition.enabled,
                    message:
                        "Hegel USB is not currently detected; enable standby visibility to wake it from the network link.".to_string(),
                    standby_message: if settings.standby_usb_visible && hegel_network_link_visible(
                        settings,
                        zones,
                    ) {
                        Some(
                            "Hegel network link is visible; USB will wake before playback starts.".to_string(),
                        )
                    } else {
                        None
                    },
                },
            );
        }
        proof {
            assert(definitions@.skip(i as int).skip(1) =~= definitions@.skip(i + 1));
        }
        i = i + 1;
    }
    None
}

/// The capabilities that a zone shows when some were saved for it.
pub open spec fn spec_saved_capabilities(
    shown: ZoneCapabilities,
    saved: ZoneUpnpCapabilities,
    message: Option<String>,
) -> ZoneCapabilities {
    ZoneCapabilities {
        max_sample_rate: saved.max_sample_rate,
        max_bit_depth: saved.max_bit_depth,
        max_dsd_rate: saved.max_dsd_rate,
        supports_dsd128: saved.max_dsd_rate is Some && saved.max_dsd_rate->0 >= 128,
        supports_dsd256: saved.max_dsd_rate is Some && saved.max_dsd_rate->0 >= 256,
        capability_detection_source: CapabilityDetectionSource::Probed,
        capability_detection_status: CapabilityDetectionStatus::Complete,
        capability_detection_message: message,
        ..shown
    }
}

/// A zone as it is shown, with its settings.
pub open spec fn zone_enriched(
    before: ZoneProfile,
    after: ZoneProfile,
    settings: ZoneSettings,
) -> bool {
    let saved = settings.upnp_capabilities;
    let overridden = before.protocol == SinkProtocol::UpnpAvRenderer && saved is Some;
    &&& after == (ZoneProfile {
        airplay_default_volume: settings.airplay_default_volume,
        airplay_max_volume: settings.airplay_max_volume,
        airplay_last_volume: settings.airplay_last_volume,
        qobuz_hires_enabled: settings.qobuz_hires_enabled,
        icon: settings.icon,
        device_type: settings.device_type,
        hegel: settings.hegel,
        browser_stream: settings.browser_stream,
        upnp_calibrated_capabilities: after.upnp_calibrated_capabilities,
        capabilities: after.capabilities,
        ..before
    })
    &&& if settings.upnp_calibrated_capabilities is Some {
        after.upnp_calibrated_capabilities == settings.upnp_calibrated_capabilities
    } else if saved is Some {
        &&& after.upnp_calibrated_capabilities is Some
        &&& after.upnp_calibrated_capabilities->0.same_as(saved->0)
    } else {
        after.upnp_calibrated_capabilities is None
    }
    &&& if overridden {
        &&& after.capabilities == spec_saved_capabilities(
            before.capabilities,
            saved->0,
            after.capabilities.capability_detection_message,
        )
        &&& text::opt_text(after.capabilities.capability_detection_message) == Some(
            "Saved UPnP capability override"@,
        )
    } else {
        after.capabilities == before.capabilities
    }
}

/// Shows a zone's stored settings in its profile. On a renderer, saved
/// capabilities take the place of the detected ones.
pub fn enrich_zone_settings(zone: &mut ZoneProfile, settings: ZoneSettings)
    ensures
        zone_enriched(*old(zone), *final(zone), settings),
{
    zone.airplay_default_volume = settings.airplay_default_volume;
    zone.airplay_max_volume = settings.airplay_max_volume;
    zone.airplay_last_volume = settings.airplay_last_volume;
    zone.qobuz_hires_enabled = settings.qobuz_hires_enabled;
    zone.icon = settings.icon;
    zone.device_type = settings.device_type;
    zone.hegel = settings.hegel;
    zone.browser_stream = settings.browser_stream;
    zone.upnp_calibrated_capabilities = match settings.upnp_calibrated_capabilities {
        Some(calibrated) => Some(calibrated),
        None => match &settings.upnp_capabilities {
            Some(saved) => Some(saved.clone()),
            None => None,
        },
    };
    if zone.protocol == SinkProtocol::UpnpAvRenderer {
        match settings.upnp_capabilities {
            Some(saved) => {
                zone.capabilities.max_sample_rate = saved.max_sample_rate;
                zone.capabilities.max_bit_depth = saved.max_bit_depth;
                zone.capabilities.max_dsd_rate = saved.max_dsd_rate;
                zone.capabilities.supports_dsd128 = match saved.max_dsd_rate {
                    Some(rate) => rate >= 128,
                    None => false,
                };
                zone.capabilities.supports_dsd256 = match saved.max_dsd_rate {
                    Some(rate) => rate >= 256,
                    None => false,
                };
                zone.capabilities.capability_detection_source = CapabilityDetectionSource::Probed;
                zone.capabilities.capability_detection_status = CapabilityDetectionStatus::Complete;
                zone.capabilities.capability_detection_message = Some(
                    "Saved UPnP capability override".to_string(),
                );
            },
            None => {},
        }
    }
}

/// An agent's zone that has the given device. The zone of a browser is private
/// to its session: it offers nothing to the core.
pub open spec fn offers_device(zone: ZoneProfile, device: Seq<char>) -> bool {
    zone.protocol == SinkProtocol::RemoteAgent && zone.enabled && !zone.browser
        && zone.device_name is Some && text::trimmed(zone.device_name->0@) == device
}

/// The first zone of an agent that has the given device.
pub open spec fn first_offer(zones: Seq<ZoneProfile>, device: Seq<char>) -> Option<Seq<char>>
    decreases zones.len(),
{
    if zones.len() == 0 {
        None
    } else if offers_device(zones[0], device) {
        Some(zones[0].id@)
    } else {
        first_offer(zones.skip(1), device)
    }
}

/// What is offered is an agent's zone that has the device, and never that of a
/// browser: a browser zone does not become the active zone of the core.
pub proof fn law_browser_zone_is_never_offered(zones: Seq<ZoneProfile>, device: Seq<char>)
    ensures
        first_offer(zones, device) is Some ==> exists|i: int|
            0 <= i < zones.len() && (#[trigger] zones[i]).id@ == first_offer(zones, device)->0
                && offers_device(zones[i], device) && !zones[i].browser,
        first_offer(zones, device) is None <==> forall|i: int|
            0 <= i < zones.len() ==> !offers_device(#[trigger] zones[i], device),
    decreases zones.len(),
{
    if zones.len() > 0 && !offers_device(zones[0], device) {
        let rest = zones.skip(1);
        law_browser_zone_is_never_offered(rest, device);
        if first_offer(rest, device) is Some {
            let i = choose|i: int|
                0 <= i < rest.len() && (#[trigger] rest[i]).id@ == first_offer(rest, device)->0
                    && offers_device(rest[i], device) && !rest[i].browser;
            assert(zones[i + 1] == rest[i]);
        } else {
            assert forall|i: int| 0 <= i < zones.len() implies !offers_device(
                #[trigger] zones[i],
                device,
            ) by {
                if i > 0 {
                    assert(rest[i - 1] == zones[i]);
                }
            }
        }
    } else if zones.len() > 0 {
        assert(zones[0].id@ == first_offer(zones, device)->0);
    }
}

/// Where only browser zones have the device, there is nothing to switch to.
pub proof fn law_browser_zones_alone_offer_nothing(zones: Seq<ZoneProfile>, device: Seq<char>)
    requires
        forall|i: int|
            0 <= i < zones.len() && (#[trigger] zones[i]).device_name is Some && text::trimmed(
                zones[i].device_name->0@,
            ) == device ==> zones[i].browser,
    ensures
        first_offer(zones, device) is None,
{
    law_browser_zone_is_never_offered(zones, device);
}

/// The agent's zone to switch to because the saved device of the active zone
/// is not on this machine, if there is one. A browser zone is passed over.
pub fn maybe_select_remote_zone_for_unavailable_active_device(
    active_protocol: Option<SinkProtocol>,
    saved_device: Option<&str>,
    device_available: bool,
    zones: &[ZoneProfile],
) -> (r: Option<String>)
    ensures
        text::opt_text(r) == (if active_protocol == Some(SinkProtocol::RemoteAgent)
            || saved_device is None || text::trimmed(saved_device->0@).len() == 0
            || device_available {
            None
        } else {
            first_offer(zones@, text::trimmed(saved_device->0@))
        }),
{
    match active_protocol {
        Some(SinkProtocol::RemoteAgent) => return None,
        _ => {},
    }
    let device = match saved_device {
        Some(device) => device.trim(),
        None => return None,
    };
    if device.is_empty() || device_available {
        return None;
    }
    let mut i: usize = 0;
    proof {
        assert(zones@.skip(0) =~= zones@);
    }
    while i < zones.len()
        invariant
            i <= zones@.len(),
            active_protocol != Some(SinkProtocol::RemoteAgent),
            saved_device is Some && device@ == text::trimmed(saved_device->0@),
            device@.len() > 0 && !device_available,
            first_offer(zones@.skip(i as int), device@) == first_offer(zones@, device@),
        decreases zones@.len() - i,
    {
        let zone = &zones[i];
        let same_device = match &zone.device_name {
            Some(name) => *name.as_str().trim() == *device,
            None => false,
        };
        if zone.protocol == SinkProtocol::RemoteAgent && zone.enabled && !zone.browser
            && same_device {
            return Some(zone.id.clone());
        }
        proof {
            assert(zones@.skip(i as int).skip(1) =~= zones@.skip(i + 1));
        }
        i = i + 1;
    }
    None
}

/// Some enumerated device has the given name.
pub open spec fn enumerated(devices: Seq<String>, name: Seq<char>) -> bool {
    exists|i: int| 0 <= i < devices.len() && text::trimmed((#[trigger] devices[i])@) == name
}

/// The device to select for the active zone after devices were enumerated: the
/// one that the zone is bound to or that was saved for it, once it is there,
/// unless the player already uses it. An agent's zone has its device
/// elsewhere.
pub fn apply_active_discovered_device_selection(
    active_protocol: Option<SinkProtocol>,
    bound_device: Option<String>,
    saved_device: Option<String>,
    available_devices: &[String],
    selected_device: Option<&str>,
) -> (r: Option<String>)
    ensures
        ({
            let configured = kept_text(
                (if bound_device is Some {
                    bound_device
                } else {
                    saved_device
                }),
            );
            text::opt_text(r) == (if active_protocol != Some(SinkProtocol::RemoteAgent)
                && configured is Some && enumerated(available_devices@, configured->0) && !(
            selected_device is Some && text::trimmed(selected_device->0@) == configured->0) {
                configured
            } else {
                None
            })
        }),
{
    match active_protocol {
        Some(SinkProtocol::RemoteAgent) => return None,
        _ => {},
    }
    let configured = match keep_text(
        match bound_device {
            Some(device) => Some(device),
            None => saved_device,
        },
    ) {
        Some(device) => device,
        None => return None,
    };
    let mut found = false;
    let mut i: usize = 0;
    while i < available_devices.len()
        invariant
            i <= available_devices@.len(),
            found == exists|k: int|
                0 <= k < i && text::trimmed((#[trigger] available_devices@[k])@) == configured@,
        decreases available_devices@.len() - i,
    {
        let same = *available_devices[i].as_str().trim() == *configured.as_str();
        proof {
            assert(same == (text::trimmed(available_devices@[i as int]@) == configured@));
        }
        if same {
            found = true;
        }
        i = i + 1;
    }
    if !found {
        return None;
    }
    match selected_device {
        Some(selected) => {
            if *selected.trim() == *configured.as_str() {
                return None;
            }
        },
        None => {},
    }
    Some(configured)
}

/// A word that is trimmed and in lower case is its own normal form, and case
/// and white space around a word do not matter.
pub proof fn law_normal_form_drops_case_and_space(
    before: Seq<char>,
    word: Seq<char>,
    after: Seq<char>,
)
    requires
        forall|i: int| 0 <= i < before.len() ==> text::is_white_space(#[trigger] before[i]),
        forall|i: int| 0 <= i < after.len() ==> text::is_white_space(#[trigger] after[i]),
        text::is_trimmed(word),
    ensures
        word.len() > 0 ==> normal_form(before + word + after) == text::ascii_lower(word),
        normal_form(word) == text::ascii_lower(word),
{
    text::law_trimmed(word);
    if word.len() > 0 {
        text::law_trimming_drops_surroundings(before, word, after);
    }
}

/// A browser stream is FLAC or Opus, at one of three rates.
pub proof fn law_browser_streams_are_flac_or_opus(
    settings: BrowserStreamSettings,
    r: Result<BrowserStreamSettings, PlaybackError>,
)
    requires
        call_ensures(validate_browser_stream_settings, (settings,), r),
        text::is_trimmed(settings.format@),
        text::ascii_lower(settings.format@) == settings.format@,
    ensures
        r is Ok <==> (settings.format@ == "flac"@ || settings.format@ == "opus"@) && (
        settings.opus_kbps == 128 || settings.opus_kbps == 256 || settings.opus_kbps == 320),
        r is Ok ==> r->Ok_0.format@ == settings.format@ && r->Ok_0.opus_kbps
            == settings.opus_kbps,
{
    text::law_trimmed(settings.format@);
}

/// A known icon is kept as it is, and the words for none stand for none.
pub proof fn law_known_icons_are_kept(value: &str, r: Result<Option<String>, PlaybackError>)
    requires
        call_ensures(normalize_zone_icon, (value,), r),
        text::is_trimmed(value@),
        text::ascii_lower(value@) == value@,
    ensures
        value@ == "hegel"@ || value@ == "mac_mini"@ || value@ == "sonos"@ || value@ == "kef"@
            || value@ == "airplay"@ || value@ == "computer"@ || value@ == "speaker"@ ==> r is Ok
            && text::opt_text(r->Ok_0) == Some(value@),
        value@ == ""@ || value@ == "auto"@ || value@ == "none"@ ==> r is Ok && r->Ok_0 is None,
        r is Ok && r->Ok_0 is Some ==> r->Ok_0->0@ == value@,
{
    text::law_trimmed(value@);
    reveal_strlit("");
    reveal_strlit("auto");
    reveal_strlit("none");
    reveal_strlit("hegel");
    reveal_strlit("mac_mini");
    reveal_strlit("sonos");
    reveal_strlit("kef");
    reveal_strlit("airplay");
    reveal_strlit("computer");
    reveal_strlit("speaker");
    assert(""@.len() == 0 && "auto"@.len() == 4 && "none"@.len() == 4);
    assert("hegel"@.len() == 5 && "mac_mini"@.len() == 8 && "sonos"@.len() == 5);
    assert("kef"@.len() == 3 && "airplay"@.len() == 7 && "computer"@.len() == 8);
    assert("speaker"@.len() == 7);
}

/// Within their limits an amplifier's settings are kept as they are.
pub proof fn law_valid_amplifier_settings_are_kept(
    before: ZoneHegelSettings,
    after: ZoneHegelSettings,
)
    requires
        hegel_normalized(before, after),
    ensures
        before.port != 0 ==> after.port == before.port,
        before.port == 0 ==> after.port == 50001,
        1 <= before.input <= 20 ==> after.input == before.input,
        before.max_volume <= 100 ==> after.max_volume == before.max_volume,
        before.max_volume > 100 ==> after.max_volume == 100,
        before.default_volume <= after.max_volume ==> after.default_volume
            == before.default_volume,
        before.default_volume > after.max_volume ==> after.default_volume == after.max_volume,
        after.standby_usb_visible == before.standby_usb_visible,
        before.host is Some && before.host->0@.len() > 0 && text::is_trimmed(before.host->0@)
            ==> after.host is Some && after.host->0@ == before.host->0@,
        before.host is None ==> after.host is None,
        before.linked_airplay_zone_id is Some && before.linked_airplay_zone_id->0@.len() > 0
            && text::is_trimmed(before.linked_airplay_zone_id->0@)
            ==> after.linked_airplay_zone_id is Some && after.linked_airplay_zone_id->0@
            == before.linked_airplay_zone_id->0@,
        before.model is Some && before.model->0@.len() > 0 && text::is_trimmed(before.model->0@)
            ==> after.model is Some && after.model->0@ == text::ascii_lower(before.model->0@),
{
    if before.host is Some {
        text::law_trimmed(before.host->0@);
    }
    if before.linked_airplay_zone_id is Some {
        text::law_trimmed(before.linked_airplay_zone_id->0@);
    }
    if before.model is Some {
        text::law_trimmed(before.model->0@);
        text::law_ascii_lower(before.model->0@);
    }
}

/// A renderer's saved limits are kept where players know them: rates up to
/// 384 kHz, depths of 16, 24 and 32 bits, and the one-bit rates 64, 128 and
/// 256. An unknown depth counts as 24 bits.
pub proof fn law_known_capabilities_are_kept(
    capabilities: ZoneUpnpCapabilities,
    r: Result<ZoneUpnpCapabilities, PlaybackError>,
)
    requires
        call_ensures(normalize_zone_upnp_capabilities, (capabilities,), r),
    ensures
        r is Ok ==> {
            let depth = capabilities.max_bit_depth;
            let rate = capabilities.max_sample_rate;
            &&& r->Ok_0.max_sample_rate == rate
            &&& (rate % 44_100 == 0 || rate % 48_000 == 0) && 44_100 <= rate <= 384_000
            &&& r->Ok_0.max_dsd_rate == capabilities.max_dsd_rate
            &&& depth != 0 ==> r->Ok_0.max_bit_depth == depth
            &&& depth == 0 ==> r->Ok_0.max_bit_depth == 24
            &&& r->Ok_0.max_bit_depth == 16 || r->Ok_0.max_bit_depth == 24
                || r->Ok_0.max_bit_depth == 32
        },
        capabilities.pcm_containers@.len() == 0 && (capabilities.max_sample_rate == 44_100
            || capabilities.max_sample_rate == 48_000 || capabilities.max_sample_rate == 88_200
            || capabilities.max_sample_rate == 96_000 || capabilities.max_sample_rate == 176_400
            || capabilities.max_sample_rate == 192_000 || capabilities.max_sample_rate == 352_800
            || capabilities.max_sample_rate == 384_000) && (capabilities.max_bit_depth == 0
            || capabilities.max_bit_depth == 16 || capabilities.max_bit_depth == 24
            || capabilities.max_bit_depth == 32) && (capabilities.max_dsd_rate is None
            || capabilities.max_dsd_rate->0 == 64 || capabilities.max_dsd_rate->0 == 128
            || capabilities.max_dsd_rate->0 == 256) ==> r is Ok,
{
}

/// The entry that is kept for a container reaches as far as every given one in
/// rate and in depth, and no further than one of them in each.
pub proof fn law_best_entry_reaches_furthest(
    containers: Seq<UpnpPcmContainerCapability>,
    i: int,
)
    requires
        containers_error(containers) is None,
        0 <= i < containers.len(),
        containers[i].max_bit_depth != 0,
    ensures
        ({
            let best = best_entry(containers, containers[i].container);
            &&& best is Some
            &&& best->0.container == containers[i].container
            &&& best->0.max_sample_rate >= containers[i].max_sample_rate
            &&& best->0.max_bit_depth >= containers[i].max_bit_depth
            &&& exists|k: int|
                0 <= k < containers.len() && (#[trigger] containers[k]).container
                    == containers[i].container && containers[k].max_sample_rate
                    == best->0.max_sample_rate
        }),
    decreases containers.len(),
{
    let init = containers.drop_last();
    let container = containers[i].container;
    let last = containers.len() - 1;
    if i < init.len() {
        assert(init[i] == containers[i]);
        law_best_entry_reaches_furthest(init, i);
        let best = best_entry(init, container)->0;
        let k = choose|k: int|
            0 <= k < init.len() && (#[trigger] init[k]).container == container
                && init[k].max_sample_rate == best.max_sample_rate;
        assert(containers[k] == init[k]);
        if containers[last].container == container {
            assert(spec_depth(containers[last].max_bit_depth) is Some);
        }
    } else {
        lemma_best_is_given(init, container);
        match best_entry(init, container) {
            Some(best) => {
                let k = choose|k: int|
                    0 <= k < init.len() && (#[trigger] init[k]).container == container
                        && init[k].max_sample_rate == best.max_sample_rate;
                assert(containers[k] == init[k]);
                assert(containers[last].container == container);
            },
            None => {
                assert(containers[last].container == container);
            },
        }
    }
}

proof fn lemma_best_is_given(
    containers: Seq<UpnpPcmContainerCapability>,
    container: UpnpPcmContainer,
)
    ensures
        best_entry(containers, container) matches Some(best) ==> best.container == container
            && exists|k: int|
            0 <= k < containers.len() && (#[trigger] containers[k]).container == container
                && containers[k].max_sample_rate == best.max_sample_rate,
    decreases containers.len(),
{
    if containers.len() > 0 {
        let init = containers.drop_last();
        let last = containers.len() - 1;
        lemma_best_is_given(init, container);
        if best_entry(init, container) is Some {
            let best = best_entry(init, container)->0;
            let k = choose|k: int|
                0 <= k < init.len() && (#[trigger] init[k]).container == container
                    && init[k].max_sample_rate == best.max_sample_rate;
            assert(containers[k] == init[k]);
        }
        if containers[last].container == container {
            assert(containers[last].max_sample_rate == containers.last().max_sample_rate);
        }
    }
}

/// Each container is kept at most once, FLAC before WAV, and none that was not
/// given.
pub proof fn law_containers_are_kept_once(containers: Seq<UpnpPcmContainerCapability>)
    ensures
        ({
            let kept = spec_containers(containers);
            &&& kept.len() <= 2
            &&& kept.len() == 2 ==> kept[0].container is Flac && kept[1].container is Wav
            &&& kept.len() == 1 ==> exists|k: int|
                0 <= k < containers.len() && (#[trigger] containers[k]).container
                    == kept[0].container
            &&& containers.len() == 0 ==> kept.len() == 0
        }),
{
    lemma_best_is_given(containers, UpnpPcmContainer::Flac);
    lemma_best_is_given(containers, UpnpPcmContainer::Wav);
}

/// A default volume stays within one and within the greatest volume that is
/// allowed.
pub proof fn law_default_volume_keeps_limits(volume: Real32, limit: Real32)
    requires
        volume.bits <= 0x7f80_0000,
        limit.bits <= 0x3f80_0000,
    ensures
        spec_capped_volume(volume, Some(limit)).bits <= limit.bits,
        volume.bits <= limit.bits ==> spec_capped_volume(volume, Some(limit)) == volume,
        volume.bits > limit.bits ==> spec_capped_volume(volume, Some(limit)) == limit,
        volume.bits <= 0x3f80_0000 ==> spec_capped_volume(volume, None) == volume,
        volume.bits > 0x3f80_0000 ==> spec_capped_volume(volume, None).bits == 0x3f80_0000,
{
}

/// An update that asks for nothing is accepted and changes nothing.
pub proof fn law_empty_update_changes_nothing(
    before: ZoneSettings,
    after: ZoneSettings,
    update: ZoneSettingsUpdate,
    protocol: SinkProtocol,
    target_refusal: Option<Seq<char>>,
)
    requires
        update.airplay_default_volume_enabled is None,
        update.airplay_default_volume is None,
        update.airplay_max_volume is None,
        update.qobuz_hires_enabled is None,
        update.icon is None,
        update.device_type is None,
        update.hegel is None,
        update.upnp_capabilities is None,
        update.browser_stream is None,
        settings_updated(
            before,
            after,
            update,
            update_refusal(before, update, protocol, target_refusal),
        ),
    ensures
        update_refusal(before, update, protocol, target_refusal) is None,
        after.airplay_default_volume == before.airplay_default_volume,
        after.airplay_max_volume == before.airplay_max_volume,
        after.airplay_last_volume == before.airplay_last_volume,
        after.qobuz_hires_enabled == before.qobuz_hires_enabled,
        text::opt_text(after.icon) == text::opt_text(before.icon),
        after.device_type == before.device_type,
        after.hegel == before.hegel,
        after.browser_stream == before.browser_stream,
        after.upnp_capabilities == before.upnp_capabilities,
        after.upnp_calibrated_capabilities == before.upnp_calibrated_capabilities,
{
}

/// An accepted update stores what it asks for, each setting in its own place,
/// and leaves alone what it does not mention.
pub proof fn law_accepted_update_is_stored(
    before: ZoneSettings,
    after: ZoneSettings,
    update: ZoneSettingsUpdate,
)
    requires
        settings_updated(before, after, update, None),
    ensures
        update.qobuz_hires_enabled is Some ==> after.qobuz_hires_enabled
            == update.qobuz_hires_enabled->0,
        update.qobuz_hires_enabled is None ==> after.qobuz_hires_enabled
            == before.qobuz_hires_enabled,
        update.airplay_max_volume is Some && update.airplay_max_volume->0.bits <= 0x3f80_0000
            ==> after.airplay_max_volume == update.airplay_max_volume,
        update.airplay_max_volume is None ==> after.airplay_max_volume
            == before.airplay_max_volume,
        update.airplay_default_volume_enabled == Some(false)
            ==> after.airplay_default_volume is None,
        update.airplay_default_volume_enabled != Some(false) && update.airplay_default_volume
            is Some && update.airplay_default_volume->0.bits <= 0x3f80_0000
            && after.airplay_max_volume is None ==> after.airplay_default_volume
            == update.airplay_default_volume,
        update.airplay_default_volume_enabled is None && update.airplay_default_volume is None
            ==> after.airplay_default_volume == before.airplay_default_volume,
        after.airplay_last_volume == before.airplay_last_volume,
        update.icon is None ==> text::opt_text(after.icon) == text::opt_text(before.icon),
        update.browser_stream is Some ==> after.browser_stream is Some
            && after.browser_stream->0.opus_kbps == update.browser_stream->0.opus_kbps,
        update.browser_stream is None ==> after.browser_stream == before.browser_stream,
        update.device_type is None && update.hegel is None ==> after.device_type
            == before.device_type && after.hegel == before.hegel,
        update.upnp_capabilities is Some ==> after.upnp_capabilities is Some
            && after.upnp_capabilities->0.max_sample_rate
            == update.upnp_capabilities->0.max_sample_rate
            && after.upnp_capabilities->0.max_dsd_rate == update.upnp_capabilities->0.max_dsd_rate,
        update.upnp_capabilities is None ==> after.upnp_capabilities == before.upnp_capabilities,
        before.upnp_calibrated_capabilities is Some ==> after.upnp_calibrated_capabilities
            == before.upnp_calibrated_capabilities,
{
}

/// An update to an amplifier stores the amplifier's settings; one to no device
/// forgets them.
pub proof fn law_device_update_is_stored(
    before: ZoneSettings,
    after: ZoneSettings,
    update: ZoneSettingsUpdate,
)
    requires
        settings_updated(before, after, update, None),
        update.device_type is Some,
        text::is_trimmed(update.device_type->0@),
        text::ascii_lower(update.device_type->0@) == update.device_type->0@,
    ensures
        update.device_type->0@ == "hegel"@ ==> after.device_type is Some
            && after.device_type->0@ == "hegel"@ && after.hegel is Some,
        update.device_type->0@ == "hegel"@ && update.hegel is Some ==> hegel_normalized(
            update.hegel->0,
            after.hegel->0,
        ),
        update.device_type->0@ == "none"@ ==> after.device_type is None && after.hegel is None,
{
    text::law_trimmed(update.device_type->0@);
    reveal_strlit("none");
    reveal_strlit("hegel");
    reveal_strlit("");
    assert("none"@.len() == 4 && "hegel"@.len() == 5 && ""@.len() == 0);
}

/// A refused update stores nothing from the refused setting on; one that is
/// refused at its icon stores nothing at all.
pub proof fn law_refused_update_stores_nothing_further(
    before: ZoneSettings,
    after: ZoneSettings,
    update: ZoneSettingsUpdate,
    step: UpdateStep,
    message: Seq<char>,
)
    requires
        settings_updated(before, after, update, Some((step, message))),
    ensures
        after.upnp_capabilities == before.upnp_capabilities,
        after.upnp_calibrated_capabilities == before.upnp_calibrated_capabilities,
        step is Icon ==> after.airplay_max_volume == before.airplay_max_volume,
        step is Icon || step is DefaultVolume ==> after.airplay_default_volume
            == before.airplay_default_volume && after.qobuz_hires_enabled
            == before.qobuz_hires_enabled && text::opt_text(after.icon) == text::opt_text(
            before.icon,
        ),
        step is Icon || step is DefaultVolume || step is BrowserStream ==> after.browser_stream
            == before.browser_stream,
        !(step is UpnpCapabilities) ==> after.device_type == before.device_type && after.hegel
            == before.hegel,
{
}

/// Limits of a renderer are refused for a zone that is none, a default volume
/// that is switched on has to be given, and an amplifier needs its settings.
pub proof fn law_incomplete_updates_are_refused(
    settings: ZoneSettings,
    update: ZoneSettingsUpdate,
    protocol: SinkProtocol,
    target_refusal: Option<Seq<char>>,
)
    ensures
        update.upnp_capabilities is Some && !(protocol is UpnpAvRenderer) ==> update_refusal(
            settings,
            update,
            protocol,
            target_refusal,
        ) is Some,
        update.airplay_default_volume_enabled == Some(true) && update.airplay_default_volume
            is None ==> update_refusal(settings, update, protocol, target_refusal) is Some,
        update.hegel is None && settings.hegel is None && update.device_type is Some
            && update.device_type->0@ == "hegel"@ ==> update_refusal(
            settings,
            update,
            protocol,
            target_refusal,
        ) is Some,
{
    reveal_strlit("none");
    reveal_strlit("hegel");
    assert("none"@.len() == 4 && "hegel"@.len() == 5);
    if update.device_type is Some && update.device_type->0@ == "hegel"@ {
        let word = "hegel"@;
        text::law_trimmed(word);
        assert(text::ascii_lower(word) =~= word);
    }
}

/// A zone is found by its id, the first of those that share it.
pub proof fn law_zone_is_found_by_id(
    before: Seq<ZoneProfile>,
    zone: ZoneProfile,
    after: Seq<ZoneProfile>,
)
    requires
        forall|i: int| 0 <= i < before.len() ==> (#[trigger] before[i]).id@ != zone.id@,
    ensures
        zone_of(before + (seq![zone] + after), zone.id@) == Some(zone),
        protocol_of(before + (seq![zone] + after), zone.id@) == Some(zone.protocol),
    decreases before.len(),
{
    let all = before + (seq![zone] + after);
    if before.len() > 0 {
        assert(all[0] == before[0]);
        assert(all.skip(1) =~= before.skip(1) + (seq![zone] + after));
        assert forall|i: int| 0 <= i < before.skip(1).len() implies (
        #[trigger] before.skip(1)[i]).id@ != zone.id@ by {
            assert(before.skip(1)[i] == before[i + 1]);
        }
        law_zone_is_found_by_id(before.skip(1), zone, after);
    } else {
        assert(all[0] == zone);
    }
}

/// No zone is found by an id that none of them has.
pub proof fn law_unknown_zone_is_not_found(zones: Seq<ZoneProfile>, zone_id: Seq<char>)
    requires
        forall|i: int| 0 <= i < zones.len() ==> (#[trigger] zones[i]).id@ != zone_id,
    ensures
        zone_of(zones, zone_id) is None,
        protocol_of(zones, zone_id) is None,
    decreases zones.len(),
{
    if zones.len() > 0 {
        assert forall|i: int| 0 <= i < zones.skip(1).len() implies (
        #[trigger] zones.skip(1)[i]).id@ != zone_id by {
            assert(zones.skip(1)[i] == zones[i + 1]);
        }
        assert(zones[0].id@ != zone_id);
        law_unknown_zone_is_not_found(zones.skip(1), zone_id);
    }
}

/// A calibrated zone is defined as a renderer, under its own id and device, by
/// the name that the zone goes by.
pub proof fn law_calibrated_zone_is_defined(
    zones: &[ZoneProfile],
    zone_id: &str,
    target: UpnpRendererTarget,
    device_name: String,
    r: ZoneDefinition,
)
    requires
        call_ensures(calibrated_zone_definition, (zones, zone_id, &target, device_name), r),
    ensures
        r.id@ == zone_id@,
        r.kind is Some && r.kind->0@ == sinks::spec_definition_kind(SinkProtocol::UpnpAvRenderer),
        r.device_name == Some(device_name),
        zones@.len() > 0 && zones@[0].id@ == zone_id@ ==> r.name == zones@[0].name && r.enabled
            == zones@[0].enabled,
        zones@.len() == 0 ==> r.name == target.name && r.enabled,
{
}

/// The known speakers stay as they are, and what was found follows them.
pub proof fn law_known_speakers_stay(speakers: Seq<SonosSpeaker>, renderers: Seq<UpnpRenderer>)
    ensures
        all_speakers(speakers, renderers).len() >= speakers.len(),
        all_speakers(speakers, renderers).take(speakers.len() as int) == speakers,
    decreases renderers.len(),
{
    if renderers.len() > 0 {
        law_known_speakers_stay(speakers, renderers.drop_last());
        let before = all_speakers(speakers, renderers.drop_last());
        let after = all_speakers(speakers, renderers);
        assert(after.take(speakers.len() as int) =~= before.take(speakers.len() as int));
    } else {
        assert(speakers.take(speakers.len() as int) =~= speakers);
    }
}

/// Every renderer that is online and made by Sonos is among the speakers.
pub proof fn law_found_speakers_are_listed(
    speakers: Seq<SonosSpeaker>,
    renderers: Seq<UpnpRenderer>,
    i: int,
)
    requires
        0 <= i < renderers.len(),
        renderers[i].online,
        renderers[i].target.manufacturer is Some,
        upnp_target::names_sonos(renderers[i].target.manufacturer->0@),
    ensures
        has_speaker(all_speakers(speakers, renderers), renderers[i].target.id@),
    decreases renderers.len(),
{
    let init = renderers.drop_last();
    let before = all_speakers(speakers, init);
    let after = all_speakers(speakers, renderers);
    let id = renderers[i].target.id@;
    if i < init.len() {
        assert(init[i] == renderers[i]);
        law_found_speakers_are_listed(speakers, init, i);
    }
    if has_speaker(before, id) {
        let k = choose|k: int| 0 <= k < before.len() && (#[trigger] before[k]).id@ == id;
        assert(after[k] == before[k]);
    } else {
        assert(renderers.last() == renderers[i]);
        assert(after[after.len() - 1].id@ == id);
    }
}

/// A speaker that was found as a renderer goes by the renderer's name and
/// address.
pub proof fn law_found_speaker_is_the_renderer(renderer: UpnpRenderer)
    ensures
        speaker_of(renderer).id == renderer.target.id,
        speaker_of(renderer).name == renderer.target.name,
        speaker_of(renderer).host == renderer.target.host,
        speaker_of(renderer).port == renderer.target.port,
        speaker_of(renderer).model == renderer.target.model,
        speaker_of(renderer).online,
{
}

/// Of the kinds that zones are stored under, those of the local outputs are
/// local.
pub proof fn law_local_kinds_are_local(protocol: SinkProtocol)
    ensures
        spec_is_local_output(Some(sinks::spec_definition_kind(protocol))) <==> protocol
            is LocalCoreAudio || protocol is AsioOutput,
        spec_is_local_output(None),
{
    if protocol is LocalCoreAudio || protocol is AsioOutput {
        sinks::law_definition_kinds_differ(protocol, SinkProtocol::AirPlayCoreAudio);
        sinks::law_definition_kinds_differ(protocol, SinkProtocol::AirPlayRaop);
        sinks::law_definition_kinds_differ(protocol, SinkProtocol::AirPlay2);
        sinks::law_definition_kinds_differ(protocol, SinkProtocol::SonosUpnp);
        sinks::law_definition_kinds_differ(protocol, SinkProtocol::RemoteAgent);
        sinks::law_definition_kinds_differ(protocol, SinkProtocol::UpnpAvRenderer);
    }
}

/// An amplifier is within reach through its linked AirPlay zone while that is
/// not offline, and without a link by its host.
pub proof fn law_amplifier_is_reached_through_its_link(
    settings: HegelSettings,
    zones: Seq<ZoneProfile>,
    i: int,
)
    requires
        0 <= i < zones.len(),
    ensures
        settings.linked_airplay_zone_id is Some && zones[i].id@
            == settings.linked_airplay_zone_id->0@ && (zones[i].protocol is AirPlayCoreAudio
            || zones[i].protocol is AirPlayRaop || zones[i].protocol is AirPlay2) && !(
        zones[i].status is Offline) ==> spec_link_visible(settings, zones),
        settings.linked_airplay_zone_id is Some && spec_link_visible(settings, zones)
            ==> exists|k: int|
            0 <= k < zones.len() && (#[trigger] zones[k]).id@
                == settings.linked_airplay_zone_id->0@ && !(zones[k].status is Offline),
        settings.linked_airplay_zone_id is None && settings.host is None ==> !spec_link_visible(
            settings,
            zones,
        ),
        settings.linked_airplay_zone_id is None && settings.host is Some
            && settings.host->0@.len() > 0 && text::is_trimmed(settings.host->0@)
            ==> spec_link_visible(settings, zones),
{
    if settings.host is Some {
        text::law_trimmed(settings.host->0@);
    }
    if settings.linked_airplay_zone_id is Some {
        let linked = settings.linked_airplay_zone_id->0@;
        if zones[i].id@ == linked && (zones[i].protocol is AirPlayCoreAudio
            || zones[i].protocol is AirPlayRaop || zones[i].protocol is AirPlay2) && !(
        zones[i].status is Offline) {
            assert(is_network_link(zones[i], linked));
        }
        if spec_link_visible(settings, zones) {
            let k = choose|k: int|
                0 <= k < zones.len() && is_network_link(#[trigger] zones[k], linked);
            assert(zones[k].id@ == linked);
        }
    }
}

/// What was saved for a renderer is shown as its limits, the one-bit rates
/// among them; what was not saved is shown as before.
pub proof fn law_saved_limits_are_shown(
    shown: ZoneCapabilities,
    saved: ZoneUpnpCapabilities,
    message: Option<String>,
)
    ensures
        ({
            let r = spec_saved_capabilities(shown, saved, message);
            &&& r.max_sample_rate == saved.max_sample_rate
            &&& r.max_bit_depth == saved.max_bit_depth
            &&& r.max_dsd_rate == saved.max_dsd_rate
            &&& r.supports_dsd256 ==> r.supports_dsd128
            &&& saved.max_dsd_rate == Some(256u16) ==> r.supports_dsd128 && r.supports_dsd256
            &&& saved.max_dsd_rate == Some(128u16) ==> r.supports_dsd128 && !r.supports_dsd256
            &&& saved.max_dsd_rate == Some(64u16) ==> !r.supports_dsd128 && !r.supports_dsd256
            &&& saved.max_dsd_rate is None ==> !r.supports_dsd128 && !r.supports_dsd256
            &&& r.exclusive_supported == shown.exclusive_supported
            &&& r.gapless_supported == shown.gapless_supported
            &&& r.capability_detection_message == message
        }),
{
}

/// An enriched zone shows its settings, each in its own place, and is otherwise
/// what it was.
pub proof fn law_enriched_zone_shows_settings(
    before: ZoneProfile,
    after: ZoneProfile,
    settings: ZoneSettings,
)
    requires
        zone_enriched(before, after, settings),
    ensures
        after.airplay_default_volume == settings.airplay_default_volume,
        after.airplay_max_volume == settings.airplay_max_volume,
        after.airplay_last_volume == settings.airplay_last_volume,
        after.qobuz_hires_enabled == settings.qobuz_hires_enabled,
        after.icon == settings.icon,
        after.device_type == settings.device_type,
        after.hegel == settings.hegel,
        after.browser_stream == settings.browser_stream,
        settings.upnp_calibrated_capabilities is Some ==> after.upnp_calibrated_capabilities
            == settings.upnp_calibrated_capabilities,
        before.protocol is UpnpAvRenderer && settings.upnp_capabilities is Some
            ==> after.capabilities.max_sample_rate
            == settings.upnp_capabilities->0.max_sample_rate
            && after.capabilities.max_bit_depth == settings.upnp_capabilities->0.max_bit_depth,
        !(before.protocol is UpnpAvRenderer) || settings.upnp_capabilities is None
            ==> after.capabilities == before.capabilities,
        after.id == before.id,
        after.name == before.name,
        after.protocol == before.protocol,
        after.status == before.status,
        after.enabled == before.enabled,
        after.browser == before.browser,
        after.device_name == before.device_name,
        after.playing_state == before.playing_state,
        after.track_title == before.track_title,
        after.dsp_profile == before.dsp_profile,
{
}

/// The first enabled agent that offers the device is chosen; zones of browsers
/// and disabled ones never are.
pub proof fn law_first_offer_is_chosen(
    before: Seq<ZoneProfile>,
    zone: ZoneProfile,
    after: Seq<ZoneProfile>,
    device: Seq<char>,
)
    requires
        zone.protocol is RemoteAgent,
        zone.enabled,
        !zone.browser,
        zone.device_name is Some,
        text::trimmed(zone.device_name->0@) == device,
        forall|i: int|
            0 <= i < before.len() ==> (#[trigger] before[i]).browser || !before[i].enabled || !(
            before[i].protocol is RemoteAgent) || before[i].device_name is None,
    ensures
        first_offer(before + (seq![zone] + after), device) == Some(zone.id@),
    decreases before.len(),
{
    let all = before + (seq![zone] + after);
    if before.len() > 0 {
        assert(all[0] == before[0]);
        assert(all.skip(1) =~= before.skip(1) + (seq![zone] + after));
        assert forall|i: int| 0 <= i < before.skip(1).len() implies (
        #[trigger] before.skip(1)[i]).browser || !before.skip(1)[i].enabled || !(
        before.skip(1)[i].protocol is RemoteAgent) || before.skip(1)[i].device_name is None by {
            assert(before.skip(1)[i] == before[i + 1]);
        }
        law_first_offer_is_chosen(before.skip(1), zone, after, device);
    } else {
        assert(all[0] == zone);
    }
}

/// Nothing is chosen in place of a device that is there, of none, or while an
/// agent is active already.
pub proof fn law_available_device_is_not_replaced(
    active_protocol: Option<SinkProtocol>,
    saved_device: Option<&str>,
    device_available: bool,
    zones: &[ZoneProfile],
    r: Option<String>,
)
    requires
        call_ensures(
            maybe_select_remote_zone_for_unavailable_active_device,
            (active_protocol, saved_device, device_available, zones),
            r,
        ),
    ensures
        r is Some ==> !device_available && saved_device is Some && active_protocol != Some(
            SinkProtocol::RemoteAgent,
        ),
        !device_available && active_protocol != Some(SinkProtocol::RemoteAgent)
            && saved_device is Some && saved_device->0@.len() > 0 && text::is_trimmed(
            saved_device->0@,
        ) ==> text::opt_text(r) == first_offer(zones@, saved_device->0@),
{
    if saved_device is Some {
        text::law_trimmed(saved_device->0@);
    }
}

/// A configured device that turns up is selected unless it is selected
/// already; a zone's own device counts before the saved one.
pub proof fn law_configured_device_is_selected(
    active_protocol: Option<SinkProtocol>,
    bound_device: Option<String>,
    saved_device: Option<String>,
    available_devices: &[String],
    r: Option<String>,
    i: int,
)
    requires
        call_ensures(
            apply_active_discovered_device_selection,
            (active_protocol, bound_device, saved_device, available_devices, None::<&str>),
            r,
        ),
        active_protocol != Some(SinkProtocol::RemoteAgent),
        0 <= i < available_devices@.len(),
        available_devices@[i]@.len() > 0,
        text::is_trimmed(available_devices@[i]@),
    ensures
        bound_device is Some && bound_device->0@ == available_devices@[i]@ ==> text::opt_text(r)
            == Some(bound_device->0@),
        bound_device is None && saved_device is Some && saved_device->0@
            == available_devices@[i]@ ==> text::opt_text(r) == Some(saved_device->0@),
        bound_device is None && saved_device is None ==> r is None,
{
    text::law_trimmed(available_devices@[i]@);
    assert(text::trimmed(available_devices@[i]@) == available_devices@[i]@);
}

/// Zones are left alone while playback owns them.
pub proof fn law_owned_zones_are_left_alone(
    owned_before: bool,
    owned_after: bool,
    r: RefreshPlan,
)
    requires
        call_ensures(refresh_playback_zones_inner, (owned_before, owned_after), r),
    ensures
        owned_before || owned_after ==> !r.sync_local_devices && !r.apply_active_settings,
        !owned_before && !owned_after ==> r.sync_local_devices && r.apply_active_settings,
{
}

/// What a calibration found is saved as the renderer's limits.
pub proof fn law_calibrated_limits_are_saved(
    saved: ZoneUpnpCapabilities,
    target: UpnpRendererTarget,
)
    requires
        saves_target(saved, target),
    ensures
        saved.max_sample_rate == target.max_sample_rate,
        saved.max_bit_depth == target.max_bit_depth,
        saved.max_dsd_rate == target.max_dsd_rate,
        saved.pcm_containers@ == target.pcm_containers@,
{
}

/// The address of an amplifier is that of its settings, the update's before the
/// stored ones.
pub proof fn law_amplifier_address_is_configured(
    settings: ZoneSettings,
    update: ZoneSettingsUpdate,
    r: Option<(String, u16)>,
)
    requires
        call_ensures(hegel_target_of_update, (&settings, &update), r),
    ensures
        update.device_type is None && update.hegel is None ==> r is None,
        update.hegel is Some && update.hegel->0.host is None ==> r is None,
        r is Some && update.hegel is Some && update.hegel->0.port != 0 ==> (r->0).1
            == update.hegel->0.port,
        r is Some && update.hegel is Some && text::is_trimmed(update.hegel->0.host->0@) ==> (
        r->0).0@ == update.hegel->0.host->0@,
        r is Some && update.hegel is None ==> settings.hegel is Some,
        update.hegel is Some && update.hegel->0.host is Some && update.hegel->0.host->0@.len() > 0
            && text::is_trimmed(update.hegel->0.host->0@) && update.device_type is None
            && settings.device_type is Some && settings.device_type->0@ == "hegel"@ ==> r is Some,
{
    if update.hegel is Some && update.hegel->0.host is Some {
        text::law_trimmed(update.hegel->0.host->0@);
    }
}

/// A configured amplifier's zone is kept under its own id, name and device
/// while it is enabled.
pub proof fn law_amplifier_zone_is_kept(
    settings: HegelSettings,
    definitions: &[ZoneDefinition],
    zones: &[ZoneProfile],
    r: Option<HegelZoneSync>,
)
    requires
        call_ensures(sync_hegel_configured_zone, (&settings, definitions, zones), r),
        settings.zone_id is Some,
        definitions@.len() > 0,
        definitions@[0].id@ == settings.zone_id->0@,
        definitions@[0].kind is None,
        definitions@[0].device_name is Some,
        definitions@[0].device_name->0@.len() > 0,
        text::is_trimmed(definitions@[0].device_name->0@),
    ensures
        r is Some <==> settings.enabled,
        r is Some ==> {
            &&& r->0.zone_id == definitions@[0].id
            &&& r->0.name == definitions@[0].name
            &&& r->0.device_name@ == definitions@[0].device_name->0@
            &&& r->0.enabled == definitions@[0].enabled
            &&& r->0.standby_message is Some <==> settings.standby_usb_visible
                && spec_link_visible(settings, zones@)
        },
{
    text::law_trimmed(definitions@[0].device_name->0@);
    assert(is_hegel_definition(definitions@[0], settings.zone_id->0@));
}

/// A zone's new name loses the white space around it and nothing else.
pub proof fn law_zone_names_are_trimmed(name: &str, r: String)
    requires
        call_ensures(rename_playback_zone, (name,), r),
    ensures
        text::is_trimmed(r@),
        text::is_trimmed(name@) ==> r@ == name@,
{
    text::law_trimmed(name@);
}

/// A device type is kept where it is known, and nothing stands for none.
pub proof fn law_known_device_types_are_kept(value: &str, r: Result<&'static str, PlaybackError>)
    requires
        call_ensures(normalize_zone_device_type, (value,), r),
        text::is_trimmed(value@),
        text::ascii_lower(value@) == value@,
    ensures
        r is Ok <==> value@ == "hegel"@ || value@ == "none"@ || value@ == ""@,
        value@ == "hegel"@ ==> r->Ok_0@ == "hegel"@,
        value@ == "none"@ || value@ == ""@ ==> r->Ok_0@ == "none"@,
{
    text::law_trimmed(value@);
    reveal_strlit("none");
    reveal_strlit("hegel");
    reveal_strlit("");
    assert("none"@.len() == 4 && "hegel"@.len() == 5 && ""@.len() == 0);
}

} // verus!
