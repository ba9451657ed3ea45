//! What renderers say of the formats they take.

use crate::playback::upnp_target;
use crate::playback::upnp_target::UpnpRendererTarget;
use crate::protocol::sink::UpnpPcmContainer;
use crate::text;
use vstd::prelude::*;
use vstd::string::*;

verus! {

/// The content format of a protocol-info line: its third field, trimmed, when
/// it is not blank.
pub open spec fn spec_content_format(value: Seq<char>) -> Option<Seq<char>> {
    match text::nth_field(value, ':', 2) {
        Some(format) => if text::trimmed(format).len() > 0 {
            Some(text::trimmed(format))
        } else {
            None
        },
        None => None,
    }
}

/// The content format of a protocol-info line.
pub fn protocol_info_content_format(value: &str) -> (r: Option<String>)
    ensures
        text::opt_text(r) == spec_content_format(value@),
{
    match text::field(value, ':', 2) {
        Some(format) => {
            let mime = format.as_str().trim();
            if mime.is_empty() {
                None
            } else {
                Some(mime.to_string())
            }
        },
        None => None,
    }
}

/// A MIME type names a container.
pub open spec fn spec_mime_matches(mime: Seq<char>, container: UpnpPcmContainer) -> bool {
    match container {
        UpnpPcmContainer::Flac => text::contains_text(mime, "flac"@),
        UpnpPcmContainer::Wav => text::contains_text(mime, "wav"@) || text::contains_text(
            mime,
            "wave"@,
        ),
    }
}

/// Whether a MIME type names a container.
pub fn mime_matches_pcm_container(mime: &str, container: UpnpPcmContainer) -> (r: bool)
    ensures
        r == spec_mime_matches(mime@, container),
{
    match container {
        UpnpPcmContainer::Flac => text::contains(mime, "flac"),
        UpnpPcmContainer::Wav => text::contains(mime, "wav") || text::contains(mime, "wave"),
    }
}

/// A protocol-info line offers a container, whatever else it says.
pub open spec fn line_offers(value: Seq<char>, container: UpnpPcmContainer) -> bool {
    spec_content_format(value) is Some && spec_mime_matches(
        spec_content_format(value)->0,
        container,
    )
}

/// Some protocol-info line of the renderer offers a container.
pub open spec fn spec_offers(target: UpnpRendererTarget, container: UpnpPcmContainer) -> bool {
    exists|i: int|
        0 <= i < target.protocol_info@.len() && line_offers(
            #[trigger] target.protocol_info@[i]@,
            container,
        )
}

/// Whether some protocol-info line of the renderer offers a container.
pub fn target_offers_container(target: &UpnpRendererTarget, container: UpnpPcmContainer) -> (r:
    bool)
    ensures
        r == spec_offers(*target, container),
{
    let mut i: usize = 0;
    while i < target.protocol_info.len()
        invariant
            i <= target.protocol_info@.len(),
            forall|j: int|
                0 <= j < i ==> !line_offers(#[trigger] target.protocol_info@[j]@, container),
        decreases target.protocol_info@.len() - i,
    {
        match protocol_info_content_format(target.protocol_info[i].as_str()) {
            Some(mime) => {
                if mime_matches_pcm_container(mime.as_str(), container) {
                    assert(line_offers(target.protocol_info@[i as int]@, container));
                    return true;
                }
            },
            None => {},
        }
        i = i + 1;
    }
    false
}

/// The rates that a plain number of hertz can name.
pub open spec fn is_known_rate(rate: u32) -> bool {
    ||| rate == 44_100
    ||| rate == 48_000
    ||| rate == 88_200
    ||| rate == 96_000
    ||| rate == 176_400
    ||| rate == 192_000
    ||| rate == 352_800
    ||| rate == 384_000
    ||| rate == 705_600
    ||| rate == 768_000
}

pub open spec fn spec_hz_rate(value: Seq<char>) -> Option<u32> {
    match text::parsed_u32(value) {
        Some(rate) => if is_known_rate(rate) {
            Some(rate)
        } else {
            None
        },
        None => None,
    }
}

/// The rate that a number of hertz names.
pub fn parse_hz_rate_token(value: &str) -> (r: Option<u32>)
    ensures
        r == spec_hz_rate(value@),
{
    match text::parse_u32(value) {
        Some(rate) => {
            if rate == 44_100 || rate == 48_000 || rate == 88_200 || rate == 96_000 || rate
                == 176_400 || rate == 192_000 || rate == 352_800 || rate == 384_000 || rate
                == 705_600 || rate == 768_000 {
                Some(rate)
            } else {
                None
            }
        },
        None => None,
    }
}

/// The rate that a number of kilohertz names, with or without its decimal.
pub open spec fn spec_khz_rate(value: Seq<char>) -> Option<u32> {
    if value == "44"@ || value == "44.1"@ {
        Some(44_100u32)
    } else if value == "48"@ {
        Some(48_000u32)
    } else if value == "88"@ || value == "88.2"@ {
        Some(88_200u32)
    } else if value == "96"@ {
        Some(96_000u32)
    } else if value == "176"@ || value == "176.4"@ {
        Some(176_400u32)
    } else if value == "192"@ {
        Some(192_000u32)
    } else if value == "352"@ || value == "352.8"@ {
        Some(352_800u32)
    } else if value == "384"@ {
        Some(384_000u32)
    } else if value == "705"@ || value == "705.6"@ {
        Some(705_600u32)
    } else if value == "768"@ {
        Some(768_000u32)
    } else {
        None
    }
}

/// The rate that a number of kilohertz names.
pub fn parse_khz_rate_token(value: &str) -> (r: Option<u32>)
    ensures
        r == spec_khz_rate(value@),
{
    if *value == *"44" || *value == *"44.1" {
        Some(44_100)
    } else if *value == *"48" {
        Some(48_000)
    } else if *value == *"88" || *value == *"88.2" {
        Some(88_200)
    } else if *value == *"96" {
        Some(96_000)
    } else if *value == *"176" || *value == *"176.4" {
        Some(176_400)
    } else if *value == *"192" {
        Some(192_000)
    } else if *value == *"352" || *value == *"352.8" {
        Some(352_800)
    } else if *value == *"384" {
        Some(384_000)
    } else if *value == *"705" || *value == *"705.6" {
        Some(705_600)
    } else if *value == *"768" {
        Some(768_000)
    } else {
        None
    }
}

/// The rate that a token names: kilohertz or hertz by its suffix; without
/// one, hertz before kilohertz.
pub open spec fn spec_rate_token(token: Seq<char>) -> Option<u32> {
    let t = text::ascii_lower(text::trimmed(token));
    match text::suffix_stripped(t, "khz"@) {
        Some(khz) => spec_khz_rate(khz),
        None => match text::suffix_stripped(t, "hz"@) {
            Some(hz) => spec_hz_rate(hz),
            None => match spec_hz_rate(t) {
                Some(rate) => Some(rate),
                None => spec_khz_rate(t),
            },
        },
    }
}

/// The rate that a token names.
pub fn pcm_rate_token(token: &str) -> (r: Option<u32>)
    ensures
        r == spec_rate_token(token@),
{
    let lower = token.trim().to_ascii_lowercase();
    match text::strip_suffix(lower.as_str(), "khz") {
        Some(khz) => return parse_khz_rate_token(khz.as_str()),
        None => {},
    }
    match text::strip_suffix(lower.as_str(), "hz") {
        Some(hz) => return parse_hz_rate_token(hz.as_str()),
        None => {},
    }
    match parse_hz_rate_token(lower.as_str()) {
        Some(rate) => Some(rate),
        None => parse_khz_rate_token(lower.as_str()),
    }
}

/// A character that a token can hold.
pub open spec fn token_char(c: char) -> bool {
    ||| '0' <= c && c <= '9'
    ||| 'A' <= c && c <= 'Z'
    ||| 'a' <= c && c <= 'z'
    ||| c == '.'
}

/// `s[i..j]` is a token: a longest run of token characters.
pub open spec fn is_token(s: Seq<char>, i: int, j: int) -> bool {
    &&& 0 <= i < j <= s.len()
    &&& forall|k: int| i <= k < j ==> token_char(#[trigger] s[k])
    &&& i > 0 ==> !token_char(s[i - 1])
    &&& j < s.len() ==> !token_char(s[j])
}

/// A token names a rate of at least `sample_rate`.
pub open spec fn rate_suffices(token: Seq<char>, sample_rate: u32) -> bool {
    spec_rate_token(token) is Some && spec_rate_token(token)->0 >= sample_rate
}

/// Some token of `s` names a rate of at least `sample_rate`.
pub open spec fn names_rate(s: Seq<char>, sample_rate: u32) -> bool {
    exists|i: int, j: int|
        #![trigger s.subrange(i, j)]
        is_token(s, i, j) && rate_suffices(s.subrange(i, j), sample_rate)
}

fn is_token_char(c: char) -> (r: bool)
    ensures
        r == token_char(c),
{
    ('0' <= c && c <= '9') || ('A' <= c && c <= 'Z') || ('a' <= c && c <= 'z') || c == '.'
}

/// Whether some token of `s` names a rate of at least `sample_rate`.
pub fn text_names_rate(s: &str, sample_rate: u32) -> (r: bool)
    ensures
        r == names_rate(s@, sample_rate),
{
    let v = text::chars_of(s);
    let mut pos: usize = 0;
    while pos < v.len()
        invariant
            v@ == s@,
            pos <= v@.len(),
            pos == 0 || pos == v@.len() || !token_char(v@[pos as int]) || !token_char(v@[pos - 1]),
            forall|i: int, j: int|
                #![trigger s@.subrange(i, j)]
                is_token(s@, i, j) && i < pos ==> !rate_suffices(s@.subrange(i, j), sample_rate),
        decreases v@.len() - pos,
    {
        if !is_token_char(v[pos]) {
            pos = pos + 1;
        } else {
            let mut end: usize = pos;
            while end < v.len() && is_token_char(v[end])
                invariant
                    pos <= end <= v@.len(),
                    forall|k: int| pos <= k < end ==> token_char(#[trigger] v@[k]),
                decreases v@.len() - end,
            {
                end = end + 1;
            }
            let token = text::text_of(&v, pos, end);
            proof {
                assert(token_char(v@[pos as int]));
                assert(end > pos);
                assert(is_token(s@, pos as int, end as int));
            }
            match pcm_rate_token(token.as_str()) {
                Some(rate) => {
                    if rate >= sample_rate {
                        assert(rate_suffices(s@.subrange(pos as int, end as int), sample_rate));
                        return true;
                    }
                },
                None => {},
            }
            proof {
                assert forall|i: int, j: int|
                    #![trigger s@.subrange(i, j)]
                    is_token(s@, i, j) && i < end implies !rate_suffices(
                    s@.subrange(i, j),
                    sample_rate,
                ) by {
                    if i >= pos {
                        if i > pos {
                            assert(token_char(s@[i - 1]));
                        }
                        assert(i == pos);
                        if j < end {
                            assert(token_char(s@[j]));
                        }
                        if j > end {
                            assert(token_char(s@[end as int]));
                        }
                    }
                }
            }
            pos = end;
        }
    }
    false
}

/// The bit depth that a protocol-info text advertises, or zero.
pub open spec fn spec_advertised_bits(value: Seq<char>) -> u8 {
    let t = text::ascii_lower(value);
    if text::contains_text(t, "bitspersample=32"@) || text::contains_text(t, "bitdepth=32"@)
        || text::contains_text(t, "32bit"@) || text::contains_text(t, "s32"@) {
        32
    } else if text::contains_text(t, "bitspersample=24"@) || text::contains_text(
        t,
        "bitdepth=24"@,
    ) || text::contains_text(t, "24bit"@) || text::contains_text(t, "s24"@) || text::contains_text(
        t,
        "l24"@,
    ) || text::contains_text(t, "_24"@) {
        24
    } else if text::contains_text(t, "bitspersample=16"@) || text::contains_text(
        t,
        "bitdepth=16"@,
    ) || text::contains_text(t, "16bit"@) || text::contains_text(t, "s16"@) || text::contains_text(
        t,
        "l16"@,
    ) {
        16
    } else {
        0
    }
}

/// The bit depth that a protocol-info text advertises, or zero.
pub fn pcm_bit_depth_from_protocol_text(value: &str) -> (r: u8)
    ensures
        r == spec_advertised_bits(value@),
{
    let lower = value.to_ascii_lowercase();
    let t = lower.as_str();
    if text::contains(t, "bitspersample=32") || text::contains(t, "bitdepth=32") || text::contains(
        t,
        "32bit",
    ) || text::contains(t, "s32") {
        32
    } else if text::contains(t, "bitspersample=24") || text::contains(t, "bitdepth=24")
        || text::contains(t, "24bit") || text::contains(t, "s24") || text::contains(t, "l24")
        || text::contains(t, "_24") {
        24
    } else if text::contains(t, "bitspersample=16") || text::contains(t, "bitdepth=16")
        || text::contains(t, "16bit") || text::contains(t, "s16") || text::contains(t, "l16") {
        16
    } else {
        0
    }
}

/// What a protocol-info line says of formats, in lower case: its third field,
/// a semicolon, and everything behind its third separator.
pub open spec fn format_text(value: Seq<char>) -> Seq<char> {
    let format = text::ascii_lower(text::trimmed(text::nth_field(value, ':', 2)->0));
    let extra = match text::after_separators(value, ':', 3) {
        Some(rest) => text::ascii_lower(text::trimmed(rest)),
        None => Seq::empty(),
    };
    format + ";"@ + extra
}

/// A protocol-info line promises a container at a rate and depth.
pub open spec fn line_supports(
    value: Seq<char>,
    container: UpnpPcmContainer,
    sample_rate: u32,
    bit_depth: u8,
) -> bool {
    &&& text::nth_field(value, ':', 2) is Some
    &&& spec_mime_matches(
        text::ascii_lower(text::trimmed(text::nth_field(value, ':', 2)->0)),
        container,
    )
    &&& names_rate(format_text(value), sample_rate)
    &&& spec_advertised_bits(format_text(value)) >= bit_depth
}

/// Whether a protocol-info line promises a container at a rate and depth.
pub fn protocol_info_supports_pcm_container(
    value: &str,
    container: UpnpPcmContainer,
    sample_rate: u32,
    bit_depth: u8,
) -> (r: bool)
    ensures
        r == line_supports(value@, container, sample_rate, bit_depth),
{
    let content_format = match text::field(value, ':', 2) {
        Some(format) => format.as_str().trim().to_ascii_lowercase(),
        None => return false,
    };
    let additional_info = match text::rest_after(value, ':', 3) {
        Some(rest) => rest.as_str().trim().to_ascii_lowercase(),
        None => String::new(),
    };
    if !mime_matches_pcm_container(content_format.as_str(), container) {
        return false;
    }
    let mut combined = content_format;
    combined.append(";");
    combined.append(additional_info.as_str());
    let has_rate = text_names_rate(combined.as_str(), sample_rate);
    let advertised_bits = pcm_bit_depth_from_protocol_text(combined.as_str());
    has_rate && advertised_bits >= bit_depth
}

/// A renderer takes a container at a rate and depth: by its own capability
/// list, or by a protocol-info line.
pub open spec fn spec_supports(
    target: UpnpRendererTarget,
    container: UpnpPcmContainer,
    sample_rate: u32,
    bit_depth: u8,
) -> bool {
    ||| exists|i: int|
        0 <= i < target.pcm_containers@.len() && (#[trigger] target.pcm_containers@[i]).container
            == container && target.pcm_containers@[i].max_sample_rate >= sample_rate
            && target.pcm_containers@[i].max_bit_depth >= bit_depth
    ||| exists|i: int|
        0 <= i < target.protocol_info@.len() && line_supports(
            #[trigger] target.protocol_info@[i]@,
            container,
            sample_rate,
            bit_depth,
        )
}

/// Whether a renderer takes a container at a rate and depth.
pub fn target_supports_pcm_container(
    target: &UpnpRendererTarget,
    container: UpnpPcmContainer,
    sample_rate: u32,
    bit_depth: u8,
) -> (r: bool)
    ensures
        r == spec_supports(*target, container, sample_rate, bit_depth),
{
    let mut i: usize = 0;
    while i < target.pcm_containers.len()
        invariant
            i <= target.pcm_containers@.len(),
            forall|j: int|
                0 <= j < i ==> !((#[trigger] target.pcm_containers@[j]).container == container
                    && target.pcm_containers@[j].max_sample_rate >= sample_rate
                    && target.pcm_containers@[j].max_bit_depth >= bit_depth),
        decreases target.pcm_containers@.len() - i,
    {
        let capability = target.pcm_containers[i];
        if capability.container == container && capability.max_sample_rate >= sample_rate
            && capability.max_bit_depth >= bit_depth {
            return true;
        }
        i = i + 1;
    }
    let mut k: usize = 0;
    while k < target.protocol_info.len()
        invariant
            k <= target.protocol_info@.len(),
            forall|j: int|
                0 <= j < k ==> !line_supports(
                    #[trigger] target.protocol_info@[j]@,
                    container,
                    sample_rate,
                    bit_depth,
                ),
        decreases target.protocol_info@.len() - k,
    {
        if protocol_info_supports_pcm_container(
            target.protocol_info[k].as_str(),
            container,
            sample_rate,
            bit_depth,
        ) {
            assert(line_supports(
                target.protocol_info@[k as int]@,
                container,
                sample_rate,
                bit_depth,
            ));
            return true;
        }
        k = k + 1;
    }
    false
}

/// A renderer can be sent marked one-bit audio as WAV. KEF renderers
/// advertise high-rate WAV but reject marked streams, so they never can.
pub open spec fn spec_supports_dop_wav(
    target: UpnpRendererTarget,
    sample_rate: u32,
    bit_depth: u8,
) -> bool {
    if upnp_target::spec_is_kef(target) {
        false
    } else if spec_supports(target, UpnpPcmContainer::Wav, sample_rate, bit_depth) {
        true
    } else if target.max_sample_rate < sample_rate || target.max_bit_depth < bit_depth {
        false
    } else {
        spec_offers(target, UpnpPcmContainer::Wav) || (target.pcm_containers@.len() == 0
            && !spec_offers(target, UpnpPcmContainer::Flac))
    }
}

/// Whether a renderer can be sent marked one-bit audio as WAV.
pub fn target_supports_dop_wav_carrier(
    target: &UpnpRendererTarget,
    sample_rate: u32,
    bit_depth: u8,
) -> (r: bool)
    ensures
        r == spec_supports_dop_wav(*target, sample_rate, bit_depth),
{
    if upnp_target::is_kef_upnp_target(target) {
        return false;
    }
    if target_supports_pcm_container(target, UpnpPcmContainer::Wav, sample_rate, bit_depth) {
        return true;
    }
    if target.max_sample_rate < sample_rate || target.max_bit_depth < bit_depth {
        return false;
    }
    if target_offers_container(target, UpnpPcmContainer::Wav) {
        return true;
    }
    target.pcm_containers.is_empty() && !target_offers_container(target, UpnpPcmContainer::Flac)
}

/// The container for rendered PCM: WAV above 24 bits and for 16-bit KEF
/// output; otherwise FLAC where the renderer takes it at this rate and depth,
/// and WAV where it does not. A KEF renderer's plain FLAC offer counts at any
/// rate and depth within its limits.
pub open spec fn spec_render_container(
    sample_rate: u32,
    bit_depth: u32,
    target: UpnpRendererTarget,
) -> UpnpPcmContainer {
    let depth = if bit_depth < 255 {
        bit_depth as u8
    } else {
        255u8
    };
    if bit_depth > 24 || (upnp_target::spec_is_kef(target) && bit_depth == 16) {
        UpnpPcmContainer::Wav
    } else if upnp_target::spec_is_kef(target) && target.max_sample_rate >= sample_rate
        && target.max_bit_depth >= depth && spec_offers(target, UpnpPcmContainer::Flac) {
        UpnpPcmContainer::Flac
    } else if spec_supports(target, UpnpPcmContainer::Flac, sample_rate, depth) {
        UpnpPcmContainer::Flac
    } else {
        UpnpPcmContainer::Wav
    }
}

/// The container for rendered PCM.
pub fn pcm_render_container_for_target(
    sample_rate: u32,
    bit_depth: u32,
    target: &UpnpRendererTarget,
) -> (r: UpnpPcmContainer)
    ensures
        r == spec_render_container(sample_rate, bit_depth, *target),
{
    if bit_depth > 24 {
        return UpnpPcmContainer::Wav;
    }
    let depth: u8 = bit_depth as u8;
    let kef = upnp_target::is_kef_upnp_target(target);
    if kef && bit_depth == 16 {
        return UpnpPcmContainer::Wav;
    }
    if kef && target.max_sample_rate >= sample_rate && target.max_bit_depth >= depth
        && target_offers_container(target, UpnpPcmContainer::Flac) {
        return UpnpPcmContainer::Flac;
    }
    if target_supports_pcm_container(target, UpnpPcmContainer::Flac, sample_rate, depth) {
        UpnpPcmContainer::Flac
    } else {
        UpnpPcmContainer::Wav
    }
}

/// A renderer that declares FLAC at the rate and depth of a render gets FLAC,
/// unless it is a KEF and the render has 16 bits.
pub proof fn law_declared_flac_is_rendered(
    sample_rate: u32,
    bit_depth: u32,
    target: UpnpRendererTarget,
    i: int,
)
    requires
        bit_depth <= 24,
        0 <= i < target.pcm_containers@.len(),
        target.pcm_containers@[i].container is Flac,
        target.pcm_containers@[i].max_sample_rate >= sample_rate,
        target.pcm_containers@[i].max_bit_depth >= bit_depth,
    ensures
        spec_render_container(sample_rate, bit_depth, target) is Flac <==> !(
        upnp_target::spec_is_kef(target) && bit_depth == 16),
{
    assert(spec_supports(target, UpnpPcmContainer::Flac, sample_rate, bit_depth as u8));
}

/// A renderer that describes no formats and declares no FLAC at the rate and
/// depth of a render gets WAV, and so does every render beyond 24 bits.
pub proof fn law_undeclared_flac_is_not_rendered(
    sample_rate: u32,
    bit_depth: u32,
    target: UpnpRendererTarget,
)
    requires
        bit_depth > 24 || (target.protocol_info@.len() == 0 && forall|i: int|
            0 <= i < target.pcm_containers@.len() ==> !((
            #[trigger] target.pcm_containers@[i]).container is Flac
                && target.pcm_containers@[i].max_sample_rate >= sample_rate
                && target.pcm_containers@[i].max_bit_depth >= bit_depth)),
    ensures
        spec_render_container(sample_rate, bit_depth, target) is Wav,
{
}

/// What a renderer supports at some rate and depth, it supports at every lower
/// rate and depth.
pub proof fn law_lower_formats_are_supported(
    target: UpnpRendererTarget,
    container: UpnpPcmContainer,
    rate: u32,
    depth: u8,
    lower_rate: u32,
    lower_depth: u8,
)
    requires
        lower_rate <= rate,
        lower_depth <= depth,
        spec_supports(target, container, rate, depth),
    ensures
        spec_supports(target, container, lower_rate, lower_depth),
{
    if !(exists|i: int|
        0 <= i < target.pcm_containers@.len() && (#[trigger] target.pcm_containers@[i]).container
            == container && target.pcm_containers@[i].max_sample_rate >= rate
            && target.pcm_containers@[i].max_bit_depth >= depth) {
        let i = choose|i: int|
            0 <= i < target.protocol_info@.len() && line_supports(
                #[trigger] target.protocol_info@[i]@,
                container,
                rate,
                depth,
            );
        let s = format_text(target.protocol_info@[i]@);
        let (from, to) = choose|from: int, to: int|
            #![trigger s.subrange(from, to)]
            is_token(s, from, to) && rate_suffices(s.subrange(from, to), rate);
        assert(is_token(s, from, to) && rate_suffices(s.subrange(from, to), lower_rate));
        assert(line_supports(target.protocol_info@[i]@, container, lower_rate, lower_depth));
    }
}

/// A KEF never takes marked streams.
pub proof fn law_kef_takes_no_marked_streams(
    target: UpnpRendererTarget,
    sample_rate: u32,
    bit_depth: u8,
)
    requires
        upnp_target::spec_is_kef(target),
    ensures
        !spec_supports_dop_wav(target, sample_rate, bit_depth),
{
}

/// Another renderer that declares WAV at the rate and depth of a marked stream
/// takes it.
pub proof fn law_declared_wav_takes_marked_streams(
    target: UpnpRendererTarget,
    sample_rate: u32,
    bit_depth: u8,
    i: int,
)
    requires
        !upnp_target::spec_is_kef(target),
        0 <= i < target.pcm_containers@.len(),
        target.pcm_containers@[i].container is Wav,
        target.pcm_containers@[i].max_sample_rate >= sample_rate,
        target.pcm_containers@[i].max_bit_depth >= bit_depth,
    ensures
        spec_supports_dop_wav(target, sample_rate, bit_depth),
{
}

/// A renderer that says nothing of formats and containers takes marked streams
/// exactly within its limits.
pub proof fn law_undeclared_renderer_takes_marked_streams(
    target: UpnpRendererTarget,
    sample_rate: u32,
    bit_depth: u8,
)
    requires
        !upnp_target::spec_is_kef(target),
        target.protocol_info@.len() == 0,
        target.pcm_containers@.len() == 0,
    ensures
        spec_supports_dop_wav(target, sample_rate, bit_depth) <==> sample_rate
            <= target.max_sample_rate && bit_depth <= target.max_bit_depth,
{
}

/// A renderer that declares containers, but no WAV at the rate and depth of a
/// marked stream, and describes no formats does not take it.
pub proof fn law_declared_flac_takes_no_marked_streams(
    target: UpnpRendererTarget,
    sample_rate: u32,
    bit_depth: u8,
)
    requires
        target.protocol_info@.len() == 0,
        target.pcm_containers@.len() > 0,
        forall|i: int|
            0 <= i < target.pcm_containers@.len() ==> !((
            #[trigger] target.pcm_containers@[i]).container is Wav
                && target.pcm_containers@[i].max_sample_rate >= sample_rate
                && target.pcm_containers@[i].max_bit_depth >= bit_depth),
    ensures
        !spec_supports_dop_wav(target, sample_rate, bit_depth),
{
}

/// The content format of a line of four fields is its third, without the white
/// space around it; none when nothing is left.
pub proof fn law_content_format_is_the_third_field(
    protocol: Seq<char>,
    network: Seq<char>,
    format: Seq<char>,
    extra: Seq<char>,
)
    requires
        !protocol.contains(':'),
        !network.contains(':'),
        !format.contains(':'),
    ensures
        spec_content_format(
            protocol + seq![':'] + (network + seq![':'] + (format + seq![':'] + extra)),
        ) == (if text::trimmed(format).len() > 0 {
            Some(text::trimmed(format))
        } else {
            None
        }),
{
    text::law_fields_of_joined_text(
        protocol,
        network + seq![':'] + (format + seq![':'] + extra),
        ':',
        1,
    );
    text::law_fields_of_joined_text(network, format + seq![':'] + extra, ':', 0);
    text::law_fields_of_joined_text(format, extra, ':', 0);
}

/// A rate that a token names is one of those that players and renderers use.
pub proof fn law_rates_are_known(token: Seq<char>)
    ensures
        spec_rate_token(token) is Some ==> ({
            let rate = spec_rate_token(token)->0;
            (rate % 44_100 == 0 || rate % 48_000 == 0) && 44_100 <= rate <= 768_000
        }),
{
}

/// The case of a token and the white space around it do not matter.
pub proof fn law_rate_tokens_ignore_case(token: Seq<char>)
    requires
        token.len() > 0,
        text::is_trimmed(token),
    ensures
        spec_rate_token(text::ascii_lower(token)) == spec_rate_token(token),
        spec_rate_token(seq![' '] + token + seq![' ']) == spec_rate_token(token),
{
    text::law_ascii_lower(token);
    text::law_trimmed(token);
    text::law_trimmed(text::ascii_lower(token));
    text::law_trimming_drops_surroundings(seq![' '], token, seq![' ']);
}

/// A text that contains a word contains every part of the word.
proof fn lemma_part_occurs(s: Seq<char>, word: Seq<char>, part: Seq<char>, at: int)
    requires
        0 <= at,
        at + part.len() <= word.len(),
        forall|k: int| 0 <= k < part.len() ==> word[at + k] == #[trigger] part[k],
    ensures
        text::contains_text(s, word) ==> text::contains_text(s, part),
{
    if text::contains_text(s, word) {
        let i = choose|i: int| text::occurs_at(s, word, i);
        assert forall|k: int| 0 <= k < part.len() implies s.subrange(
            i + at,
            i + at + part.len(),
        )[k] == #[trigger] part[k] by {
            assert(s.subrange(i, i + word.len())[at + k] == word[at + k]);
        }
        assert(s.subrange(i + at, i + at + part.len()) =~= part);
        assert(text::occurs_at(s, part, i + at));
    }
}

/// A depth that a renderer's text names outright is at least advertised, and
/// one that it does not name is not.
pub proof fn law_named_depths_are_advertised(value: Seq<char>)
    ensures
        ({
            let t = text::ascii_lower(value);
            let bits = spec_advertised_bits(value);
            &&& text::contains_text(t, "32bit"@) || text::contains_text(t, "bitdepth=32"@)
                || text::contains_text(t, "bitspersample=32"@) || text::contains_text(t, "s32"@)
                ==> bits >= 32
            &&& text::contains_text(t, "24bit"@) || text::contains_text(t, "bitdepth=24"@)
                || text::contains_text(t, "bitspersample=24"@) || text::contains_text(t, "s24"@)
                || text::contains_text(t, "l24"@) || text::contains_text(t, "_24"@) ==> bits >= 24
            &&& text::contains_text(t, "16bit"@) || text::contains_text(t, "bitdepth=16"@)
                || text::contains_text(t, "bitspersample=16"@) || text::contains_text(t, "s16"@)
                || text::contains_text(t, "l16"@) ==> bits >= 16
            &&& bits == 0 || bits == 16 || bits == 24 || bits == 32
            &&& !text::contains_text(t, "32"@) ==> bits < 32
            &&& !text::contains_text(t, "32"@) && !text::contains_text(t, "24"@) ==> bits < 24
            &&& !text::contains_text(t, "32"@) && !text::contains_text(t, "24"@)
                && !text::contains_text(t, "16"@) ==> bits == 0
        }),
        text::ascii_lower(value) == value || spec_advertised_bits(text::ascii_lower(value))
            == spec_advertised_bits(value),
{
    let t = text::ascii_lower(value);
    text::law_ascii_lower(value);
    reveal_strlit("32");
    reveal_strlit("24");
    reveal_strlit("16");
    reveal_strlit("32bit");
    reveal_strlit("bitdepth=32");
    reveal_strlit("bitspersample=32");
    reveal_strlit("s32");
    reveal_strlit("24bit");
    reveal_strlit("bitdepth=24");
    reveal_strlit("bitspersample=24");
    reveal_strlit("s24");
    reveal_strlit("l24");
    reveal_strlit("_24");
    reveal_strlit("16bit");
    reveal_strlit("bitdepth=16");
    reveal_strlit("bitspersample=16");
    reveal_strlit("s16");
    reveal_strlit("l16");
    lemma_part_occurs(t, "32bit"@, "32"@, 0);
    lemma_part_occurs(t, "bitdepth=32"@, "32"@, 9);
    lemma_part_occurs(t, "bitspersample=32"@, "32"@, 14);
    lemma_part_occurs(t, "s32"@, "32"@, 1);
    lemma_part_occurs(t, "24bit"@, "24"@, 0);
    lemma_part_occurs(t, "bitdepth=24"@, "24"@, 9);
    lemma_part_occurs(t, "bitspersample=24"@, "24"@, 14);
    lemma_part_occurs(t, "s24"@, "24"@, 1);
    lemma_part_occurs(t, "l24"@, "24"@, 1);
    lemma_part_occurs(t, "_24"@, "24"@, 1);
    lemma_part_occurs(t, "16bit"@, "16"@, 0);
    lemma_part_occurs(t, "bitdepth=16"@, "16"@, 9);
    lemma_part_occurs(t, "bitspersample=16"@, "16"@, 14);
    lemma_part_occurs(t, "s16"@, "16"@, 1);
    lemma_part_occurs(t, "l16"@, "16"@, 1);
}

proof fn lemma_digits_are_no_unit(digits: Seq<char>, unit: Seq<char>)
    requires
        digits.len() > 0,
        forall|i: int| 0 <= i < digits.len() ==> '0' <= #[trigger] digits[i] <= '9',
        unit == "khz"@ || unit == "hz"@,
    ensures
        text::suffix_stripped(digits, unit) is None,
        text::suffix_stripped(digits + unit, unit) == Some(digits),
        unit == "hz"@ ==> text::suffix_stripped(digits + unit, "khz"@) is None,
        text::ascii_lower(text::trimmed(digits)) == digits,
        text::ascii_lower(text::trimmed(digits + unit)) == digits + unit,
{
    reveal_strlit("khz");
    reveal_strlit("hz");
    let whole = digits + unit;
    let n = unit.len() as int;
    assert(whole.subrange(whole.len() - n, whole.len() as int) =~= unit);
    assert(whole.take(whole.len() - n) =~= digits);
    if n <= digits.len() {
        assert(digits.subrange(digits.len() - n, digits.len() as int)[n - 1] == digits.last());
        assert(unit[n - 1] == 'z');
    }
    if unit == "hz"@ && whole.len() >= 3 {
        assert(whole.subrange(whole.len() - 3, whole.len() as int)[0] == digits.last());
        assert("khz"@[0] == 'k');
    }
    text::law_trimmed(digits);
    text::law_trimmed(whole);
    assert(text::ascii_lower(digits) =~= digits);
    assert forall|i: int| 0 <= i < whole.len() implies text::ascii_lower_char(whole[i])
        == whole[i] by {
        if i >= digits.len() {
            assert(whole[i] == unit[i - digits.len()]);
        } else {
            assert(whole[i] == digits[i]);
        }
    }
    assert(text::ascii_lower(whole) =~= whole);
}

proof fn lemma_kilohertz(rate: u32)
    requires
        is_known_rate(rate),
    ensures
        spec_khz_rate(text::decimal((rate / 1_000) as nat)) == Some(rate),
{
    reveal_with_fuel(text::decimal, 4);
    reveal_strlit("44");
    reveal_strlit("44.1");
    reveal_strlit("48");
    reveal_strlit("88");
    reveal_strlit("88.2");
    reveal_strlit("96");
    reveal_strlit("176");
    reveal_strlit("176.4");
    reveal_strlit("192");
    reveal_strlit("352");
    reveal_strlit("352.8");
    reveal_strlit("384");
    reveal_strlit("705");
    reveal_strlit("705.6");
    reveal_strlit("768");
    let t = text::decimal((rate / 1_000) as nat);
    if rate == 44_100 {
        assert(t =~= "44"@);
    } else if rate == 48_000 {
        assert(t =~= "48"@);
        assert(t[1] != "44"@[1] && t.len() != "44.1"@.len());
    } else if rate == 88_200 {
        assert(t =~= "88"@);
        assert(t[0] != "44"@[0] && t.len() != "44.1"@.len() && t[0] != "48"@[0]);
    } else if rate == 96_000 {
        assert(t =~= "96"@);
        assert(t[0] != "44"@[0] && t.len() != "44.1"@.len() && t[0] != "48"@[0]);
        assert(t[0] != "88"@[0] && t.len() != "88.2"@.len());
    } else {
        assert(t.len() == 3);
        assert(t.len() != "44"@.len() && t.len() != "44.1"@.len() && t.len() != "48"@.len());
        assert(t.len() != "88"@.len() && t.len() != "88.2"@.len() && t.len() != "96"@.len());
        assert(t.len() != "176.4"@.len() && t.len() != "352.8"@.len() && t.len() != "705.6"@.len());
        if rate == 176_400 {
            assert(t =~= "176"@);
        } else if rate == 192_000 {
            assert(t =~= "192"@);
            assert(t[1] != "176"@[1]);
        } else if rate == 352_800 {
            assert(t =~= "352"@);
            assert(t[0] != "176"@[0] && t[0] != "192"@[0]);
        } else if rate == 384_000 {
            assert(t =~= "384"@);
            assert(t[0] != "176"@[0] && t[0] != "192"@[0] && t[1] != "352"@[1]);
        } else if rate == 705_600 {
            assert(t =~= "705"@);
            assert(t[0] != "176"@[0] && t[0] != "192"@[0] && t[0] != "352"@[0]);
            assert(t[0] != "384"@[0]);
        } else {
            assert(t =~= "768"@);
            assert(t[0] != "176"@[0] && t[0] != "192"@[0] && t[0] != "352"@[0]);
            assert(t[0] != "384"@[0] && t[1] != "705"@[1]);
        }
    }
}

/// The rates of players and renderers are understood in hertz and in whole
/// kilohertz, with and without their unit.
pub proof fn law_rates_are_understood(rate: u32)
    requires
        rate == 44_100 || rate == 48_000 || rate == 88_200 || rate == 96_000 || rate == 176_400
            || rate == 192_000 || rate == 352_800 || rate == 384_000 || rate == 705_600 || rate
            == 768_000,
    ensures
        spec_rate_token(text::decimal(rate as nat)) == Some(rate),
        spec_rate_token(text::decimal(rate as nat) + "hz"@) == Some(rate),
        spec_rate_token(text::decimal((rate / 1_000) as nat)) == Some(rate),
        spec_rate_token(text::decimal((rate / 1_000) as nat) + "khz"@) == Some(rate),
{
    let hertz = text::decimal(rate as nat);
    let kilohertz = text::decimal((rate / 1_000) as nat);
    text::lemma_decimal_shape(rate as nat);
    text::lemma_decimal_shape((rate / 1_000) as nat);
    text::law_decimal_is_read_back(rate);
    text::law_decimal_is_read_back((rate / 1_000) as u32);
    lemma_kilohertz(rate);
    lemma_digits_are_no_unit(hertz, "hz"@);
    lemma_digits_are_no_unit(hertz, "khz"@);
    lemma_digits_are_no_unit(kilohertz, "hz"@);
    lemma_digits_are_no_unit(kilohertz, "khz"@);
}

/// A media type that contains the name of a container is of that container.
pub proof fn law_media_types_name_containers(before: Seq<char>, after: Seq<char>)
    ensures
        spec_mime_matches(before + "flac"@ + after, UpnpPcmContainer::Flac),
        spec_mime_matches(before + "wav"@ + after, UpnpPcmContainer::Wav),
        !spec_mime_matches("audio/wav"@, UpnpPcmContainer::Flac),
        !spec_mime_matches("audio/flac"@, UpnpPcmContainer::Wav),
{
    let n = before.len() as int;
    let flac = before + "flac"@ + after;
    let wav = before + "wav"@ + after;
    assert(flac.subrange(n, n + "flac"@.len()) =~= "flac"@);
    assert(text::occurs_at(flac, "flac"@, n));
    assert(wav.subrange(n, n + "wav"@.len()) =~= "wav"@);
    assert(text::occurs_at(wav, "wav"@, n));
    reveal_strlit("flac");
    reveal_strlit("wav");
    reveal_strlit("wave");
    reveal_strlit("audio/wav");
    reveal_strlit("audio/flac");
    assert("audio/wav"@.len() == 9 && "audio/flac"@.len() == 10);
    assert forall|i: int| !text::occurs_at("audio/wav"@, "flac"@, i) by {
        if text::occurs_at("audio/wav"@, "flac"@, i) {
            assert("audio/wav"@.subrange(i, i + 4)[0] == "flac"@[0]);
        }
    }
    assert forall|i: int| !text::occurs_at("audio/flac"@, "wav"@, i) by {
        if text::occurs_at("audio/flac"@, "wav"@, i) {
            assert("audio/flac"@.subrange(i, i + 3)[0] == "wav"@[0]);
        }
    }
    assert forall|i: int| !text::occurs_at("audio/flac"@, "wave"@, i) by {
        if text::occurs_at("audio/flac"@, "wave"@, i) {
            assert("audio/flac"@.subrange(i, i + 4)[0] == "wave"@[0]);
        }
    }
}

/// A text that names a rate between two characters that are no part of a word
/// names every rate up to it.
pub proof fn law_named_rates_are_found(
    before: Seq<char>,
    rate: u32,
    after: Seq<char>,
    wanted: u32,
)
    requires
        rate == 44_100 || rate == 48_000 || rate == 88_200 || rate == 96_000 || rate == 176_400
            || rate == 192_000 || rate == 352_800 || rate == 384_000 || rate == 705_600 || rate
            == 768_000,
        wanted <= rate,
    ensures
        names_rate(before + seq!['='] + text::decimal(rate as nat) + seq![';'] + after, wanted),
{
    let digits = text::decimal(rate as nat);
    let s = before + seq!['='] + digits + seq![';'] + after;
    let i = before.len() + 1;
    let j = i + digits.len();
    text::lemma_decimal_shape(rate as nat);
    law_rates_are_understood(rate);
    assert(s.subrange(i as int, j as int) =~= digits);
    assert forall|k: int| i <= k < j implies token_char(#[trigger] s[k]) by {
        assert(s[k] == digits[k - i]);
    }
    assert(s[i - 1] == '=');
    assert(s[j as int] == ';');
    assert(is_token(s, i as int, j as int));
    assert(rate_suffices(s.subrange(i as int, j as int), wanted));
}

} // verus!
