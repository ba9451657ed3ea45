//! Output protocols and the PCM containers of network renderers.

use vstd::prelude::*;

verus! {

/// How a zone is driven.
#[derive(Clone, Copy, Debug, PartialEq, Eq, Structural)]
pub enum SinkProtocol {
    LocalCoreAudio,
    RemoteAgent,
    AirPlayCoreAudio,
    AirPlayRaop,
    AirPlay2,
    SonosUpnp,
    UpnpAvRenderer,
    AsioOutput,
}

impl SinkProtocol {
    /// Whether zones of this protocol take part in DSP: all but AirPlay and
    /// Sonos.
    pub open spec fn spec_supports_dsp(self) -> bool {
        !(self is AirPlayCoreAudio || self is AirPlayRaop || self is AirPlay2 || self is SonosUpnp)
    }

    /// Whether zones of this protocol take part in DSP.
    pub fn supports_dsp(&self) -> (r: bool)
        ensures
            r == self.spec_supports_dsp(),
    {
        !matches!(
            self,
            SinkProtocol::AirPlayCoreAudio
            | SinkProtocol::AirPlayRaop
            | SinkProtocol::AirPlay2
            | SinkProtocol::SonosUpnp
        )
    }
}

/// A container for PCM that a renderer can be served.
#[derive(Clone, Copy, Debug, PartialEq, Eq, Hash, Structural)]
pub enum UpnpPcmContainer {
    Flac,
    Wav,
}

impl UpnpPcmContainer {
    pub open spec fn spec_name(self) -> Seq<char> {
        match self {
            UpnpPcmContainer::Flac => "flac"@,
            UpnpPcmContainer::Wav => "wav"@,
        }
    }

    /// The short name, which is also the file extension.
    pub fn as_str(self) -> (r: &'static str)
        ensures
            r@ == self.spec_name(),
    {
        match self {
            UpnpPcmContainer::Flac => "flac",
            UpnpPcmContainer::Wav => "wav",
        }
    }

    pub open spec fn spec_mime(self) -> Seq<char> {
        match self {
            UpnpPcmContainer::Flac => "audio/flac"@,
            UpnpPcmContainer::Wav => "audio/wav"@,
        }
    }

    /// The MIME type.
    pub fn mime_type(self) -> (r: &'static str)
        ensures
            r@ == self.spec_mime(),
    {
        match self {
            UpnpPcmContainer::Flac => "audio/flac",
            UpnpPcmContainer::Wav => "audio/wav",
        }
    }
}

/// The best PCM that a renderer takes in one container.
#[derive(Clone, Copy, Debug, PartialEq, Eq, Structural)]
pub struct UpnpPcmContainerCapability {
    pub container: UpnpPcmContainer,
    pub max_sample_rate: u32,
    pub max_bit_depth: u8,
}

pub open spec fn spec_system_audio_backend(target_os: Seq<char>) -> Seq<char> {
    if target_os == "macos"@ {
        "coreaudio"@
    } else if target_os == "windows"@ {
        "wasapi"@
    } else if target_os == "linux"@ {
        "alsa"@
    } else {
        "system"@
    }
}

/// The audio backend of an operating system, given its name.
pub fn system_audio_backend(target_os: &str) -> (r: &'static str)
    ensures
        r@ == spec_system_audio_backend(target_os@),
{
    if *target_os == *"macos" {
        "coreaudio"
    } else if *target_os == *"windows" {
        "wasapi"
    } else if *target_os == *"linux" {
        "alsa"
    } else {
        "system"
    }
}

/// Only AirPlay and Sonos outputs are processed by the device itself; every
/// other one takes processed sound.
pub proof fn law_dsp_is_for_own_outputs(protocol: SinkProtocol)
    ensures
        protocol.spec_supports_dsp() <==> protocol is LocalCoreAudio || protocol is AsioOutput
            || protocol is RemoteAgent || protocol is UpnpAvRenderer,
{
}

/// The media type of a container is that of audio by the container's name, and
/// no two containers share one.
pub proof fn law_media_types_are_named_by_container(container: UpnpPcmContainer)
    ensures
        container.spec_mime() == "audio/"@ + container.spec_name(),
        container.spec_name() == "flac"@ <==> container is Flac,
        container.spec_name() == "wav"@ <==> container is Wav,
{
    reveal_strlit("flac");
    reveal_strlit("wav");
    reveal_strlit("audio/");
    reveal_strlit("audio/flac");
    reveal_strlit("audio/wav");
    assert("flac"@.len() == 4 && "wav"@.len() == 3);
    assert("audio/flac"@ =~= "audio/"@ + "flac"@);
    assert("audio/wav"@ =~= "audio/"@ + "wav"@);
}

} // verus!
