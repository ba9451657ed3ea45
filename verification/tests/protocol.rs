use fozmo::audio::{auto_target_rate, Real32, Real64};
use fozmo::protocol::playback::{
    default_dsd_modulator, default_output_mode, default_target_bit_depth,
};
use fozmo::protocol::{
    system_audio_backend, PlaylistContext, SinkProtocol, SourceRef, UpnpPcmContainer,
};

#[test]
fn airplay_and_sonos_do_not_support_dsp() {
    assert!(!SinkProtocol::AirPlayCoreAudio.supports_dsp());
    assert!(!SinkProtocol::AirPlayRaop.supports_dsp());
    assert!(!SinkProtocol::AirPlay2.supports_dsp());
    assert!(!SinkProtocol::SonosUpnp.supports_dsp());
    assert!(SinkProtocol::LocalCoreAudio.supports_dsp());
    assert!(SinkProtocol::UpnpAvRenderer.supports_dsp());
}

#[test]
fn playback_config_defaults() {
    assert_eq!(default_output_mode(), "Pcm");
    assert_eq!(default_target_bit_depth(), 24);
    assert_eq!(default_dsd_modulator(), "EcDepth2");
}

fn local(track_id: i64, radio: bool) -> SourceRef {
    SourceRef::LocalTrack {
        track_id,
        file_name: Some("track.flac".to_string()),
        title: Some("Track".to_string()),
        artist: Some("Artist".to_string()),
        album: None,
        album_artist: None,
        album_id: None,
        art_id: None,
        duration_secs: None,
        ext_hint: None,
        radio,
        radio_context: None,
        playlist_context: Some(PlaylistContext::default()),
    }
}

#[test]
fn sources_know_their_kind_and_key() {
    let source = local(7, false);
    assert!(!source.is_radio());
    assert_eq!(source.kind(), "local_track");
    assert_eq!(source.local_track_id(), Some(7));
    assert_eq!(source.qobuz_track_id(), None);
    assert_eq!(source.key(), "local:7");
    assert!(local(7, true).is_radio());
    assert_eq!(local(-3, false).key(), "local:-3");
}

#[test]
fn containers_have_names_and_types() {
    assert_eq!(UpnpPcmContainer::Flac.as_str(), "flac");
    assert_eq!(UpnpPcmContainer::Wav.as_str(), "wav");
    assert_eq!(UpnpPcmContainer::Flac.mime_type(), "audio/flac");
    assert_eq!(UpnpPcmContainer::Wav.mime_type(), "audio/wav");
}

#[test]
fn backends_follow_the_system() {
    assert_eq!(system_audio_backend("macos"), "coreaudio");
    assert_eq!(system_audio_backend("windows"), "wasapi");
    assert_eq!(system_audio_backend("linux"), "alsa");
    assert_eq!(system_audio_backend("plan9"), "system");
}

#[test]
fn real_numbers_are_made_from_whole_ones() {
    for n in [0u32, 1, 2, 3, 180, 44_100, 192_000, u32::MAX] {
        assert_eq!(Real64::from_u32(n).bits, f64::from(n).to_bits());
    }
    for n in 0..=255u8 {
        assert_eq!(Real32::hundredths(n).bits, (f32::from(n) / 100.0).to_bits());
    }
    assert!(Real64 { bits: 1.5f64.to_bits() }.is_above_one());
    assert!(!Real64 { bits: 1.0f64.to_bits() }.is_above_one());
    assert!(!Real64 { bits: f64::NAN.to_bits() }.is_finite());
    assert!(!Real64 { bits: (-1.0f64).to_bits() }.is_positive());
}

#[test]
fn automatic_rates_stay_in_their_family() {
    assert_eq!(auto_target_rate(44_100, 192_000), 176_400);
    assert_eq!(auto_target_rate(48_000, 192_000), 192_000);
    assert_eq!(auto_target_rate(44_100, 96_000), 88_200);
}
