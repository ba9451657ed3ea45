use fozmo::audio::Real32;
use fozmo::playback::error::PlaybackError;
use fozmo::playback::upnp_target::{UpnpRenderer, UpnpRendererTarget};
use fozmo::playback::zone_service::{
    apply_active_discovered_device_selection, calibrated_zone_definition,
    definition_is_local_output, disable_playback_zone,
    enable_playback_zone, enrich_zone_settings, hegel_network_link_visible,
    hegel_target_of_update, maybe_select_remote_zone_for_unavailable_active_device,
    normalize_upnp_pcm_containers, normalize_zone_device_type, normalize_zone_hegel_settings,
    normalize_zone_icon, normalize_zone_upnp_capabilities, persist_calibrated_upnp_capabilities,
    refresh_playback_zones_inner, rename_playback_zone, select_playback_zone,
    sonos_speakers_with_renderers, sync_hegel_configured_zone, update_playback_zone_settings,
    validate_browser_stream_settings, ActiveZoneSettings, HegelSettings, SonosSpeaker,
    ZoneDefinition, ZoneSettings, ZoneSettingsUpdate,
};
use fozmo::protocol::{
    BrowserStreamSettings, CapabilityDetectionSource, CapabilityDetectionStatus, DspProfile,
    SinkProtocol, UpnpPcmContainer, UpnpPcmContainerCapability, ZoneCapabilities,
    ZoneHegelSettings, ZoneProfile, ZoneStatus, ZoneUpnpCapabilities,
};

fn real32(value: f32) -> Real32 {
    Real32 { bits: value.to_bits() }
}

fn zone(id: &str, protocol: SinkProtocol) -> ZoneProfile {
    ZoneProfile {
        id: id.to_string(),
        name: id.to_string(),
        protocol,
        agent_name: None,
        backend: None,
        capabilities: ZoneCapabilities::default(),
        dsp_profile: DspProfile::with_default_filter("Minimum16k"),
        status: ZoneStatus::Available,
        enabled: true,
        device_name: None,
        network_address: None,
        status_message: None,
        playing_state: None,
        track_title: None,
        airplay_default_volume: None,
        airplay_max_volume: None,
        airplay_last_volume: None,
        qobuz_hires_enabled: false,
        icon: None,
        device_type: None,
        hegel: None,
        upnp_calibrated_capabilities: None,
        browser: false,
        browser_stream: None,
    }
}

fn local_core() -> Vec<ZoneProfile> {
    vec![zone("local-core", SinkProtocol::LocalCoreAudio)]
}

fn hegel(host: &str, port: u16) -> ZoneHegelSettings {
    ZoneHegelSettings {
        linked_airplay_zone_id: None,
        host: Some(host.to_string()),
        port,
        input: 9,
        default_volume: 20,
        max_volume: 50,
        standby_usb_visible: false,
        model: None,
    }
}

fn update(
    settings: &mut ZoneSettings,
    update: ZoneSettingsUpdate,
) -> Result<(), PlaybackError> {
    update_playback_zone_settings(&local_core(), "local-core", settings, update, None)
}

#[test]
fn enabling_and_disabling_playback_zone_persists_preferred_active_zone() {
    let zone_id = "local-usb-dac";
    let mut settings = ActiveZoneSettings { active_zone_id: None };

    enable_playback_zone(&mut settings, Ok(()), zone_id).unwrap();

    assert_eq!(settings.active_zone_id.as_deref(), Some(zone_id));

    disable_playback_zone(&mut settings, Ok(()), "local-core").unwrap();

    assert_eq!(settings.active_zone_id.as_deref(), Some("local-core"));
}

#[test]
fn zone_that_cannot_be_selected_leaves_the_active_one() {
    let mut settings = ActiveZoneSettings { active_zone_id: Some("a".to_string()) };
    let error = select_playback_zone(&mut settings, Err("no such zone".to_string()), "b").unwrap_err();
    assert!(matches!(error, PlaybackError::BadRequest(message) if message == "no such zone"));
    assert_eq!(settings.active_zone_id.as_deref(), Some("a"));
    select_playback_zone(&mut settings, Ok(()), "b").unwrap();
    assert_eq!(settings.active_zone_id.as_deref(), Some("b"));
}

#[test]
fn refreshing_playback_zones_applies_active_playback_settings() {
    let plan = refresh_playback_zones_inner(false, false);
    assert!(plan.sync_local_devices);
    assert!(plan.apply_active_settings);
}

#[test]
fn background_refresh_during_coreaudio_dop_skips_active_playback_settings() {
    let plan = refresh_playback_zones_inner(true, true);
    assert!(!plan.sync_local_devices);
    assert!(!plan.apply_active_settings);
    let plan = refresh_playback_zones_inner(false, true);
    assert!(!plan.sync_local_devices);
    assert!(!plan.apply_active_settings);
}

#[test]
fn discovered_device_selection_retries_saved_device_for_active_zone() {
    let device_name = "Hegel H390 USB";

    let selected = apply_active_discovered_device_selection(
        Some(SinkProtocol::LocalCoreAudio),
        None,
        Some(device_name.to_string()),
        &[device_name.to_string()],
        None,
    );

    assert!(selected.is_some());
    assert_eq!(selected.as_deref(), Some(device_name));
}

#[test]
fn discovered_device_selection_waits_until_saved_device_is_available() {
    let selected = apply_active_discovered_device_selection(
        Some(SinkProtocol::LocalCoreAudio),
        None,
        Some("Hegel H390 USB".to_string()),
        &["Mac mini Speakers".to_string()],
        None,
    );

    assert!(selected.is_none());
}

#[test]
fn discovered_device_selection_leaves_agents_and_selected_devices_alone() {
    let devices = ["DAC".to_string()];
    assert!(
        apply_active_discovered_device_selection(
            Some(SinkProtocol::RemoteAgent),
            Some("DAC".to_string()),
            None,
            &devices,
            None
        )
        .is_none()
    );
    assert!(
        apply_active_discovered_device_selection(None, Some(" DAC ".to_string()), None, &devices, Some("DAC "))
            .is_none()
    );
    assert_eq!(
        apply_active_discovered_device_selection(
            None,
            Some(" DAC ".to_string()),
            Some("other".to_string()),
            &devices,
            Some("Speakers")
        )
        .as_deref(),
        Some("DAC")
    );
}

#[test]
fn renaming_playback_zone_updates_manager_and_library_definition() {
    assert_eq!(rename_playback_zone(" Listening Room "), "Listening Room");
}

#[test]
fn updating_playback_zone_airplay_default_volume_validates_and_persists() {
    let mut settings = ZoneSettings::default();

    let err = update(
        &mut settings,
        ZoneSettingsUpdate {
            airplay_default_volume_enabled: Some(true),
            airplay_default_volume: None,
            ..ZoneSettingsUpdate::default()
        },
    )
    .unwrap_err();

    assert!(matches!(err, PlaybackError::BadRequest(_)));

    update(
        &mut settings,
        ZoneSettingsUpdate {
            airplay_default_volume_enabled: Some(true),
            airplay_default_volume: Some(real32(0.75)),
            airplay_max_volume: Some(real32(0.6)),
            ..ZoneSettingsUpdate::default()
        },
    )
    .unwrap();

    assert_eq!(settings.airplay_default_volume, Some(real32(0.6)));
    assert_eq!(settings.airplay_max_volume, Some(real32(0.6)));

    update(
        &mut settings,
        ZoneSettingsUpdate {
            airplay_default_volume_enabled: Some(true),
            airplay_default_volume: Some(real32(0.75)),
            airplay_max_volume: Some(real32(0.8)),
            ..ZoneSettingsUpdate::default()
        },
    )
    .unwrap();

    assert_eq!(settings.airplay_default_volume, Some(real32(0.75)));
    assert_eq!(settings.airplay_max_volume, Some(real32(0.8)));

    update(
        &mut settings,
        ZoneSettingsUpdate {
            airplay_default_volume_enabled: Some(false),
            airplay_default_volume: Some(real32(0.75)),
            ..ZoneSettingsUpdate::default()
        },
    )
    .unwrap();

    assert_eq!(settings.airplay_default_volume, None);
}

#[test]
fn updating_playback_zone_icon_persists_and_enriches_zone_profile() {
    let mut settings = ZoneSettings::default();

    update(
        &mut settings,
        ZoneSettingsUpdate {
            icon: Some(" hegel ".to_string()),
            ..ZoneSettingsUpdate::default()
        },
    )
    .unwrap();

    assert_eq!(settings.icon.as_deref(), Some("hegel"));

    let mut profile = zone("local-core", SinkProtocol::LocalCoreAudio);
    enrich_zone_settings(&mut profile, settings);
    assert_eq!(profile.icon.as_deref(), Some("hegel"));
}

#[test]
fn updating_playback_zone_qobuz_hires_persists_and_enriches_zone_profile() {
    let mut settings = ZoneSettings::default();

    update(
        &mut settings,
        ZoneSettingsUpdate {
            qobuz_hires_enabled: Some(true),
            ..ZoneSettingsUpdate::default()
        },
    )
    .unwrap();

    assert!(settings.qobuz_hires_enabled);

    let mut profile = zone("local-core", SinkProtocol::LocalCoreAudio);
    enrich_zone_settings(&mut profile, settings);
    assert!(profile.qobuz_hires_enabled);
}

#[test]
fn updating_playback_zone_icon_auto_clears_persisted_icon() {
    let mut settings = ZoneSettings::default();

    update(
        &mut settings,
        ZoneSettingsUpdate {
            icon: Some("kef".to_string()),
            ..ZoneSettingsUpdate::default()
        },
    )
    .unwrap();
    assert_eq!(settings.icon.as_deref(), Some("kef"));

    update(
        &mut settings,
        ZoneSettingsUpdate {
            icon: Some("auto".to_string()),
            ..ZoneSettingsUpdate::default()
        },
    )
    .unwrap();

    assert_eq!(settings.icon, None);
}

#[test]
fn updating_playback_zone_icon_rejects_unsupported_values() {
    let mut settings = ZoneSettings::default();

    let err = update(
        &mut settings,
        ZoneSettingsUpdate {
            icon: Some("turntable".to_string()),
            airplay_max_volume: Some(real32(0.5)),
            ..ZoneSettingsUpdate::default()
        },
    )
    .unwrap_err();

    assert!(matches!(err, PlaybackError::BadRequest(_)));
    assert_eq!(settings.airplay_max_volume, None);
}

#[test]
fn updating_playback_zone_hegel_settings_persists_and_enriches_zone_profile() {
    let mut settings = ZoneSettings::default();

    update(
        &mut settings,
        ZoneSettingsUpdate {
            device_type: Some("hegel".to_string()),
            hegel: Some(ZoneHegelSettings {
                linked_airplay_zone_id: Some(" airplay-hegel ".to_string()),
                host: Some(" 10.200.0.166 ".to_string()),
                port: 0,
                input: 1,
                default_volume: 55,
                max_volume: 50,
                standby_usb_visible: true,
                model: Some(" H390 ".to_string()),
            }),
            ..ZoneSettingsUpdate::default()
        },
    )
    .unwrap();

    assert_eq!(settings.device_type.as_deref(), Some("hegel"));
    let saved = settings
        .hegel
        .as_ref()
        .expect("hegel settings should persist");
    assert_eq!(saved.host.as_deref(), Some("10.200.0.166"));
    assert_eq!(
        saved.linked_airplay_zone_id.as_deref(),
        Some("airplay-hegel")
    );
    assert_eq!(saved.port, 50001);
    assert_eq!(saved.default_volume, 50);
    assert_eq!(saved.model.as_deref(), Some("h390"));

    let mut profile = zone("local-core", SinkProtocol::LocalCoreAudio);
    enrich_zone_settings(&mut profile, settings);
    assert_eq!(profile.device_type.as_deref(), Some("hegel"));
    assert_eq!(
        profile.hegel.and_then(|settings| settings.host).as_deref(),
        Some("10.200.0.166")
    );
}

#[test]
fn updating_playback_zone_hegel_settings_rejects_unsafe_targets() {
    for (host, port) in [("127.0.0.1", 50001), ("10.200.0.166", 22)] {
        let mut settings = ZoneSettings::default();
        let change = ZoneSettingsUpdate {
            device_type: Some("hegel".to_string()),
            hegel: Some(hegel(host, port)),
            ..ZoneSettingsUpdate::default()
        };
        assert_eq!(
            hegel_target_of_update(&settings, &change),
            Some((host.to_string(), port))
        );
        let err = update_playback_zone_settings(
            &local_core(),
            "local-core",
            &mut settings,
            change,
            Some("Hegel target is not allowed".to_string()),
        )
        .unwrap_err();
        assert!(matches!(err, PlaybackError::BadRequest(_)));
        assert!(settings.hegel.is_none());
    }
}

#[test]
fn updating_playback_zone_device_type_none_removes_hegel_settings() {
    let mut settings = ZoneSettings::default();

    update(
        &mut settings,
        ZoneSettingsUpdate {
            device_type: Some("hegel".to_string()),
            hegel: Some(hegel("10.200.0.166", 50001)),
            ..ZoneSettingsUpdate::default()
        },
    )
    .unwrap();
    assert!(settings.hegel.is_some());

    update(
        &mut settings,
        ZoneSettingsUpdate {
            device_type: Some("none".to_string()),
            ..ZoneSettingsUpdate::default()
        },
    )
    .unwrap();

    assert_eq!(settings.device_type, None);
    assert!(settings.hegel.is_none());
}

#[test]
fn unavailable_saved_local_device_promotes_matching_agent_zone() {
    let device_name = "Agent DAC Unique";
    let mut agent = zone("agent-1-zone", SinkProtocol::RemoteAgent);
    agent.device_name = Some(device_name.to_string());
    let zones = vec![zone("local-core", SinkProtocol::LocalCoreAudio), agent];

    let selected = maybe_select_remote_zone_for_unavailable_active_device(
        Some(SinkProtocol::LocalCoreAudio),
        Some(device_name),
        false,
        &zones,
    );

    assert_eq!(selected.as_deref(), Some("agent-1-zone"));
    assert!(
        maybe_select_remote_zone_for_unavailable_active_device(
            Some(SinkProtocol::LocalCoreAudio),
            Some(device_name),
            true,
            &zones
        )
        .is_none()
    );
    assert!(
        maybe_select_remote_zone_for_unavailable_active_device(
            Some(SinkProtocol::RemoteAgent),
            Some(device_name),
            false,
            &zones
        )
        .is_none()
    );
}

#[test]
fn browser_zone_is_never_switched_to() {
    let mut browser = zone("browser-zone", SinkProtocol::RemoteAgent);
    browser.device_name = Some("USB DAC".to_string());
    browser.browser = true;
    let mut zones = vec![browser];
    let chosen = |zones: &[ZoneProfile]| {
        maybe_select_remote_zone_for_unavailable_active_device(
            Some(SinkProtocol::LocalCoreAudio),
            Some(" USB DAC "),
            false,
            zones,
        )
    };
    assert_eq!(chosen(&zones), None);
    let mut agent = zone("agent-zone", SinkProtocol::RemoteAgent);
    agent.device_name = Some("USB DAC".to_string());
    zones.push(agent);
    assert_eq!(chosen(&zones).as_deref(), Some("agent-zone"));
}

#[test]
fn unknown_zone_has_no_settings() {
    let mut settings = ZoneSettings::default();
    let err = update_playback_zone_settings(
        &local_core(),
        "elsewhere",
        &mut settings,
        ZoneSettingsUpdate::default(),
        None,
    )
    .unwrap_err();
    assert!(matches!(err, PlaybackError::NotFound(message) if message == "Zone 'elsewhere' is not available"));
}

#[test]
fn refused_step_keeps_what_came_before() {
    let mut settings = ZoneSettings::default();
    let err = update(
        &mut settings,
        ZoneSettingsUpdate {
            qobuz_hires_enabled: Some(true),
            browser_stream: Some(BrowserStreamSettings { format: "mp3".to_string(), opus_kbps: 128 }),
            ..ZoneSettingsUpdate::default()
        },
    )
    .unwrap_err();
    assert_eq!(err.message(), "Browser stream format must be \"flac\" or \"opus\"");
    assert!(settings.qobuz_hires_enabled);
    assert!(settings.browser_stream.is_none());
}

#[test]
fn device_type_errors() {
    let mut settings = ZoneSettings::default();
    let err = update(
        &mut settings,
        ZoneSettingsUpdate { device_type: Some("amp".to_string()), ..ZoneSettingsUpdate::default() },
    )
    .unwrap_err();
    assert_eq!(err.message(), "Unsupported device type");
    let err = update(
        &mut settings,
        ZoneSettingsUpdate { device_type: Some("hegel".to_string()), ..ZoneSettingsUpdate::default() },
    )
    .unwrap_err();
    assert_eq!(err.message(), "Hegel settings are required");
    assert_eq!(normalize_zone_device_type(" HEGEL ").unwrap(), "hegel");
    assert_eq!(normalize_zone_device_type("").unwrap(), "none");
    assert_eq!(normalize_zone_icon(" Mac_Mini ").unwrap().as_deref(), Some("mac_mini"));
}

#[test]
fn browser_streams_are_flac_or_opus() {
    let ok = validate_browser_stream_settings(BrowserStreamSettings {
        format: " Opus ".to_string(),
        opus_kbps: 256,
    })
    .unwrap();
    assert_eq!(ok.format, "opus");
    assert_eq!(ok.opus_kbps, 256);
    let err = validate_browser_stream_settings(BrowserStreamSettings {
        format: "flac".to_string(),
        opus_kbps: 96,
    })
    .unwrap_err();
    assert_eq!(err.message(), "Browser Opus bitrate must be 128, 256, or 320");
}

fn capability(container: UpnpPcmContainer, rate: u32, bits: u8) -> UpnpPcmContainerCapability {
    UpnpPcmContainerCapability { container, max_sample_rate: rate, max_bit_depth: bits }
}

#[test]
fn containers_are_merged_and_ordered() {
    let merged = normalize_upnp_pcm_containers(vec![
        capability(UpnpPcmContainer::Wav, 96_000, 16),
        capability(UpnpPcmContainer::Flac, 48_000, 0),
        capability(UpnpPcmContainer::Wav, 48_000, 24),
    ])
    .unwrap();
    assert_eq!(
        merged,
        vec![
            capability(UpnpPcmContainer::Flac, 48_000, 24),
            capability(UpnpPcmContainer::Wav, 96_000, 24)
        ]
    );
    let again = normalize_upnp_pcm_containers(merged.clone()).unwrap();
    assert_eq!(again, merged);
    assert_eq!(
        normalize_upnp_pcm_containers(vec![capability(UpnpPcmContainer::Wav, 11_025, 16)])
            .unwrap_err()
            .message(),
        "Unsupported UPnP PCM container rate"
    );
    assert_eq!(
        normalize_upnp_pcm_containers(vec![capability(UpnpPcmContainer::Wav, 44_100, 20)])
            .unwrap_err()
            .message(),
        "Unsupported UPnP PCM container bit depth"
    );
}

fn capabilities(rate: u32, bits: u8, dsd: Option<u16>) -> ZoneUpnpCapabilities {
    ZoneUpnpCapabilities {
        max_sample_rate: rate,
        max_bit_depth: bits,
        max_dsd_rate: dsd,
        pcm_containers: Vec::new(),
    }
}

#[test]
fn renderer_capabilities_are_checked() {
    assert_eq!(normalize_zone_upnp_capabilities(capabilities(192_000, 0, Some(64))).unwrap().max_bit_depth, 24);
    assert_eq!(
        normalize_zone_upnp_capabilities(capabilities(8_000, 16, None)).unwrap_err().message(),
        "Unsupported UPnP PCM rate"
    );
    assert_eq!(
        normalize_zone_upnp_capabilities(capabilities(48_000, 8, None)).unwrap_err().message(),
        "Unsupported UPnP bit depth"
    );
    assert_eq!(
        normalize_zone_upnp_capabilities(capabilities(48_000, 16, Some(512))).unwrap_err().message(),
        "Unsupported UPnP DSD rate"
    );
}

#[test]
fn saved_capabilities_keep_the_calibrated_ones() {
    let zones = vec![zone("renderer", SinkProtocol::UpnpAvRenderer)];
    let mut settings = ZoneSettings {
        upnp_capabilities: Some(capabilities(192_000, 24, Some(128))),
        ..ZoneSettings::default()
    };
    update_playback_zone_settings(
        &zones,
        "renderer",
        &mut settings,
        ZoneSettingsUpdate {
            upnp_capabilities: Some(capabilities(96_000, 16, None)),
            ..ZoneSettingsUpdate::default()
        },
        None,
    )
    .unwrap();
    assert_eq!(settings.upnp_capabilities.as_ref().unwrap().max_sample_rate, 96_000);
    assert_eq!(
        settings.upnp_calibrated_capabilities.as_ref().unwrap().max_sample_rate,
        192_000
    );
    let mut profile = zone("renderer", SinkProtocol::UpnpAvRenderer);
    enrich_zone_settings(&mut profile, settings);
    assert_eq!(profile.capabilities.max_sample_rate, 96_000);
    assert_eq!(
        profile.capabilities.capability_detection_message.as_deref(),
        Some("Saved UPnP capability override")
    );
    assert_eq!(profile.upnp_calibrated_capabilities.unwrap().max_dsd_rate, Some(128));

    let mut local = ZoneSettings::default();
    let err = update(
        &mut local,
        ZoneSettingsUpdate {
            upnp_capabilities: Some(capabilities(96_000, 16, None)),
            ..ZoneSettingsUpdate::default()
        },
    )
    .unwrap_err();
    assert_eq!(err.message(), "UPnP capabilities can only be set on UPnP zones");
}

fn renderer(id: &str, manufacturer: Option<&str>, online: bool) -> UpnpRenderer {
    UpnpRenderer {
        target: UpnpRendererTarget {
            id: id.to_string(),
            name: "Kitchen".to_string(),
            host: "192.168.1.9".to_string(),
            port: 1400,
            model: Some("One".to_string()),
            manufacturer: manufacturer.map(str::to_string),
            av_transport_control_url: "/AVTransport".to_string(),
            rendering_control_url: None,
            connection_manager_url: None,
            max_sample_rate: 48_000,
            max_bit_depth: 24,
            max_dsd_rate: None,
            capability_detection_source: CapabilityDetectionSource::Fallback,
            capability_detection_status: CapabilityDetectionStatus::Unknown,
            capability_detection_message: None,
            protocol_info: Vec::new(),
            pcm_containers: vec![capability(UpnpPcmContainer::Flac, 48_000, 24)],
        },
        online,
    }
}

#[test]
fn calibration_is_saved_twice() {
    let mut settings = ZoneSettings::default();
    persist_calibrated_upnp_capabilities(&mut settings, &renderer("a", None, true).target);
    assert_eq!(settings.upnp_capabilities.as_ref().unwrap().max_sample_rate, 48_000);
    let calibrated = settings.upnp_calibrated_capabilities.unwrap();
    assert_eq!(calibrated.pcm_containers, vec![capability(UpnpPcmContainer::Flac, 48_000, 24)]);
}

#[test]
fn sonos_renderers_join_the_speakers() {
    let known = SonosSpeaker {
        id: "a".to_string(),
        name: "Living".to_string(),
        host: "192.168.1.8".to_string(),
        port: 1400,
        model: None,
        coordinator: false,
        group_name: None,
        online: true,
    };
    let speakers = sonos_speakers_with_renderers(
        vec![known],
        &[
            renderer("a", Some("SONOS, Inc."), true),
            renderer("b", Some("Sonos, Inc."), true),
            renderer("c", Some("Sonos, Inc."), false),
            renderer("d", Some("KEF"), true),
            renderer("e", None, true),
        ],
    );
    let ids: Vec<&str> = speakers.iter().map(|s| s.id.as_str()).collect();
    assert_eq!(ids, vec!["a", "b"]);
    assert!(speakers[1].coordinator);
    assert_eq!(speakers[0].name, "Living");
}

fn definition(id: &str, kind: Option<&str>, device: Option<&str>) -> ZoneDefinition {
    ZoneDefinition {
        id: id.to_string(),
        name: "Hegel".to_string(),
        kind: kind.map(str::to_string),
        device_name: device.map(str::to_string),
        enabled: true,
    }
}

fn hegel_settings(linked: Option<&str>) -> HegelSettings {
    HegelSettings {
        enabled: true,
        zone_id: Some("usb".to_string()),
        linked_airplay_zone_id: linked.map(str::to_string),
        host: Some("10.200.0.166".to_string()),
        standby_usb_visible: true,
    }
}

#[test]
fn sleeping_amplifier_is_offered_while_its_network_side_is_there() {
    let definitions = [
        definition("usb", Some("airplay2"), Some("x")),
        definition("usb", Some("local_coreaudio"), Some(" Hegel USB ")),
    ];
    let mut airplay = zone("airplay-hegel", SinkProtocol::AirPlay2);
    let sync = sync_hegel_configured_zone(
        &hegel_settings(Some("airplay-hegel")),
        &definitions,
        std::slice::from_ref(&airplay),
    )
    .unwrap();
    assert_eq!(sync.device_name, "Hegel USB");
    assert!(sync.standby_message.is_some());
    airplay.status = ZoneStatus::Offline;
    let zones = [airplay];
    assert!(!hegel_network_link_visible(&hegel_settings(Some("airplay-hegel")), &zones));
    assert!(
        sync_hegel_configured_zone(&hegel_settings(Some("airplay-hegel")), &definitions, &zones)
            .unwrap()
            .standby_message
            .is_none()
    );
    assert!(hegel_network_link_visible(&hegel_settings(None), &zones));
    assert!(definition_is_local_output(&definitions[1]));
    assert!(!definition_is_local_output(&definitions[0]));
}

#[test]
fn amplifier_settings_stay_within_limits() {
    let normalized = normalize_zone_hegel_settings(ZoneHegelSettings {
        linked_airplay_zone_id: Some("  ".to_string()),
        host: Some("".to_string()),
        port: 0,
        input: 99,
        default_volume: 120,
        max_volume: 110,
        standby_usb_visible: false,
        model: None,
    });
    assert_eq!(normalized.host, None);
    assert_eq!(normalized.linked_airplay_zone_id, None);
    assert_eq!(normalized.port, 50001);
    assert_eq!(normalized.input, 20);
    assert_eq!(normalized.max_volume, 100);
    assert_eq!(normalized.default_volume, 100);
    let model = Some(" H95 ".to_string());
    let host = Some(" amp ".to_string());
    let once = normalize_zone_hegel_settings(ZoneHegelSettings { model, host, ..normalized });
    let twice = normalize_zone_hegel_settings(once.clone());
    assert_eq!(twice.model.as_deref(), Some("h95"));
    assert_eq!((&twice.model, &twice.host), (&once.model, &once.host));
    assert_eq!((twice.port, twice.input), (once.port, once.input));
    assert_eq!((twice.max_volume, twice.default_volume), (100, 100));
}

#[test]
fn normalized_containers_stay_as_they_are() {
    let containers = vec![
        capability(UpnpPcmContainer::Wav, 192_000, 24),
        capability(UpnpPcmContainer::Flac, 96_000, 24),
    ];
    let once = normalize_upnp_pcm_containers(containers).unwrap();
    let twice = normalize_upnp_pcm_containers(once.clone()).unwrap();
    assert_eq!(once, twice);
}

#[test]
fn calibrated_renderer_is_stored_under_its_zone() {
    let target = renderer("speaker", None, true).target;
    let mut known = zone("upnp:speaker", SinkProtocol::UpnpAvRenderer);
    known.name = "Kitchen".to_string();
    known.enabled = false;
    let stored =
        calibrated_zone_definition(&[known], "upnp:speaker", &target, "device".to_string());
    assert_eq!(stored.id, "upnp:speaker");
    assert_eq!(stored.name, "Kitchen");
    assert!(!stored.enabled);
    assert_eq!(stored.kind.as_deref(), Some("upnp_av_renderer"));
    assert_eq!(stored.device_name.as_deref(), Some("device"));
    let fresh = calibrated_zone_definition(&[], "upnp:speaker", &target, "device".to_string());
    assert_eq!(fresh.name, target.name);
    assert!(fresh.enabled);
}
