use omt_obs_plugin::receive::discovery_refresh_due;
use omt_obs_plugin::bandwidth::BandwidthPolicy;
use omt_obs_plugin::format::ColorSpace;
use omt_obs_plugin::receive::{
    audio_output_layout, color_space_from_i64, quality_from_i64, OmtReceiveSource, Quality,
    ReceiveLoop, ReceiveSettings,
};

#[test]
fn settings_codes() {
    assert_eq!(quality_from_i64(1), Quality::Low);
    assert_eq!(quality_from_i64(50), Quality::Medium);
    assert_eq!(quality_from_i64(100), Quality::High);
    assert_eq!(quality_from_i64(2), Quality::Default);
    assert_eq!(Quality::High.value(), 100);
    assert_eq!(color_space_from_i64(601), ColorSpace::Bt601);
    assert_eq!(color_space_from_i64(709), ColorSpace::Bt709);
    assert_eq!(color_space_from_i64(0), ColorSpace::Undefined);
    let s = ReceiveSettings::from_data(Some("  omt://host:6400 "), None, None, Some(true), Some(709));
    assert_eq!(s.address, "omt://host:6400");
    assert_eq!(s.quality, Quality::Default);
    assert_eq!(s.policy, BandwidthPolicy::Always);
    assert_eq!(s.color_space, ColorSpace::Bt709);
    let s = ReceiveSettings::from_data(None, Some(50), Some(1), Some(true), None);
    assert_eq!(s.address, "");
    assert_eq!(s.policy, BandwidthPolicy::NotOnProgram);
}

#[test]
fn reconnects_only_on_connection_changes() {
    let mut r = OmtReceiveSource::create();
    assert!(r.restart().is_none());
    let s = ReceiveSettings::from_data(Some("omt://a"), Some(100), Some(3), None, None);
    assert!(r.apply_settings(s, false, false));
    let plan = r.restart().unwrap();
    assert_eq!(plan.address, "omt://a");
    assert_eq!(plan.quality, Quality::High);
    assert!(plan.preview);
    assert_eq!(r.persist_policy(), (3, true));
    let s = ReceiveSettings::from_data(Some("omt://a"), Some(100), Some(1), None, None);
    assert!(!r.apply_settings(s, true, true));
    assert!(!r.desired_preview());
    assert_eq!(r.persist_policy(), (1, false));
    let s = ReceiveSettings::from_data(Some("omt://a"), Some(100), Some(1), None, Some(601));
    assert!(r.apply_settings(s, true, true));
    assert_eq!(r.color_space(), ColorSpace::Bt601);
}

#[test]
fn visibility_sets_tally() {
    let mut r = OmtReceiveSource::create();
    r.refresh_visibility(false, true);
    assert!(r.tally_preview());
    assert!(!r.tally_program());
    r.refresh_visibility(true, true);
    assert!(!r.tally_preview());
    assert!(r.tally_program());
    r.refresh_visibility(false, false);
    assert!(!r.tally_preview());
    assert!(!r.tally_program());
}

#[test]
fn receive_loop_sends_changes_only() {
    let (mut l, first) = ReceiveLoop::new(false, true, false);
    assert_eq!(first, (1, 0));
    assert_eq!(l.preview_request(false), None);
    assert_eq!(l.preview_request(true), Some(true));
    assert_eq!(l.preview_request(true), Some(true));
    l.preview_applied(true);
    assert_eq!(l.preview_request(true), None);
    assert_eq!(l.tally_update(true, false), None);
    assert_eq!(l.tally_update(false, true), Some((0, 1)));
    assert_eq!(l.tally_update(false, true), None);
}

#[test]
fn received_audio_layout() {
    let l = audio_output_layout(2, 3, 48_000, 10, 24);
    assert_eq!(l.frames, 3);
    assert!(l.stereo);
    assert_eq!(l.samples_per_sec, 48_000);
    assert_eq!(l.timestamp_ns, 1_000);
    assert_eq!(l.plane_offsets, vec![Some(0), Some(12)]);
    let l = audio_output_layout(0, -1, 0, -5, 0);
    assert!(!l.stereo);
    assert_eq!(l.samples_per_sec, 1);
    assert_eq!(l.timestamp_ns, 0);
    assert_eq!(l.plane_offsets, vec![None]);
    let l = audio_output_layout(12, 1, 48_000, 0, 20);
    assert_eq!(l.plane_offsets.len(), 8);
    assert_eq!(l.plane_offsets[4], Some(16));
    assert_eq!(l.plane_offsets[5], None);
}

#[test]
fn discovery_refresh_after_half_a_second() {
    assert!(!discovery_refresh_due(0));
    assert!(!discovery_refresh_due(500));
    assert!(discovery_refresh_due(501));
}
