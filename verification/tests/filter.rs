use omt_obs_plugin::filter::{speaker_channels, OmtSendFilter, SessionPlan};
use omt_obs_plugin::media_mode::MediaMode;

#[test]
fn resolved_name_substitutes_placeholders() {
    let mut f = OmtSendFilter::new(30, 1, 48_000, 2);
    assert_eq!(f.resolved_name(Some("Cam 1"), Some("OMT")), "Cam 1");
    assert_eq!(f.resolved_name(None, Some("OMT")), "OMT Filter");
    f.read_settings(Some("  ${source} / ${filter}  "), None);
    assert_eq!(f.resolved_name(Some("Cam"), Some("Out")), "Cam / Out");
    assert_eq!(f.resolved_name(Some("Cam"), None), "OMT Filter");
    f.read_settings(Some("${source}${source}"), None);
    assert_eq!(f.resolved_name(Some("A"), None), "AA");
    f.read_settings(Some("Fixed"), None);
    assert_eq!(f.resolved_name(None, None), "Fixed");
    f.read_settings(Some("   "), Some(1));
    assert_eq!(f.resolved_name(None, None), "Fixed");
    assert_eq!(f.mode(), MediaMode::Video);
}

#[test]
fn a_name_that_brings_a_placeholder_falls_back() {
    let f = OmtSendFilter::new(30, 1, 48_000, 2);
    assert_eq!(f.resolved_name(Some("${filter}"), None), "OMT Filter");
    assert_eq!(f.resolved_name(Some("  "), None), "OMT Filter");
}

#[test]
fn ensure_session_plans() {
    let mut f = OmtSendFilter::new(30, 1, 48_000, 2);
    assert_eq!(f.ensure_session(false, Some("Cam"), None), SessionPlan::Stop);
    let plan = f.ensure_session(true, Some("Cam"), None);
    assert_eq!(
        plan,
        SessionPlan::Start {
            name: "Cam".to_string(),
            frame_types: 7
        }
    );
    f.session_started("Cam".to_string(), 7);
    assert_eq!(f.ensure_session(true, Some("Cam"), None), SessionPlan::Keep);
    f.read_settings(None, Some(2));
    assert_eq!(
        f.ensure_session(true, Some("Cam"), None),
        SessionPlan::Start {
            name: "Cam".to_string(),
            frame_types: 5
        }
    );
    f.session_started("Cam".to_string(), 5);
    assert_eq!(
        f.ensure_session(true, Some("Cam2"), None),
        SessionPlan::Start {
            name: "Cam2".to_string(),
            frame_types: 5
        }
    );
    f.session_started("Cam2".to_string(), 5);
    f.filter_removed();
    assert_eq!(
        f.ensure_session(true, Some("Cam2"), None),
        SessionPlan::Start {
            name: "Cam2".to_string(),
            frame_types: 5
        }
    );
}

#[test]
fn render_captures_once_per_tick() {
    let mut f = OmtSendFilter::new(30, 1, 48_000, 2);
    assert!(!f.render_step(false, true, true, 8, 8));
    assert!(f.render_step(true, true, true, 8, 8));
    assert!(!f.render_step(true, true, true, 8, 8));
    f.video_tick();
    assert!(!f.render_step(true, false, true, 8, 8));
    assert!(!f.render_step(true, true, true, 8, 8));
    f.video_tick();
    assert!(!f.render_step(true, true, true, 0, 8));
    f.video_tick();
    f.read_settings(None, Some(2));
    assert!(!f.render_step(true, true, true, 8, 8));
}

#[test]
fn filter_video_frame_is_opaque_bgra() {
    let mut f = OmtSendFilter::new(0, 0, 48_000, 2);
    assert_eq!(f.video_frame(1_000, 2, 1, vec![0u8; 8]), None);
    f.session_started("Cam".to_string(), 7);
    let v = f.video_frame(1_000, 2, 1, vec![0u8; 8]).unwrap();
    assert_eq!(v.flags, 0);
    assert_eq!(v.stride, 8);
    assert_eq!(v.timestamp, 10);
    assert_eq!(v.frame_rate_n, 1);
    assert_eq!(v.frame_rate_d, 1);
}

#[test]
fn speaker_layouts() {
    assert_eq!(speaker_channels(1), 1);
    assert_eq!(speaker_channels(2), 2);
    assert_eq!(speaker_channels(3), 3);
    assert_eq!(speaker_channels(4), 4);
    assert_eq!(speaker_channels(5), 5);
    assert_eq!(speaker_channels(6), 6);
    assert_eq!(speaker_channels(8), 8);
    assert_eq!(speaker_channels(0), 2);
    assert_eq!(speaker_channels(7), 2);
}

#[test]
fn filter_audio_packs_planes() {
    let mut f = OmtSendFilter::new(30, 1, 48_000, 2);
    let l = [1u8, 1, 1, 1, 2, 2, 2, 2];
    let r = [3u8, 3, 3, 3, 4, 4, 4, 4];
    let planes = vec![Some(&l[..]), Some(&r[..])];
    assert_eq!(f.filter_audio(100, 2, &planes), None);
    f.session_started("x".to_string(), 7);
    let a = f.filter_audio(1_000, 2, &planes).unwrap();
    assert_eq!(a.channels, 2);
    assert_eq!(a.samples_per_channel, 2);
    assert_eq!(a.sample_rate, 48_000);
    assert_eq!(a.timestamp, 10);
    assert_eq!(a.data, vec![1, 1, 1, 1, 2, 2, 2, 2, 3, 3, 3, 3, 4, 4, 4, 4]);
    let only_left = vec![Some(&l[..]), None];
    let a = f.filter_audio(0, 2, &only_left).unwrap();
    assert_eq!(a.channels, 1);
    assert_eq!(a.data.len(), 16);
    let empty: Vec<Option<&[u8]>> = vec![None, Some(&[][..])];
    assert_eq!(f.filter_audio(0, 2, &empty), None);
    assert_eq!(f.filter_audio(0, 0, &planes), None);
    f.read_settings(None, Some(1));
    assert_eq!(f.filter_audio(0, 2, &planes), None);
}
