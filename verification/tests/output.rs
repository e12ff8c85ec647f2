use omt_obs_plugin::config::OutputConfig;
use omt_obs_plugin::format::{AudioData, SdrMappingError, VideoData, VideoFormat};
use omt_obs_plugin::media_mode::MediaMode;
use omt_obs_plugin::output::{
    on_frontend_event, plan_start, FrontendAction, FrontendEvent, OmtOutput, OutputController,
    StartRefusal,
};

#[test]
fn start_checks_format_and_name() {
    let mut cfg = OutputConfig::default();
    assert_eq!(plan_start(&cfg, None), Err(StartRefusal::UnknownFormat));
    assert_eq!(
        plan_start(&cfg, Some(VideoFormat::P010)),
        Err(StartRefusal::Format(SdrMappingError::UnsupportedHdr))
    );
    assert_eq!(
        plan_start(&cfg, Some(VideoFormat::I444)),
        Err(StartRefusal::Format(SdrMappingError::UnsupportedFormat))
    );
    let p = plan_start(&cfg, Some(VideoFormat::NV12)).unwrap();
    assert_eq!(p.name, "OBS Output (Rust)");
    assert_eq!(p.frame_types, 7);
    cfg.program_mode = MediaMode::Audio;
    cfg.name = "   ".to_string();
    let p = plan_start(&cfg, None).unwrap();
    assert_eq!(p.name, "OBS Output (Rust)");
    assert_eq!(p.frame_types, 5);
    cfg.name = " Keep spaces ".to_string();
    let p = plan_start(&cfg, Some(VideoFormat::I444)).unwrap();
    assert_eq!(p.name, " Keep spaces ");
    assert_eq!(
        plan_start(&cfg, Some(VideoFormat::P010)),
        Err(StartRefusal::Format(SdrMappingError::UnsupportedHdr))
    );
    assert_eq!(
        plan_start(&cfg, Some(VideoFormat::P216)),
        Err(StartRefusal::Format(SdrMappingError::UnsupportedHdr))
    );
}

#[test]
fn output_gates_frames() {
    let mut out = OmtOutput::create();
    let plane = [5u8; 8];
    let frame = VideoData {
        plane0: Some(&plane),
        plane1: None,
        linesize0: 4,
        timestamp: 0,
    };
    assert!(out.raw_video(MediaMode::Embedded, &frame).is_none());
    out.started(1, 2, 30_000, 1_001, Some(VideoFormat::BGRA), 48_000, 2);
    assert!(out.is_active());
    let v = out.raw_video(MediaMode::Embedded, &frame).unwrap().unwrap();
    assert_eq!(v.data, plane.to_vec());
    assert_eq!(v.frame_rate_n, 30_000);
    assert_eq!(v.frame_rate_d, 1_001);
    assert!(out.raw_video(MediaMode::Audio, &frame).is_none());
    let left = [1u8; 4];
    let audio = AudioData {
        planes: vec![Some(&left[..]), None],
        frames: 1,
        timestamp: 0,
    };
    let a = out.raw_audio(MediaMode::Audio, &audio).unwrap().unwrap();
    assert_eq!(a.channels, 2);
    assert!(out.raw_audio(MediaMode::Video, &audio).is_none());
    out.stop();
    assert!(out.raw_audio(MediaMode::Audio, &audio).is_none());
}

#[test]
fn frontend_events_route() {
    assert_eq!(
        on_frontend_event(FrontendEvent::FinishedLoading),
        FrontendAction::ApplyOutputs
    );
    assert_eq!(
        on_frontend_event(FrontendEvent::ProfileChanged),
        FrontendAction::ApplyOutputs
    );
    assert_eq!(
        on_frontend_event(FrontendEvent::Exit),
        FrontendAction::DestroyOutputs
    );
    assert_eq!(
        on_frontend_event(FrontendEvent::ProfileChanging),
        FrontendAction::DestroyOutputs
    );
    assert_eq!(
        on_frontend_event(FrontendEvent::SceneChanged),
        FrontendAction::Preview
    );
    assert_eq!(
        on_frontend_event(FrontendEvent::Other),
        FrontendAction::Ignore
    );
}

#[test]
fn controller_applies_once_per_change() {
    let mut c = OutputController::new();
    assert_eq!(c.current_config().name, "");
    assert_eq!(c.persist_config(OutputConfig::default()), None);
    c.init_controller("/tmp/omt.json".to_string(), OutputConfig::default());
    let plan = c.apply_outputs().unwrap();
    assert!(!plan.start_program);
    assert!(!plan.preview_enabled);
    assert_eq!(plan.preview_name, "OBS Preview (Rust)");
    assert!(c.apply_outputs().is_none());
    let mut cfg = OutputConfig::default();
    cfg.enabled = true;
    assert_eq!(c.persist_config(cfg), Some("/tmp/omt.json".to_string()));
    assert!(c.apply_outputs().unwrap().start_program);
    assert!(c.apply_outputs().is_none());
    c.destroy_outputs();
    assert!(c.apply_outputs().is_some());
}

#[test]
fn output_keeps_zero_rates_at_one() {
    let mut out = OmtOutput::create();
    out.started(4, 4, 0, 0, Some(VideoFormat::NV12), 48_000, 2);
    let y = [0u8; 16];
    let uv = [0u8; 8];
    let frame = VideoData {
        plane0: Some(&y),
        plane1: Some(&uv),
        linesize0: 4,
        timestamp: 0,
    };
    let v = out.raw_video(MediaMode::Video, &frame).unwrap().unwrap();
    assert_eq!((v.frame_rate_n, v.frame_rate_d), (1, 1));
}
