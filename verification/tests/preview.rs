use omt_obs_plugin::channel::DropChannel;
use omt_obs_plugin::output::FrontendEvent;
use omt_obs_plugin::preview::{refresh_source, PreviewEventAction, PreviewState, SceneChoice};
use omt_obs_plugin::send_session::SendSession;

fn session(name: &str) -> SendSession<u32, ()> {
    let (video, _video_rx) = DropChannel::pair(2);
    let (audio, _audio_rx) = DropChannel::pair(4);
    SendSession::new(name.to_string(), 3, video, audio, ())
}

#[test]
fn preview_lifecycle() {
    let mut p: PreviewState<u32, ()> = PreviewState::new();
    assert_eq!(p.on_frontend_event(FrontendEvent::SceneChanged), PreviewEventAction::Ignore);
    assert!(!p.push_video(1));
    let (stop, start) = p.apply(false, "Side");
    assert!(!stop.remove_callback);
    assert_eq!(start, None);
    let (_, start) = p.apply(true, "Side");
    assert_eq!(start, Some(("Side".to_string(), 3)));
    assert!(p.started(session("Side"), 0, 0));
    assert!(p.push_video(1));
    let v = p.video_frame(0, 2, 2, vec![0u8; 16]);
    assert_eq!(v.frame_rate_n, 1);
    assert_eq!(v.frame_rate_d, 1);
    assert_eq!(v.flags, 6);
    assert_eq!(
        p.on_frontend_event(FrontendEvent::PreviewSceneChanged),
        PreviewEventAction::Refresh
    );
    assert_eq!(p.on_frontend_event(FrontendEvent::Exit), PreviewEventAction::Clear);
    assert_eq!(
        p.on_frontend_event(FrontendEvent::FinishedLoading),
        PreviewEventAction::Ignore
    );
    assert!(!p.started(session("Other"), 30, 1));
    let stop = p.stop();
    assert!(stop.remove_callback);
    assert!(!p.stop().remove_callback);
    assert!(!p.push_video(2));
    let (stop, _) = p.apply(true, "Again");
    assert!(!stop.remove_callback);
}

#[test]
fn preview_follows_studio_mode() {
    assert_eq!(refresh_source(true), SceneChoice::PreviewScene);
    assert_eq!(refresh_source(false), SceneChoice::ProgramScene);
}
