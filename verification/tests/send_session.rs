use omt_obs_plugin::send_session::worker_idle;
use omt_obs_plugin::channel::DropChannel;
use omt_obs_plugin::send_session::{
    check_sender_name, SendSession, AUDIO_QUEUE_DEPTH, VIDEO_QUEUE_DEPTH,
};

#[test]
fn blank_sender_names_are_refused() {
    assert_eq!(
        check_sender_name("  "),
        Err("OMT sender name is empty".to_string())
    );
    assert_eq!(check_sender_name(""), Err("OMT sender name is empty".to_string()));
    assert_eq!(check_sender_name(" a "), Ok(()));
}

#[test]
fn session_queues_drop_when_full() {
    let (video, video_rx) = DropChannel::pair(VIDEO_QUEUE_DEPTH);
    let (audio, audio_rx) = DropChannel::pair(AUDIO_QUEUE_DEPTH);
    let mut s = SendSession::new("Cam".to_string(), 7, video, audio, ());
    assert_eq!(s.name(), "Cam");
    assert_eq!(s.frame_types(), 7);
    for i in 0..3 {
        s.push_video(i);
    }
    for i in 0..5 {
        s.push_audio(i);
    }
    assert_eq!(s.video_dropped(), 1);
    assert_eq!(s.audio_dropped(), 1);
    assert_eq!(video_rx.try_recv().unwrap(), 0);
    assert_eq!(audio_rx.try_recv().unwrap(), 0);
}

#[test]
fn worker_pauses_only_when_idle() {
    assert!(worker_idle(0, 0));
    assert!(!worker_idle(1, 0));
    assert!(!worker_idle(0, 3));
}
