use omt_obs_plugin::media_mode::MediaMode;

#[test]
fn media_mode_roundtrip() {
    assert_eq!(MediaMode::from_i64(0), MediaMode::Embedded);
    assert_eq!(MediaMode::from_i64(1).as_i64(), 1);
    assert!(MediaMode::Video.video());
    assert!(!MediaMode::Video.audio());
    assert!(MediaMode::Audio.audio());
    assert!(!MediaMode::Audio.video());
}

#[test]
fn media_mode_frame_types_and_codes() {
    assert_eq!(MediaMode::Embedded.frame_types(), 7);
    assert_eq!(MediaMode::Video.frame_types(), 3);
    assert_eq!(MediaMode::Audio.frame_types(), 5);
    assert_eq!(MediaMode::from_i64(2), MediaMode::Audio);
    assert_eq!(MediaMode::from_i64(-5), MediaMode::Embedded);
    assert_eq!(MediaMode::from_i64(3), MediaMode::Embedded);
    assert_eq!(MediaMode::default(), MediaMode::Embedded);
    for m in [MediaMode::Embedded, MediaMode::Video, MediaMode::Audio] {
        assert_eq!(MediaMode::from_i64(m.as_i64()), m);
    }
    assert!(MediaMode::Embedded.video() && MediaMode::Embedded.audio());
}
