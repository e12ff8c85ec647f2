use omt_obs_plugin::format::{
    bgra_video_frame, copy_audio_data, copy_video_data, is_hdr_format, obs_format_to_omt_codec,
    packed_frame_len, video_flags_for, AudioData, ColorSpace, OmtCodec, SdrMappingError,
    VideoData, VideoFormat,
};

#[test]
fn sdr_formats_map() {
    assert_eq!(
        obs_format_to_omt_codec(VideoFormat::BGRA).unwrap(),
        OmtCodec::Bgra
    );
    assert_eq!(
        obs_format_to_omt_codec(VideoFormat::NV12).unwrap(),
        OmtCodec::Nv12
    );
    assert_eq!(
        obs_format_to_omt_codec(VideoFormat::P010).unwrap_err(),
        SdrMappingError::UnsupportedHdr
    );
}

#[test]
fn packed_len_nv12() {
    assert_eq!(
        packed_frame_len(VideoFormat::NV12, 1280, 720, 1280),
        1_382_400
    );
}

#[test]
fn format_mapping_edges() {
    assert_eq!(obs_format_to_omt_codec(VideoFormat::BGRX), Ok(OmtCodec::Bgra));
    assert_eq!(obs_format_to_omt_codec(VideoFormat::UYVY), Ok(OmtCodec::Uyvy));
    assert_eq!(obs_format_to_omt_codec(VideoFormat::YUY2), Ok(OmtCodec::Yuy2));
    assert_eq!(
        obs_format_to_omt_codec(VideoFormat::P216),
        Err(SdrMappingError::UnsupportedHdr)
    );
    assert_eq!(
        obs_format_to_omt_codec(VideoFormat::I420),
        Err(SdrMappingError::UnsupportedFormat)
    );
    assert!(is_hdr_format(18));
    assert!(is_hdr_format(22));
    assert!(!is_hdr_format(2));
    assert!(!is_hdr_format(0));
    assert_eq!(VideoFormat::from_raw(2), Some(VideoFormat::NV12));
    assert_eq!(VideoFormat::from_raw(0), None);
    assert_eq!(VideoFormat::from_raw(26), None);
    assert_eq!(video_flags_for(VideoFormat::BGRA), 6);
    assert_eq!(video_flags_for(VideoFormat::BGRX), 0);
    assert_eq!(packed_frame_len(VideoFormat::NV12, 2, 3, 4), 4 * 3 + 4 * 2);
    assert_eq!(packed_frame_len(VideoFormat::P010, 2, 3, 4), 24);
    assert_eq!(packed_frame_len(VideoFormat::UYVY, 2, 3, 4), 12);
    assert_eq!(OmtCodec::Bgra.fourcc(), 0x4152_4742);
    assert_eq!(OmtCodec::Fpa1.fourcc(), 0x3141_5046);
    assert_eq!(ColorSpace::Bt709.value(), 709);
}

#[test]
fn copy_nv12_concatenates_planes() {
    let y = [1u8, 2, 3, 4, 5, 6, 7, 8, 99];
    let uv = [9u8, 10, 11, 12, 77];
    let frame = VideoData {
        plane0: Some(&y),
        plane1: Some(&uv),
        linesize0: 4,
        timestamp: 1_234,
    };
    let v = copy_video_data(&frame, 4, 2, VideoFormat::NV12, 30, 0, ColorSpace::Bt601).unwrap();
    assert_eq!(v.data, vec![1, 2, 3, 4, 5, 6, 7, 8, 9, 10, 11, 12]);
    assert_eq!(v.codec, OmtCodec::Nv12);
    assert_eq!(v.timestamp, 12);
    assert_eq!(v.stride, 4);
    assert_eq!(v.frame_rate_n, 30);
    assert_eq!(v.frame_rate_d, 1);
    assert_eq!(v.flags, 0);
    assert_eq!(v.color_space, ColorSpace::Bt601);
}

#[test]
fn copy_video_errors() {
    let y = [0u8; 16];
    let no_uv = VideoData {
        plane0: Some(&y),
        plane1: None,
        linesize0: 4,
        timestamp: 0,
    };
    assert_eq!(
        copy_video_data(&no_uv, 4, 2, VideoFormat::NV12, 30, 1, ColorSpace::Undefined),
        Err(SdrMappingError::NullPlane)
    );
    let none = VideoData {
        plane0: None,
        plane1: None,
        linesize0: 4,
        timestamp: 0,
    };
    assert_eq!(
        copy_video_data(&none, 4, 2, VideoFormat::BGRA, 30, 1, ColorSpace::Undefined),
        Err(SdrMappingError::NullPlane)
    );
    assert_eq!(
        copy_video_data(&none, 4, 2, VideoFormat::P010, 30, 1, ColorSpace::Undefined),
        Err(SdrMappingError::UnsupportedHdr)
    );
    let bgra = copy_video_data(&no_uv, 1, 2, VideoFormat::BGRA, 60, 1, ColorSpace::Undefined)
        .unwrap();
    assert_eq!(bgra.data.len(), 8);
    assert_eq!(bgra.flags, 6);
}

#[test]
fn copy_audio_fills_missing_planes_with_silence() {
    let left = [1u8, 2, 3, 4, 5, 6, 7, 8];
    let frame = AudioData {
        planes: vec![Some(&left[..]), None, None, None, None, None, None, None],
        frames: 2,
        timestamp: 500,
    };
    let a = copy_audio_data(&frame, 2, 48_000).unwrap();
    assert_eq!(a.data, vec![1, 2, 3, 4, 5, 6, 7, 8, 0, 0, 0, 0, 0, 0, 0, 0]);
    assert_eq!(a.channels, 2);
    assert_eq!(a.samples_per_channel, 2);
    assert_eq!(a.sample_rate, 48_000);
    assert_eq!(a.timestamp, 5);
    let one = copy_audio_data(&frame, 0, 44_100).unwrap();
    assert_eq!(one.channels, 1);
    assert_eq!(one.data, left.to_vec());
    let empty = AudioData {
        planes: vec![None; 8],
        frames: 2,
        timestamp: 0,
    };
    assert_eq!(copy_audio_data(&empty, 2, 48_000), Err(SdrMappingError::NullPlane));
}

#[test]
fn bgra_frame_layout() {
    let f = bgra_video_frame(7, 3, 2, 0, 30, 1, vec![0u8; 24]);
    assert_eq!(f.stride, 12);
    assert_eq!(f.codec, OmtCodec::Bgra);
    assert_eq!(f.width, 3);
    assert_eq!(f.height, 2);
}

#[test]
fn copy_nv12_odd_height() {
    let y = [1u8, 2, 3, 4, 5, 6];
    let uv = [7u8, 8, 9, 10];
    let frame = VideoData {
        plane0: Some(&y),
        plane1: Some(&uv),
        linesize0: 2,
        timestamp: 1000,
    };
    let f = copy_video_data(&frame, 2, 3, VideoFormat::NV12, 30, 1, ColorSpace::Undefined).unwrap();
    assert_eq!(f.data, vec![1u8, 2, 3, 4, 5, 6, 7, 8, 9, 10]);
    assert_eq!((f.stride, f.width, f.height), (2, 2, 3));
    assert_eq!(f.codec, OmtCodec::Nv12);
    assert_eq!(f.timestamp, 10);
    assert_eq!(f.data.len(), packed_frame_len(VideoFormat::NV12, 2, 3, 2));
}
