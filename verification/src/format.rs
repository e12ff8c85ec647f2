//! OBS ↔ OMT pixel format mapping and frame assembly.

use vstd::prelude::*;

use crate::clock::obs_ns_to_omt_ticks;

verus! {

/// OBS (libobs) video formats, in libobs numbering from 1 (`VIDEO_FORMAT_I420`).
#[derive(Debug, Clone, Copy, PartialEq, Eq, Structural)]
pub enum VideoFormat {
    I420,
    NV12,
    YVYU,
    YUY2,
    UYVY,
    RGBA,
    BGRA,
    BGRX,
    Y800,
    I444,
    BGR3,
    I422,
    I40A,
    I42A,
    YUVA,
    AYUV,
    I010,
    P010,
    I210,
    I412,
    YA2L,
    P216,
    P416,
    V210,
    R10L,
}

/// OMT codecs (FourCC wire values as signed 32-bit integers).
#[derive(Debug, Clone, Copy, PartialEq, Eq, Structural)]
pub enum OmtCodec {
    Vmx1,
    Fpa1,
    Uyvy,
    Yuy2,
    Bgra,
    Nv12,
    Yv12,
    Uyva,
    P216,
    Pa16,
}

/// OMT color spaces.
#[derive(Debug, Clone, Copy, PartialEq, Eq, Structural)]
pub enum ColorSpace {
    Undefined,
    Bt601,
    Bt709,
}

#[derive(Debug, Clone, Copy, PartialEq, Eq, Structural)]
pub enum SdrMappingError {
    UnsupportedHdr,
    UnsupportedFormat,
    NullPlane,
}

/// OMT video flag: alpha channel present.
pub const VIDEO_FLAG_ALPHA: i32 = 2;
/// OMT video flag: premultiplied alpha.
pub const VIDEO_FLAG_PREMULTIPLIED: i32 = 4;

/// The libobs number of each format.
pub open spec fn format_number(f: VideoFormat) -> u32 {
    match f {
        VideoFormat::I420 => 1,
        VideoFormat::NV12 => 2,
        VideoFormat::YVYU => 3,
        VideoFormat::YUY2 => 4,
        VideoFormat::UYVY => 5,
        VideoFormat::RGBA => 6,
        VideoFormat::BGRA => 7,
        VideoFormat::BGRX => 8,
        VideoFormat::Y800 => 9,
        VideoFormat::I444 => 10,
        VideoFormat::BGR3 => 11,
        VideoFormat::I422 => 12,
        VideoFormat::I40A => 13,
        VideoFormat::I42A => 14,
        VideoFormat::YUVA => 15,
        VideoFormat::AYUV => 16,
        VideoFormat::I010 => 17,
        VideoFormat::P010 => 18,
        VideoFormat::I210 => 19,
        VideoFormat::I412 => 20,
        VideoFormat::YA2L => 21,
        VideoFormat::P216 => 22,
        VideoFormat::P416 => 23,
        VideoFormat::V210 => 24,
        VideoFormat::R10L => 25,
    }
}

/// The FourCC wire value of each codec.
pub open spec fn codec_fourcc(c: OmtCodec) -> i32 {
    match c {
        OmtCodec::Vmx1 => 0x3158_4D56,
        OmtCodec::Fpa1 => 0x3141_5046,
        OmtCodec::Uyvy => 0x5956_5955,
        OmtCodec::Yuy2 => 0x3259_5559,
        OmtCodec::Bgra => 0x4152_4742,
        OmtCodec::Nv12 => 0x3231_564E,
        OmtCodec::Yv12 => 0x3231_5659,
        OmtCodec::Uyva => 0x4156_5955,
        OmtCodec::P216 => 0x3631_3250,
        OmtCodec::Pa16 => 0x3631_4150,
    }
}

pub open spec fn color_space_value(c: ColorSpace) -> i32 {
    match c {
        ColorSpace::Undefined => 0,
        ColorSpace::Bt601 => 601,
        ColorSpace::Bt709 => 709,
    }
}

/// The OMT codec an OBS format is sent as: NV12, UYVY and YUY2 as themselves, BGRA and
/// BGRX as BGRA; P010 and P216 are refused as HDR, every other format as unsupported.
pub open spec fn codec_for(f: VideoFormat) -> Result<OmtCodec, SdrMappingError> {
    match f {
        VideoFormat::NV12 => Ok(OmtCodec::Nv12),
        VideoFormat::UYVY => Ok(OmtCodec::Uyvy),
        VideoFormat::YUY2 => Ok(OmtCodec::Yuy2),
        VideoFormat::BGRA | VideoFormat::BGRX => Ok(OmtCodec::Bgra),
        VideoFormat::P010 | VideoFormat::P216 => Err(SdrMappingError::UnsupportedHdr),
        _ => Err(SdrMappingError::UnsupportedFormat),
    }
}

/// Bytes of one frame in OBS layout, from the stride of its first plane: NV12 adds a
/// chroma plane of half the rows (rounded up), P010 and P216 count twice the rows, every
/// other format one plane of `height` rows.
pub open spec fn packed_len_spec(f: VideoFormat, height: int, stride: int) -> int {
    match f {
        VideoFormat::NV12 => stride * height + stride * ((height + 1) / 2),
        VideoFormat::P010 | VideoFormat::P216 => stride * height * 2,
        _ => stride * height,
    }
}

/// A FourCC: four ASCII characters read little-endian into a 32-bit word.
pub open spec fn fourcc_le(tag: (char, char, char, char)) -> int {
    tag.0 as int + tag.1 as int * 0x100 + tag.2 as int * 0x1_0000 + tag.3 as int * 0x100_0000
}

/// The four-character tag each codec is named by.
pub open spec fn codec_tag(c: OmtCodec) -> (char, char, char, char) {
    match c {
        OmtCodec::Vmx1 => ('V', 'M', 'X', '1'),
        OmtCodec::Fpa1 => ('F', 'P', 'A', '1'),
        OmtCodec::Uyvy => ('U', 'Y', 'V', 'Y'),
        OmtCodec::Yuy2 => ('Y', 'U', 'Y', '2'),
        OmtCodec::Bgra => ('B', 'G', 'R', 'A'),
        OmtCodec::Nv12 => ('N', 'V', '1', '2'),
        OmtCodec::Yv12 => ('Y', 'V', '1', '2'),
        OmtCodec::Uyva => ('U', 'Y', 'V', 'A'),
        OmtCodec::P216 => ('P', '2', '1', '6'),
        OmtCodec::Pa16 => ('P', 'A', '1', '6'),
    }
}

/// Each codec's wire value is the FourCC of its tag, so an NV12 frame goes out as `NV12`
/// and never as another codec: distinct codecs have distinct wire values.
pub proof fn lemma_codec_wire_values(c: OmtCodec, d: OmtCodec)
    ensures
        codec_fourcc(c) as int == fourcc_le(codec_tag(c)),
        codec_fourcc(c) == codec_fourcc(d) ==> c == d,
{
}

/// The libobs numbering of video formats (`enum video_format`): I420 = 1, NV12 = 2,
/// YVYU = 3, YUY2 = 4, UYVY = 5, RGBA = 6, BGRA = 7, BGRX = 8, Y800 = 9, I444 = 10,
/// BGR3 = 11, I422 = 12, I40A = 13, I42A = 14, YUVA = 15, AYUV = 16, I010 = 17,
/// P010 = 18, I210 = 19, I412 = 20, YA2L = 21, P216 = 22, P416 = 23, V210 = 24, R10L = 25;
/// each number names one format, and reading a format's number gives the format back.
pub proof fn lemma_libobs_format_numbers(f: VideoFormat, g: VideoFormat)
    ensures
        format_number(VideoFormat::I420) == 1,
        format_number(VideoFormat::NV12) == 2,
        format_number(VideoFormat::YVYU) == 3,
        format_number(VideoFormat::YUY2) == 4,
        format_number(VideoFormat::UYVY) == 5,
        format_number(VideoFormat::RGBA) == 6,
        format_number(VideoFormat::BGRA) == 7,
        format_number(VideoFormat::BGRX) == 8,
        format_number(VideoFormat::Y800) == 9,
        format_number(VideoFormat::I444) == 10,
        format_number(VideoFormat::BGR3) == 11,
        format_number(VideoFormat::I422) == 12,
        format_number(VideoFormat::I40A) == 13,
        format_number(VideoFormat::I42A) == 14,
        format_number(VideoFormat::YUVA) == 15,
        format_number(VideoFormat::AYUV) == 16,
        format_number(VideoFormat::I010) == 17,
        format_number(VideoFormat::P010) == 18,
        format_number(VideoFormat::I210) == 19,
        format_number(VideoFormat::I412) == 20,
        format_number(VideoFormat::YA2L) == 21,
        format_number(VideoFormat::P216) == 22,
        format_number(VideoFormat::P416) == 23,
        format_number(VideoFormat::V210) == 24,
        format_number(VideoFormat::R10L) == 25,
        format_number(f) == format_number(g) ==> f == g,
{
}

impl VideoFormat {
    /// The format with libobs number `raw`, or `None` for `VIDEO_FORMAT_NONE` and unknown
    /// numbers.
    pub fn from_raw(raw: u32) -> (f: Option<VideoFormat>)
        ensures
            f matches Some(g) ==> format_number(g) == raw,
            f is None <==> (raw == 0 || raw > 25),
    {
        match raw {
            1 => Some(VideoFormat::I420),
            2 => Some(VideoFormat::NV12),
            3 => Some(VideoFormat::YVYU),
            4 => Some(VideoFormat::YUY2),
            5 => Some(VideoFormat::UYVY),
            6 => Some(VideoFormat::RGBA),
            7 => Some(VideoFormat::BGRA),
            8 => Some(VideoFormat::BGRX),
            9 => Some(VideoFormat::Y800),
            10 => Some(VideoFormat::I444),
            11 => Some(VideoFormat::BGR3),
            12 => Some(VideoFormat::I422),
            13 => Some(VideoFormat::I40A),
            14 => Some(VideoFormat::I42A),
            15 => Some(VideoFormat::YUVA),
            16 => Some(VideoFormat::AYUV),
            17 => Some(VideoFormat::I010),
            18 => Some(VideoFormat::P010),
            19 => Some(VideoFormat::I210),
            20 => Some(VideoFormat::I412),
            21 => Some(VideoFormat::YA2L),
            22 => Some(VideoFormat::P216),
            23 => Some(VideoFormat::P416),
            24 => Some(VideoFormat::V210),
            25 => Some(VideoFormat::R10L),
            _ => None,
        }
    }
}

impl OmtCodec {
    /// The codec's FourCC wire value.
    pub fn fourcc(self) -> (v: i32)
        ensures
            v == codec_fourcc(self),
    {
        match self {
            OmtCodec::Vmx1 => 0x3158_4D56,
            OmtCodec::Fpa1 => 0x3141_5046,
            OmtCodec::Uyvy => 0x5956_5955,
            OmtCodec::Yuy2 => 0x3259_5559,
            OmtCodec::Bgra => 0x4152_4742,
            OmtCodec::Nv12 => 0x3231_564E,
            OmtCodec::Yv12 => 0x3231_5659,
            OmtCodec::Uyva => 0x4156_5955,
            OmtCodec::P216 => 0x3631_3250,
            OmtCodec::Pa16 => 0x3631_4150,
        }
    }
}

impl ColorSpace {
    /// The color space's OMT wire value.
    pub fn value(self) -> (v: i32)
        ensures
            v == color_space_value(self),
    {
        match self {
            ColorSpace::Undefined => 0,
            ColorSpace::Bt601 => 601,
            ColorSpace::Bt709 => 709,
        }
    }
}

pub fn obs_format_to_omt_codec(format: VideoFormat) -> (r: Result<OmtCodec, SdrMappingError>)
    ensures
        r == codec_for(format),
{
    match format {
        VideoFormat::NV12 => Ok(OmtCodec::Nv12),
        VideoFormat::UYVY => Ok(OmtCodec::Uyvy),
        VideoFormat::YUY2 => Ok(OmtCodec::Yuy2),
        VideoFormat::BGRA | VideoFormat::BGRX => Ok(OmtCodec::Bgra),
        VideoFormat::P010 | VideoFormat::P216 => Err(SdrMappingError::UnsupportedHdr),
        _ => Err(SdrMappingError::UnsupportedFormat),
    }
}

/// Whether the libobs format number `raw` names an HDR format (P010 or P216).
pub fn is_hdr_format(raw: u32) -> (r: bool)
    ensures
        r == (raw == 18 || raw == 22),
{
    match VideoFormat::from_raw(raw) {
        Some(VideoFormat::P010) | Some(VideoFormat::P216) => true,
        _ => false,
    }
}

/// OMT video flags for a format: BGRA carries premultiplied alpha, the rest none.
pub fn video_flags_for(format: VideoFormat) -> (flags: i32)
    ensures
        flags == (if format == VideoFormat::BGRA {
            VIDEO_FLAG_ALPHA | VIDEO_FLAG_PREMULTIPLIED
        } else {
            0i32
        }),
{
    match format {
        VideoFormat::BGRA => VIDEO_FLAG_ALPHA | VIDEO_FLAG_PREMULTIPLIED,
        _ => 0,
    }
}

pub fn packed_frame_len(format: VideoFormat, width: u32, height: u32, stride0: u32) -> (len: usize)
    requires
        packed_len_spec(format, height as int, stride0 as int) <= usize::MAX,
    ensures
        len as int == packed_len_spec(format, height as int, stride0 as int),
{
    let h = height as usize;
    let stride = stride0 as usize;
    proof {
        lemma_packed_len_parts(format, height as int, stride0 as int);
    }
    match format {
        VideoFormat::NV12 => {
            let chroma_rows = h / 2 + h % 2;
            assert(chroma_rows as int == (h as int + 1) / 2);
            stride * h + stride * chroma_rows
        },
        VideoFormat::P010 | VideoFormat::P216 => stride * h * 2,
        _ => stride * h,
    }
}

/// The byte lengths of the two planes a raw frame's copy reads (NV12: luma rows and
/// chroma rows; otherwise the whole frame and nothing), or `None` where the frame size
/// does not fit in memory.
pub fn frame_plane_lens(format: VideoFormat, height: u32, stride0: u32) -> (r: Option<(usize, usize)>)
    ensures
        r is None <==> packed_len_spec(format, height as int, stride0 as int) > usize::MAX,
        r matches Some((a, b)) ==> if format == VideoFormat::NV12 {
            a == stride0 as int * height as int && b == stride0 as int * ((height as int + 1) / 2)
        } else {
            a == packed_len_spec(format, height as int, stride0 as int) && b == 0
        },
{
    let h = height as u64;
    let s = stride0 as u64;
    let rows: u64 = h / 2 + h % 2;
    proof {
        lemma_packed_len_parts(format, height as int, stride0 as int);
        assert(s * h <= 0xffff_ffff * 0xffff_ffff) by (nonlinear_arith)
            requires
                s <= 0xffff_ffff,
                h <= 0xffff_ffff,
        ;
        assert(s * rows <= s * h) by (nonlinear_arith)
            requires
                rows <= h,
        ;
    }
    let luma: u64 = s * h;
    let chroma: u64 = s * rows;
    let total: u64 = match format {
        VideoFormat::NV12 => {
            if luma > u64::MAX - chroma {
                return None;
            }
            luma + chroma
        },
        VideoFormat::P010 | VideoFormat::P216 => {
            if luma > u64::MAX / 2 {
                return None;
            }
            luma * 2
        },
        _ => luma,
    };
    if total > usize::MAX as u64 {
        return None;
    }
    match format {
        VideoFormat::NV12 => Some((luma as usize, chroma as usize)),
        _ => Some((total as usize, 0)),
    }
}

proof fn lemma_packed_len_parts(f: VideoFormat, h: int, s: int)
    requires
        h >= 0,
        s >= 0,
    ensures
        0 <= s * h,
        0 <= s * ((h + 1) / 2),
        s * h <= packed_len_spec(f, h, s),
        (f == VideoFormat::P010 || f == VideoFormat::P216) ==> s * h * 2 == packed_len_spec(f, h, s),
{
    assert(0 <= s * h) by (nonlinear_arith)
        requires
            h >= 0,
            s >= 0,
    ;
    assert(0 <= s * ((h + 1) / 2)) by (nonlinear_arith)
        requires
            h >= 0,
            s >= 0,
    ;
}

/// One raw OBS video frame: its first two planes (`None` where the pointer is null), the
/// stride of the first plane and its timestamp in nanoseconds.
pub struct VideoData<'a> {
    pub plane0: Option<&'a [u8]>,
    pub plane1: Option<&'a [u8]>,
    pub linesize0: u32,
    pub timestamp: u64,
}

/// One raw OBS audio packet: one entry per plane (`None` where the pointer is null),
/// the number of samples per channel and its timestamp in nanoseconds.
pub struct AudioData<'a> {
    pub planes: Vec<Option<&'a [u8]>>,
    pub frames: u32,
    pub timestamp: u64,
}

/// A video frame ready for an OMT sender (the display aspect ratio is added by the caller).
#[derive(Debug, Clone, PartialEq, Eq)]
pub struct VideoFrame {
    pub timestamp: i64,
    pub codec: OmtCodec,
    pub width: i32,
    pub height: i32,
    pub stride: i32,
    pub flags: i32,
    pub frame_rate_n: i32,
    pub frame_rate_d: i32,
    pub color_space: ColorSpace,
    pub data: Vec<u8>,
}

/// An audio frame ready for an OMT sender: planar 32-bit float samples (FPA1).
#[derive(Debug, Clone, PartialEq, Eq)]
pub struct AudioFrame {
    pub timestamp: i64,
    pub sample_rate: i32,
    pub channels: i32,
    pub samples_per_channel: i32,
    pub data: Vec<u8>,
}

/// `n` zero bytes.
pub open spec fn zeros(n: int) -> Seq<u8> {
    Seq::new(n as nat, |i: int| 0u8)
}

/// The payload of a video frame: for NV12 the luma rows of the first plane followed by the
/// chroma rows of the second; otherwise the frame's bytes from the first plane.
pub open spec fn video_payload(
    f: VideoFormat,
    plane0: Seq<u8>,
    plane1: Seq<u8>,
    height: int,
    stride: int,
) -> Seq<u8> {
    if f == VideoFormat::NV12 {
        plane0.take(stride * height) + plane1.take(stride * ((height + 1) / 2))
    } else {
        plane0.take(packed_len_spec(f, height, stride))
    }
}

/// The planar payload of the first `n` channels: each channel's first `bytes` bytes, or
/// silence where its plane is missing.
pub open spec fn audio_payload(planes: Seq<Option<&[u8]>>, n: int, bytes: int) -> Seq<u8>
    decreases n,
{
    if n <= 0 {
        Seq::empty()
    } else {
        audio_payload(planes, n - 1, bytes) + match planes[n - 1] {
            Some(p) => p@.take(bytes),
            None => zeros(bytes),
        }
    }
}

/// What the raw planes of a frame must hold for the copy not to read past them.
pub open spec fn video_planes_hold(frame: VideoData, height: int, format: VideoFormat) -> bool {
    let stride = frame.linesize0 as int;
    frame.plane0 matches Some(p0) ==> {
        &&& packed_len_spec(format, height, stride) <= usize::MAX
        &&& if format == VideoFormat::NV12 {
            &&& p0@.len() >= stride * height
            &&& frame.plane1 matches Some(p1) ==> p1@.len() >= stride * ((height + 1) / 2)
        } else {
            p0@.len() >= packed_len_spec(format, height, stride)
        }
    }
}

pub(crate) fn push_prefix(out: &mut Vec<u8>, src: &[u8], n: usize)
    requires
        n <= src@.len(),
    ensures
        final(out)@ == old(out)@ + src@.take(n as int),
{
    let mut i: usize = 0;
    while i < n
        invariant
            i <= n,
            n <= src@.len(),
            out@ == old(out)@ + src@.take(i as int),
        decreases n - i,
    {
        out.push(src[i]);
        assert(src@.take(i + 1) == src@.take(i as int).push(src@[i as int]));
        i = i + 1;
    }
}

pub(crate) fn push_zeros(out: &mut Vec<u8>, n: usize)
    ensures
        final(out)@ == old(out)@ + zeros(n as int),
{
    let mut i: usize = 0;
    while i < n
        invariant
            i <= n,
            out@ == old(out)@ + zeros(i as int),
        decreases n - i,
    {
        out.push(0u8);
        assert(zeros(i + 1) == zeros(i as int).push(0u8));
        i = i + 1;
    }
}

/// The outcome of copying raw frame `frame` of OBS format `format`: the format's codec
/// error where it has no codec; `NullPlane` where a plane it needs is missing; and exactly
/// otherwise an OMT frame of the format's codec holding the frame's bytes (see
/// [`video_payload`]).
pub open spec fn video_copy_result(
    frame: VideoData,
    width: u32,
    height: u32,
    format: VideoFormat,
    fps_num: u32,
    fps_den: u32,
    color_space: ColorSpace,
    r: Result<VideoFrame, SdrMappingError>,
) -> bool {
    &&& r is Err <==> (codec_for(format) is Err || frame.plane0 is None || (format
        == VideoFormat::NV12 && frame.plane1 is None))
    &&& codec_for(format) is Err ==> r == Err::<VideoFrame, SdrMappingError>(
        codec_for(format)->Err_0,
    )
    &&& codec_for(format) is Ok ==> (frame.plane0 is None || (format == VideoFormat::NV12
        && frame.plane1 is None)) ==> r == Err::<VideoFrame, SdrMappingError>(
        SdrMappingError::NullPlane,
    )
    &&& r matches Ok(v) ==> {
        &&& codec_for(format) == Ok::<OmtCodec, SdrMappingError>(v.codec)
        &&& frame.plane0 is Some
        &&& (format == VideoFormat::NV12 ==> frame.plane1 is Some)
        &&& v.timestamp == frame.timestamp / 100
        &&& v.width == width as i32
        &&& v.height == height as i32
        &&& v.stride == frame.linesize0 as i32
        &&& v.flags == (if format == VideoFormat::BGRA {
            VIDEO_FLAG_ALPHA | VIDEO_FLAG_PREMULTIPLIED
        } else {
            0i32
        })
        &&& v.frame_rate_n == fps_num as i32
        &&& v.frame_rate_d == (if fps_den < 1 {
            1u32
        } else {
            fps_den
        }) as i32
        &&& v.color_space == color_space
        &&& v.data@ == video_payload(
            format,
            frame.plane0.unwrap()@,
            match frame.plane1 {
                Some(p) => p@,
                None => Seq::empty(),
            },
            height as int,
            frame.linesize0 as int,
        )
    }
}

/// Copy one raw OBS video frame into an OMT frame of the matching codec.
pub fn copy_video_data(
    frame: &VideoData,
    width: u32,
    height: u32,
    format: VideoFormat,
    fps_num: u32,
    fps_den: u32,
    color_space: ColorSpace,
) -> (r: Result<VideoFrame, SdrMappingError>)
    requires
        video_planes_hold(*frame, height as int, format),
    ensures
        video_copy_result(*frame, width, height, format, fps_num, fps_den, color_space, r),
{
    let codec = match obs_format_to_omt_codec(format) {
        Ok(c) => c,
        Err(e) => {
            return Err(e);
        },
    };
    let stride = frame.linesize0;
    let plane0 = match frame.plane0 {
        Some(p) => p,
        None => {
            return Err(SdrMappingError::NullPlane);
        },
    };
    let len = packed_frame_len(format, width, height, stride);
    let mut data: Vec<u8> = Vec::new();
    match format {
        VideoFormat::NV12 => {
            let y_len = stride as usize * height as usize;
            let h = height as usize;
            let uv_len = stride as usize * (h / 2 + h % 2);
            assert((h / 2 + h % 2) as int == (h as int + 1) / 2);
            push_prefix(&mut data, plane0, y_len);
            let plane1 = match frame.plane1 {
                Some(p) => p,
                None => {
                    return Err(SdrMappingError::NullPlane);
                },
            };
            push_prefix(&mut data, plane1, uv_len);
        },
        _ => {
            push_prefix(&mut data, plane0, len);
        },
    }
    let frame_rate_d: u32 = if fps_den < 1 {
        1
    } else {
        fps_den
    };
    Ok(
        VideoFrame {
            timestamp: obs_ns_to_omt_ticks(frame.timestamp),
            codec,
            width: width as i32,
            height: height as i32,
            stride: stride as i32,
            flags: video_flags_for(format),
            frame_rate_n: fps_num as i32,
            frame_rate_d: frame_rate_d as i32,
            color_space,
            data,
        },
    )
}

/// Channel count an audio copy uses: the given count, at least one.
pub open spec fn audio_channels_used(channels: u32) -> int {
    if channels < 1 {
        1
    } else {
        channels as int
    }
}

/// What a raw audio packet must hold for the copy: a plane entry for every channel, every
/// present plane holding a full channel of samples, and a total size that fits in memory.
pub open spec fn audio_planes_hold(frame: AudioData, channels: u32) -> bool {
    let ch = audio_channels_used(channels);
    let bytes = frame.frames as int * 4;
    &&& ch <= frame.planes@.len()
    &&& ch * bytes <= usize::MAX
    &&& forall|c: int|
        0 <= c < ch ==> (#[trigger] frame.planes@[c] matches Some(p) ==> p@.len() >= bytes)
}

/// The outcome of copying raw audio packet `frame`: `NullPlane` where its first plane is
/// missing; otherwise a planar float frame of the packet's samples (see [`audio_payload`]).
pub open spec fn audio_copy_result(
    frame: AudioData,
    channels: u32,
    sample_rate: u32,
    r: Result<AudioFrame, SdrMappingError>,
) -> bool {
    &&& r is Err <==> frame.planes@[0] is None
    &&& r is Err ==> r == Err::<AudioFrame, SdrMappingError>(SdrMappingError::NullPlane)
    &&& r matches Ok(a) ==> {
        &&& a.timestamp == frame.timestamp / 100
        &&& a.sample_rate == sample_rate as i32
        &&& a.channels == audio_channels_used(channels) as i32
        &&& a.samples_per_channel == frame.frames as i32
        &&& a.data@ == audio_payload(
            frame.planes@,
            audio_channels_used(channels),
            frame.frames as int * 4,
        )
    }
}

/// Copy one raw OBS audio packet into a planar float OMT frame.
pub fn copy_audio_data(frame: &AudioData, channels: u32, sample_rate: u32) -> (r: Result<
    AudioFrame,
    SdrMappingError,
>)
    requires
        audio_planes_hold(*frame, channels),
    ensures
        audio_copy_result(*frame, channels, sample_rate, r),
{
    let ch: usize = if channels < 1 {
        1
    } else {
        channels as usize
    };
    let samples = frame.frames as usize;
    if frame.planes[0].is_none() {
        return Err(SdrMappingError::NullPlane);
    }
    let ghost bytes = samples as int * 4;
    proof {
        assert(0 <= bytes <= ch * bytes) by (nonlinear_arith)
            requires
                ch >= 1,
                bytes >= 0,
        ;
    }
    let plane_bytes = samples * 4;
    let mut data: Vec<u8> = Vec::new();
    let mut c: usize = 0;
    while c < ch
        invariant
            c <= ch,
            ch == audio_channels_used(channels),
            ch <= frame.planes@.len(),
            plane_bytes == bytes,
            audio_planes_hold(*frame, channels),
            bytes == frame.frames as int * 4,
            data@ == audio_payload(frame.planes@, c as int, bytes),
        decreases ch - c,
    {
        match frame.planes[c] {
            Some(src) => {
                assert(frame.planes@[c as int] matches Some(p) ==> p@.len() >= bytes);
                push_prefix(&mut data, src, plane_bytes);
            },
            None => {
                push_zeros(&mut data, plane_bytes);
            },
        }
        c = c + 1;
    }
    Ok(
        AudioFrame {
            timestamp: obs_ns_to_omt_ticks(frame.timestamp),
            sample_rate: sample_rate as i32,
            channels: ch as i32,
            samples_per_channel: samples as i32,
            data,
        },
    )
}

/// The tightly packed BGRA frame (`width * 4` bytes per row) holding `pixels`.
pub open spec fn bgra_frame_spec(
    timestamp: i64,
    width: u32,
    height: u32,
    flags: i32,
    fps_num: u32,
    fps_den: u32,
    pixels: Vec<u8>,
) -> VideoFrame {
    VideoFrame {
        timestamp,
        codec: OmtCodec::Bgra,
        width: width as i32,
        height: height as i32,
        stride: (width * 4) as i32,
        flags,
        frame_rate_n: fps_num as i32,
        frame_rate_d: fps_den as i32,
        color_space: ColorSpace::Undefined,
        data: pixels,
    }
}

/// A tightly packed BGRA frame (`width * 4` bytes per row) captured from the GPU.
pub fn bgra_video_frame(
    timestamp: i64,
    width: u32,
    height: u32,
    flags: i32,
    fps_num: u32,
    fps_den: u32,
    pixels: Vec<u8>,
) -> (v: VideoFrame)
    requires
        width as int * 4 <= u32::MAX,
    ensures
        v == bgra_frame_spec(timestamp, width, height, flags, fps_num, fps_den, pixels),
{
    VideoFrame {
        timestamp,
        codec: OmtCodec::Bgra,
        width: width as i32,
        height: height as i32,
        stride: (width * 4) as i32,
        flags,
        frame_rate_n: fps_num as i32,
        frame_rate_d: fps_den as i32,
        color_space: ColorSpace::Undefined,
        data: pixels,
    }
}

} // verus!
