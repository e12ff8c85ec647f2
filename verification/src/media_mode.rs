//! Embedded / Video Only / Audio Only send mode.

use vstd::prelude::*;

verus! {

/// Which media a sender carries.
#[derive(Debug, Clone, Copy, PartialEq, Eq, Structural)]
pub enum MediaMode {
    Embedded,
    Video,
    Audio,
}

/// OMT wire flag for metadata frames.
pub const FRAME_METADATA: u8 = 1;
/// OMT wire flag for video frames.
pub const FRAME_VIDEO: u8 = 2;
/// OMT wire flag for audio frames.
pub const FRAME_AUDIO: u8 = 4;

pub open spec fn mode_code(m: MediaMode) -> int {
    match m {
        MediaMode::Embedded => 0,
        MediaMode::Video => 1,
        MediaMode::Audio => 2,
    }
}

/// Codes 1 and 2 select video-only and audio-only; anything else is embedded.
pub open spec fn mode_of_code(v: int) -> MediaMode {
    if v == 1 {
        MediaMode::Video
    } else if v == 2 {
        MediaMode::Audio
    } else {
        MediaMode::Embedded
    }
}

pub open spec fn carries_video(m: MediaMode) -> bool {
    m == MediaMode::Embedded || m == MediaMode::Video
}

pub open spec fn carries_audio(m: MediaMode) -> bool {
    m == MediaMode::Embedded || m == MediaMode::Audio
}

/// The OMT frame-type flags a sender in mode `m` announces: metadata always, video and
/// audio as the mode carries them.
pub open spec fn frame_type_bits(m: MediaMode) -> u8 {
    match m {
        MediaMode::Embedded => 7u8,
        MediaMode::Video => 3u8,
        MediaMode::Audio => 5u8,
    }
}

impl MediaMode {
    pub fn from_i64(v: i64) -> (m: Self)
        ensures
            m == mode_of_code(v as int),
    {
        match v {
            1 => MediaMode::Video,
            2 => MediaMode::Audio,
            _ => MediaMode::Embedded,
        }
    }

    pub fn as_i64(self) -> (v: i64)
        ensures
            v as int == mode_code(self),
    {
        match self {
            MediaMode::Embedded => 0,
            MediaMode::Video => 1,
            MediaMode::Audio => 2,
        }
    }

    /// The OMT frame-type flags (metadata = 1, video = 2, audio = 4) a sender in this mode
    /// announces.
    pub fn frame_types(self) -> (bits: u8)
        ensures
            bits == frame_type_bits(self),
    {
        assert(2u8 | 4u8 | 1u8 == 7u8 && 2u8 | 1u8 == 3u8 && 4u8 | 1u8 == 5u8) by (bit_vector);
        match self {
            MediaMode::Embedded => FRAME_VIDEO | FRAME_AUDIO | FRAME_METADATA,
            MediaMode::Video => FRAME_VIDEO | FRAME_METADATA,
            MediaMode::Audio => FRAME_AUDIO | FRAME_METADATA,
        }
    }

    pub fn video(self) -> (r: bool)
        ensures
            r == carries_video(self),
    {
        match self {
            MediaMode::Embedded | MediaMode::Video => true,
            MediaMode::Audio => false,
        }
    }

    pub fn audio(self) -> (r: bool)
        ensures
            r == carries_audio(self),
    {
        match self {
            MediaMode::Embedded | MediaMode::Audio => true,
            MediaMode::Video => false,
        }
    }
}

impl Default for MediaMode {
    fn default() -> (m: Self)
        ensures
            m == MediaMode::Embedded,
    {
        MediaMode::Embedded
    }
}

/// A stored mode code reads back as the mode that wrote it.
pub proof fn lemma_mode_code_roundtrip(m: MediaMode)
    ensures
        mode_of_code(mode_code(m)) == m,
{
}

/// The announced frame types agree with what the mode carries: metadata is always
/// announced, video exactly when the mode carries video, audio exactly when it carries
/// audio, and every mode carries at least one of them.
pub proof fn lemma_frame_types_match_mode(m: MediaMode)
    ensures
        frame_type_bits(m) & FRAME_METADATA == FRAME_METADATA,
        (frame_type_bits(m) & FRAME_VIDEO == FRAME_VIDEO) == carries_video(m),
        (frame_type_bits(m) & FRAME_AUDIO == FRAME_AUDIO) == carries_audio(m),
        carries_video(m) || carries_audio(m),
{
    assert(7u8 & 1u8 == 1u8 && 7u8 & 2u8 == 2u8 && 7u8 & 4u8 == 4u8) by (bit_vector);
    assert(3u8 & 1u8 == 1u8 && 3u8 & 2u8 == 2u8 && 3u8 & 4u8 == 0u8) by (bit_vector);
    assert(5u8 & 1u8 == 1u8 && 5u8 & 2u8 == 0u8 && 5u8 & 4u8 == 4u8) by (bit_vector);
}

} // verus!
