//! Dedicated OMT filter sender: sender naming, sender lifecycle, render gating and audio
//! packing for one filter instance.

use vstd::prelude::*;

use crate::clock::obs_ns_to_omt_ticks;
use crate::format::{bgra_frame_spec, bgra_video_frame, push_zeros, zeros, AudioFrame, VideoFrame};
use crate::ids::{DEFAULT_FILTER_NAME, FALLBACK_FILTER_NAME, FILTER_TOKEN, SOURCE_TOKEN};
use crate::media_mode::{carries_audio, carries_video, frame_type_bits, mode_of_code, MediaMode};
use crate::text::{
    contains_spec, is_trimmed_nonempty, occurs_at, replace_spec, str_contains,
    str_replace, trim_spec, trim_str, trimmed_nonempty, trimmed_nonempty_spec,
};

verus! {

/// Name and frame types of a running sender.
#[derive(Debug, Clone, PartialEq, Eq)]
pub struct SenderKey {
    pub name: String,
    pub frame_types: u8,
}

/// What the filter's sender has to do next.
#[derive(Debug, Clone, PartialEq, Eq)]
pub enum SessionPlan {
    /// Stop the sender (the filter is detached from any source).
    Stop,
    /// Keep the running sender.
    Keep,
    /// Stop any running sender and start one with this name and these frame types.
    Start { name: String, frame_types: u8 },
}

/// The decision state of one dedicated-output filter.
pub struct OmtSendFilter {
    name_template: String,
    mode: MediaMode,
    session: Option<SenderKey>,
    rendered: bool,
    fps_num: u32,
    fps_den: u32,
    sample_rate: u32,
    channels: u32,
}

/// The abstract state of a filter.
pub struct FilterView {
    pub name_template: Seq<char>,
    pub mode: MediaMode,
    pub session: Option<(Seq<char>, u8)>,
    pub rendered: bool,
    pub fps_num: u32,
    pub fps_den: u32,
    pub sample_rate: u32,
    pub channels: u32,
}

impl View for OmtSendFilter {
    type V = FilterView;

    closed spec fn view(&self) -> FilterView {
        FilterView {
            name_template: self.name_template@,
            mode: self.mode,
            session: match self.session {
                Some(k) => Some((k.name@, k.frame_types)),
                None => None,
            },
            rendered: self.rendered,
            fps_num: self.fps_num,
            fps_den: self.fps_den,
            sample_rate: self.sample_rate,
            channels: self.channels,
        }
    }
}

/// Replace `token` in `name` by `value` where the token occurs and a value is known.
pub open spec fn substitute_token(name: Seq<char>, token: Seq<char>, value: Option<Seq<char>>) -> Seq<
    char,
> {
    match value {
        Some(v) => if contains_spec(name, token) {
            replace_spec(name, token, v)
        } else {
            name
        },
        None => name,
    }
}

/// The sender name a template gives: `${source}` and `${filter}` replaced by the source's
/// and the filter's names, trimmed; the fallback name where the result is blank or still
/// holds a placeholder.
pub open spec fn resolved_name_spec(
    template: Seq<char>,
    source_name: Option<Seq<char>>,
    filter_name: Option<Seq<char>>,
) -> Seq<char> {
    let n = substitute_token(
        substitute_token(template, SOURCE_TOKEN@, source_name),
        FILTER_TOKEN@,
        filter_name,
    );
    let t = trim_spec(n);
    if t.len() == 0 || contains_spec(t, SOURCE_TOKEN@) || contains_spec(t, FILTER_TOKEN@) {
        FALLBACK_FILTER_NAME@
    } else {
        t
    }
}

pub open spec fn opt_str_view(s: Option<&str>) -> Option<Seq<char>> {
    match s {
        Some(t) => Some(t@),
        None => None,
    }
}

/// The number of audio channels of an OBS speaker layout (libobs numbering): mono 1,
/// 2.1 three, 4.0 four, 4.1 five, 5.1 six, 7.1 eight, anything else two.
pub open spec fn speaker_channels_spec(layout: u32) -> u32 {
    if layout == 1 {
        1
    } else if layout == 3 {
        3
    } else if layout == 4 {
        4
    } else if layout == 5 {
        5
    } else if layout == 6 {
        6
    } else if layout == 8 {
        8
    } else {
        2
    }
}

/// Each libobs speaker layout numbered 1 to 6 or 8 (mono, stereo, 2.1, 4.0, 4.1, 5.1,
/// 7.1) carries as many channels as its number; unknown layouts are taken as stereo.
pub proof fn lemma_speaker_layouts(layout: u32)
    ensures
        (1 <= layout <= 6 || layout == 8) ==> speaker_channels_spec(layout) == layout,
        !(1 <= layout <= 6 || layout == 8) ==> speaker_channels_spec(layout) == 2,
{
}

pub open spec fn at_least_one(v: u32) -> u32 {
    if v < 1 {
        1
    } else {
        v
    }
}

/// The channel count the filter sends audio with: its channel count clamped to 1..=8.
pub open spec fn clamp_channels(c: u32) -> int {
    if c < 1 {
        1
    } else if c > 8 {
        8
    } else {
        c as int
    }
}

/// Channel `c` of the packed buffer is filled from its plane: the plane is present, not
/// empty, and fits at the channel's offset.
pub open spec fn plane_copied(planes: Seq<Option<&[u8]>>, c: int, frames: int, total: int) -> bool {
    planes[c] matches Some(p) && p@.len() > 0 && c * frames * 4 + p@.len() <= total
}

/// The packed audio buffer after the first `n` channels were copied in order, each at
/// offset `c * frames * 4` over a zeroed buffer of `total` bytes.
pub open spec fn packed_audio(planes: Seq<Option<&[u8]>>, n: int, frames: int, total: int) -> Seq<
    u8,
>
    decreases n,
{
    if n <= 0 {
        zeros(total)
    } else {
        let prev = packed_audio(planes, n - 1, frames, total);
        if plane_copied(planes, n - 1, frames, total) {
            let p = planes[n - 1]->Some_0@;
            let dst = (n - 1) * frames * 4;
            prev.take(dst) + p + prev.skip(dst + p.len())
        } else {
            prev
        }
    }
}

/// One more than the last of the first `n` channels that was filled (0 if none was).
pub open spec fn used_channels(planes: Seq<Option<&[u8]>>, n: int, frames: int, total: int) -> int
    decreases n,
{
    if n <= 0 {
        0
    } else if plane_copied(planes, n - 1, frames, total) {
        n
    } else {
        used_channels(planes, n - 1, frames, total)
    }
}

/// Every present plane among the first `n` holds at most one channel of samples.
pub open spec fn planes_fit(planes: Seq<Option<&[u8]>>, n: int, frames: int) -> bool {
    forall|c: int| 0 <= c < n ==> (#[trigger] planes[c] matches Some(p) ==> p@.len() <= frames * 4)
}

/// Byte `j` of channel `c` of the packed buffer, where planes hold at most one channel:
/// the plane's byte where the plane was copied and reaches that far, zero otherwise.
pub open spec fn channel_byte(
    planes: Seq<Option<&[u8]>>,
    c: int,
    j: int,
    frames: int,
    total: int,
) -> u8 {
    if plane_copied(planes, c, frames, total) && j < planes[c]->Some_0@.len() {
        planes[c]->Some_0@[j]
    } else {
        0
    }
}

/// Where planes hold at most one channel, the packed buffer holds channel `c` in its
/// segment `c * frames * 4 .. (c + 1) * frames * 4`: the plane's bytes where it was copied,
/// zeros after them and for channels that were not copied; the rest of the buffer is zero.
pub proof fn lemma_packed_audio_channels(
    planes: Seq<Option<&[u8]>>,
    n: int,
    frames: int,
    total: int,
)
    requires
        0 <= n <= planes.len(),
        frames >= 0,
        n * (frames * 4) <= total,
        planes_fit(planes, n, frames),
    ensures
        packed_audio(planes, n, frames, total).len() == total,
        forall|c: int, j: int|
            0 <= c < n && 0 <= j < frames * 4 ==> #[trigger] packed_audio(planes, n, frames, total)[c
                * (frames * 4) + j] == channel_byte(planes, c, j, frames, total),
        forall|k: int|
            n * (frames * 4) <= k < total ==> #[trigger] packed_audio(planes, n, frames, total)[k]
                == 0u8,
    decreases n,
{
    let f = frames * 4;
    if n == 0 {
        assert(packed_audio(planes, n, frames, total) == zeros(total));
    } else {
        let m = n - 1;
        assert(0 <= m * f <= n * f) by (nonlinear_arith)
            requires
                m == n - 1,
                m >= 0,
                f >= 0,
        ;
        assert(n * f == m * f + f) by (nonlinear_arith)
            requires
                m == n - 1,
        ;
        lemma_packed_audio_channels(planes, m, frames, total);
        let prev = packed_audio(planes, m, frames, total);
        let cur = packed_audio(planes, n, frames, total);
        let dst = m * frames * 4;
        assert(dst == m * f) by (nonlinear_arith)
            requires
                dst == m * frames * 4,
                f == frames * 4,
        ;
        if plane_copied(planes, m, frames, total) {
            let p = planes[m]->Some_0@;
            assert(planes[m] matches Some(q) ==> q@.len() <= frames * 4);
            assert(cur == prev.take(dst) + p + prev.skip(dst + p.len()));
            assert forall|c: int, j: int| 0 <= c < n && 0 <= j < f implies #[trigger] cur[c * f + j]
                == channel_byte(planes, c, j, frames, total) by {
                if c < m {
                    assert(c * f + j < m * f) by (nonlinear_arith)
                        requires
                            c < m,
                            j < f,
                            c >= 0,
                            f >= 0,
                    {
                        assert((c + 1) * f <= m * f);
                    }
                    assert(0 <= c * f) by (nonlinear_arith)
                        requires
                            c >= 0,
                            f >= 0,
                    ;
                    assert(cur[c * f + j] == prev[c * f + j]);
                } else {
                    assert(c == m);
                    if j < p.len() {
                        assert(cur[c * f + j] == p[j]);
                    } else {
                        assert(cur[c * f + j] == prev[c * f + j]);
                    }
                }
            }
            assert forall|k: int| n * f <= k < total implies #[trigger] cur[k] == 0u8 by {
                assert(cur[k] == prev[k]);
            }
        } else {
            assert(cur == prev);
            assert forall|c: int, j: int| 0 <= c < n && 0 <= j < f implies #[trigger] cur[c * f + j]
                == channel_byte(planes, c, j, frames, total) by {
                if c < m {
                } else {
                    assert(c == m);
                    assert(prev[c * f + j] == 0u8);
                }
            }
        }
    }
}

/// Overwrite `data` from `at` with `src`.
fn overwrite(data: &mut Vec<u8>, at: usize, src: &[u8])
    requires
        at + src@.len() <= old(data)@.len(),
    ensures
        final(data)@ == old(data)@.take(at as int) + src@ + old(data)@.skip(at + src@.len()),
{
    let n = src.len();
    let total_len = data.len();
    let mut i: usize = 0;
    while i < n
        invariant
            i <= n,
            n == src@.len(),
            at + n <= data@.len(),
            data@.len() == total_len,
            data@.len() == old(data)@.len(),
            data@ == old(data)@.take(at as int) + src@.take(i as int) + old(data)@.skip(at + i),
        decreases n - i,
    {
        data.set(at + i, src[i]);
        assert(data@ =~= old(data)@.take(at as int) + src@.take(i + 1) + old(data)@.skip(
            at + i + 1,
        ));
        i = i + 1;
    }
    assert(src@.take(n as int) =~= src@);
}

/// The number of audio channels of an OBS speaker layout.
pub fn speaker_channels(layout: u32) -> (c: u32)
    ensures
        c == speaker_channels_spec(layout),
        1 <= c <= 8,
{
    if layout == 1 {
        1
    } else if layout == 3 {
        3
    } else if layout == 4 {
        4
    } else if layout == 5 {
        5
    } else if layout == 6 {
        6
    } else if layout == 8 {
        8
    } else {
        2
    }
}

/// Replace `token` in `name` by `value`, where the token occurs and a value is known.
fn substitute(name: String, token: &str, value: Option<&str>) -> (r: String)
    requires
        token@.len() > 0,
    ensures
        r@ == substitute_token(name@, token@, opt_str_view(value)),
{
    if str_contains(name.as_str(), token) {
        match value {
            Some(v) => str_replace(name.as_str(), token, v),
            None => name,
        }
    } else {
        name
    }
}

/// The fallback name is trimmed, not empty and holds no placeholder.
pub proof fn lemma_fallback_name_clean()
    ensures
        is_trimmed_nonempty(FALLBACK_FILTER_NAME@),
        !contains_spec(FALLBACK_FILTER_NAME@, SOURCE_TOKEN@),
        !contains_spec(FALLBACK_FILTER_NAME@, FILTER_TOKEN@),
{
    reveal_strlit("OMT Filter");
    reveal_strlit("${source}");
    reveal_strlit("${filter}");
    let f = FALLBACK_FILTER_NAME@;
    crate::text::lemma_trim_start_fixed(f);
    crate::text::lemma_trim_end_fixed(f);
    assert forall|i: int| !occurs_at(f, SOURCE_TOKEN@, i) by {
        if occurs_at(f, SOURCE_TOKEN@, i) {
            assert(f.subrange(i, i + 9)[0] == SOURCE_TOKEN@[0]);
        }
    }
    assert forall|i: int| !occurs_at(f, FILTER_TOKEN@, i) by {
        if occurs_at(f, FILTER_TOKEN@, i) {
            assert(f.subrange(i, i + 9)[0] == FILTER_TOKEN@[0]);
        }
    }
}

/// Every resolved sender name is trimmed, not empty and free of placeholders.
pub proof fn lemma_resolved_name_clean(
    template: Seq<char>,
    source_name: Option<Seq<char>>,
    filter_name: Option<Seq<char>>,
)
    ensures
        is_trimmed_nonempty(resolved_name_spec(template, source_name, filter_name)),
        !contains_spec(resolved_name_spec(template, source_name, filter_name), SOURCE_TOKEN@),
        !contains_spec(resolved_name_spec(template, source_name, filter_name), FILTER_TOKEN@),
{
    lemma_fallback_name_clean();
    let n = substitute_token(
        substitute_token(template, SOURCE_TOKEN@, source_name),
        FILTER_TOKEN@,
        filter_name,
    );
    crate::text::lemma_trim_idempotent(n);
}

/// A filter's sender name is never blank, so starting its sender always passes the
/// sender-name check.
pub proof fn lemma_filter_name_not_blank(
    template: Seq<char>,
    source_name: Option<Seq<char>>,
    filter_name: Option<Seq<char>>,
)
    ensures
        trim_spec(resolved_name_spec(template, source_name, filter_name)).len() > 0,
{
    lemma_resolved_name_clean(template, source_name, filter_name);
}

/// One render of the filter, given whether it was already used this frame, the mode and
/// (attached, enabled, showing, width, height): whether the frame's render is used up
/// afterwards, and whether this render captures. Nothing is captured while detached, in an
/// audio-only mode, or after the frame's first render; that first render is used up even
/// when the source is disabled, hidden or empty.
pub open spec fn render_outcome(
    rendered: bool,
    mode: MediaMode,
    input: (bool, bool, bool, u32, u32),
) -> (bool, bool) {
    let (attached, enabled, showing, width, height) = input;
    (
        rendered || (attached && carries_video(mode)),
        attached && carries_video(mode) && !rendered && enabled && showing && width != 0
            && height != 0,
    )
}

/// The number of captures in a run of renders starting from `rendered`.
pub open spec fn captures_in(
    rendered: bool,
    mode: MediaMode,
    inputs: Seq<(bool, bool, bool, u32, u32)>,
) -> nat
    decreases inputs.len(),
{
    if inputs.len() == 0 {
        0
    } else {
        let (next, capture) = render_outcome(rendered, mode, inputs[0]);
        (if capture {
            1nat
        } else {
            0nat
        }) + captures_in(next, mode, inputs.drop_first())
    }
}

/// Between two video ticks the filter captures at most one frame, and none in an
/// audio-only mode or once the frame's render was used.
pub proof fn lemma_one_capture_per_tick(
    rendered: bool,
    mode: MediaMode,
    inputs: Seq<(bool, bool, bool, u32, u32)>,
)
    ensures
        captures_in(rendered, mode, inputs) <= 1,
        (rendered || !carries_video(mode)) ==> captures_in(rendered, mode, inputs) == 0,
    decreases inputs.len(),
{
    if inputs.len() > 0 {
        let (next, capture) = render_outcome(rendered, mode, inputs[0]);
        lemma_one_capture_per_tick(next, mode, inputs.drop_first());
    }
}

impl OmtSendFilter {
    /// A filter with the default template, embedded media and no sender, for the given
    /// video rate, audio rate and speaker layout (rates of 0 count as 1).
    pub fn new(fps_num: u32, fps_den: u32, sample_rate: u32, speakers: u32) -> (f: Self)
        ensures
            f@.name_template == DEFAULT_FILTER_NAME@,
            f@.mode == MediaMode::Embedded,
            f@.session is None,
            !f@.rendered,
            f@.fps_num == at_least_one(fps_num),
            f@.fps_den == at_least_one(fps_den),
            f@.sample_rate == at_least_one(sample_rate),
            f@.channels == speaker_channels_spec(speakers),
    {
        OmtSendFilter {
            name_template: DEFAULT_FILTER_NAME.to_owned(),
            mode: MediaMode::Embedded,
            session: None,
            rendered: false,
            fps_num: if fps_num < 1 {
                1
            } else {
                fps_num
            },
            fps_den: if fps_den < 1 {
                1
            } else {
                fps_den
            },
            sample_rate: if sample_rate < 1 {
                1
            } else {
                sample_rate
            },
            channels: speaker_channels(speakers),
        }
    }

    pub fn mode(&self) -> (m: MediaMode)
        ensures
            m == self@.mode,
    {
        self.mode
    }

    /// Take the sender-name template and the media mode from the filter's settings: a
    /// non-blank name (trimmed) replaces the template, a stored mode replaces the mode.
    pub fn read_settings(&mut self, name: Option<&str>, mode: Option<i64>)
        ensures
            final(self)@.name_template == (match opt_str_view(name) {
                Some(n) => match trimmed_nonempty_spec(n) {
                    Some(t) => t,
                    None => old(self)@.name_template,
                },
                None => old(self)@.name_template,
            }),
            final(self)@.mode == (match mode {
                Some(v) => mode_of_code(v as int),
                None => old(self)@.mode,
            }),
            final(self)@.session == old(self)@.session,
            final(self)@.rendered == old(self)@.rendered,
            final(self)@.fps_num == old(self)@.fps_num,
            final(self)@.fps_den == old(self)@.fps_den,
            final(self)@.sample_rate == old(self)@.sample_rate,
            final(self)@.channels == old(self)@.channels,
    {
        match name {
            Some(n) => match trimmed_nonempty(n) {
                Some(t) => {
                    self.name_template = t;
                },
                None => {},
            },
            None => {},
        }
        match mode {
            Some(v) => {
                self.mode = MediaMode::from_i64(v);
            },
            None => {},
        }
    }

    /// The sender name for the current template, given the (trimmed, non-blank) names of
    /// the filtered source and of the filter, where they have one.
    pub fn resolved_name(&self, source_name: Option<&str>, filter_name: Option<&str>) -> (r:
        String)
        ensures
            r@ == resolved_name_spec(
                self@.name_template,
                opt_str_view(source_name),
                opt_str_view(filter_name),
            ),
            is_trimmed_nonempty(r@),
    {
        proof {
            lemma_resolved_name_clean(
                self@.name_template,
                opt_str_view(source_name),
                opt_str_view(filter_name),
            );
            reveal_strlit("${source}");
            reveal_strlit("${filter}");
        }
        let name = self.name_template.clone();
        let name = substitute(name, SOURCE_TOKEN, source_name);
        let name = substitute(name, FILTER_TOKEN, filter_name);
        let t = trim_str(name.as_str());
        if t.is_empty() || str_contains(t, SOURCE_TOKEN) || str_contains(t, FILTER_TOKEN) {
            FALLBACK_FILTER_NAME.to_owned()
        } else {
            t.to_owned()
        }
    }

    /// Decide what the filter's sender has to do: stop when the filter is detached, keep a
    /// sender that already runs under the resolved name and the mode's frame types, and
    /// otherwise start a new one (the running one, if any, counts as stopped).
    pub fn ensure_session(
        &mut self,
        attached: bool,
        source_name: Option<&str>,
        filter_name: Option<&str>,
    ) -> (plan: SessionPlan)
        ensures
            final(self)@.name_template == old(self)@.name_template,
            final(self)@.mode == old(self)@.mode,
            final(self)@.rendered == old(self)@.rendered,
            final(self)@.fps_num == old(self)@.fps_num,
            final(self)@.fps_den == old(self)@.fps_den,
            final(self)@.sample_rate == old(self)@.sample_rate,
            final(self)@.channels == old(self)@.channels,
            !attached ==> plan == SessionPlan::Stop && final(self)@.session is None,
            attached ==> {
                let name = resolved_name_spec(
                    old(self)@.name_template,
                    opt_str_view(source_name),
                    opt_str_view(filter_name),
                );
                let types = frame_type_bits(old(self)@.mode);
                if old(self)@.session == Some((name, types)) {
                    plan == SessionPlan::Keep && final(self)@.session == old(self)@.session
                } else {
                    &&& final(self)@.session is None
                    &&& plan matches SessionPlan::Start { name: n, frame_types: t }
                    &&& n@ == name
                    &&& t == types
                }
            },
    {
        if !attached {
            self.session = None;
            return SessionPlan::Stop;
        }
        let name = self.resolved_name(source_name, filter_name);
        let types = self.mode.frame_types();
        let matches = match &self.session {
            Some(k) => k.name == name && k.frame_types == types,
            None => false,
        };
        if matches {
            return SessionPlan::Keep;
        }
        self.session = None;
        SessionPlan::Start { name, frame_types: types }
    }

    /// Record that a sender now runs under `name` with `frame_types`.
    pub fn session_started(&mut self, name: String, frame_types: u8)
        ensures
            final(self)@.session == Some((name@, frame_types)),
            final(self)@.name_template == old(self)@.name_template,
            final(self)@.mode == old(self)@.mode,
            final(self)@.rendered == old(self)@.rendered,
            final(self)@.fps_num == old(self)@.fps_num,
            final(self)@.fps_den == old(self)@.fps_den,
            final(self)@.sample_rate == old(self)@.sample_rate,
            final(self)@.channels == old(self)@.channels,
    {
        self.session = Some(SenderKey { name, frame_types });
    }

    /// Record that the filter was removed from its source: the sender stops.
    pub fn filter_removed(&mut self)
        ensures
            final(self)@.session is None,
            final(self)@.name_template == old(self)@.name_template,
            final(self)@.mode == old(self)@.mode,
            final(self)@.rendered == old(self)@.rendered,
            final(self)@.fps_num == old(self)@.fps_num,
            final(self)@.fps_den == old(self)@.fps_den,
            final(self)@.sample_rate == old(self)@.sample_rate,
            final(self)@.channels == old(self)@.channels,
    {
        self.session = None;
    }

    /// A new video frame begins: the next render may capture again.
    pub fn video_tick(&mut self)
        ensures
            !final(self)@.rendered,
            final(self)@.session == old(self)@.session,
            final(self)@.name_template == old(self)@.name_template,
            final(self)@.mode == old(self)@.mode,
            final(self)@.fps_num == old(self)@.fps_num,
            final(self)@.fps_den == old(self)@.fps_den,
            final(self)@.sample_rate == old(self)@.sample_rate,
            final(self)@.channels == old(self)@.channels,
    {
        self.rendered = false;
    }

    /// Decide whether this render captures a frame. Nothing is captured while the filter
    /// is detached, in an audio-only mode, or after the frame's first render; the first
    /// render of a frame is used up even when the source is disabled, hidden or empty.
    pub fn render_step(
        &mut self,
        attached: bool,
        enabled: bool,
        showing: bool,
        width: u32,
        height: u32,
    ) -> (capture: bool)
        ensures
            (final(self)@.rendered, capture) == render_outcome(
                old(self)@.rendered,
                old(self)@.mode,
                (attached, enabled, showing, width, height),
            ),
            final(self)@.session == old(self)@.session,
            final(self)@.name_template == old(self)@.name_template,
            final(self)@.mode == old(self)@.mode,
            final(self)@.fps_num == old(self)@.fps_num,
            final(self)@.fps_den == old(self)@.fps_den,
            final(self)@.sample_rate == old(self)@.sample_rate,
            final(self)@.channels == old(self)@.channels,
    {
        if !attached {
            return false;
        }
        if !self.mode.video() || self.rendered {
            return false;
        }
        self.rendered = true;
        if !(enabled && showing) {
            return false;
        }
        if width == 0 || height == 0 {
            return false;
        }
        true
    }

    /// The opaque BGRA frame to send for captured `pixels` (the filter's surface is
    /// already composited, so no alpha flag is set); none without a running sender.
    pub fn video_frame(&self, timestamp_ns: u64, width: u32, height: u32, pixels: Vec<u8>) -> (v:
        Option<VideoFrame>)
        requires
            width as int * 4 <= u32::MAX,
        ensures
            self@.session is None ==> v is None,
            self@.session is Some ==> v == Some(
                bgra_frame_spec(
                    (timestamp_ns / 100) as i64,
                    width,
                    height,
                    0,
                    self@.fps_num,
                    self@.fps_den,
                    pixels,
                ),
            ),
    {
        if self.session.is_none() {
            return None;
        }
        Some(
            bgra_video_frame(
                obs_ns_to_omt_ticks(timestamp_ns),
                width,
                height,
                0,
                self.fps_num,
                self.fps_den,
                pixels,
            ),
        )
    }

    /// Pack one packet of filtered audio for the sender. Nothing is sent in a video-only
    /// mode, without a running sender, for an empty packet, or when no plane could be
    /// copied. Plane `c` (its bytes, `None` where absent) is copied at offset
    /// `c * frames * 4` of a zeroed buffer of `channels * frames * 4` bytes where it is
    /// not empty and fits; the frame carries the channels up to the last one copied.
    /// Where no plane is longer than one channel, segment `c` of the buffer holds plane `c`
    /// (zero-padded), or zeros where plane `c` was not copied.
    pub fn filter_audio(&self, timestamp_ns: u64, frames: usize, planes: &Vec<Option<&[u8]>>) -> (r:
        Option<AudioFrame>)
        requires
            planes@.len() >= clamp_channels(self@.channels),
            clamp_channels(self@.channels) * frames * 4 <= usize::MAX,
        ensures
            ({
                let ch = clamp_channels(self@.channels);
                let total = ch * frames * 4;
                let used = used_channels(planes@, ch, frames as int, total);
                if !carries_audio(self@.mode) || self@.session is None || frames == 0 || used
                    == 0 {
                    r is None
                } else {
                    r matches Some(a) && a.timestamp == timestamp_ns / 100 && a.sample_rate
                        == self@.sample_rate as i32 && a.channels == used as i32
                        && a.samples_per_channel == frames as i32 && a.data@ == packed_audio(
                        planes@,
                        ch,
                        frames as int,
                        total,
                    )
                }
            }),
            ({
                let ch = clamp_channels(self@.channels);
                let total = ch * frames * 4;
                r matches Some(a) ==> (planes_fit(planes@, ch, frames as int) ==> forall|
                    c: int,
                    j: int,
                |
                    0 <= c < ch && 0 <= j < frames * 4 ==> #[trigger] a.data@[c * (frames * 4) + j]
                        == channel_byte(planes@, c, j, frames as int, total))
            }),
    {
        if !self.mode.audio() {
            return None;
        }
        if self.session.is_none() {
            return None;
        }
        if frames == 0 {
            return None;
        }
        let ch: usize = if self.channels < 1 {
            1
        } else if self.channels > 8 {
            8
        } else {
            self.channels as usize
        };
        let ghost fr = frames as int;
        let ghost total_spec = ch * fr * 4;
        proof {
            assert(0 <= ch * fr * 4) by (nonlinear_arith)
                requires
                    ch >= 1,
                    fr >= 0,
            ;
        }
        let total = ch * frames * 4;
        let mut data: Vec<u8> = Vec::new();
        push_zeros(&mut data, total);
        let mut used: usize = 0;
        let mut c: usize = 0;
        while c < ch
            invariant
                c <= ch,
                ch == clamp_channels(self@.channels),
                planes@.len() >= ch,
                total == ch * frames * 4,
                total == total_spec,
                fr == frames,
                data@.len() == total,
                data@ == packed_audio(planes@, c as int, fr, total_spec),
                used == used_channels(planes@, c as int, fr, total_spec),
                used <= c,
            decreases ch - c,
        {
            proof {
                assert(0 <= c * fr * 4 <= total_spec) by (nonlinear_arith)
                    requires
                        c < ch,
                        fr >= 0,
                        total_spec == ch * fr * 4,
                ;
            }
            let dst = c * frames * 4;
            match planes[c] {
                Some(slice) => {
                    if slice.len() > 0 && slice.len() <= total - dst {
                        overwrite(&mut data, dst, slice);
                        used = c + 1;
                    }
                },
                None => {},
            }
            c = c + 1;
        }
        if used == 0 {
            return None;
        }
        proof {
            assert(ch * (fr * 4) == ch * fr * 4) by (nonlinear_arith);
            if planes_fit(planes@, ch as int, fr) {
                lemma_packed_audio_channels(planes@, ch as int, fr, total_spec);
            }
        }
        Some(
            AudioFrame {
                timestamp: obs_ns_to_omt_ticks(timestamp_ns),
                sample_rate: self.sample_rate as i32,
                channels: used as i32,
                samples_per_channel: frames as i32,
                data,
            },
        )
    }
}

} // verus!
