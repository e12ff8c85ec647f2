//! OMT receive source: its settings, when it reconnects, what it asks of the sender
//! (preview stream, tally), and how received audio is laid out for OBS.

use vstd::prelude::*;

use crate::bandwidth::{policy_code, settings_policy, wants_preview, BandwidthPolicy};
use crate::clock::{omt_ticks_to_obs_ns, ticks_to_ns_spec};
use crate::format::{color_space_value, ColorSpace};
use crate::text::{trim_spec, trim_str};

verus! {

/// Video quality suggested to the sender.
#[derive(Debug, Clone, Copy, PartialEq, Eq, Structural)]
pub enum Quality {
    Default,
    Low,
    Medium,
    High,
}

pub open spec fn quality_of_code(v: int) -> Quality {
    if v == 1 {
        Quality::Low
    } else if v == 50 {
        Quality::Medium
    } else if v == 100 {
        Quality::High
    } else {
        Quality::Default
    }
}

pub open spec fn quality_value(q: Quality) -> i32 {
    match q {
        Quality::Default => 0,
        Quality::Low => 1,
        Quality::Medium => 50,
        Quality::High => 100,
    }
}

pub open spec fn color_space_of_code(v: int) -> ColorSpace {
    if v == 601 {
        ColorSpace::Bt601
    } else if v == 709 {
        ColorSpace::Bt709
    } else {
        ColorSpace::Undefined
    }
}

impl Quality {
    /// The quality's OMT wire value.
    pub fn value(self) -> (v: i32)
        ensures
            v == quality_value(self),
    {
        match self {
            Quality::Default => 0,
            Quality::Low => 1,
            Quality::Medium => 50,
            Quality::High => 100,
        }
    }
}

/// The stored quality setting: 1 low, 50 medium, 100 high, anything else default.
pub fn quality_from_i64(v: i64) -> (q: Quality)
    ensures
        q == quality_of_code(v as int),
{
    match v {
        1 => Quality::Low,
        50 => Quality::Medium,
        100 => Quality::High,
        _ => Quality::Default,
    }
}

/// The stored color-space setting: 601 and 709 name BT.601 and BT.709, anything else is
/// undefined.
pub fn color_space_from_i64(v: i64) -> (c: ColorSpace)
    ensures
        c == color_space_of_code(v as int),
{
    match v {
        601 => ColorSpace::Bt601,
        709 => ColorSpace::Bt709,
        _ => ColorSpace::Undefined,
    }
}

/// A stored quality code is the wire value of the quality it selects: reading any of the
/// codes 0, 1, 50, 100 and sending the quality gives the code back, every quality reads
/// back from its wire value, and distinct qualities have distinct wire values.
pub proof fn lemma_quality_codes(v: int, q: Quality, r: Quality)
    ensures
        (v == 0 || v == 1 || v == 50 || v == 100) ==> quality_value(quality_of_code(v)) == v,
        quality_of_code(quality_value(q) as int) == q,
        quality_value(q) == quality_value(r) ==> q == r,
{
}

/// The same for color spaces: the codes 0, 601 and 709 are the wire values of the color
/// spaces they select, and every color space reads back from its wire value.
pub proof fn lemma_color_space_codes(v: int, c: ColorSpace, d: ColorSpace)
    ensures
        (v == 0 || v == 601 || v == 709) ==> color_space_value(color_space_of_code(v)) == v,
        color_space_of_code(color_space_value(c) as int) == c,
        color_space_value(c) == color_space_value(d) ==> c == d,
{
}

/// The settings of a receive source.
#[derive(Debug, Clone, PartialEq, Eq)]
pub struct ReceiveSettings {
    pub address: String,
    pub quality: Quality,
    pub policy: BandwidthPolicy,
    pub color_space: ColorSpace,
}

impl ReceiveSettings {
    /// Read the settings from their stored entries: the address trimmed (blank where
    /// absent), quality and color space from their codes (0 where absent), the policy from
    /// its code or the legacy preview flag (off where absent).
    pub fn from_data(
        address: Option<&str>,
        quality: Option<i64>,
        policy: Option<i64>,
        legacy_preview: Option<bool>,
        color_space: Option<i64>,
    ) -> (s: Self)
        ensures
            s.address@ == (match address {
                Some(a) => trim_spec(a@),
                None => Seq::empty(),
            }),
            s.quality == quality_of_code(
                match quality {
                    Some(v) => v as int,
                    None => 0,
                },
            ),
            s.policy == settings_policy(
                match policy {
                    Some(v) => Some(v as int),
                    None => None,
                },
                legacy_preview == Some(true),
            ),
            s.color_space == color_space_of_code(
                match color_space {
                    Some(v) => v as int,
                    None => 0,
                },
            ),
    {
        let address = match address {
            Some(a) => trim_str(a).to_owned(),
            None => String::new(),
        };
        let quality = quality_from_i64(
            match quality {
                Some(v) => v,
                None => 0,
            },
        );
        let legacy = match legacy_preview {
            Some(b) => b,
            None => false,
        };
        let policy = BandwidthPolicy::from_settings(policy, legacy);
        let color_space = color_space_from_i64(
            match color_space {
                Some(v) => v,
                None => 0,
            },
        );
        ReceiveSettings { address, quality, policy, color_space }
    }
}

/// A connection the receive worker is to open.
#[derive(Debug, Clone, PartialEq, Eq)]
pub struct ConnectPlan {
    pub address: String,
    pub quality: Quality,
    pub preview: bool,
}

/// The decision state of one receive source.
pub struct OmtReceiveSource {
    address: String,
    quality: Quality,
    policy: BandwidthPolicy,
    color_space: ColorSpace,
    desired_preview: bool,
    tally_preview: bool,
    tally_program: bool,
}

pub struct ReceiveView {
    pub address: Seq<char>,
    pub quality: Quality,
    pub policy: BandwidthPolicy,
    pub color_space: ColorSpace,
    pub desired_preview: bool,
    pub tally_preview: bool,
    pub tally_program: bool,
}

impl View for OmtReceiveSource {
    type V = ReceiveView;

    closed spec fn view(&self) -> ReceiveView {
        ReceiveView {
            address: self.address@,
            quality: self.quality,
            policy: self.policy,
            color_space: self.color_space,
            desired_preview: self.desired_preview,
            tally_preview: self.tally_preview,
            tally_program: self.tally_program,
        }
    }
}

/// What the sender is told given OBS visibility: the preview stream as the policy says,
/// the preview tally when shown but not on Program, the program tally when on Program.
pub open spec fn visibility_ok(v: ReceiveView, active: bool, showing: bool) -> bool {
    &&& v.desired_preview == wants_preview(v.policy, active, showing)
    &&& v.tally_preview == (showing && !active)
    &&& v.tally_program == active
}

impl OmtReceiveSource {
    /// A source with no address, default quality, the `Never` policy, undefined color
    /// space and every flag off.
    pub fn create() -> (s: Self)
        ensures
            s@ == (ReceiveView {
                address: Seq::empty(),
                quality: Quality::Default,
                policy: BandwidthPolicy::Never,
                color_space: ColorSpace::Undefined,
                desired_preview: false,
                tally_preview: false,
                tally_program: false,
            }),
    {
        OmtReceiveSource {
            address: String::new(),
            quality: Quality::Default,
            policy: BandwidthPolicy::Never,
            color_space: ColorSpace::Undefined,
            desired_preview: false,
            tally_preview: false,
            tally_program: false,
        }
    }

    /// Recompute the preview request and the tally from OBS visibility.
    pub fn refresh_visibility(&mut self, active: bool, showing: bool)
        ensures
            visibility_ok(final(self)@, active, showing),
            final(self)@.address == old(self)@.address,
            final(self)@.quality == old(self)@.quality,
            final(self)@.policy == old(self)@.policy,
            final(self)@.color_space == old(self)@.color_space,
    {
        self.desired_preview = self.policy.use_preview(active, showing);
        self.tally_preview = showing && !active;
        self.tally_program = active;
    }

    /// Take new settings; returns whether the receiver has to reconnect (the address, the
    /// quality or the color space changed). The policy is taken without reconnecting.
    pub fn apply_settings(&mut self, s: ReceiveSettings, active: bool, showing: bool) -> (reconnect:
        bool)
        ensures
            reconnect == (s.address@ != old(self)@.address || s.quality != old(self)@.quality
                || s.color_space != old(self)@.color_space),
            final(self)@.address == s.address@,
            final(self)@.quality == s.quality,
            final(self)@.policy == s.policy,
            final(self)@.color_space == s.color_space,
            visibility_ok(final(self)@, active, showing),
    {
        let reconnect = !(s.address == self.address) || s.quality != self.quality || s.color_space
            != self.color_space;
        self.address = s.address;
        self.quality = s.quality;
        self.policy = s.policy;
        self.color_space = s.color_space;
        self.refresh_visibility(active, showing);
        reconnect
    }

    /// The stored form of the policy: its code, and the legacy preview flag (set exactly
    /// for `Always`).
    pub fn persist_policy(&self) -> (r: (i64, bool))
        ensures
            r.0 as int == policy_code(self@.policy),
            r.1 == (self@.policy == BandwidthPolicy::Always),
    {
        (self.policy.as_i64(), self.policy == BandwidthPolicy::Always)
    }

    /// The connection a (re)started worker opens: none without an address; otherwise the
    /// address, the quality and the current preview request.
    pub fn restart(&self) -> (plan: Option<ConnectPlan>)
        ensures
            self@.address.len() == 0 ==> plan is None,
            self@.address.len() > 0 ==> (plan matches Some(p) && p.address@ == self@.address
                && p.quality == self@.quality && p.preview == self@.desired_preview),
    {
        if self.address.as_str().is_empty() {
            return None;
        }
        Some(
            ConnectPlan {
                address: self.address.clone(),
                quality: self.quality,
                preview: self.desired_preview,
            },
        )
    }

    pub fn desired_preview(&self) -> (b: bool)
        ensures
            b == self@.desired_preview,
    {
        self.desired_preview
    }

    pub fn tally_preview(&self) -> (b: bool)
        ensures
            b == self@.tally_preview,
    {
        self.tally_preview
    }

    pub fn tally_program(&self) -> (b: bool)
        ensures
            b == self@.tally_program,
    {
        self.tally_program
    }

    pub fn color_space(&self) -> (c: ColorSpace)
        ensures
            c == self@.color_space,
    {
        self.color_space
    }
}

/// The state of a receive worker: the preview stream it has, and the tally it last sent.
pub struct ReceiveLoop {
    preview: bool,
    last_tally_preview: bool,
    last_tally_program: bool,
}

pub struct ReceiveLoopView {
    pub preview: bool,
    pub last_tally_preview: bool,
    pub last_tally_program: bool,
}

impl View for ReceiveLoop {
    type V = ReceiveLoopView;

    closed spec fn view(&self) -> ReceiveLoopView {
        ReceiveLoopView {
            preview: self.preview,
            last_tally_preview: self.last_tally_preview,
            last_tally_program: self.last_tally_program,
        }
    }
}

pub open spec fn tally_value(b: bool) -> i32 {
    if b {
        1
    } else {
        0
    }
}

fn tally_int(b: bool) -> (v: i32)
    ensures
        v == tally_value(b),
{
    if b {
        1
    } else {
        0
    }
}

impl ReceiveLoop {
    /// A worker connected with `preview`; returns it and the tally it sends first.
    pub fn new(preview: bool, tally_preview: bool, tally_program: bool) -> (r: (Self, (i32, i32)))
        ensures
            r.0@ == (ReceiveLoopView {
                preview,
                last_tally_preview: tally_preview,
                last_tally_program: tally_program,
            }),
            r.1 == (tally_value(tally_preview), tally_value(tally_program)),
    {
        (
            ReceiveLoop {
                preview,
                last_tally_preview: tally_preview,
                last_tally_program: tally_program,
            },
            (tally_int(tally_preview), tally_int(tally_program)),
        )
    }

    /// The preview stream to request: `want`, where it differs from the stream the worker
    /// has.
    pub fn preview_request(&self, want: bool) -> (r: Option<bool>)
        ensures
            r == (if want != self@.preview {
                Some(want)
            } else {
                None
            }),
    {
        if want != self.preview {
            Some(want)
        } else {
            None
        }
    }

    /// The sender switched to the requested stream.
    pub fn preview_applied(&mut self, preview: bool)
        ensures
            final(self)@ == (ReceiveLoopView { preview, ..old(self)@ }),
    {
        self.preview = preview;
    }

    /// The tally to send: the current one, where it differs from the one last sent (which
    /// it then becomes).
    pub fn tally_update(&mut self, tally_preview: bool, tally_program: bool) -> (r: Option<
        (i32, i32),
    >)
        ensures
            final(self)@.preview == old(self)@.preview,
            final(self)@.last_tally_preview == tally_preview,
            final(self)@.last_tally_program == tally_program,
            r == (if tally_preview != old(self)@.last_tally_preview || tally_program != old(self)@.last_tally_program {
                Some((tally_value(tally_preview), tally_value(tally_program)))
            } else {
                None
            }),
    {
        if tally_preview != self.last_tally_preview || tally_program != self.last_tally_program {
            self.last_tally_preview = tally_preview;
            self.last_tally_program = tally_program;
            Some((tally_int(tally_preview), tally_int(tally_program)))
        } else {
            None
        }
    }
}

/// How a received audio frame is handed to OBS: the sample count, stereo or mono, the
/// sample rate, the timestamp and, per plane, the offset of its samples in the frame's
/// buffer (`None` where the buffer ends before it).
#[derive(Debug, Clone, PartialEq, Eq)]
pub struct AudioOutputLayout {
    pub frames: u32,
    pub stereo: bool,
    pub samples_per_sec: u32,
    pub timestamp_ns: u64,
    pub plane_offsets: Vec<Option<usize>>,
}

pub open spec fn max_i32(v: i32, lo: i32) -> int {
    if v < lo {
        lo as int
    } else {
        v as int
    }
}

/// The number of planes handed to OBS: the channel count (at least one), at most eight.
pub open spec fn planes_used(channels: i32) -> int {
    let ch = max_i32(channels, 1);
    if ch > 8 {
        8
    } else {
        ch
    }
}

/// Lay out a received planar audio frame for OBS.
pub fn audio_output_layout(
    channels: i32,
    samples_per_channel: i32,
    sample_rate: i32,
    timestamp: i64,
    pcm_len: usize,
) -> (l: AudioOutputLayout)
    requires
        7 * max_i32(samples_per_channel, 0) * 4 <= usize::MAX,
    ensures
        l.frames == samples_per_channel as u32,
        l.stereo == (max_i32(channels, 1) >= 2),
        l.samples_per_sec == max_i32(sample_rate, 1) as u32,
        l.timestamp_ns as int == ticks_to_ns_spec(timestamp as int),
        l.plane_offsets@.len() == planes_used(channels),
        forall|c: int|
            0 <= c < planes_used(channels) ==> #[trigger] l.plane_offsets@[c] == (if c
                * max_i32(samples_per_channel, 0) * 4 < pcm_len {
                Some((c * max_i32(samples_per_channel, 0) * 4) as usize)
            } else {
                None
            }),
{
    let ch: i32 = if channels < 1 {
        1
    } else {
        channels
    };
    let samples: usize = if samples_per_channel < 0 {
        0
    } else {
        samples_per_channel as usize
    };
    let n: usize = if ch > 8 {
        8
    } else {
        ch as usize
    };
    let mut offsets: Vec<Option<usize>> = Vec::new();
    let mut c: usize = 0;
    while c < n
        invariant
            c <= n,
            n == planes_used(channels),
            samples == max_i32(samples_per_channel, 0),
            7 * samples * 4 <= usize::MAX,
            offsets@.len() == c,
            forall|k: int|
                0 <= k < c ==> #[trigger] offsets@[k] == (if k * samples * 4 < pcm_len {
                    Some((k * samples * 4) as usize)
                } else {
                    None
                }),
        decreases n - c,
    {
        proof {
            assert(c * samples * 4 <= 7 * samples * 4) by (nonlinear_arith)
                requires
                    c <= 7,
            ;
            assert(0 <= c * samples * 4) by (nonlinear_arith);
        }
        let off = c * samples * 4;
        if off < pcm_len {
            offsets.push(Some(off));
        } else {
            offsets.push(None);
        }
        c = c + 1;
    }
    AudioOutputLayout {
        frames: samples_per_channel as u32,
        stereo: ch >= 2,
        samples_per_sec: (if sample_rate < 1 {
            1
        } else {
            sample_rate
        }) as u32,
        timestamp_ns: omt_ticks_to_obs_ns(timestamp),
        plane_offsets: offsets,
    }
}

/// How long the list of discovered sources is reused before it is refreshed.
pub const DISCOVERY_REFRESH_MS: u64 = 500;

/// Whether the list of discovered sources is due for a refresh, `elapsed_ms` after the last
/// one: once more than half a second has passed.
pub fn discovery_refresh_due(elapsed_ms: u64) -> (due: bool)
    ensures
        due == (elapsed_ms > 500),
{
    elapsed_ms > DISCOVERY_REFRESH_MS
}

} // verus!
