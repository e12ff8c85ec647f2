//! Program OMT output: start checks, per-frame gating, the settings controller that
//! applies the configuration to the outputs, and frontend event routing.

use vstd::prelude::*;

use crate::config::{OutputConfig, OutputConfigView};
use crate::format::{
    audio_copy_result, audio_planes_hold, codec_for, copy_audio_data, copy_video_data, obs_format_to_omt_codec,
    video_copy_result, video_planes_hold, AudioData, AudioFrame, ColorSpace, SdrMappingError, VideoData,
    VideoFormat, VideoFrame,
};
use crate::filter::at_least_one;
use crate::ids::DEFAULT_OUTPUT_NAME;
use crate::media_mode::{carries_audio, carries_video, frame_type_bits, MediaMode};
use crate::text::{trim_spec, trim_str};

verus! {

/// Why the program output refuses to start.
#[derive(Debug, Clone, Copy, PartialEq, Eq, Structural)]
pub enum StartRefusal {
    /// The output carries video but OBS reports no known video format.
    UnknownFormat,
    /// The output carries video in a format that cannot be sent.
    Format(SdrMappingError),
}

/// The sender a starting program output opens.
#[derive(Debug, Clone, PartialEq, Eq)]
pub struct StartPlan {
    pub name: String,
    pub frame_types: u8,
}

/// The sender name of the program output: the configured name, or the default one where
/// the configured name is blank.
pub open spec fn program_sender_name(name: Seq<char>) -> Seq<char> {
    if trim_spec(name).len() == 0 {
        DEFAULT_OUTPUT_NAME@
    } else {
        name
    }
}

/// Whether `format` is one of the HDR formats (P010, P216).
pub open spec fn is_hdr(format: Option<VideoFormat>) -> bool {
    format == Some(VideoFormat::P010) || format == Some(VideoFormat::P216)
}

/// The outcome of starting the program output under configuration `c` with OBS video
/// format `format`: an HDR canvas is refused whatever the media mode; an output that
/// carries video also needs a known format with an OMT codec.
pub open spec fn start_outcome(c: OutputConfigView, format: Option<VideoFormat>) -> Result<
    (Seq<char>, u8),
    StartRefusal,
> {
    if is_hdr(format) {
        Err(StartRefusal::Format(SdrMappingError::UnsupportedHdr))
    } else if carries_video(c.program_mode) && format is None {
        Err(StartRefusal::UnknownFormat)
    } else if carries_video(c.program_mode) && codec_for(format->Some_0) is Err {
        Err(StartRefusal::Format(codec_for(format->Some_0)->Err_0))
    } else {
        Ok((program_sender_name(c.name), frame_type_bits(c.program_mode)))
    }
}

/// Decide whether the program output can start, and with which sender.
pub fn plan_start(cfg: &OutputConfig, format: Option<VideoFormat>) -> (r: Result<
    StartPlan,
    StartRefusal,
>)
    ensures
        match start_outcome(cfg@, format) {
            Ok((name, types)) => r matches Ok(p) && p.name@ == name && p.frame_types == types,
            Err(e) => r == Err::<StartPlan, StartRefusal>(e),
        },
{
    match format {
        Some(VideoFormat::P010) | Some(VideoFormat::P216) => {
            return Err(StartRefusal::Format(SdrMappingError::UnsupportedHdr));
        },
        _ => {},
    }
    if cfg.program_mode.video() {
        match format {
            None => {
                return Err(StartRefusal::UnknownFormat);
            },
            Some(f) => match obs_format_to_omt_codec(f) {
                Err(e) => {
                    return Err(StartRefusal::Format(e));
                },
                Ok(_) => {},
            },
        }
    }
    let name = if trim_str(cfg.name.as_str()).is_empty() {
        DEFAULT_OUTPUT_NAME.to_owned()
    } else {
        cfg.name.clone()
    };
    Ok(StartPlan { name, frame_types: cfg.program_mode.frame_types() })
}

/// The stream parameters of a program output.
pub struct OmtOutput {
    active: bool,
    width: u32,
    height: u32,
    fps_num: u32,
    fps_den: u32,
    format: Option<VideoFormat>,
    sample_rate: u32,
    channels: u32,
}

pub struct OmtOutputView {
    pub active: bool,
    pub width: u32,
    pub height: u32,
    pub fps_num: u32,
    pub fps_den: u32,
    pub format: Option<VideoFormat>,
    pub sample_rate: u32,
    pub channels: u32,
}

impl View for OmtOutput {
    type V = OmtOutputView;

    closed spec fn view(&self) -> OmtOutputView {
        OmtOutputView {
            active: self.active,
            width: self.width,
            height: self.height,
            fps_num: self.fps_num,
            fps_den: self.fps_den,
            format: self.format,
            sample_rate: self.sample_rate,
            channels: self.channels,
        }
    }
}

impl OmtOutput {
    /// A stopped output with 60/1 fps video and 48 kHz stereo audio.
    pub fn create() -> (o: Self)
        ensures
            !o@.active,
            o@.width == 0,
            o@.height == 0,
            o@.fps_num == 60,
            o@.fps_den == 1,
            o@.format is None,
            o@.sample_rate == 48000,
            o@.channels == 2,
    {
        OmtOutput {
            active: false,
            width: 0,
            height: 0,
            fps_num: 60,
            fps_den: 1,
            format: None,
            sample_rate: 48000,
            channels: 2,
        }
    }

    /// Record the parameters of a started sender: the canvas size, its exact frame rate
    /// `fps_num / fps_den` (a zero part counts as 1), its format, and the audio rate and
    /// channel count.
    pub fn started(
        &mut self,
        width: u32,
        height: u32,
        fps_num: u32,
        fps_den: u32,
        format: Option<VideoFormat>,
        sample_rate: u32,
        channels: u32,
    )
        ensures
            final(self)@ == (OmtOutputView {
                active: true,
                width,
                height,
                fps_num: at_least_one(fps_num),
                fps_den: at_least_one(fps_den),
                format,
                sample_rate,
                channels,
            }),
    {
        self.active = true;
        self.width = width;
        self.height = height;
        self.fps_num = if fps_num < 1 {
            1
        } else {
            fps_num
        };
        self.fps_den = if fps_den < 1 {
            1
        } else {
            fps_den
        };
        self.format = format;
        self.sample_rate = sample_rate;
        self.channels = channels;
    }

    /// The output stopped, or its capture could not begin: no sender.
    pub fn stop(&mut self)
        ensures
            final(self)@ == (OmtOutputView { active: false, ..old(self)@ }),
    {
        self.active = false;
    }

    pub fn format(&self) -> (f: Option<VideoFormat>)
        ensures
            f == self@.format,
    {
        self.format
    }

    pub fn width(&self) -> (w: u32)
        ensures
            w == self@.width,
    {
        self.width
    }

    pub fn height(&self) -> (h: u32)
        ensures
            h == self@.height,
    {
        self.height
    }

    pub fn channels(&self) -> (c: u32)
        ensures
            c == self@.channels,
    {
        self.channels
    }

    pub fn is_active(&self) -> (r: bool)
        ensures
            r == self@.active,
    {
        self.active
    }

    /// The video frame to send for one raw OBS frame: none unless the output carries
    /// video, runs, and knows its format; otherwise the copy of the frame.
    pub fn raw_video(&self, mode: MediaMode, frame: &VideoData) -> (r: Option<
        Result<VideoFrame, SdrMappingError>,
    >)
        requires
            self@.format matches Some(f) ==> video_planes_hold(*frame, self@.height as int, f),
        ensures
            !(carries_video(mode) && self@.active && self@.format is Some) ==> r is None,
            carries_video(mode) && self@.active && self@.format is Some ==> (r matches Some(c)
                && video_copy_result(
                *frame,
                self@.width,
                self@.height,
                self@.format->Some_0,
                self@.fps_num,
                self@.fps_den,
                ColorSpace::Undefined,
                c,
            )),
    {
        if !mode.video() || !self.active {
            return None;
        }
        match self.format {
            None => None,
            Some(f) => Some(
                copy_video_data(
                    frame,
                    self.width,
                    self.height,
                    f,
                    self.fps_num,
                    self.fps_den,
                    ColorSpace::Undefined,
                ),
            ),
        }
    }

    /// The audio frame to send for one raw OBS packet: none unless the output carries
    /// audio and runs; otherwise the copy of the packet with the output's channel count and
    /// sample rate.
    pub fn raw_audio(&self, mode: MediaMode, frame: &AudioData) -> (r: Option<
        Result<AudioFrame, SdrMappingError>,
    >)
        requires
            audio_planes_hold(*frame, self@.channels),
        ensures
            !(carries_audio(mode) && self@.active) ==> r is None,
            carries_audio(mode) && self@.active ==> (r matches Some(c) && audio_copy_result(
                *frame,
                self@.channels,
                self@.sample_rate,
                c,
            )),
    {
        if !mode.audio() || !self.active {
            return None;
        }
        Some(copy_audio_data(frame, self.channels, self.sample_rate))
    }
}

/// OBS frontend events the plugin reacts to; every other event is `Other`.
#[derive(Debug, Clone, Copy, PartialEq, Eq, Structural)]
pub enum FrontendEvent {
    FinishedLoading,
    ProfileChanged,
    ProfileChanging,
    Exit,
    SceneCollectionCleanup,
    StudioModeEnabled,
    StudioModeDisabled,
    PreviewSceneChanged,
    SceneChanged,
    Other,
}

/// What a frontend event asks of the outputs.
#[derive(Debug, Clone, Copy, PartialEq, Eq, Structural)]
pub enum FrontendAction {
    /// Apply the configuration to the outputs.
    ApplyOutputs,
    /// Stop and forget the outputs.
    DestroyOutputs,
    /// Hand the event to the preview sender.
    Preview,
    Ignore,
}

pub open spec fn frontend_action(e: FrontendEvent) -> FrontendAction {
    match e {
        FrontendEvent::FinishedLoading | FrontendEvent::ProfileChanged => FrontendAction::ApplyOutputs,
        FrontendEvent::ProfileChanging | FrontendEvent::Exit
        | FrontendEvent::SceneCollectionCleanup => FrontendAction::DestroyOutputs,
        FrontendEvent::StudioModeEnabled | FrontendEvent::StudioModeDisabled
        | FrontendEvent::PreviewSceneChanged | FrontendEvent::SceneChanged => FrontendAction::Preview,
        FrontendEvent::Other => FrontendAction::Ignore,
    }
}

/// Route a frontend event: loading and profile switches apply the outputs, leaving a
/// profile, exiting and scene-collection cleanup destroy them, studio-mode and scene
/// changes go to the preview sender.
pub fn on_frontend_event(event: FrontendEvent) -> (a: FrontendAction)
    ensures
        a == frontend_action(event),
{
    match event {
        FrontendEvent::FinishedLoading | FrontendEvent::ProfileChanged => FrontendAction::ApplyOutputs,
        FrontendEvent::ProfileChanging | FrontendEvent::Exit
        | FrontendEvent::SceneCollectionCleanup => FrontendAction::DestroyOutputs,
        FrontendEvent::StudioModeEnabled | FrontendEvent::StudioModeDisabled
        | FrontendEvent::PreviewSceneChanged | FrontendEvent::SceneChanged => FrontendAction::Preview,
        FrontendEvent::Other => FrontendAction::Ignore,
    }
}

/// What applying the configuration does, after every output was stopped.
#[derive(Debug, Clone, PartialEq, Eq)]
pub struct ApplyPlan {
    /// Create and start the program output.
    pub start_program: bool,
    /// Run the preview sender, under `preview_name`.
    pub preview_enabled: bool,
    pub preview_name: String,
}

/// The output settings: the configuration file's path, the current configuration and
/// the configuration last applied to the outputs.
pub struct OutputController {
    config_path: Option<String>,
    config: OutputConfig,
    applied: Option<OutputConfig>,
}

pub struct OutputControllerView {
    pub config_path: Option<Seq<char>>,
    pub config: OutputConfigView,
    pub applied: Option<OutputConfigView>,
}

impl View for OutputController {
    type V = OutputControllerView;

    closed spec fn view(&self) -> OutputControllerView {
        OutputControllerView {
            config_path: match self.config_path {
                Some(p) => Some(p@),
                None => None,
            },
            config: self.config@,
            applied: match self.applied {
                Some(c) => Some(c@),
                None => None,
            },
        }
    }
}

/// The configuration in effect before the configuration file is read: both senders off,
/// embedded media, blank names.
pub open spec fn initial_config() -> OutputConfigView {
    OutputConfigView {
        enabled: false,
        name: Seq::empty(),
        program_mode: MediaMode::Embedded,
        preview_enabled: false,
        preview_name: Seq::empty(),
    }
}

impl OutputController {
    pub fn new() -> (c: Self)
        ensures
            c@.config_path is None,
            c@.config == initial_config(),
            c@.applied is None,
    {
        OutputController {
            config_path: None,
            config: OutputConfig {
                enabled: false,
                name: String::new(),
                program_mode: MediaMode::Embedded,
                preview_enabled: false,
                preview_name: String::new(),
            },
            applied: None,
        }
    }

    /// Take the configuration loaded from the file at `path`.
    pub fn init_controller(&mut self, path: String, loaded: OutputConfig)
        ensures
            final(self)@.config_path == Some(path@),
            final(self)@.config == loaded@,
            final(self)@.applied == old(self)@.applied,
    {
        self.config = loaded;
        self.config_path = Some(path);
    }

    /// A copy of the current configuration.
    pub fn current_config(&self) -> (c: OutputConfig)
        ensures
            c@ == self@.config,
    {
        self.config.copied()
    }

    /// Apply the current configuration. Nothing happens where it is the one last applied;
    /// otherwise the outputs are to be stopped and rebuilt as the returned plan says, and
    /// the configuration counts as applied.
    pub fn apply_outputs(&mut self) -> (plan: Option<ApplyPlan>)
        ensures
            (final(self)@, plan_view(plan)) == apply_step(old(self)@),
    {
        let same = match &self.applied {
            Some(a) => a.same_as(&self.config),
            None => false,
        };
        if same {
            return None;
        }
        let cfg = self.config.copied();
        let plan = ApplyPlan {
            start_program: cfg.enabled,
            preview_enabled: cfg.preview_enabled,
            preview_name: cfg.preview_name.clone(),
        };
        self.applied = Some(cfg);
        Some(plan)
    }

    /// The outputs were stopped: nothing counts as applied any more.
    pub fn destroy_outputs(&mut self)
        ensures
            final(self)@.config_path == old(self)@.config_path,
            final(self)@.config == old(self)@.config,
            final(self)@.applied is None,
    {
        self.applied = None;
    }

    /// Take a configuration edited in the settings dialog; returns the path to save it
    /// to, where the configuration file is known.
    pub fn persist_config(&mut self, cfg: OutputConfig) -> (path: Option<String>)
        ensures
            final(self)@.config == cfg@,
            final(self)@.config_path == old(self)@.config_path,
            final(self)@.applied == old(self)@.applied,
            path matches Some(p) ==> old(self)@.config_path == Some(p@),
            path is None <==> old(self)@.config_path is None,
    {
        self.config = cfg;
        match &self.config_path {
            Some(p) => Some(p.clone()),
            None => None,
        }
    }
}

/// The abstract value of an apply plan: start the program output, run the preview
/// sender, the preview sender's name.
pub open spec fn plan_view(p: Option<ApplyPlan>) -> Option<(bool, bool, Seq<char>)> {
    match p {
        Some(q) => Some((q.start_program, q.preview_enabled, q.preview_name@)),
        None => None,
    }
}

/// One application of the configuration: nothing where the current configuration is the
/// one last applied; otherwise a plan built from it, which then counts as applied.
pub open spec fn apply_step(c: OutputControllerView) -> (
    OutputControllerView,
    Option<(bool, bool, Seq<char>)>,
) {
    if c.applied == Some(c.config) {
        (c, None)
    } else {
        (
            OutputControllerView { applied: Some(c.config), ..c },
            Some((c.config.enabled, c.config.preview_enabled, c.config.preview_name)),
        )
    }
}

/// Applying twice in a row without a configuration change between does nothing the
/// second time and leaves the state as the first application left it.
pub proof fn lemma_apply_idempotent(c: OutputControllerView)
    ensures
        apply_step(apply_step(c).0).1 is None,
        apply_step(apply_step(c).0).0 == apply_step(c).0,
{
}

/// After the outputs were destroyed, applying always rebuilds them from the current
/// configuration.
pub proof fn lemma_apply_after_destroy(c: OutputControllerView)
    ensures
        apply_step(OutputControllerView { applied: None, ..c }).1 == Some(
            (c.config.enabled, c.config.preview_enabled, c.config.preview_name),
        ),
{
}

/// A changed configuration is always applied: after the configuration is replaced by one
/// different from the one last applied, applying plans the new one.
pub proof fn lemma_changed_config_applied(c: OutputControllerView, cfg: OutputConfigView)
    requires
        c.applied != Some(cfg),
    ensures
        apply_step(OutputControllerView { config: cfg, ..c }).1 == Some(
            (cfg.enabled, cfg.preview_enabled, cfg.preview_name),
        ),
{
}

/// A program output on an HDR canvas (P010, P216) is refused whatever its media mode; one
/// that carries video in NV12, UYVY, YUY2, BGRA or BGRX starts.
pub proof fn lemma_hdr_refused(c: OutputConfigView, f: VideoFormat)
    ensures
        (f == VideoFormat::P010 || f == VideoFormat::P216) ==> start_outcome(c, Some(f)) == Err::<
            (Seq<char>, u8),
            StartRefusal,
        >(StartRefusal::Format(SdrMappingError::UnsupportedHdr)),
        (f == VideoFormat::NV12 || f == VideoFormat::UYVY || f == VideoFormat::YUY2 || f
            == VideoFormat::BGRA || f == VideoFormat::BGRX) ==> start_outcome(c, Some(f)) is Ok,
{
}

/// The program output's sender name is never blank, so a started program output always
/// passes the sender-name check.
pub proof fn lemma_program_name_not_blank(name: Seq<char>)
    ensures
        trim_spec(program_sender_name(name)).len() > 0,
{
    crate::config::lemma_default_names_trimmed();
}

} // verus!
