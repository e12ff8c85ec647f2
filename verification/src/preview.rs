//! Studio-mode Preview OMT sender: its lifecycle, which scene it follows, and its frames.

use vstd::prelude::*;

use crate::clock::obs_ns_to_omt_ticks;
use crate::format::{
    bgra_frame_spec, bgra_video_frame, VideoFrame, VIDEO_FLAG_ALPHA, VIDEO_FLAG_PREMULTIPLIED,
};
use crate::media_mode::{frame_type_bits, MediaMode};
use crate::output::{frontend_action, FrontendAction, FrontendEvent};
use crate::send_session::SendSession;

verus! {

/// What stopping the preview sender involves besides dropping the sender and the capture.
#[derive(Debug, Clone, Copy, PartialEq, Eq, Structural)]
pub struct StopPlan {
    /// Remove the main render callback.
    pub remove_callback: bool,
}

/// What a frontend event asks of a running preview sender.
#[derive(Debug, Clone, Copy, PartialEq, Eq, Structural)]
pub enum PreviewEventAction {
    /// Follow the scene now shown (preview scene in studio mode, program scene otherwise).
    Refresh,
    /// Release the followed scene.
    Clear,
    Ignore,
}

/// Which scene the preview sender follows.
#[derive(Debug, Clone, Copy, PartialEq, Eq, Structural)]
pub enum SceneChoice {
    PreviewScene,
    ProgramScene,
}

/// The preview sender: the running sender session (if any), whether the main render
/// callback is installed, and the video rate. The callback is installed exactly while a
/// sender runs (see [`preview_wf`]).
#[verifier::reject_recursive_types(T)]
pub struct PreviewState<T, W> {
    session: Option<SendSession<T, W>>,
    callback_installed: bool,
    fps_num: u32,
    fps_den: u32,
}

pub struct PreviewView {
    pub running: bool,
    pub session_name: Option<Seq<char>>,
    pub callback_installed: bool,
    pub fps_num: u32,
    pub fps_den: u32,
}

impl<T, W> View for PreviewState<T, W> {
    type V = PreviewView;

    closed spec fn view(&self) -> PreviewView {
        PreviewView {
            running: self.session is Some,
            session_name: match self.session {
                Some(s) => Some(s.name_view()),
                None => None,
            },
            callback_installed: self.callback_installed,
            fps_num: self.fps_num,
            fps_den: self.fps_den,
        }
    }
}

/// A preview state is well formed when the render callback is installed exactly while a
/// sender runs, and a sender is named exactly while one runs.
pub open spec fn preview_wf(v: PreviewView) -> bool {
    &&& v.callback_installed == v.running
    &&& v.running == v.session_name is Some
}

/// The state after stopping: no sender, no callback.
pub open spec fn stopped_view(v: PreviewView) -> PreviewView {
    PreviewView { running: false, session_name: None, callback_installed: false, ..v }
}

/// The state after a sender named `name` started at `fps_num / fps_den` (a zero part
/// counts as 1): the sender runs and the callback is installed.
pub open spec fn started_view(v: PreviewView, name: Seq<char>, fps_num: u32, fps_den: u32) -> PreviewView {
    PreviewView {
        running: true,
        session_name: Some(name),
        callback_installed: true,
        fps_num: if fps_num < 1 {
            1
        } else {
            fps_num
        },
        fps_den: if fps_den < 1 {
            1
        } else {
            fps_den
        },
    }
}

/// One operation on the preview sender.
pub enum PreviewOp {
    /// `apply(enabled, _)`, which stops the sender first.
    Apply(bool),
    Stop,
    /// A sender named `.0` started at rate `.1 / .2`.
    Started(Seq<char>, u32, u32),
    /// A frame pushed to the sender.
    Push,
}

/// The state after `op`, and the change it makes to the number of installed render
/// callbacks (+1 for an installation, -1 for a removal).
pub open spec fn preview_step(v: PreviewView, op: PreviewOp) -> (PreviewView, int) {
    match op {
        PreviewOp::Apply(_) | PreviewOp::Stop => (
            stopped_view(v),
            if v.callback_installed {
                -1
            } else {
                0
            },
        ),
        PreviewOp::Started(name, n, d) => (
            started_view(v, name, n, d),
            if v.callback_installed {
                0
            } else {
                1
            },
        ),
        PreviewOp::Push => (v, 0),
    }
}

/// The state after a run of operations, and the net number of callbacks installed.
pub open spec fn preview_run(v: PreviewView, ops: Seq<PreviewOp>) -> (PreviewView, int)
    decreases ops.len(),
{
    if ops.len() == 0 {
        (v, 0)
    } else {
        let (next, d) = preview_step(v, ops[0]);
        let (last, rest) = preview_run(next, ops.drop_first());
        (last, d + rest)
    }
}

/// Whatever the run of applies, stops, starts and pushes, the preview stays well formed:
/// the render callback is installed exactly while a sender runs, and it was registered
/// exactly once for that (the net number of installations is 1 while it is installed and
/// 0 otherwise).
pub proof fn lemma_preview_callback_once(v: PreviewView, ops: Seq<PreviewOp>)
    requires
        preview_wf(v),
    ensures
        preview_wf(preview_run(v, ops).0),
        (if v.callback_installed {
            1int
        } else {
            0
        }) + preview_run(v, ops).1 == (if preview_run(v, ops).0.callback_installed {
            1int
        } else {
            0
        }),
    decreases ops.len(),
{
    if ops.len() > 0 {
        let (next, d) = preview_step(v, ops[0]);
        lemma_preview_callback_once(next, ops.drop_first());
    }
}

pub open spec fn preview_event_action(running: bool, e: FrontendEvent) -> PreviewEventAction {
    if !running {
        PreviewEventAction::Ignore
    } else {
        match e {
            FrontendEvent::StudioModeEnabled | FrontendEvent::PreviewSceneChanged
            | FrontendEvent::StudioModeDisabled | FrontendEvent::SceneChanged => PreviewEventAction::Refresh,
            FrontendEvent::SceneCollectionCleanup | FrontendEvent::Exit => PreviewEventAction::Clear,
            _ => PreviewEventAction::Ignore,
        }
    }
}

/// The scene the preview sender follows: the preview scene in studio mode, the program
/// scene otherwise.
pub fn refresh_source(studio_mode: bool) -> (c: SceneChoice)
    ensures
        c == (if studio_mode {
            SceneChoice::PreviewScene
        } else {
            SceneChoice::ProgramScene
        }),
{
    if studio_mode {
        SceneChoice::PreviewScene
    } else {
        SceneChoice::ProgramScene
    }
}

impl<T, W> PreviewState<T, W> {
    /// No sender, no render callback, 60/1 fps.
    pub fn new() -> (p: Self)
        ensures
            p@ == (PreviewView {
                running: false,
                session_name: None,
                callback_installed: false,
                fps_num: 60,
                fps_den: 1,
            }),
            preview_wf(p@),
    {
        PreviewState { session: None, callback_installed: false, fps_num: 60, fps_den: 1 }
    }

    /// Stop the sender (dropping its session); the render callback is removed where it was
    /// installed.
    pub fn stop(&mut self) -> (plan: StopPlan)
        ensures
            plan.remove_callback == old(self)@.callback_installed,
            final(self)@ == stopped_view(old(self)@),
            preview_wf(final(self)@),
    {
        let remove_callback = self.callback_installed;
        self.session = None;
        self.callback_installed = false;
        StopPlan { remove_callback }
    }

    /// Apply the preview settings: the running sender is stopped (as [`Self::stop`]
    /// says), and where the preview is enabled a new video sender named `name` is to be
    /// started, with the frame types returned.
    pub fn apply(&mut self, enabled: bool, name: &str) -> (r: (StopPlan, Option<(String, u8)>))
        ensures
            r.0.remove_callback == old(self)@.callback_installed,
            final(self)@ == stopped_view(old(self)@),
            preview_wf(final(self)@),
            enabled ==> (r.1 matches Some((n, t)) && n@ == name@ && t == frame_type_bits(
                MediaMode::Video,
            )),
            !enabled ==> r.1 is None,
    {
        let stop = self.stop();
        if !enabled {
            return (stop, None);
        }
        (stop, Some((name.to_owned(), MediaMode::Video.frame_types())))
    }

    /// Take a started sender at the OBS video rate (a zero rate counts as 1), replacing
    /// any running one; returns whether the render callback has to be installed.
    pub fn started(&mut self, session: SendSession<T, W>, fps_num: u32, fps_den: u32) -> (install_callback: bool)
        ensures
            install_callback == !old(self)@.callback_installed,
            final(self)@ == started_view(old(self)@, session.name_view(), fps_num, fps_den),
            preview_wf(final(self)@),
    {
        self.session = Some(session);
        self.fps_num = if fps_num < 1 {
            1
        } else {
            fps_num
        };
        self.fps_den = if fps_den < 1 {
            1
        } else {
            fps_den
        };
        let install = !self.callback_installed;
        self.callback_installed = true;
        install
    }

    /// Hand a frame to the running sender; returns whether one runs.
    pub fn push_video(&mut self, frame: T) -> (sent: bool)
        ensures
            sent == old(self)@.running,
            final(self)@ == old(self)@,
    {
        match &mut self.session {
            Some(s) => {
                s.push_video(frame);
                true
            },
            None => false,
        }
    }

    /// React to a frontend event: nothing while no sender runs; studio-mode and scene
    /// changes refresh the followed scene; scene-collection cleanup and exit release it.
    pub fn on_frontend_event(&self, event: FrontendEvent) -> (a: PreviewEventAction)
        ensures
            a == preview_event_action(self@.running, event),
    {
        if self.session.is_none() {
            return PreviewEventAction::Ignore;
        }
        match event {
            FrontendEvent::StudioModeEnabled | FrontendEvent::PreviewSceneChanged
            | FrontendEvent::StudioModeDisabled | FrontendEvent::SceneChanged => PreviewEventAction::Refresh,
            FrontendEvent::SceneCollectionCleanup | FrontendEvent::Exit => PreviewEventAction::Clear,
            _ => PreviewEventAction::Ignore,
        }
    }

    /// The frame to send for a captured scene: premultiplied BGRA at the preview rate.
    pub fn video_frame(&self, timestamp_ns: u64, width: u32, height: u32, pixels: Vec<u8>) -> (v:
        VideoFrame)
        requires
            width as int * 4 <= u32::MAX,
        ensures
            v == bgra_frame_spec(
                (timestamp_ns / 100) as i64,
                width,
                height,
                VIDEO_FLAG_ALPHA | VIDEO_FLAG_PREMULTIPLIED,
                self@.fps_num,
                self@.fps_den,
                pixels,
            ),
    {
        bgra_video_frame(
            obs_ns_to_omt_ticks(timestamp_ns),
            width,
            height,
            VIDEO_FLAG_ALPHA | VIDEO_FLAG_PREMULTIPLIED,
            self.fps_num,
            self.fps_den,
            pixels,
        )
    }
}

/// The frontend hands the preview sender exactly the events it follows the shown scene
/// on: an event is routed to the preview sender precisely when a running preview sender
/// answers it by refreshing its scene.
pub proof fn lemma_preview_events_routed(e: FrontendEvent)
    ensures
        (frontend_action(e) == FrontendAction::Preview) == (preview_event_action(true, e)
            == PreviewEventAction::Refresh),
{
}

/// A stopped preview sender ignores every event, and a running one answers each
/// studio-mode or scene change by refreshing, so that afterwards it follows the scene
/// [`refresh_source`] picks.
pub proof fn lemma_running_preview_follows_scene(e: FrontendEvent)
    ensures
        preview_event_action(false, e) == PreviewEventAction::Ignore,
        (e == FrontendEvent::StudioModeEnabled || e == FrontendEvent::StudioModeDisabled || e
            == FrontendEvent::PreviewSceneChanged || e == FrontendEvent::SceneChanged)
            ==> preview_event_action(true, e) == PreviewEventAction::Refresh,
{
}

} // verus!
