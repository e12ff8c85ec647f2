//! OMT sender: name check and the frame queues between OBS and the sending worker.

use vstd::prelude::*;

use crate::channel::DropChannel;
use crate::text::{trim_spec, trim_str};

verus! {

/// Depth of the video frame queue.
pub const VIDEO_QUEUE_DEPTH: usize = 2;
/// Depth of the audio frame queue.
pub const AUDIO_QUEUE_DEPTH: usize = 4;
/// Error text for a sender whose name is blank.
pub const EMPTY_NAME_ERROR: &'static str = "OMT sender name is empty";

/// A sender can only be announced under a name that is not blank.
pub fn check_sender_name(name: &str) -> (r: Result<(), String>)
    ensures
        r is Err <==> trim_spec(name@).len() == 0,
        r matches Err(e) ==> e@ == EMPTY_NAME_ERROR@,
{
    if trim_str(name).is_empty() {
        Err(EMPTY_NAME_ERROR.to_owned())
    } else {
        Ok(())
    }
}

/// A running sender: its name and frame types, the queues that feed its worker, and the
/// handle `W` of that worker (dropping the session drops the handle).
#[verifier::reject_recursive_types(T)]
pub struct SendSession<T, W> {
    video: DropChannel<T>,
    audio: DropChannel<T>,
    name: String,
    frame_types: u8,
    worker: W,
}

impl<T, W> SendSession<T, W> {
    pub closed spec fn name_view(&self) -> Seq<char> {
        self.name@
    }

    pub closed spec fn frame_types_view(&self) -> u8 {
        self.frame_types
    }

    pub closed spec fn video_dropped_count(&self) -> u64 {
        self.video.dropped_count()
    }

    pub closed spec fn audio_dropped_count(&self) -> u64 {
        self.audio.dropped_count()
    }

    /// The video frames the worker's queue accepted so far.
    pub closed spec fn video_queued(&self) -> Seq<T> {
        self.video.queued_items()
    }

    /// The audio frames the worker's queue accepted so far.
    pub closed spec fn audio_queued(&self) -> Seq<T> {
        self.audio.queued_items()
    }

    /// A session over fresh queues for the sender `name` (which is not blank).
    pub fn new(name: String, frame_types: u8, video: DropChannel<T>, audio: DropChannel<T>, worker: W) -> (s:
        Self)
        requires
            trim_spec(name@).len() > 0,
        ensures
            s.name_view() == name@,
            s.frame_types_view() == frame_types,
            s.video_dropped_count() == video.dropped_count(),
            s.audio_dropped_count() == audio.dropped_count(),
            s.video_queued() == video.queued_items(),
            s.audio_queued() == audio.queued_items(),
    {
        SendSession { video, audio, name, frame_types, worker }
    }

    pub fn name(&self) -> (n: &str)
        ensures
            n@ == self.name_view(),
    {
        self.name.as_str()
    }

    pub fn frame_types(&self) -> (t: u8)
        ensures
            t == self.frame_types_view(),
    {
        self.frame_types
    }

    /// Queue a video frame for the worker: it is appended to the video frames queued so
    /// far, or, where it does not fit, dropped and counted.
    pub fn push_video(&mut self, frame: T)
        ensures
            final(self).name_view() == old(self).name_view(),
            final(self).frame_types_view() == old(self).frame_types_view(),
            final(self).audio_dropped_count() == old(self).audio_dropped_count(),
            final(self).audio_queued() == old(self).audio_queued(),
            ({
                &&& final(self).video_queued() == old(self).video_queued().push(frame)
                &&& final(self).video_dropped_count() == old(self).video_dropped_count()
            }) || ({
                &&& final(self).video_queued() == old(self).video_queued()
                &&& final(self).video_dropped_count() == old(self).video_dropped_count().wrapping_add(1)
            }),
    {
        let _ = self.video.try_push(frame);
    }

    /// Queue an audio frame for the worker: it is appended to the audio frames queued so
    /// far, or, where it does not fit, dropped and counted.
    pub fn push_audio(&mut self, frame: T)
        ensures
            final(self).name_view() == old(self).name_view(),
            final(self).frame_types_view() == old(self).frame_types_view(),
            final(self).video_dropped_count() == old(self).video_dropped_count(),
            final(self).video_queued() == old(self).video_queued(),
            ({
                &&& final(self).audio_queued() == old(self).audio_queued().push(frame)
                &&& final(self).audio_dropped_count() == old(self).audio_dropped_count()
            }) || ({
                &&& final(self).audio_queued() == old(self).audio_queued()
                &&& final(self).audio_dropped_count() == old(self).audio_dropped_count().wrapping_add(1)
            }),
    {
        let _ = self.audio.try_push(frame);
    }

    pub fn video_dropped(&self) -> (n: u64)
        ensures
            n == self.video_dropped_count(),
    {
        self.video.dropped()
    }

    pub fn audio_dropped(&self) -> (n: u64)
        ensures
            n == self.audio_dropped_count(),
    {
        self.audio.dropped()
    }
}

/// Whether the sending worker pauses before its next round: only when the round sent no
/// frame at all.
pub fn worker_idle(video_sent: usize, audio_sent: usize) -> (idle: bool)
    ensures
        idle == (video_sent == 0 && audio_sent == 0),
{
    video_sent == 0 && audio_sent == 0
}

} // verus!
