//! The playback engine: its transport state and what each command asks of
//! the pipeline.

use crate::caps::{caps_match, negotiate, Framerate, VideoCaps};
use crate::error::VideoError;
use crate::pipeline::{
    BuildReport, PipelinePlan, PipelineState, Request, SETTLE_TIMEOUT_MS,
};
use crate::position::{duration_nanos, polled_position, seek_target_of, Position, SeekTarget};
use crate::volume::Volume;
use std::time::Duration;
use vstd::prelude::*;

verus! {

/// The transport state of an engine.
#[derive(Copy, Clone, Debug, Eq, PartialEq, Structural)]
pub enum VideoPlayerState {
    Playing,
    Paused,
    /// No source is bound: the pipeline is inert. Entered on teardown only.
    Stopped,
}

/// A seek that the pipeline has been asked for and not yet answered.
#[derive(Copy, Clone, Debug, Eq, PartialEq, Structural)]
pub struct PendingSeek {
    /// Where the seek goes.
    pub target: SeekTarget,
    /// Whether playback resumes once the seek has applied.
    pub resume: bool,
}

/// What ends a seek: the requests that wind the protocol up, and whether the
/// seek applied.
#[derive(Debug, PartialEq, Eq)]
pub struct SeekCompletion {
    pub requests: Vec<Request>,
    pub result: Result<(), VideoError>,
}

/// Video player which handles multimedia playback.
///
/// It holds what the engine knows of one pipeline and decides what to ask of
/// it. Whoever owns the pipeline carries the requests out, in the order
/// given.
#[derive(Copy, Clone, Debug, Eq, PartialEq, Structural)]
pub struct VideoPlayer {
    /// The authoritative transport state.
    pub state: VideoPlayerState,
    pub volume: Volume,
    pub width: i32,
    pub height: i32,
    pub framerate: Framerate,
    /// Total duration in nanoseconds; zero where it is unknown.
    pub duration: u64,
    pub muted: bool,
    pub looping: bool,
    pub is_eos: bool,
    pub restart_stream: bool,
    /// The seek in flight, if there is one.
    pub pending: Option<PendingSeek>,
}

/// The requests that open a seek, for an engine in `state`.
///
/// Audio is muted first. A pipeline that is not playing is forced to play,
/// as a seek does not land reliably on a paused one.
pub open spec fn seek_prologue(state: VideoPlayerState, target: SeekTarget) -> Seq<Request> {
    if state == VideoPlayerState::Playing {
        seq![Request::SetMute(true), Request::Seek(target)]
    } else {
        seq![
            Request::SetMute(true),
            Request::SetState(PipelineState::Playing),
            Request::Seek(target),
        ]
    }
}

/// The requests that close a seek that applied, for an engine in `state`:
/// unmute, and for a paused engine wait for the state to settle and force
/// the pipeline back to paused. A resume plays a paused engine after that.
pub open spec fn seek_epilogue(state: VideoPlayerState, resume: bool) -> Seq<Request> {
    if state == VideoPlayerState::Paused {
        let restore = seq![
            Request::SetMute(false),
            Request::AwaitState(SETTLE_TIMEOUT_MS),
            Request::SetState(PipelineState::Paused),
        ];
        if resume {
            restore.push(Request::SetState(PipelineState::Playing))
        } else {
            restore
        }
    } else {
        seq![Request::SetMute(false)]
    }
}

/// The requests that abandon a seek that did not apply: unmute, and force a
/// paused engine's pipeline back to paused.
pub open spec fn seek_recovery(state: VideoPlayerState) -> Seq<Request> {
    if state == VideoPlayerState::Paused {
        seq![Request::SetMute(false), Request::SetState(PipelineState::Paused)]
    } else {
        seq![Request::SetMute(false)]
    }
}

impl VideoPlayer {
    /// The engine that a plan and the capabilities of its pipeline give.
    pub open spec fn opened(plan: PipelinePlan, caps: VideoCaps, duration: u64) -> VideoPlayer {
        VideoPlayer {
            state: VideoPlayerState::Paused,
            volume: plan.volume,
            width: caps.width,
            height: caps.height,
            framerate: caps.framerate,
            duration,
            muted: false,
            looping: plan.looping,
            is_eos: false,
            restart_stream: false,
            pending: None,
        }
    }

    /// The duration that an engine takes from a report: what the query gave
    /// where the plan asked for one and it was answered, else zero.
    pub open spec fn reported_duration(plan: PipelinePlan, report: BuildReport) -> u64 {
        match report.duration {
            Some(nanos) if plan.query_duration => nanos,
            _ => 0,
        }
    }

    /// The capabilities that the engine holds.
    pub open spec fn caps(self) -> VideoCaps {
        VideoCaps { width: self.width, height: self.height, framerate: self.framerate }
    }

    /// Whether a seek can be taken on: the engine is not stopped, and no
    /// other seek is in flight.
    pub open spec fn can_seek(self) -> bool {
        self.state != VideoPlayerState::Stopped && self.pending.is_none()
    }

    /// The engine after a pause (`paused`) or a resume.
    pub open spec fn paused_to(self, paused: bool) -> VideoPlayer {
        if self.state == VideoPlayerState::Stopped {
            self
        } else {
            VideoPlayer {
                state: if paused {
                    VideoPlayerState::Paused
                } else {
                    VideoPlayerState::Playing
                },
                restart_stream: self.restart_stream || (self.is_eos && !paused),
                ..self
            }
        }
    }

    /// The engine with its volume set.
    pub open spec fn with_volume(self, volume: Volume) -> VideoPlayer {
        VideoPlayer { volume, ..self }
    }

    /// What a pause (`paused`) or a resume asks of the pipeline: the matching
    /// state, unless the engine is stopped.
    pub open spec fn pause_request(self, paused: bool) -> Option<Request> {
        if self.state == VideoPlayerState::Stopped {
            None
        } else if paused {
            Some(Request::SetState(PipelineState::Paused))
        } else {
            Some(Request::SetState(PipelineState::Playing))
        }
    }

    /// The engine once a seek has been asked of the pipeline.
    pub open spec fn seeking_to(self, target: SeekTarget, resume: bool) -> VideoPlayer {
        VideoPlayer { pending: Some(PendingSeek { target, resume }), ..self }
    }

    /// The engine once the seek in flight has been answered.
    pub open spec fn seek_finished(self, applied: bool) -> VideoPlayer {
        match self.pending {
            None => self,
            Some(seek) => {
                let resumed = applied && seek.resume && self.state == VideoPlayerState::Paused;
                VideoPlayer {
                    state: if resumed {
                        VideoPlayerState::Playing
                    } else {
                        self.state
                    },
                    is_eos: self.is_eos && !applied,
                    restart_stream: self.restart_stream && !applied,
                    muted: false,
                    pending: None,
                    ..self
                }
            },
        }
    }

    /// The requests that answer the end of the seek in flight.
    pub open spec fn finishing_requests(self, applied: bool) -> Seq<Request> {
        match self.pending {
            None => seq![],
            Some(seek) => if applied {
                seek_epilogue(self.state, seek.resume)
            } else {
                seek_recovery(self.state)
            },
        }
    }

    /// Whether the end of the stream starts playback over: looping is on and
    /// a seek can be taken on.
    pub open spec fn restarts_at_end(self) -> bool {
        self.looping && self.can_seek()
    }

    /// The engine after the stream has ended.
    pub open spec fn ended(self) -> VideoPlayer {
        if self.state == VideoPlayerState::Stopped {
            self
        } else {
            VideoPlayer {
                state: VideoPlayerState::Paused,
                is_eos: true,
                pending: if self.restarts_at_end() {
                    Some(PendingSeek { target: SeekTarget::Time(0), resume: true })
                } else {
                    self.pending
                },
                ..self
            }
        }
    }

    /// The requests that the end of the stream leads to: a pause, and where
    /// playback starts over, the opening of a seek to the start.
    pub open spec fn ending_requests(self) -> Seq<Request> {
        if self.state == VideoPlayerState::Stopped {
            seq![]
        } else if self.restarts_at_end() {
            seq![Request::SetState(PipelineState::Paused)] + seek_prologue(
                VideoPlayerState::Paused,
                SeekTarget::Time(0),
            )
        } else {
            seq![Request::SetState(PipelineState::Paused)]
        }
    }

    /// Makes the engine for a pipeline that was brought up after `plan`,
    /// from the report of how that went.
    ///
    /// A failed stage is fatal, with the failure of that stage. Missing or
    /// malformed capabilities are fatal too. A duration that could not be
    /// queried is not: the duration is then unknown, which is zero, as it is
    /// for every live source. An engine that results is paused, with a
    /// positive width and height.
    pub fn new(plan: &PipelinePlan, report: &BuildReport) -> (result: Result<
        VideoPlayer,
        VideoError,
    >)
        ensures
            match result {
                Ok(player) => {
                    &&& report.failure.is_none()
                    &&& report.caps matches Some(probe) && probe.is_complete() && caps_match(
                        player.caps(),
                        probe,
                    )
                    &&& player == VideoPlayer::opened(
                        *plan,
                        player.caps(),
                        VideoPlayer::reported_duration(*plan, *report),
                    )
                },
                Err(e) => match report.failure {
                    Some(stage) => e == stage.error_of(),
                    None => e == VideoError::Caps && !(report.caps matches Some(probe)
                        && probe.is_complete()),
                },
            },
            result matches Ok(player) ==> player.state == VideoPlayerState::Paused && player.width
                > 0 && player.height > 0,
    {
        if let Some(stage) = report.failure {
            return Err(stage.error());
        }
        let caps = match negotiate(report.caps) {
            Ok(caps) => caps,
            Err(e) => {
                return Err(e);
            },
        };
        let duration = match report.duration {
            Some(nanos) => if plan.query_duration {
                nanos
            } else {
                0
            },
            None => 0,
        };
        Ok(
            VideoPlayer {
                state: VideoPlayerState::Paused,
                volume: plan.volume,
                width: caps.width,
                height: caps.height,
                framerate: caps.framerate,
                duration,
                muted: false,
                looping: plan.looping,
                is_eos: false,
                restart_stream: false,
                pending: None,
            },
        )
    }

    /// Get the size/resolution of the video as `(width, height)`.
    pub fn size(&self) -> (size: (i32, i32))
        ensures
            size == (self.width, self.height),
    {
        (self.width, self.height)
    }

    /// Set the volume multiplier of the audio.
    ///
    /// This uses a linear scale, for example `0.5` is perceived as half as
    /// loud. The engine records the level and asks the pipeline for it.
    pub fn set_volume(&mut self, volume: Volume) -> (request: Request)
        ensures
            *final(self) == old(self).with_volume(volume),
            request == Request::SetVolume(volume),
    {
        self.volume = volume;
        Request::SetVolume(volume)
    }

    /// Set if the audio is muted or not, without changing the volume.
    pub fn set_muted(&mut self, muted: bool) -> (request: Request)
        ensures
            *final(self) == (VideoPlayer { muted, ..*old(self) }),
            request == Request::SetMute(muted),
    {
        self.muted = muted;
        Request::SetMute(muted)
    }

    /// Get if the stream ended or not.
    pub fn eos(&self) -> (ended: bool)
        ensures
            ended == self.is_eos,
    {
        self.is_eos
    }

    /// Set if the media will loop or not.
    pub fn set_looping(&mut self, looping: bool)
        ensures
            *final(self) == (VideoPlayer { looping, ..*old(self) }),
    {
        self.looping = looping;
    }

    /// Set if the media is paused or not.
    ///
    /// The state flips at once, and the pipeline is asked to follow. A resume
    /// after the stream has ended marks the stream for a restart. A stopped
    /// engine stays as it is and asks for nothing.
    pub fn set_paused(&mut self, paused: bool) -> (request: Option<Request>)
        ensures
            *final(self) == old(self).paused_to(paused),
            request == old(self).pause_request(paused),
    {
        if self.state == VideoPlayerState::Stopped {
            return None;
        }
        if paused {
            self.state = VideoPlayerState::Paused;
            Some(Request::SetState(PipelineState::Paused))
        } else {
            self.state = VideoPlayerState::Playing;
            if self.is_eos {
                self.restart_stream = true;
            }
            Some(Request::SetState(PipelineState::Playing))
        }
    }

    /// The requests that open a seek to `target`, with the seek noted as in
    /// flight.
    fn begin_seek(&mut self, target: SeekTarget, resume: bool) -> (requests: Vec<Request>)
        ensures
            *final(self) == old(self).seeking_to(target, resume),
            requests@ == seek_prologue(old(self).state, target),
    {
        let mut requests: Vec<Request> = Vec::new();
        requests.push(Request::SetMute(true));
        if self.state != VideoPlayerState::Playing {
            requests.push(Request::SetState(PipelineState::Playing));
        }
        requests.push(Request::Seek(target));
        self.pending = Some(PendingSeek { target, resume });
        requests
    }

    /// Jumps to a specific position in the media.
    ///
    /// Gives the requests that open the seek; [`VideoPlayer::finish_seek`]
    /// gives the rest once the pipeline has said whether the seek applied.
    /// The transport state stays as it is. The seeking is not perfectly
    /// accurate. A stopped engine, and one with a seek in flight, refuse with
    /// `Sync` and stay as they are.
    pub fn seek(&mut self, position: Position) -> (result: Result<Vec<Request>, VideoError>)
        ensures
            match result {
                Ok(requests) => {
                    &&& old(self).can_seek()
                    &&& requests@ == seek_prologue(old(self).state, seek_target_of(position))
                    &&& *final(self) == old(self).seeking_to(seek_target_of(position), false)
                },
                Err(e) => e == VideoError::Sync && !old(self).can_seek() && *final(self) == *old(
                    self,
                ),
            },
    {
        if self.state == VideoPlayerState::Stopped || self.pending.is_some() {
            return Err(VideoError::Sync);
        }
        let target = SeekTarget::from(position);
        Ok(self.begin_seek(target, false))
    }

    /// Ends the seek in flight, which the pipeline applied or did not.
    ///
    /// A seek that applied is wound up: see [`seek_epilogue`]. The stream is
    /// then no longer at its end. A seek that did not apply is abandoned
    /// with `Sync`: see [`seek_recovery`]. Either way the audio is unmuted
    /// and the transport state is as before the seek, but for the resume
    /// that follows a restart. With no seek in flight nothing happens.
    pub fn finish_seek(&mut self, applied: bool) -> (done: SeekCompletion)
        ensures
            *final(self) == old(self).seek_finished(applied),
            done.requests@ == old(self).finishing_requests(applied),
            done.result == if applied || old(self).pending.is_none() {
                Ok::<(), VideoError>(())
            } else {
                Err::<(), VideoError>(VideoError::Sync)
            },
    {
        let mut requests: Vec<Request> = Vec::new();
        let seek = match self.pending {
            Some(seek) => seek,
            None => {
                return SeekCompletion { requests, result: Ok(()) };
            },
        };
        self.pending = None;
        self.muted = false;
        requests.push(Request::SetMute(false));
        let paused = self.state == VideoPlayerState::Paused;
        if applied {
            self.is_eos = false;
            self.restart_stream = false;
            if paused {
                requests.push(Request::AwaitState(SETTLE_TIMEOUT_MS));
                requests.push(Request::SetState(PipelineState::Paused));
                if seek.resume {
                    requests.push(Request::SetState(PipelineState::Playing));
                    self.state = VideoPlayerState::Playing;
                }
            }
            SeekCompletion { requests, result: Ok(()) }
        } else {
            if paused {
                requests.push(Request::SetState(PipelineState::Paused));
            }
            SeekCompletion { requests, result: Err(VideoError::Sync) }
        }
    }

    /// Takes note that the stream has ended.
    ///
    /// The engine pauses, whatever state it was in. With looping on it also
    /// opens a seek to the start, which resumes playback once it has applied.
    /// A stopped engine stays as it is.
    pub fn end_of_stream(&mut self) -> (requests: Vec<Request>)
        ensures
            *final(self) == old(self).ended(),
            requests@ == old(self).ending_requests(),
    {
        let mut requests: Vec<Request> = Vec::new();
        if self.state == VideoPlayerState::Stopped {
            return requests;
        }
        requests.push(Request::SetState(PipelineState::Paused));
        self.state = VideoPlayerState::Paused;
        self.is_eos = true;
        if self.looping && self.pending.is_none() {
            let mut opening = self.begin_seek(SeekTarget::Time(0), true);
            requests.append(&mut opening);
        }
        requests
    }

    /// The current playback position, from what the pipeline answered to a
    /// position query: the stream time it gave, or zero where it gave none.
    pub fn position(&self, reply: Option<u64>) -> (d: Duration)
        ensures
            duration_nanos(d) == match reply {
                Some(nanos) => nanos as nat,
                None => 0,
            },
    {
        polled_position(reply)
    }

    /// Get the media duration. Zero where it is unknown.
    pub fn duration(&self) -> (d: Duration)
        ensures
            duration_nanos(d) == self.duration,
    {
        Duration::from_nanos(self.duration)
    }

    /// Tears the engine down: it is stopped for good, the seek in flight is
    /// forgotten, and the pipeline is asked to become inert.
    pub fn shutdown(&mut self) -> (request: Request)
        ensures
            *final(self) == (VideoPlayer {
                state: VideoPlayerState::Stopped,
                pending: None,
                ..*old(self)
            }),
            request == Request::SetState(PipelineState::Null),
    {
        self.state = VideoPlayerState::Stopped;
        self.pending = None;
        Request::SetState(PipelineState::Null)
    }
}

} // verus!
