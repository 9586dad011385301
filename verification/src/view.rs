//! The consumer's side of the engine: the commands it takes, the mirror it
//! keeps of the engine's state, and what each event has it do.

use crate::bus::{drain, verdict_of, BusMessage, BusVerdict};
use crate::channel::Notification;
use crate::error::VideoError;
use crate::frame::FrameBuffer;
use crate::pipeline::Request;
use crate::player::{seek_prologue, VideoPlayer, VideoPlayerState};
use crate::position::{seconds_target, Position, NANOS_PER_SECOND};
use std::time::Duration;
use vstd::prelude::*;

verus! {

/// A transport command, as the controls submit it.
#[derive(Clone, Copy, Debug, PartialEq, Eq, Structural)]
pub enum Command {
    /// Pause playback.
    PlayPause,
    /// Resume playback.
    PlayResume,
    /// Start the pipeline playing, without a word to the mirror.
    Play,
    /// The total duration is now known, in seconds.
    PlaybackDuration(u64),
    /// Seek to a position given in seconds.
    PlaySeek(u64),
}

/// The playback rates on offer.
#[derive(Copy, Clone, Eq, PartialEq, Ord, PartialOrd, Debug)]
pub enum VideoRate {
    D2,
    D5,
    M,
    I2,
    I5,
    I20,
}

/// The consumer's mirror of the engine. It follows the engine on commands
/// and on polls, and may lag behind it in between.
#[derive(Clone, Debug, PartialEq, Eq)]
pub struct VideoViewState {
    pub state: VideoPlayerState,
    pub current_item: String,
    /// Total duration in seconds; zero while it is unknown.
    pub duration: u64,
    /// Playback position in seconds.
    pub position: u64,
    pub seeking_enabled: bool,
    pub rate_set: bool,
}

/// A newly delivered frame, with what the host read from the pipeline on
/// its arrival.
#[derive(Debug)]
pub struct FrameTick {
    /// The frame.
    pub frame: FrameBuffer,
    /// The status messages that were pending on the bus, oldest first.
    pub bus: Vec<BusMessage>,
    /// Whether the seek bar still shows what the view last put there, which
    /// is to say that nobody is dragging it.
    pub slider_idle: bool,
    /// The pipeline's answer to a position query, in nanoseconds.
    pub polled: Option<u64>,
}

/// What a view reacts to.
#[derive(Debug)]
pub enum ViewEvent {
    /// A transport command.
    Command(Command),
    /// A frame was delivered.
    VideoFrame(FrameTick),
    /// The pipeline has answered the seek in flight: it applied, or not.
    SeekOutcome(bool),
}

/// One thing for the host to do after an event, in the order given.
#[derive(Debug, PartialEq, Eq)]
pub enum Effect {
    /// Carry out a request on the pipeline. A seek is to be answered, once
    /// the effects of the event are done with, by a `SeekOutcome` event.
    Pipeline(Request),
    /// Submit a command to the view.
    Submit(Command),
    /// Show playback progress as `position` out of `duration`, in seconds.
    Progress { position: u64, duration: u64 },
    /// Show the frame and repaint.
    Display(FrameBuffer),
    /// The pipeline failed beyond recovery: escalate.
    Escalate,
    /// Log a failure that playback survives.
    Report(VideoError),
}

/// What happened in the life of the widget that shows the view.
#[derive(Debug)]
pub enum LifeCycle {
    /// The view was added to the widget tree. The host has tried to open
    /// the engine, and may know the duration, in seconds, beforehand.
    WidgetAdded { opened: Result<VideoPlayer, VideoError>, duration_hint: Option<u64> },
    /// Any other event.
    Other,
}

/// The requests, each as an effect on the pipeline.
pub open spec fn pipeline_effects(requests: Seq<Request>) -> Seq<Effect> {
    Seq::new(requests.len(), |i: int| Effect::Pipeline(requests[i]))
}

/// The request, if there is one, as an effect on the pipeline.
pub open spec fn request_effect(request: Option<Request>) -> Seq<Effect> {
    match request {
        Some(r) => seq![Effect::Pipeline(r)],
        None => seq![],
    }
}

/// The whole seconds of a polled stream time; zero where the poll gave none.
pub open spec fn polled_seconds(polled: Option<u64>) -> u64 {
    match polled {
        Some(nanos) => nanos / NANOS_PER_SECOND,
        None => 0,
    }
}

/// The video view: the engine it shows, once that is open.
#[derive(Debug, PartialEq, Eq)]
pub struct VideoView {
    pub player: Option<VideoPlayer>,
    /// The position, in seconds, of the seek whose outcome is awaited.
    pub awaited: Option<u64>,
}

impl VideoView {
    /// The position that the mirror shows after a frame has arrived: the
    /// polled one, unless the seek bar is being dragged.
    pub open spec fn position_after_frame(data: VideoViewState, tick: FrameTick) -> u64 {
        if tick.slider_idle {
            polled_seconds(tick.polled)
        } else {
            data.position
        }
    }

    /// Whether playback has reached the end of a medium whose duration is
    /// known, which is to say above zero.
    pub open spec fn reached_end(position: u64, duration: u64) -> bool {
        duration > 0 && position == duration
    }

    /// The view after an event.
    pub open spec fn after(self, event: ViewEvent) -> VideoView {
        match self.player {
            None => self,
            Some(p) => match event {
                ViewEvent::Command(Command::PlayPause) => VideoView {
                    player: Some(p.paused_to(true)),
                    ..self
                },
                ViewEvent::Command(Command::PlayResume) | ViewEvent::Command(
                    Command::Play,
                ) => VideoView { player: Some(p.paused_to(false)), ..self },
                ViewEvent::Command(Command::PlaybackDuration(_)) => self,
                ViewEvent::Command(Command::PlaySeek(secs)) => if p.can_seek() {
                    VideoView {
                        player: Some(p.seeking_to(seconds_target(secs), false)),
                        awaited: Some(secs),
                    }
                } else {
                    self
                },
                ViewEvent::SeekOutcome(applied) => VideoView {
                    player: Some(p.seek_finished(applied)),
                    awaited: None,
                },
                ViewEvent::VideoFrame(tick) => match verdict_of(tick.bus@) {
                    BusVerdict::EndOfStream => VideoView {
                        player: Some(p.ended()),
                        awaited: if p.ended().pending != p.pending {
                            Some(0)
                        } else {
                            self.awaited
                        },
                    },
                    _ => self,
                },
            },
        }
    }

    /// The mirror after an event.
    pub open spec fn mirror_after(self, data: VideoViewState, event: ViewEvent) -> VideoViewState {
        match event {
            ViewEvent::Command(Command::PlaybackDuration(duration)) => VideoViewState {
                duration,
                ..data
            },
            _ => match self.player {
                None => data,
                Some(p) => match event {
                    ViewEvent::Command(Command::PlayPause) => VideoViewState {
                        state: p.paused_to(true).state,
                        ..data
                    },
                    ViewEvent::Command(Command::PlayResume) => VideoViewState {
                        state: p.paused_to(false).state,
                        ..data
                    },
                    ViewEvent::SeekOutcome(applied) => VideoViewState {
                        state: if p.seek_finished(applied).state != p.state {
                            p.seek_finished(applied).state
                        } else {
                            data.state
                        },
                        position: match self.awaited {
                            Some(secs) if applied && p.pending.is_some() => secs,
                            _ => data.position,
                        },
                        ..data
                    },
                    ViewEvent::VideoFrame(tick) => match verdict_of(tick.bus@) {
                        BusVerdict::Fatal => data,
                        verdict => VideoViewState {
                            state: if verdict == BusVerdict::EndOfStream && p.state
                                != VideoPlayerState::Stopped {
                                VideoPlayerState::Paused
                            } else {
                                data.state
                            },
                            position: Self::position_after_frame(data, tick),
                            ..data
                        },
                    },
                    _ => data,
                },
            },
        }
    }

    /// What the host is to do after an event, in order.
    pub open spec fn effects_of(self, data: VideoViewState, event: ViewEvent) -> Seq<Effect> {
        match self.player {
            None => match event {
                ViewEvent::VideoFrame(tick) => seq![Effect::Display(tick.frame)],
                _ => seq![],
            },
            Some(p) => match event {
                ViewEvent::Command(Command::PlayPause) => request_effect(p.pause_request(true)),
                ViewEvent::Command(Command::PlayResume) | ViewEvent::Command(
                    Command::Play,
                ) => request_effect(p.pause_request(false)),
                ViewEvent::Command(Command::PlaybackDuration(_)) => seq![],
                ViewEvent::Command(Command::PlaySeek(secs)) => if p.can_seek() {
                    pipeline_effects(seek_prologue(p.state, seconds_target(secs)))
                } else {
                    seq![Effect::Report(VideoError::Sync)]
                },
                ViewEvent::SeekOutcome(applied) => pipeline_effects(
                    p.finishing_requests(applied),
                ) + if !applied && p.pending.is_some() {
                    seq![Effect::Report(VideoError::Sync)]
                } else {
                    seq![]
                },
                ViewEvent::VideoFrame(tick) => match verdict_of(tick.bus@) {
                    BusVerdict::Fatal => seq![Effect::Escalate],
                    verdict => {
                        let position = Self::position_after_frame(data, tick);
                        (if verdict == BusVerdict::EndOfStream {
                            pipeline_effects(p.ending_requests())
                        } else {
                            seq![]
                        }) + (if tick.slider_idle && data.duration > 0 {
                            seq![Effect::Progress { position, duration: data.duration }]
                        } else {
                            seq![]
                        }) + (if Self::reached_end(position, data.duration) {
                            seq![Effect::Submit(Command::PlayPause)]
                        } else {
                            seq![]
                        }) + seq![Effect::Display(tick.frame)]
                    },
                },
            },
        }
    }

    /// Create new video view, with no engine yet.
    pub fn new() -> (view: VideoView)
        ensures
            view.player.is_none(),
            view.awaited.is_none(),
    {
        VideoView { player: None, awaited: None }
    }

    /// Appends the requests to the effects, each as an effect on the
    /// pipeline.
    fn push_requests(effects: &mut Vec<Effect>, requests: &Vec<Request>)
        ensures
            final(effects)@ == old(effects)@ + pipeline_effects(requests@),
    {
        let mut i: usize = 0;
        while i < requests.len()
            invariant
                i <= requests.len(),
                effects@ == old(effects)@ + pipeline_effects(requests@.take(i as int)),
            decreases requests.len() - i,
        {
            effects.push(Effect::Pipeline(requests[i]));
            i += 1;
        }
    }

    /// Reacts to one event.
    ///
    /// A pause or a resume goes to the engine and the mirror follows its
    /// state; a bare play goes to the engine alone. An announced duration is
    /// noted. A seek opens the engine's seek protocol and is noted as
    /// awaited; its outcome closes the protocol, and a seek that applied puts
    /// the mirror's position at the target. A frame has the bus drained
    /// first: an error there escalates and ends the event. Short of that, an
    /// end of stream is passed to the engine; the position is polled unless
    /// the seek bar is being dragged, and shown as progress where the
    /// duration is known; a position that has reached a known duration
    /// submits a pause; and the frame is shown. Without an engine only
    /// durations are noted and frames shown.
    pub fn event(&mut self, data: &mut VideoViewState, event: ViewEvent) -> (effects: Vec<Effect>)
        ensures
            *final(self) == old(self).after(event),
            *final(data) == old(self).mirror_after(*old(data), event),
            effects@ == old(self).effects_of(*old(data), event),
    {
        let mut effects: Vec<Effect> = Vec::new();
        let mut player = match self.player {
            Some(p) => p,
            None => {
                match event {
                    ViewEvent::Command(Command::PlaybackDuration(duration)) => {
                        data.duration = duration;
                    },
                    ViewEvent::VideoFrame(tick) => {
                        effects.push(Effect::Display(tick.frame));
                    },
                    _ => {},
                }
                return effects;
            },
        };
        match event {
            ViewEvent::Command(Command::PlayPause) => {
                if let Some(request) = player.set_paused(true) {
                    effects.push(Effect::Pipeline(request));
                }
                data.state = player.state;
            },
            ViewEvent::Command(Command::PlayResume) => {
                if let Some(request) = player.set_paused(false) {
                    effects.push(Effect::Pipeline(request));
                }
                data.state = player.state;
            },
            ViewEvent::Command(Command::Play) => {
                if let Some(request) = player.set_paused(false) {
                    effects.push(Effect::Pipeline(request));
                }
            },
            ViewEvent::Command(Command::PlaybackDuration(duration)) => {
                data.duration = duration;
            },
            ViewEvent::Command(Command::PlaySeek(secs)) => {
                match player.seek(Position::Time(Duration::from_secs(secs))) {
                    Ok(requests) => {
                        Self::push_requests(&mut effects, &requests);
                        self.awaited = Some(secs);
                    },
                    Err(e) => {
                        effects.push(Effect::Report(e));
                    },
                }
            },
            ViewEvent::SeekOutcome(applied) => {
                let was = player.state;
                let answered = player.pending.is_some();
                let done = player.finish_seek(applied);
                Self::push_requests(&mut effects, &done.requests);
                if let Err(e) = done.result {
                    effects.push(Effect::Report(e));
                }
                if player.state != was {
                    data.state = player.state;
                }
                if applied && answered {
                    if let Some(secs) = self.awaited {
                        data.position = secs;
                    }
                }
                self.awaited = None;
            },
            ViewEvent::VideoFrame(tick) => {
                let verdict = drain(&tick.bus);
                if verdict == BusVerdict::Fatal {
                    effects.push(Effect::Escalate);
                    return effects;
                }
                if verdict == BusVerdict::EndOfStream {
                    let restarts = player.state != VideoPlayerState::Stopped && player.looping
                        && player.pending.is_none();
                    let requests = player.end_of_stream();
                    Self::push_requests(&mut effects, &requests);
                    if player.state != VideoPlayerState::Stopped {
                        data.state = VideoPlayerState::Paused;
                    }
                    if restarts {
                        self.awaited = Some(0);
                    }
                }
                if tick.slider_idle {
                    let position = player.position(tick.polled).as_secs();
                    data.position = position;
                    if data.duration > 0 {
                        effects.push(Effect::Progress { position, duration: data.duration });
                    }
                }
                if data.duration > 0 && data.position == data.duration {
                    effects.push(Effect::Submit(Command::PlayPause));
                }
                effects.push(Effect::Display(tick.frame));
            },
        }
        self.player = Some(player);
        effects
    }

    /// Reacts to a lifecycle event.
    ///
    /// When the view is added and the engine has opened, the view takes the
    /// engine and announces the duration: the hint where there is one, else
    /// the engine's own in whole seconds. An engine that failed to open
    /// leaves the view without one, and the failure is handed back.
    pub fn lifecycle(&mut self, event: LifeCycle) -> (result: Result<
        Option<Notification>,
        VideoError,
    >)
        ensures
            match event {
                LifeCycle::WidgetAdded { opened: Ok(player), duration_hint } => {
                    &&& *final(self) == (VideoView { player: Some(player), awaited: None })
                    &&& result == Ok::<Option<Notification>, VideoError>(
                        Some(
                            Notification::DurationAnnounced(
                                match duration_hint {
                                    Some(secs) => secs,
                                    None => player.duration / NANOS_PER_SECOND,
                                },
                            ),
                        ),
                    )
                },
                LifeCycle::WidgetAdded { opened: Err(e), .. } => *final(self) == *old(self)
                    && result == Err::<Option<Notification>, VideoError>(e),
                LifeCycle::Other => *final(self) == *old(self) && result == Ok::<
                    Option<Notification>,
                    VideoError,
                >(None),
            },
    {
        match event {
            LifeCycle::WidgetAdded { opened, duration_hint } => {
                match opened {
                    Ok(player) => {
                        let duration = match duration_hint {
                            Some(secs) => secs,
                            None => player.duration / NANOS_PER_SECOND,
                        };
                        self.player = Some(player);
                        self.awaited = None;
                        Ok(Some(Notification::DurationAnnounced(duration)))
                    },
                    Err(e) => Err(e),
                }
            },
            LifeCycle::Other => Ok(None),
        }
    }
}

} // verus!
