//! The on-screen transport controls: what a pointer event on them submits.

use crate::player::VideoPlayerState;
use crate::view::{Command, VideoViewState};
use vstd::prelude::*;

verus! {

/// A pointer event on a control, as far as the controls tell events apart.
#[derive(Clone, Copy, Debug, PartialEq, Eq, Structural)]
pub enum PointerEvent {
    /// The pointer moved.
    Move,
    /// A button went down; `left` says whether it was the left one.
    Down { left: bool },
    /// A button came up; `left` says whether it was the left one.
    Up { left: bool },
    /// Any other event.
    Other,
}

/// What the seek bar has its host do at a pointer event.
#[derive(Clone, Copy, Debug, PartialEq, Eq, Structural)]
pub struct SliderOutcome {
    /// Whether to show the pointing-hand cursor.
    pub pointer_cursor: bool,
    /// Whether to take (`true`) or release (`false`) the pointer.
    pub capture: Option<bool>,
    /// Whether to note the bar's value as the last one acted on.
    pub latch: bool,
    /// The command to submit.
    pub command: Option<Command>,
}

/// The controller of the seek bar.
#[derive(Clone, Copy, Debug, PartialEq, Eq, Structural)]
pub struct SliderController {}

/// The controller of the video area, on which a click toggles playback.
#[derive(Clone, Copy, Debug, PartialEq, Eq, Structural)]
pub struct VideoViewController {}

impl SliderController {
    /// Whether the event seeks: a drag does, and so does a release of the
    /// left button that no drag came before.
    pub open spec fn seeks(event: PointerEvent, active: bool, seeking_enabled: bool) -> bool {
        match event {
            PointerEvent::Move => active,
            PointerEvent::Up { left } => active && left && seeking_enabled,
            _ => false,
        }
    }

    /// Whether release seeks are on after the event: a drag switches them
    /// off, the release that ends it switches them on again.
    pub open spec fn seeking_enabled_after(
        event: PointerEvent,
        active: bool,
        seeking_enabled: bool,
    ) -> bool {
        match event {
            PointerEvent::Move => seeking_enabled && !active,
            PointerEvent::Up { left } => seeking_enabled || (active && left),
            _ => seeking_enabled,
        }
    }

    /// What the host is to do at the event.
    pub open spec fn outcome_of(
        event: PointerEvent,
        active: bool,
        target: u64,
        seeking_enabled: bool,
    ) -> SliderOutcome {
        let seeks = Self::seeks(event, active, seeking_enabled);
        SliderOutcome {
            pointer_cursor: event == PointerEvent::Move,
            capture: match event {
                PointerEvent::Down { left } if left => Some(true),
                PointerEvent::Up { left } if active && left => Some(false),
                _ => None,
            },
            latch: seeks,
            command: if seeks {
                Some(Command::PlaySeek(target))
            } else {
                None
            },
        }
    }

    /// Reacts to a pointer event on the seek bar.
    ///
    /// `active` says whether the bar holds the pointer, and `target` is the
    /// position under the knob, in seconds. Moving shows the pointing hand,
    /// and while the bar holds the pointer it seeks to the target. The left
    /// button going down takes the pointer. The left button coming up, while
    /// the bar holds the pointer, releases it, and seeks unless a drag has
    /// done so already.
    pub fn event(
        &mut self,
        event: PointerEvent,
        active: bool,
        target: u64,
        data: &mut VideoViewState,
    ) -> (outcome: SliderOutcome)
        ensures
            outcome == Self::outcome_of(event, active, target, old(data).seeking_enabled),
            *final(data) == (VideoViewState {
                seeking_enabled: Self::seeking_enabled_after(
                    event,
                    active,
                    old(data).seeking_enabled,
                ),
                ..*old(data)
            }),
    {
        let mut outcome = SliderOutcome {
            pointer_cursor: false,
            capture: None,
            latch: false,
            command: None,
        };
        match event {
            PointerEvent::Move => {
                outcome.pointer_cursor = true;
                if active {
                    outcome.latch = true;
                    outcome.command = Some(Command::PlaySeek(target));
                    data.seeking_enabled = false;
                }
            },
            PointerEvent::Down { left } => {
                if left {
                    outcome.capture = Some(true);
                }
            },
            PointerEvent::Up { left } => {
                if active && left {
                    if data.seeking_enabled {
                        outcome.latch = true;
                        outcome.command = Some(Command::PlaySeek(target));
                    }
                    data.seeking_enabled = true;
                    outcome.capture = Some(false);
                }
            },
            PointerEvent::Other => {},
        }
        outcome
    }
}

impl VideoViewController {
    /// Reacts to a pointer event on the video area: the left button going
    /// down pauses a playing engine and resumes any other.
    pub fn event(&mut self, event: PointerEvent, data: &VideoViewState) -> (command: Option<
        Command,
    >)
        ensures
            command == match event {
                PointerEvent::Down { left } if left => Some(
                    if data.state == VideoPlayerState::Playing {
                        Command::PlayPause
                    } else {
                        Command::PlayResume
                    },
                ),
                _ => None,
            },
    {
        match event {
            PointerEvent::Down { left } => {
                if left {
                    if data.state == VideoPlayerState::Playing {
                        Some(Command::PlayPause)
                    } else {
                        Some(Command::PlayResume)
                    }
                } else {
                    None
                }
            },
            _ => None,
        }
    }
}

} // verus!
