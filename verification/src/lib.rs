//! A playback engine for video and audio, as a set of verified decisions.
//!
//! The decode pipeline itself runs outside this crate. What is here is
//! everything the engine decides: which graph to build, what a report from
//! the pipeline means, which requests a transport command turns into, and how
//! the consumer's mirror of the engine follows along. A host owns the
//! pipeline, carries the requests out in the order given, and reports back.

pub mod bus;
pub mod caps;
pub mod channel;
pub mod controls;
pub mod error;
pub mod frame;
pub mod laws;
pub mod pipeline;
pub mod playback;
pub mod player;
pub mod position;
pub mod source;
pub mod view;
pub mod volume;

pub use bus::{BusMessage, BusVerdict};
pub use caps::{CapsProbe, Framerate, VideoCaps};
pub use channel::{CommandChannel, Notification};
pub use controls::{PointerEvent, SliderController, SliderOutcome, VideoViewController};
pub use error::{Propagation, VideoError};
pub use frame::{FlowError, FrameBuffer, RawSample, SampleFault};
pub use pipeline::{
    BuildReport, BuildStage, ElementKind, EngineConfig, PipelinePlan, PipelineState, Request,
};
pub use playback::{as_minutes_and_seconds, Button, Icon};
pub use player::{PendingSeek, SeekCompletion, VideoPlayer, VideoPlayerState};
pub use position::{Position, SeekTarget};
pub use view::{
    Command, Effect, FrameTick, LifeCycle, VideoRate, VideoView, VideoViewState, ViewEvent,
};
pub use volume::Volume;
