//! What the engine asks of the decode pipeline, and what it builds it from.

use crate::caps::CapsProbe;
use crate::error::VideoError;
use crate::position::SeekTarget;
use crate::source::{normalized_uri, resolve_source};
use crate::volume::{Volume, INITIAL_BITS};
use vstd::prelude::*;

verus! {

/// How long the builder waits for a new pipeline to become ready.
pub const READY_TIMEOUT_MS: u64 = 5000;

/// How long a seek waits for the pipeline's state to settle.
pub const SETTLE_TIMEOUT_MS: u64 = 20;

/// The gain given to the two upper bands of the equalizer, in decibels.
pub const BAND_GAIN_DB: i32 = -24;

/// Bytes that one pixel takes in the negotiated frame format.
pub const BYTES_PER_PIXEL: usize = 4;

/// The two parts of the pixel aspect ratio that the frame sink negotiates:
/// pixels are square.
pub const PIXEL_ASPECT_NUMER: i32 = 1;

pub const PIXEL_ASPECT_DENOM: i32 = 1;

/// The states that the engine puts a pipeline in.
#[derive(Clone, Copy, Debug, PartialEq, Eq, Structural)]
pub enum PipelineState {
    /// Inert: every device and resource is released.
    Null,
    /// Prerolled and holding.
    Paused,
    /// Running on the pipeline's clock.
    Playing,
}

/// One thing the engine asks of the pipeline.
#[derive(Clone, Copy, Debug, PartialEq, Eq, Structural)]
pub enum Request {
    /// Change to the given state.
    SetState(PipelineState),
    /// Wait, for at most this many milliseconds, until the state has settled.
    AwaitState(u64),
    /// Mute or unmute the audio output, leaving the volume alone.
    SetMute(bool),
    /// Set the volume multiplier.
    SetVolume(Volume),
    /// Seek to the target, flushing and snapping to a key unit.
    Seek(SeekTarget),
}

/// The state a pipeline is left in by a run of requests that found it in
/// `initial`: the one the last state change asked for.
pub open spec fn requested_state(initial: PipelineState, requests: Seq<Request>) -> PipelineState
    decreases requests.len(),
{
    if requests.len() == 0 {
        initial
    } else {
        match requests.last() {
            Request::SetState(state) => state,
            _ => requested_state(initial, requests.drop_last()),
        }
    }
}

/// The audio property store of a pipeline: its volume and whether it is
/// muted.
#[derive(Clone, Copy, Debug, PartialEq, Eq, Structural)]
pub struct AudioOutput {
    pub volume: Volume,
    pub muted: bool,
}

impl AudioOutput {
    /// The store after one request has been carried out.
    pub open spec fn apply(self, request: Request) -> AudioOutput {
        match request {
            Request::SetVolume(volume) => AudioOutput { volume, ..self },
            Request::SetMute(muted) => AudioOutput { muted, ..self },
            _ => self,
        }
    }

    /// The store after a run of requests has been carried out, in order.
    pub open spec fn run(self, requests: Seq<Request>) -> AudioOutput
        decreases requests.len(),
    {
        if requests.len() == 0 {
            self
        } else {
            self.run(requests.drop_last()).apply(requests.last())
        }
    }
}

/// The elements that a playback graph is made of.
#[derive(Clone, Copy, Debug, PartialEq, Eq, Structural)]
pub enum ElementKind {
    /// The top-level element, which resolves and demuxes the source.
    Playbin,
    /// A three-band equalizer.
    Equalizer,
    /// Audio format conversion.
    AudioConvert,
    /// The audio output.
    AudioSink,
    /// A buffering queue.
    Queue,
    /// Video format conversion.
    VideoConvert,
    /// Video scaling.
    VideoScale,
    /// The sink that frames are extracted from.
    AppSink,
}

impl ElementKind {
    /// The name of the factory that makes an element of this kind.
    pub open spec fn factory_name_of(self) -> Seq<char> {
        match self {
            ElementKind::Playbin => "playbin"@,
            ElementKind::Equalizer => "equalizer-3bands"@,
            ElementKind::AudioConvert => "audioconvert"@,
            ElementKind::AudioSink => "autoaudiosink"@,
            ElementKind::Queue => "queue"@,
            ElementKind::VideoConvert => "videoconvert"@,
            ElementKind::VideoScale => "videoscale"@,
            ElementKind::AppSink => "appsink"@,
        }
    }

    /// The name of the factory that makes an element of this kind.
    pub fn factory_name(&self) -> (name: &'static str)
        ensures
            name@ == self.factory_name_of(),
    {
        match self {
            ElementKind::Playbin => "playbin",
            ElementKind::Equalizer => "equalizer-3bands",
            ElementKind::AudioConvert => "audioconvert",
            ElementKind::AudioSink => "autoaudiosink",
            ElementKind::Queue => "queue",
            ElementKind::VideoConvert => "videoconvert",
            ElementKind::VideoScale => "videoscale",
            ElementKind::AppSink => "appsink",
        }
    }
}

/// The media type that the frame sink negotiates: raw video.
pub fn sink_media_type() -> (name: &'static str)
    ensures
        name@ == "video/x-raw"@,
{
    "video/x-raw"
}

/// The pixel format that the frame sink negotiates: eight bits each of red,
/// green, blue and alpha, interleaved. The consumer never sees another
/// layout.
pub fn sink_pixel_format() -> (name: &'static str)
    ensures
        name@ == "RGBA"@,
{
    "RGBA"
}

/// The audio sub-graph, in the order its elements are linked.
pub open spec fn audio_chain_of() -> Seq<ElementKind> {
    seq![ElementKind::Equalizer, ElementKind::AudioConvert, ElementKind::AudioSink]
}

/// The video sub-graph, in the order its elements are linked.
pub open spec fn video_chain_of() -> Seq<ElementKind> {
    seq![
        ElementKind::Queue,
        ElementKind::VideoConvert,
        ElementKind::VideoScale,
        ElementKind::AppSink,
    ]
}

/// The element through which a chain is entered: its first, if it has one.
pub open spec fn chain_entry(chain: Seq<ElementKind>) -> Option<ElementKind> {
    if chain.len() > 0 {
        Some(chain[0])
    } else {
        None
    }
}

/// What to play and how.
#[derive(Debug)]
pub struct EngineConfig {
    /// The URI of the medium.
    pub source: String,
    /// Whether the source is indefinite, as a live stream is. No duration is
    /// queried of such a source.
    pub live: bool,
    /// The volume to start with.
    pub volume: Volume,
    /// Whether playback starts over when the stream ends.
    pub looping: bool,
}

impl EngineConfig {
    /// The configuration for `source` with the initial volume and without
    /// looping.
    pub fn new(source: &str, live: bool) -> (config: EngineConfig)
        ensures
            config.source@ == source@,
            config.live == live,
            config.volume == Volume::initial_level(),
            config.volume.bits_of() == INITIAL_BITS,
            !config.looping,
    {
        EngineConfig {
            source: source.to_owned(),
            live,
            volume: Volume::initial(),
            looping: false,
        }
    }
}

/// The graph to build for one source, and how to bring it up.
///
/// The top-level element gets the URI, the volume, and the two sub-graphs as
/// its audio and video sinks. Each sub-graph is a bin whose elements are
/// linked in chain order and which shows the sink pad of its first element
/// as its own.
#[derive(Debug)]
pub struct PipelinePlan {
    /// The URI that the top-level element is given.
    pub uri: String,
    /// The top-level element.
    pub top: ElementKind,
    /// The audio sub-graph.
    pub audio_chain: Vec<ElementKind>,
    /// The video sub-graph.
    pub video_chain: Vec<ElementKind>,
    /// The gain of equalizer bands 1 and 2, in decibels.
    pub band_gain_db: i32,
    /// The volume that the top-level element starts with.
    pub volume: Volume,
    /// Whether the engine starts with looping switched on.
    pub looping: bool,
    /// The state to bring the pipeline to once the graph stands.
    pub ready_state: PipelineState,
    /// How long to wait for that state, in milliseconds.
    pub ready_timeout_ms: u64,
    /// Whether to query the total duration once the pipeline is ready.
    pub query_duration: bool,
}

impl PipelinePlan {
    /// Whether this is the plan that `config` calls for, given the
    /// normalized form of its source.
    pub open spec fn is_plan_for(self, config: EngineConfig, uri: Seq<char>) -> bool {
        &&& self.uri@ == uri
        &&& self.top == ElementKind::Playbin
        &&& self.audio_chain@ == audio_chain_of()
        &&& self.video_chain@ == video_chain_of()
        &&& self.band_gain_db == BAND_GAIN_DB
        &&& self.volume == config.volume
        &&& self.looping == config.looping
        &&& self.ready_state == PipelineState::Paused
        &&& self.ready_timeout_ms == READY_TIMEOUT_MS
        &&& self.query_duration == !config.live
    }

    /// Plans the pipeline for a configuration.
    ///
    /// Fails with `Uri`, and only so, where the source is no absolute URL.
    pub fn new(config: &EngineConfig) -> (result: Result<PipelinePlan, VideoError>)
        ensures
            match result {
                Ok(plan) => normalized_uri(config.source@) matches Some(uri) && plan.is_plan_for(
                    *config,
                    uri,
                ),
                Err(e) => e == VideoError::Uri && normalized_uri(config.source@).is_none(),
            },
    {
        let uri = match resolve_source(config.source.as_str()) {
            Ok(uri) => uri,
            Err(e) => {
                return Err(e);
            },
        };
        let mut audio_chain: Vec<ElementKind> = Vec::new();
        audio_chain.push(ElementKind::Equalizer);
        audio_chain.push(ElementKind::AudioConvert);
        audio_chain.push(ElementKind::AudioSink);
        let mut video_chain: Vec<ElementKind> = Vec::new();
        video_chain.push(ElementKind::Queue);
        video_chain.push(ElementKind::VideoConvert);
        video_chain.push(ElementKind::VideoScale);
        video_chain.push(ElementKind::AppSink);
        assert(audio_chain@ =~= audio_chain_of());
        assert(video_chain@ =~= video_chain_of());
        Ok(
            PipelinePlan {
                uri,
                top: ElementKind::Playbin,
                audio_chain,
                video_chain,
                band_gain_db: BAND_GAIN_DB,
                volume: config.volume,
                looping: config.looping,
                ready_state: PipelineState::Paused,
                ready_timeout_ms: READY_TIMEOUT_MS,
                query_duration: !config.live,
            },
        )
    }

    /// The element whose sink pad the audio bin shows as its own: the first
    /// of its chain, if the chain has one.
    pub fn audio_entry(&self) -> (entry: Option<ElementKind>)
        ensures
            entry == chain_entry(self.audio_chain@),
    {
        if self.audio_chain.len() > 0 {
            Some(self.audio_chain[0])
        } else {
            None
        }
    }

    /// The element whose sink pad the video bin shows as its own: the first
    /// of its chain, if the chain has one.
    pub fn video_entry(&self) -> (entry: Option<ElementKind>)
        ensures
            entry == chain_entry(self.video_chain@),
    {
        if self.video_chain.len() > 0 {
            Some(self.video_chain[0])
        } else {
            None
        }
    }
}

/// The stages of bringing a pipeline up, in the order they are gone through.
#[derive(Clone, Copy, Debug, PartialEq, Eq, Structural)]
pub enum BuildStage {
    /// Initialising the decode subsystem, once per process.
    Initialize,
    /// Creating an element of the graph.
    CreateElement,
    /// Adding elements to a bin, linking them, or exposing a bin's sink pad.
    Link,
    /// Taking the last element of the video chain as a frame sink.
    Cast,
    /// Asking the pipeline to go to its ready state.
    RequestReady,
    /// Waiting for the ready state to be reached.
    AwaitReady,
}

impl BuildStage {
    /// The failure that a failed stage is reported as.
    pub open spec fn error_of(self) -> VideoError {
        match self {
            BuildStage::Initialize => VideoError::Glib,
            BuildStage::CreateElement | BuildStage::Link => VideoError::GraphBuild,
            BuildStage::Cast => VideoError::Cast,
            BuildStage::RequestReady | BuildStage::AwaitReady => VideoError::StateChange,
        }
    }

    /// The failure that a failed stage is reported as.
    pub fn error(&self) -> (e: VideoError)
        ensures
            e == self.error_of(),
    {
        match self {
            BuildStage::Initialize => VideoError::Glib,
            BuildStage::CreateElement => VideoError::GraphBuild,
            BuildStage::Link => VideoError::GraphBuild,
            BuildStage::Cast => VideoError::Cast,
            BuildStage::RequestReady => VideoError::StateChange,
            BuildStage::AwaitReady => VideoError::StateChange,
        }
    }
}

/// How carrying out a plan went.
#[derive(Clone, Copy, Debug, PartialEq, Eq, Structural)]
pub struct BuildReport {
    /// The stage that failed, if one did. Nothing after it was attempted.
    pub failure: Option<BuildStage>,
    /// The capabilities read from the video bin's sink pad, if it had any.
    pub caps: Option<CapsProbe>,
    /// The total duration in nanoseconds, if it was queried and answered.
    pub duration: Option<u64>,
}

} // verus!
