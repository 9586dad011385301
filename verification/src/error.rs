//! The stable set of failures that the playback engine reports.

use vstd::prelude::*;

verus! {

/// A failure of the playback engine.
///
/// Low-level pipeline conditions are folded into these kinds before they
/// reach a caller, so the set stays the same whatever the pipeline
/// underneath reports.
#[derive(Clone, Copy, Debug, PartialEq, Eq, Structural)]
pub enum VideoError {
    /// The decode subsystem could not be initialised.
    Glib,
    /// An element could not be created, or elements could not be linked.
    GraphBuild,
    /// An element did not have the capability that was expected of it.
    Cast,
    /// The pipeline refused a state change, or did not settle in time.
    StateChange,
    /// The negotiated width, height or frame rate is missing or malformed.
    Caps,
    /// The total duration could not be queried.
    Duration,
    /// A seek did not apply.
    Sync,
    /// A decoded frame could not be handed to the consumer.
    Delivery,
    /// The source is not a well-formed URI.
    Uri,
}

/// What becomes of a failure once it has been detected.
#[derive(Clone, Copy, Debug, PartialEq, Eq, Structural)]
pub enum Propagation {
    /// The operation is abandoned and no engine results from it.
    Fatal,
    /// The failure is handed to the caller; the engine stays as it was.
    Surfaced,
    /// The failure is logged and the engine carries on.
    Logged,
}

impl VideoError {
    /// How a failure propagates, while the engine is being opened
    /// (`opening`) and afterwards.
    pub open spec fn propagation_of(self, opening: bool) -> Propagation {
        match self {
            VideoError::Duration | VideoError::Delivery => Propagation::Logged,
            VideoError::Sync => Propagation::Surfaced,
            VideoError::StateChange => if opening {
                Propagation::Fatal
            } else {
                Propagation::Logged
            },
            _ => Propagation::Fatal,
        }
    }

    /// The text shown for each kind of failure.
    pub open spec fn message_of(self) -> Seq<char> {
        match self {
            VideoError::Glib => "failed to initialise the decode subsystem"@,
            VideoError::GraphBuild => "failed to build the pipeline graph"@,
            VideoError::Cast => "failed to cast gstreamer element"@,
            VideoError::StateChange => "failed to change the pipeline state"@,
            VideoError::Caps => "failed to get media capabilities"@,
            VideoError::Duration => "failed to query media duration or position"@,
            VideoError::Sync => "failed to sync with playback"@,
            VideoError::Delivery => "failed to deliver a frame"@,
            VideoError::Uri => "invalid URI"@,
        }
    }

    /// Says how this failure propagates: see [`VideoError::propagation_of`].
    pub fn propagation(&self, opening: bool) -> (p: Propagation)
        ensures
            p == self.propagation_of(opening),
    {
        match self {
            VideoError::Duration => Propagation::Logged,
            VideoError::Delivery => Propagation::Logged,
            VideoError::Sync => Propagation::Surfaced,
            VideoError::StateChange => {
                if opening {
                    Propagation::Fatal
                } else {
                    Propagation::Logged
                }
            },
            _ => Propagation::Fatal,
        }
    }

    /// The text shown for this failure.
    pub fn message(&self) -> (text: &'static str)
        ensures
            text@ == self.message_of(),
    {
        match self {
            VideoError::Glib => "failed to initialise the decode subsystem",
            VideoError::GraphBuild => "failed to build the pipeline graph",
            VideoError::Cast => "failed to cast gstreamer element",
            VideoError::StateChange => "failed to change the pipeline state",
            VideoError::Caps => "failed to get media capabilities",
            VideoError::Duration => "failed to query media duration or position",
            VideoError::Sync => "failed to sync with playback",
            VideoError::Delivery => "failed to deliver a frame",
            VideoError::Uri => "invalid URI",
        }
    }
}

} // verus!
