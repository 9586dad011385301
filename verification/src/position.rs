//! Positions in a medium, and the targets that a pipeline seeks to.

use std::time::Duration;
use vstd::prelude::*;
use vstd::std_specs::convert::FromSpecImpl;

verus! {

/// Nanoseconds in a second.
pub const NANOS_PER_SECOND: u64 = 1_000_000_000;

/// One more than the largest nanosecond count that a pipeline time holds.
pub const PIPELINE_TIME_MODULUS: u128 = 0x1_0000_0000_0000_0000;

/// The length of a `Duration`, in nanoseconds.
pub uninterp spec fn duration_nanos(d: Duration) -> nat;

/// `Duration::from_nanos` of the standard library: the result is as long as
/// the given number of nanoseconds.
pub assume_specification[ std::time::Duration::from_nanos ](nanos: u64) -> (d: std::time::Duration)
    ensures
        duration_nanos(d) == nanos,
;

/// `Duration::from_secs` of the standard library: the result is as long as
/// the given number of whole seconds.
pub assume_specification[ std::time::Duration::from_secs ](secs: u64) -> (d: std::time::Duration)
    ensures
        duration_nanos(d) == secs * NANOS_PER_SECOND,
;

/// `Duration::as_nanos` of the standard library: the total number of
/// nanoseconds in the duration.
pub assume_specification[ std::time::Duration::as_nanos ](d: &std::time::Duration) -> (nanos: u128)
    ensures
        nanos == duration_nanos(*d),
;

/// `Duration::as_secs` of the standard library: the number of whole seconds
/// in the duration.
pub assume_specification[ std::time::Duration::as_secs ](d: &std::time::Duration) -> (secs: u64)
    ensures
        secs == duration_nanos(*d) / (NANOS_PER_SECOND as nat),
;

/// Position in the media.
#[derive(Debug, Clone, Copy, PartialEq, Eq, PartialOrd, Ord, Hash)]
pub enum Position {
    /// Position based on time.
    ///
    /// Not the most accurate format for videos.
    Time(Duration),
    /// Position based on nth frame.
    Frame(u64),
}

/// A seek target in the units a pipeline understands.
#[derive(Clone, Copy, Debug, PartialEq, Eq, Structural)]
pub enum SeekTarget {
    /// A stream time, in nanoseconds.
    Time(u64),
    /// A frame index.
    Frame(u64),
}

impl From<Duration> for Position {
    fn from(t: Duration) -> (pos: Position) {
        Position::Time(t)
    }
}

impl FromSpecImpl<Duration> for Position {
    open spec fn obeys_from_spec() -> bool {
        true
    }

    open spec fn from_spec(t: Duration) -> Position {
        Position::Time(t)
    }
}

impl From<u64> for Position {
    fn from(f: u64) -> (pos: Position) {
        Position::Frame(f)
    }
}

impl FromSpecImpl<u64> for Position {
    open spec fn obeys_from_spec() -> bool {
        true
    }

    open spec fn from_spec(f: u64) -> Position {
        Position::Frame(f)
    }
}

/// The pipeline target for a position. A time becomes its nanosecond count,
/// of which a pipeline time keeps the low 64 bits; a frame index stays as it
/// is.
pub open spec fn seek_target_of(pos: Position) -> SeekTarget {
    match pos {
        Position::Time(t) => SeekTarget::Time(
            (duration_nanos(t) % (PIPELINE_TIME_MODULUS as nat)) as u64,
        ),
        Position::Frame(f) => SeekTarget::Frame(f),
    }
}

impl From<Position> for SeekTarget {
    fn from(pos: Position) -> (target: SeekTarget) {
        match pos {
            Position::Time(t) => {
                let nanos: u128 = t.as_nanos();
                SeekTarget::Time((nanos % PIPELINE_TIME_MODULUS) as u64)
            },
            Position::Frame(f) => SeekTarget::Frame(f),
        }
    }
}

impl FromSpecImpl<Position> for SeekTarget {
    open spec fn obeys_from_spec() -> bool {
        true
    }

    open spec fn from_spec(pos: Position) -> SeekTarget {
        seek_target_of(pos)
    }
}

/// The stream time that lies `secs` whole seconds into the medium.
pub open spec fn seconds_target(secs: u64) -> SeekTarget {
    SeekTarget::Time(((secs * NANOS_PER_SECOND) % (PIPELINE_TIME_MODULUS as int)) as u64)
}

/// What a position poll amounts to: the stream time that the pipeline gave,
/// or zero where it gave none.
pub fn polled_position(reply: Option<u64>) -> (d: Duration)
    ensures
        duration_nanos(d) == match reply {
            Some(nanos) => nanos as nat,
            None => 0,
        },
{
    match reply {
        Some(nanos) => Duration::from_nanos(nanos),
        None => Duration::from_nanos(0),
    }
}

} // verus!
