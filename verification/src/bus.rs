//! The bus monitor: what the pipeline's pending status messages call for.

use vstd::prelude::*;

verus! {

/// A status message of the pipeline, by kind.
#[derive(Clone, Copy, Debug, PartialEq, Eq, Structural)]
pub enum BusMessage {
    /// An element reported an error.
    Error,
    /// Decoding has reached the end of the source.
    Eos,
    /// Anything else.
    Other,
}

/// What one draining of the bus calls for.
#[derive(Clone, Copy, Debug, PartialEq, Eq, Structural)]
pub enum BusVerdict {
    /// Nothing to act on.
    Quiet,
    /// The stream has ended.
    EndOfStream,
    /// The pipeline failed beyond recovery.
    Fatal,
}

/// The verdict on a batch of messages: an error anywhere in it is fatal,
/// whatever else it holds; short of that, an end of stream counts; all other
/// messages are passed over.
pub open spec fn verdict_of(messages: Seq<BusMessage>) -> BusVerdict {
    if messages.contains(BusMessage::Error) {
        BusVerdict::Fatal
    } else if messages.contains(BusMessage::Eos) {
        BusVerdict::EndOfStream
    } else {
        BusVerdict::Quiet
    }
}

/// Goes through the messages that were pending on the bus, oldest first, and
/// gives the verdict on them.
pub fn drain(messages: &Vec<BusMessage>) -> (verdict: BusVerdict)
    ensures
        verdict == verdict_of(messages@),
{
    let mut ended = false;
    let mut i: usize = 0;
    while i < messages.len()
        invariant
            i <= messages.len(),
            forall|j: int| 0 <= j < i ==> messages@[j] != BusMessage::Error,
            ended <==> exists|j: int| 0 <= j < i && messages@[j] == BusMessage::Eos,
        decreases messages.len() - i,
    {
        match messages[i] {
            BusMessage::Error => {
                return BusVerdict::Fatal;
            },
            BusMessage::Eos => {
                ended = true;
            },
            BusMessage::Other => {},
        }
        i += 1;
    }
    if ended {
        BusVerdict::EndOfStream
    } else {
        BusVerdict::Quiet
    }
}

} // verus!
