//! The command channel: the hand-off from the pipeline's streaming threads
//! to the consumer.

use crate::bus::BusMessage;
use crate::error::VideoError;
use crate::frame::FrameBuffer;
use crate::view::{Command, FrameTick, ViewEvent};
use std::collections::VecDeque;
use vstd::prelude::*;

verus! {

/// What the engine tells the consumer of its own accord.
#[derive(Debug, PartialEq, Eq)]
pub enum Notification {
    /// A frame was decoded. The frame is the consumer's from here on.
    FrameDelivered(FrameBuffer),
    /// The total duration is known, in seconds.
    DurationAnnounced(u64),
}

impl Notification {
    /// The event that a notification is to a view. A frame comes with what
    /// the host read from the pipeline on its arrival; a duration needs none
    /// of that.
    pub open spec fn event_of(
        self,
        bus: Vec<BusMessage>,
        slider_idle: bool,
        polled: Option<u64>,
    ) -> ViewEvent {
        match self {
            Notification::FrameDelivered(frame) => ViewEvent::VideoFrame(
                FrameTick { frame, bus, slider_idle, polled },
            ),
            Notification::DurationAnnounced(secs) => ViewEvent::Command(
                Command::PlaybackDuration(secs),
            ),
        }
    }

    /// Makes the notification an event for a view.
    pub fn into_event(self, bus: Vec<BusMessage>, slider_idle: bool, polled: Option<u64>) -> (event:
        ViewEvent)
        ensures
            event == self.event_of(bus, slider_idle, polled),
    {
        match self {
            Notification::FrameDelivered(frame) => ViewEvent::VideoFrame(
                FrameTick { frame, bus, slider_idle, polled },
            ),
            Notification::DurationAnnounced(secs) => ViewEvent::Command(
                Command::PlaybackDuration(secs),
            ),
        }
    }
}

/// The queue after a notification was sent into it: the notification is
/// last, unless the queue was full, in which case it is dropped.
pub open spec fn after_send(
    queue: Seq<Notification>,
    capacity: usize,
    notification: Notification,
) -> Seq<Notification> {
    if queue.len() < capacity {
        queue.push(notification)
    } else {
        queue
    }
}

/// A bounded queue of notifications, oldest first.
///
/// Sending never waits. A notification sent into a full channel is dropped,
/// so that the pipeline's clock is never held up by a slow consumer.
#[derive(Debug)]
pub struct CommandChannel {
    queue: VecDeque<Notification>,
    capacity: usize,
}

impl View for CommandChannel {
    type V = Seq<Notification>;

    /// The notifications in the channel, oldest first.
    closed spec fn view(&self) -> Seq<Notification> {
        self.queue@
    }
}

impl CommandChannel {
    #[verifier::type_invariant]
    spec fn bounded(self) -> bool {
        self.queue@.len() <= self.capacity
    }

    /// The most notifications that the channel holds at a time.
    pub closed spec fn capacity_of(self) -> usize {
        self.capacity
    }

    /// An empty channel that holds up to `capacity` notifications.
    pub fn new(capacity: usize) -> (channel: CommandChannel)
        ensures
            channel@ == Seq::<Notification>::empty(),
            channel.capacity_of() == capacity,
    {
        CommandChannel { queue: VecDeque::new(), capacity }
    }

    /// The number of notifications waiting, which never exceeds the
    /// capacity.
    pub fn len(&self) -> (len: usize)
        ensures
            len == self@.len(),
            len <= self.capacity_of(),
    {
        proof {
            use_type_invariant(self);
        }
        self.queue.len()
    }

    /// Sends a notification.
    ///
    /// It is queued behind all that wait, which stay as they are. A full
    /// channel drops it instead and says so with `Delivery`.
    pub fn send(&mut self, notification: Notification) -> (result: Result<(), VideoError>)
        ensures
            final(self)@ == after_send(old(self)@, old(self).capacity_of(), notification),
            final(self).capacity_of() == old(self).capacity_of(),
            result == if old(self)@.len() < old(self).capacity_of() {
                Ok::<(), VideoError>(())
            } else {
                Err::<(), VideoError>(VideoError::Delivery)
            },
    {
        proof {
            use_type_invariant(&*self);
        }
        if self.queue.len() < self.capacity {
            // The queue is taken out while it changes, so that the channel
            // is within its bound at every step.
            let mut queue: VecDeque<Notification> = VecDeque::new();
            core::mem::swap(&mut self.queue, &mut queue);
            queue.push_back(notification);
            core::mem::swap(&mut self.queue, &mut queue);
            Ok(())
        } else {
            Err(VideoError::Delivery)
        }
    }

    /// Takes the oldest notification out of the channel, if there is one.
    pub fn receive(&mut self) -> (notification: Option<Notification>)
        ensures
            match notification {
                Some(n) => old(self)@.len() > 0 && n == old(self)@[0] && final(self)@ == old(
                    self,
                )@.skip(1),
                None => old(self)@.len() == 0 && final(self)@ == old(self)@,
            },
            final(self).capacity_of() == old(self).capacity_of(),
    {
        proof {
            use_type_invariant(&*self);
        }
        let mut queue: VecDeque<Notification> = VecDeque::new();
        core::mem::swap(&mut self.queue, &mut queue);
        let notification = queue.pop_front();
        core::mem::swap(&mut self.queue, &mut queue);
        notification
    }
}

} // verus!
