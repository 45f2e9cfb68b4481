//! The queue of transmit timestamps between the runner and the application.
//!
//! It is a bounded channel of the `embassy-sync` crate. The channel is only
//! reached through `&mut`, so what it holds changes only where the functions
//! below say so. Beside the channel go the logs of the wakers that it woke.
//! They exist in proofs only, and only those functions write them.
use vstd::prelude::*;

use core::task::{Context, Poll, Waker};

use embassy_sync::blocking_mutex::raw::NoopRawMutex;
use embassy_sync::channel::Channel;

use crate::driver::TxTimestamp;
use crate::waiting::SlotView;

verus! {

/// Most transmit timestamps that wait for the application.
pub const TIMESTAMP_CAPACITY: usize = 5;

/// The channel of a queue of transmit timestamps.
#[verifier::external_body]
pub struct TimestampChannel {
    channel: Channel<NoopRawMutex, TxTimestamp, TIMESTAMP_CAPACITY>,
}

/// The timestamps in the channel, oldest first.
pub uninterp spec fn queued(channel: TimestampChannel) -> Seq<TxTimestamp>;

/// The waker that was the last to wait for room in the channel, if it has not
/// been woken since. The channel holds it, or another one that wakes the same
/// task.
pub uninterp spec fn room_waiter(channel: TimestampChannel) -> Option<Waker>;

/// The waker that was the last to wait for a timestamp, if it has not been woken
/// since. The channel holds it, or another one that wakes the same task.
pub uninterp spec fn timestamp_waiter(channel: TimestampChannel) -> Option<Waker>;

/// A queue of transmit timestamps that wait for the application.
pub struct TimestampQueue {
    channel: TimestampChannel,
    room_woken: Ghost<Seq<Waker>>,
    timestamp_woken: Ghost<Seq<Waker>>,
}

/// What a queue holds.
pub ghost struct QueueView {
    /// The timestamps, oldest first.
    pub queued: Seq<TxTimestamp>,
    /// Where tasks wait for room.
    pub room_slot: SlotView,
    /// Where tasks wait for a timestamp.
    pub timestamp_slot: SlotView,
}

impl View for TimestampQueue {
    type V = QueueView;

    closed spec fn view(&self) -> QueueView {
        QueueView {
            queued: queued(self.channel),
            room_slot: SlotView {
                waiter: room_waiter(self.channel),
                woken: self.room_woken@,
            },
            timestamp_slot: SlotView {
                waiter: timestamp_waiter(self.channel),
                woken: self.timestamp_woken@,
            },
        }
    }
}

/// `Channel::new`: the channel is empty, and nothing waits.
#[verifier::external_body]
fn channel_new() -> (channel: TimestampChannel)
    ensures
        queued(channel) == Seq::<TxTimestamp>::empty(),
        room_waiter(channel) is None,
        timestamp_waiter(channel) is None,
{
    TimestampChannel { channel: Channel::new() }
}

impl TimestampQueue {
    /// A queue without timestamps, on which nothing waits.
    pub(crate) fn new() -> (queue: Self)
        ensures
            queue@ == (QueueView {
                queued: Seq::empty(),
                room_slot: SlotView::empty(),
                timestamp_slot: SlotView::empty(),
            }),
    {
        TimestampQueue {
            channel: channel_new(),
            room_woken: Ghost(Seq::empty()),
            timestamp_woken: Ghost(Seq::empty()),
        }
    }

    /// `Channel::is_full`: whether the channel holds as many messages as it can.
    /// It never holds more.
    #[verifier::external_body]
    pub(crate) fn is_full(&self) -> (full: bool)
        ensures
            full ==> self@.queued.len() == TIMESTAMP_CAPACITY,
            !full ==> self@.queued.len() < TIMESTAMP_CAPACITY,
    {
        self.channel.channel.is_full()
    }

    /// `Channel::try_send`: while the channel has room the message goes to its
    /// back, and a task that waits for one is woken; else the channel keeps its
    /// messages, nothing is woken, and the message is handed back.
    #[verifier::external_body]
    pub(crate) fn try_send(&mut self, timestamp: TxTimestamp) -> (sent: bool)
        ensures
            sent == (old(self)@.queued.len() < TIMESTAMP_CAPACITY),
            final(self)@ == if sent {
                QueueView {
                    queued: old(self)@.queued.push(timestamp),
                    timestamp_slot: old(self)@.timestamp_slot.after_wake(),
                    ..old(self)@
                }
            } else {
                old(self)@
            },
    {
        self.channel.channel.try_send(timestamp).is_ok()
    }

    /// `Channel::poll_ready_to_send`: the waker waits for room, and the result
    /// is whether there is some. The messages stay. A waker of another task that
    /// waited for room is woken.
    #[verifier::external_body]
    pub(crate) fn poll_ready_to_send(&mut self, waker: &Waker) -> (ready: bool)
        ensures
            ready == (old(self)@.queued.len() < TIMESTAMP_CAPACITY),
            old(self)@.room_slot.registers(*waker, final(self)@.room_slot),
            final(self)@ == (QueueView { room_slot: final(self)@.room_slot, ..old(self)@ }),
    {
        self.channel.channel.poll_ready_to_send(&mut Context::from_waker(waker)).is_ready()
    }

    /// `Channel::poll_receive`: the oldest message, which leaves the channel, or,
    /// where there is none, the waker waits for one, and a waker of another task
    /// that waited for one is woken. Where the channel was full, a task that
    /// waits for room is woken.
    #[verifier::external_body]
    pub(crate) fn poll_receive(&mut self, waker: &Waker) -> (received: Option<TxTimestamp>)
        ensures
            received == if old(self)@.queued.len() > 0 {
                Some(old(self)@.queued.first())
            } else {
                None
            },
            final(self)@.queued == if old(self)@.queued.len() > 0 {
                old(self)@.queued.drop_first()
            } else {
                old(self)@.queued
            },
            final(self)@.room_slot == if old(self)@.queued.len() < TIMESTAMP_CAPACITY {
                old(self)@.room_slot
            } else {
                old(self)@.room_slot.after_wake()
            },
            if received is None {
                old(self)@.timestamp_slot.registers(*waker, final(self)@.timestamp_slot)
            } else {
                final(self)@.timestamp_slot == old(self)@.timestamp_slot
            },
    {
        match self.channel.channel.poll_receive(&mut Context::from_waker(waker)) {
            Poll::Ready(timestamp) => Some(timestamp),
            Poll::Pending => None,
        }
    }
}

} // verus!
