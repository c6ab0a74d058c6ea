//! The stream of response events of one turn.
//!
//! A decoder enqueues what it decodes, success or failure, into a bounded
//! queue; the caller pulls the items out one by one, in the order in which
//! they went in. The queue never drops an item silently: a full queue hands
//! the item back, and the decoder tries again once the caller has caught up.
//!
//! A failure is an item like any other. The stream hands it to the caller and
//! goes on: whether to keep pulling after a failure is the caller's decision.
//!
//! Nothing here waits. A pull that finds nothing says `Pending`, and a send
//! that finds no room says `Full`; an asynchronous shell around the stream
//! turns the two answers into suspension and wake-up, and decides nothing
//! more.

use crate::client_common::ResponseEvent;
use crate::error::Result;
use std::collections::VecDeque;
use vstd::prelude::*;

verus! {

/// One slot of the queue: an event, or the failure that took its place.
pub type StreamItem = Result<ResponseEvent>;

/// Where a stream stands in its life.
#[derive(Debug, Clone, Copy, PartialEq, Eq, Structural)]
pub enum StreamState {
    /// The decoder may still enqueue.
    Open,
    /// The decoder is done, and items are still waiting for the caller.
    Draining,
    /// No item will ever come out again.
    Closed,
}

/// What one pull gave.
#[derive(Debug, PartialEq, Eq)]
pub enum Polled {
    /// The oldest waiting item.
    Item(StreamItem),
    /// Nothing waits, and the decoder may still enqueue: ask again later.
    Pending,
    /// Nothing waits and nothing will come.
    End,
}

/// Why an item was not enqueued. The item comes back to the sender.
#[derive(Debug, PartialEq, Eq)]
pub enum TrySendError {
    /// The queue holds as many items as it may: try again later.
    Full(StreamItem),
    /// The decoder has closed its side, or the caller has walked away.
    Closed(StreamItem),
}

/// A stream as a mathematical value.
pub struct StreamView {
    /// The items that wait, oldest first.
    pub pending: Seq<StreamItem>,
    /// How many items may wait at once.
    pub capacity: nat,
    /// The decoder has closed its side.
    pub producer_closed: bool,
    /// The caller has walked away.
    pub consumer_dropped: bool,
}

impl StreamView {
    /// A fresh stream: open, with nothing waiting.
    pub open spec fn empty(capacity: nat) -> StreamView {
        StreamView {
            pending: Seq::empty(),
            capacity,
            producer_closed: false,
            consumer_dropped: false,
        }
    }

    /// No more items wait than may, and none waits for a caller who is gone.
    pub open spec fn wf(self) -> bool {
        &&& self.pending.len() <= self.capacity
        &&& self.consumer_dropped ==> self.pending.len() == 0
    }

    pub open spec fn state(self) -> StreamState {
        if self.consumer_dropped {
            StreamState::Closed
        } else if !self.producer_closed {
            StreamState::Open
        } else if self.pending.len() > 0 {
            StreamState::Draining
        } else {
            StreamState::Closed
        }
    }

    /// What the sender of `item` is told.
    pub open spec fn send_outcome(self, item: StreamItem) -> core::result::Result<
        (),
        TrySendError,
    > {
        if self.consumer_dropped || self.producer_closed {
            Err(TrySendError::Closed(item))
        } else if self.pending.len() >= self.capacity {
            Err(TrySendError::Full(item))
        } else {
            Ok(())
        }
    }

    /// The stream after `item` was offered to it.
    pub open spec fn after_send(self, item: StreamItem) -> StreamView {
        if self.send_outcome(item) is Ok {
            StreamView { pending: self.pending.push(item), ..self }
        } else {
            self
        }
    }

    /// The stream after the decoder closed its side.
    pub open spec fn after_close(self) -> StreamView {
        StreamView { producer_closed: true, ..self }
    }

    /// What the next pull gives.
    pub open spec fn polled(self) -> Polled {
        if self.consumer_dropped {
            Polled::End
        } else if self.pending.len() > 0 {
            Polled::Item(self.pending[0])
        } else if self.producer_closed {
            Polled::End
        } else {
            Polled::Pending
        }
    }

    /// The stream after a pull.
    pub open spec fn after_poll(self) -> StreamView {
        if self.polled() is Item {
            StreamView { pending: self.pending.drop_first(), ..self }
        } else {
            self
        }
    }

    /// The stream after the caller walked away: what still waited is gone.
    pub open spec fn after_cancel(self) -> StreamView {
        StreamView { pending: Seq::empty(), consumer_dropped: true, ..self }
    }
}

/// The response events of one turn, pulled in the order in which they were
/// enqueued.
#[derive(Debug)]
pub struct ResponseStream {
    queue: VecDeque<StreamItem>,
    capacity: usize,
    producer_closed: bool,
    consumer_dropped: bool,
}

impl View for ResponseStream {
    type V = StreamView;

    closed spec fn view(&self) -> StreamView {
        StreamView {
            pending: self.queue@,
            capacity: self.capacity as nat,
            producer_closed: self.producer_closed,
            consumer_dropped: self.consumer_dropped,
        }
    }
}

impl ResponseStream {
    /// An open stream in which at most `capacity` items wait at once.
    pub fn bounded(capacity: usize) -> (stream: Self)
        ensures
            stream@ == StreamView::empty(capacity as nat),
            stream@.wf(),
    {
        ResponseStream {
            queue: VecDeque::new(),
            capacity,
            producer_closed: false,
            consumer_dropped: false,
        }
    }

    /// Offers `item` to the queue. A stream that is full, closed or abandoned
    /// hands the item back and stays as it was.
    pub fn try_send(&mut self, item: StreamItem) -> (outcome: core::result::Result<
        (),
        TrySendError,
    >)
        ensures
            outcome == old(self)@.send_outcome(item),
            final(self)@ == old(self)@.after_send(item),
            old(self)@.wf() ==> final(self)@.wf(),
    {
        if self.consumer_dropped || self.producer_closed {
            Err(TrySendError::Closed(item))
        } else if self.queue.len() >= self.capacity {
            Err(TrySendError::Full(item))
        } else {
            self.queue.push_back(item);
            Ok(())
        }
    }

    /// Closes the decoder's side: nothing more can be enqueued. What waits
    /// stays for the caller.
    pub fn close(&mut self)
        ensures
            final(self)@ == old(self)@.after_close(),
            old(self)@.wf() ==> final(self)@.wf(),
    {
        self.producer_closed = true;
    }

    /// Pulls the oldest waiting item.
    pub fn poll_next(&mut self) -> (polled: Polled)
        ensures
            polled == old(self)@.polled(),
            final(self)@ == old(self)@.after_poll(),
            old(self)@.wf() ==> final(self)@.wf(),
    {
        if self.consumer_dropped {
            return Polled::End;
        }
        match self.queue.pop_front() {
            Some(item) => Polled::Item(item),
            None => if self.producer_closed {
                Polled::End
            } else {
                Polled::Pending
            },
        }
    }

    /// The caller walks away: what still waits is dropped, and the decoder
    /// learns of it at its next send.
    pub fn cancel(&mut self)
        ensures
            final(self)@ == old(self)@.after_cancel(),
            old(self)@.wf() ==> final(self)@.wf(),
    {
        self.queue.clear();
        self.consumer_dropped = true;
    }

    /// Where the stream stands in its life.
    pub fn state(&self) -> (state: StreamState)
        ensures
            state == self@.state(),
    {
        if self.consumer_dropped {
            StreamState::Closed
        } else if !self.producer_closed {
            StreamState::Open
        } else if self.queue.len() > 0 {
            StreamState::Draining
        } else {
            StreamState::Closed
        }
    }
}

/// One thing that happens to a stream.
pub enum StreamOp {
    /// The decoder offers an item.
    Send(StreamItem),
    /// The decoder closes its side.
    Close,
    /// The caller pulls.
    Poll,
    /// The caller walks away.
    Cancel,
}

/// A stream together with what has happened to it so far.
pub struct StreamHistory {
    pub stream: StreamView,
    /// The items that were enqueued, in the order of their arrival.
    pub accepted: Seq<StreamItem>,
    /// The items that were pulled, in the order of their departure.
    pub delivered: Seq<StreamItem>,
    /// A pull has reported the end.
    pub ended: bool,
}

impl StreamHistory {
    /// A fresh stream, to which nothing has happened yet.
    pub open spec fn start(capacity: nat) -> StreamHistory {
        StreamHistory {
            stream: StreamView::empty(capacity),
            accepted: Seq::empty(),
            delivered: Seq::empty(),
            ended: false,
        }
    }

    /// The history after `op`.
    pub open spec fn step(self, op: StreamOp) -> StreamHistory {
        match op {
            StreamOp::Send(item) => StreamHistory {
                stream: self.stream.after_send(item),
                accepted: if self.stream.send_outcome(item) is Ok {
                    self.accepted.push(item)
                } else {
                    self.accepted
                },
                ..self
            },
            StreamOp::Close => StreamHistory { stream: self.stream.after_close(), ..self },
            StreamOp::Poll => StreamHistory {
                stream: self.stream.after_poll(),
                delivered: match self.stream.polled() {
                    Polled::Item(item) => self.delivered.push(item),
                    _ => self.delivered,
                },
                ended: self.ended || self.stream.polled() is End,
                ..self
            },
            StreamOp::Cancel => StreamHistory { stream: self.stream.after_cancel(), ..self },
        }
    }

    /// The history after all of `ops`, one after the other.
    pub open spec fn run(self, ops: Seq<StreamOp>) -> StreamHistory
        decreases ops.len(),
    {
        if ops.len() == 0 {
            self
        } else {
            self.run(ops.drop_last()).step(ops.last())
        }
    }

    /// What went out is the beginning of what went in; while the caller is
    /// there, the rest of it waits; and the end is reported only of a closed
    /// stream in which nothing waits.
    pub open spec fn consistent(self) -> bool {
        &&& self.stream.wf()
        &&& self.delivered.is_prefix_of(self.accepted)
        &&& !self.stream.consumer_dropped ==> self.accepted == self.delivered + self.stream.pending
        &&& self.ended && !self.stream.consumer_dropped ==> self.stream.producer_closed
            && self.stream.pending.len() == 0
    }
}

/// The stream after `n` pulls.
pub open spec fn after_polls(stream: StreamView, n: nat) -> StreamView
    decreases n,
{
    if n == 0 {
        stream
    } else {
        after_polls(stream, (n - 1) as nat).after_poll()
    }
}

/// No single step breaks the order of delivery.
pub proof fn lemma_step_keeps_consistent(history: StreamHistory, op: StreamOp)
    requires
        history.consistent(),
    ensures
        history.step(op).consistent(),
{
    if op is Poll && history.stream.polled() is Item {
        let next = history.step(op);
        assert(next.accepted =~= next.delivered + next.stream.pending);
    }
}

/// First in, first out, each item once: whatever the decoder and the caller
/// do to a fresh stream, and in whatever order, the items pulled so far are
/// the first of the items enqueued, in the order of their arrival, with none
/// missing, repeated or invented. While the caller is there, the items that
/// have not been pulled yet are exactly those that wait. A pull reports the
/// end only after the decoder has closed its side, and by then every item
/// that was enqueued has been pulled.
pub proof fn lemma_delivery_is_fifo_exactly_once(capacity: nat, ops: Seq<StreamOp>)
    ensures
        ({
            let history = StreamHistory::start(capacity).run(ops);
            &&& history.delivered.is_prefix_of(history.accepted)
            &&& !history.stream.consumer_dropped ==> history.accepted == history.delivered
                + history.stream.pending
            &&& history.ended && !history.stream.consumer_dropped ==> history.stream.producer_closed
                && history.delivered == history.accepted
        }),
{
    lemma_run_is_consistent(capacity, ops);
}

proof fn lemma_run_is_consistent(capacity: nat, ops: Seq<StreamOp>)
    ensures
        StreamHistory::start(capacity).run(ops).consistent(),
    decreases ops.len(),
{
    if ops.len() > 0 {
        lemma_run_is_consistent(capacity, ops.drop_last());
        lemma_step_keeps_consistent(
            StreamHistory::start(capacity).run(ops.drop_last()),
            ops.last(),
        );
    }
}

/// Once the decoder has closed its side, the caller gets every waiting item,
/// oldest first, one per pull, and the pull after the last of them reports
/// the end.
pub proof fn lemma_closed_stream_drains_in_order(stream: StreamView)
    requires
        stream.producer_closed,
        !stream.consumer_dropped,
    ensures
        forall|i: int|
            0 <= i < stream.pending.len() ==> #[trigger] after_polls(stream, i as nat).polled()
                == Polled::Item(stream.pending[i]),
        after_polls(stream, stream.pending.len()).polled() == Polled::End,
{
    assert forall|n: nat| n <= stream.pending.len() implies #[trigger] after_polls(stream, n)
        == (StreamView { pending: stream.pending.skip(n as int), ..stream }) by {
        lemma_polls_skip(stream, n);
    }
}

proof fn lemma_polls_skip(stream: StreamView, n: nat)
    requires
        !stream.consumer_dropped,
        n <= stream.pending.len(),
    ensures
        after_polls(stream, n) == (StreamView { pending: stream.pending.skip(n as int), ..stream }),
    decreases n,
{
    if n == 0 {
        assert(stream.pending.skip(0) =~= stream.pending);
    } else {
        lemma_polls_skip(stream, (n - 1) as nat);
        let before = after_polls(stream, (n - 1) as nat);
        assert(before.pending.drop_first() =~= stream.pending.skip(n as int));
    }
}

/// A caller who walks away leaves the decoder unharmed: every later send
/// comes back at once with its item, refused as closed, and changes nothing.
pub proof fn lemma_send_after_cancel_is_refused(stream: StreamView, item: StreamItem)
    ensures
        stream.after_cancel().wf(),
        stream.after_cancel().state() == StreamState::Closed,
        stream.after_cancel().send_outcome(item) == Err::<(), TrySendError>(
            TrySendError::Closed(item),
        ),
        stream.after_cancel().after_send(item) == stream.after_cancel(),
{
}

} // verus!
