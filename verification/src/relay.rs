//! The frame relay: a first-in, first-out hand-over of frames from the capture side to the
//! writer.
//!
//! The relay never blocks and never fails loudly. A frame sent while nobody listens is
//! dropped; a receive on an empty relay reports that nothing is there yet, or, once the
//! sending side has hung up, that nothing will come any more. Waiting between two receives is
//! left to the thread that drives the relay.

use crate::frame::Frame;
use std::collections::VecDeque;
use vstd::prelude::*;

verus! {

/// What a receive finds, as mathematics: the bytes of a frame, or one of the two reasons
/// for there being none.
pub enum Delivery {
    /// The oldest frame in flight.
    Frame(Seq<u8>),
    /// Nothing in flight, but the sending side is still there.
    Pending,
    /// Nothing in flight, and nothing will come: the relay is closed.
    Closed,
}

/// What a receive hands to the writer.
pub enum Received {
    /// The oldest frame in flight.
    Frame(Frame),
    /// Nothing in flight, but the sending side is still there.
    Pending,
    /// Nothing in flight, and nothing will come: the relay is closed.
    Closed,
}

impl View for Received {
    type V = Delivery;

    open spec fn view(&self) -> Delivery {
        match self {
            Received::Frame(frame) => Delivery::Frame(frame@),
            Received::Pending => Delivery::Pending,
            Received::Closed => Delivery::Closed,
        }
    }
}

/// The relay as mathematics: the frames in flight, oldest first, and which ends are alive.
pub struct RelayState {
    /// Frames sent and not yet received, oldest first.
    pub pending: Seq<Seq<u8>>,
    /// Whether the sending side may still send.
    pub producer_open: bool,
    /// Whether the receiving side is still there.
    pub consumer_open: bool,
}

impl RelayState {
    /// A relay with both ends alive and nothing in flight.
    pub open spec fn fresh() -> RelayState {
        RelayState { pending: Seq::empty(), producer_open: true, consumer_open: true }
    }

    /// Whether a frame sent now would be queued.
    pub open spec fn accepts(self) -> bool {
        self.producer_open && self.consumer_open
    }

    /// The relay after one frame was sent: queued behind the others while both ends are
    /// alive, dropped otherwise.
    pub open spec fn send(self, frame: Seq<u8>) -> RelayState {
        if self.accepts() {
            RelayState { pending: self.pending.push(frame), ..self }
        } else {
            self
        }
    }

    /// What a receive finds.
    pub open spec fn front(self) -> Delivery {
        if !self.consumer_open {
            Delivery::Closed
        } else if self.pending.len() > 0 {
            Delivery::Frame(self.pending[0])
        } else if self.producer_open {
            Delivery::Pending
        } else {
            Delivery::Closed
        }
    }

    /// The relay after one receive: the oldest frame, if there was one, has left.
    pub open spec fn recv(self) -> RelayState {
        if self.consumer_open && self.pending.len() > 0 {
            RelayState { pending: self.pending.drop_first(), ..self }
        } else {
            self
        }
    }

    /// The relay after the sending side hung up. Frames in flight stay deliverable.
    pub open spec fn close(self) -> RelayState {
        RelayState { producer_open: false, ..self }
    }

    /// The relay after the receiving side went away. Frames in flight are lost with it.
    pub open spec fn disconnect(self) -> RelayState {
        RelayState { pending: Seq::empty(), consumer_open: false, ..self }
    }

    /// The relay after the frames were sent one after another, first to last.
    pub open spec fn send_all(self, frames: Seq<Seq<u8>>) -> RelayState
        decreases frames.len(),
    {
        if frames.len() == 0 {
            self
        } else {
            self.send(frames[0]).send_all(frames.drop_first())
        }
    }

    /// The frames that receive after receive delivers, until one finds no frame.
    pub open spec fn drain(self) -> Seq<Seq<u8>>
        decreases self.pending.len(),
    {
        match self.front() {
            Delivery::Frame(frame) => seq![frame] + self.recv().drain(),
            _ => Seq::empty(),
        }
    }
}

/// The relay between the capture callback and the writer.
pub struct FrameRelay {
    queue: VecDeque<Frame>,
    producer_open: bool,
    consumer_open: bool,
}

impl View for FrameRelay {
    type V = RelayState;

    closed spec fn view(&self) -> RelayState {
        RelayState {
            pending: self.queue@.map_values(|frame: Frame| frame@),
            producer_open: self.producer_open,
            consumer_open: self.consumer_open,
        }
    }
}

impl FrameRelay {
    /// A relay with both ends alive and nothing in flight.
    pub fn new() -> (relay: FrameRelay)
        ensures
            relay@ == RelayState::fresh(),
    {
        let relay = FrameRelay { queue: VecDeque::new(), producer_open: true, consumer_open: true };
        assert(relay@.pending =~= Seq::empty());
        relay
    }

    /// Hands a frame to the relay and returns at once.
    ///
    /// The result tells whether the frame was queued. It is not queued when the receiving
    /// side is gone or the sending side has hung up; the relay is then left as it was, and
    /// the sender is free to go on.
    pub fn send(&mut self, frame: Frame) -> (queued: bool)
        ensures
            queued == old(self)@.accepts(),
            final(self)@ == old(self)@.send(frame@),
    {
        if self.producer_open && self.consumer_open {
            self.queue.push_back(frame);
            assert(self@.pending =~= old(self)@.pending.push(frame@));
            true
        } else {
            false
        }
    }

    /// Takes the oldest frame in flight, if there is one, and returns at once.
    pub fn recv(&mut self) -> (received: Received)
        ensures
            received@ == old(self)@.front(),
            final(self)@ == old(self)@.recv(),
    {
        if !self.consumer_open {
            return Received::Closed;
        }
        match self.queue.pop_front() {
            Some(frame) => {
                assert(self@.pending =~= old(self)@.pending.drop_first());
                Received::Frame(frame)
            },
            None => {
                if self.producer_open {
                    Received::Pending
                } else {
                    Received::Closed
                }
            },
        }
    }

    /// Hangs up the sending side. Frames already in flight can still be received.
    pub fn close(&mut self)
        ensures
            final(self)@ == old(self)@.close(),
    {
        self.producer_open = false;
    }

    /// Takes the receiving side away. Frames in flight are dropped, and so is every frame
    /// sent from now on.
    pub fn disconnect(&mut self)
        ensures
            final(self)@ == old(self)@.disconnect(),
    {
        self.consumer_open = false;
        self.queue.clear();
        assert(self@.pending =~= Seq::empty());
    }

    /// How many frames are in flight.
    pub fn pending(&self) -> (count: usize)
        ensures
            count == self@.pending.len(),
    {
        self.queue.len()
    }

    /// Whether the receiving side is still there.
    pub fn is_connected(&self) -> (connected: bool)
        ensures
            connected == self@.consumer_open,
    {
        self.consumer_open
    }

    /// Whether the sending side may still send.
    pub fn is_open(&self) -> (open: bool)
        ensures
            open == self@.producer_open,
    {
        self.producer_open
    }
}

/// One thing done to a relay whose receiving side stays alive.
pub enum RelayOp {
    /// The capture side sends a frame.
    Send(Seq<u8>),
    /// The writer asks for the next frame.
    Recv,
    /// The capture side hangs up.
    Close,
}

impl RelayState {
    /// The relay after one operation.
    pub open spec fn apply(self, op: RelayOp) -> RelayState {
        match op {
            RelayOp::Send(frame) => self.send(frame),
            RelayOp::Recv => self.recv(),
            RelayOp::Close => self.close(),
        }
    }

    /// The frame that the operation puts in flight, if it is a send that the relay accepts.
    pub open spec fn accepted_by(self, op: RelayOp) -> Seq<Seq<u8>> {
        match op {
            RelayOp::Send(frame) => if self.accepts() {
                seq![frame]
            } else {
                Seq::empty()
            },
            _ => Seq::empty(),
        }
    }

    /// The frame that the operation hands to the writer, if it is a receive that finds one.
    pub open spec fn delivered_by(self, op: RelayOp) -> Seq<Seq<u8>> {
        match op {
            RelayOp::Recv => match self.front() {
                Delivery::Frame(frame) => seq![frame],
                _ => Seq::empty(),
            },
            _ => Seq::empty(),
        }
    }

    /// The relay after the operations, first to last.
    pub open spec fn run(self, ops: Seq<RelayOp>) -> RelayState
        decreases ops.len(),
    {
        if ops.len() == 0 {
            self
        } else {
            self.apply(ops[0]).run(ops.drop_first())
        }
    }

    /// The frames that the operations put in flight, in the order of their sends.
    pub open spec fn accepted(self, ops: Seq<RelayOp>) -> Seq<Seq<u8>>
        decreases ops.len(),
    {
        if ops.len() == 0 {
            Seq::empty()
        } else {
            self.accepted_by(ops[0]) + self.apply(ops[0]).accepted(ops.drop_first())
        }
    }

    /// The frames that the operations hand to the writer, in the order of their receives.
    pub open spec fn delivered(self, ops: Seq<RelayOp>) -> Seq<Seq<u8>>
        decreases ops.len(),
    {
        if ops.len() == 0 {
            Seq::empty()
        } else {
            self.delivered_by(ops[0]) + self.apply(ops[0]).delivered(ops.drop_first())
        }
    }
}

/// Sending a run of frames into a relay that accepts them queues them all, in order, behind
/// what was already in flight.
pub proof fn lemma_send_all_appends(relay: RelayState, frames: Seq<Seq<u8>>)
    requires
        relay.accepts(),
    ensures
        relay.send_all(frames) == (RelayState { pending: relay.pending + frames, ..relay }),
    decreases frames.len(),
{
    if frames.len() == 0 {
        assert(relay.pending + frames =~= relay.pending);
    } else {
        let next = relay.send(frames[0]);
        lemma_send_all_appends(next, frames.drop_first());
        assert(next.pending + frames.drop_first() =~= relay.pending + frames);
    }
}

/// Receiving until nothing is found delivers exactly what was in flight, oldest first.
pub proof fn lemma_drain_delivers_pending(relay: RelayState)
    requires
        relay.consumer_open,
    ensures
        relay.drain() == relay.pending,
    decreases relay.pending.len(),
{
    if relay.pending.len() == 0 {
        assert(relay.drain() =~= relay.pending);
    } else {
        lemma_drain_delivers_pending(relay.recv());
        assert(seq![relay.pending[0]] + relay.pending.drop_first() =~= relay.pending);
    }
}

/// Frames leave the relay in the order in which they entered it, each with the bytes it
/// came with: whatever was sent into a fresh relay before the sending side hung up is what
/// the writer receives, frame for frame.
pub proof fn law_fifo_round_trip(frames: Seq<Seq<u8>>)
    ensures
        RelayState::fresh().send_all(frames).close().drain() == frames,
{
    let fresh = RelayState::fresh();
    lemma_send_all_appends(fresh, frames);
    assert(fresh.pending + frames =~= frames);
    lemma_drain_delivers_pending(fresh.send_all(frames).close());
}

/// However sends, receives and the hang-up of the sending side are interleaved, nothing is
/// lost, duplicated or reordered while the receiving side is alive: what was in flight
/// before, followed by what was accepted, is what was delivered, followed by what is still
/// in flight.
pub proof fn law_fifo_preserved(relay: RelayState, ops: Seq<RelayOp>)
    requires
        relay.consumer_open,
    ensures
        relay.run(ops).consumer_open,
        relay.pending + relay.accepted(ops) == relay.delivered(ops) + relay.run(ops).pending,
    decreases ops.len(),
{
    if ops.len() == 0 {
        assert(relay.pending + relay.accepted(ops) =~= relay.delivered(ops) + relay.run(ops).pending);
    } else {
        let op = ops[0];
        let next = relay.apply(op);
        let rest = ops.drop_first();
        law_fifo_preserved(next, rest);
        assert(relay.pending + relay.accepted_by(op) =~= relay.delivered_by(op) + next.pending);
        assert(relay.pending + relay.accepted(ops) =~= (relay.pending + relay.accepted_by(op))
            + next.accepted(rest));
        assert(relay.delivered(ops) + relay.run(ops).pending =~= relay.delivered_by(op) + (
        next.delivered(rest) + next.run(rest).pending));
        assert((relay.delivered_by(op) + next.pending) + next.accepted(rest)
            =~= relay.delivered_by(op) + (next.pending + next.accepted(rest)));
    }
}

/// Once the receiving side is gone, sending changes nothing: every frame is dropped and the
/// relay stays as it is, however many frames the capture side goes on to send.
pub proof fn law_silent_disconnect(relay: RelayState, frames: Seq<Seq<u8>>)
    requires
        !relay.consumer_open,
    ensures
        relay.send_all(frames) == relay,
    decreases frames.len(),
{
    if frames.len() > 0 {
        law_silent_disconnect(relay, frames.drop_first());
    }
}

} // verus!
