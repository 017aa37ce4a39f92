//! One realtime connection: its phase, its bus subscription, and the
//! decisions taken as its two directions deliver frames and end.
//!
//! The caller runs the inbound and outbound loops; each frame and each end of
//! a loop is handed to the session, which says what to do next.
use vstd::prelude::*;
use crate::bus::{WsState, after_publish};
use crate::message::WsMessage;

verus! {

/// Life cycle of a session: `Active → Closing → Closed`. A session comes to
/// be when its connection's upgrade has completed and it has subscribed.
#[derive(Debug, Clone, Copy, PartialEq, Eq, Structural)]
pub enum SessionPhase {
    Active,
    Closing,
    Closed,
}

/// One direction of a connection, each served by its own loop.
#[derive(Debug, Clone, Copy, PartialEq, Eq, Structural)]
pub enum Direction {
    /// Frames from the client, republished to the bus.
    Inbound,
    /// Events from the bus, written to the client.
    Outbound,
}

/// What became of an inbound frame.
#[derive(Debug, Clone, Copy, PartialEq, Eq, Structural)]
pub enum FrameOutcome {
    /// The frame decoded to an event, which was published to every subscription.
    Published,
    /// The frame did not decode to an event and was dropped; the session goes on.
    Discarded,
    /// The session no longer takes frames.
    Ignored,
}

/// The other direction.
pub open spec fn other(d: Direction) -> Direction {
    match d {
        Direction::Inbound => Direction::Outbound,
        Direction::Outbound => Direction::Inbound,
    }
}

/// What one inbound frame does to the bus's queues: a decoded event is
/// published, anything else changes nothing.
pub open spec fn frame_effect(m: Map<u64, Seq<WsMessage>>, frame: Option<WsMessage>, cap: nat) -> Map<u64, Seq<WsMessage>> {
    match frame {
        Some(msg) => after_publish(m, msg, cap),
        None => m,
    }
}

/// A session and the bus subscription it owns.
#[derive(Debug, Clone, Copy, PartialEq, Eq)]
pub struct Session {
    pub phase: SessionPhase,
    pub subscription: u64,
}

impl Session {
    /// Whether the session's subscription is live on `bus` for as long as
    /// the session has not released it.
    pub open spec fn holds(&self, bus: &WsState) -> bool {
        &&& bus.wf()
        &&& (self.phase == SessionPhase::Active || self.phase == SessionPhase::Closing)
            ==> bus@.dom().contains(self.subscription)
    }

    /// Opens a session on an upgraded connection: it subscribes to the bus
    /// and becomes active.
    pub fn open(bus: &mut WsState) -> (s: Session)
        requires
            old(bus).wf(),
            old(bus).can_subscribe(),
        ensures
            s.phase == SessionPhase::Active,
            s.holds(&*final(bus)),
            !old(bus)@.dom().contains(s.subscription),
            final(bus)@ == old(bus)@.insert(s.subscription, Seq::<WsMessage>::empty()),
            final(bus).cap() == old(bus).cap(),
            final(bus).sequenced() == old(bus).sequenced(),
            final(bus).issued() == old(bus).issued() + 1,
    {
        let id = bus.subscribe();
        Session { phase: SessionPhase::Active, subscription: id }
    }

    /// Handles one inbound frame, already decoded (`None`: not JSON, or no
    /// known event). An active session publishes a decoded event and drops
    /// anything else; neither ends the session.
    pub fn on_frame(&self, bus: &mut WsState, frame: Option<WsMessage>) -> (r: FrameOutcome)
        requires
            self.holds(&*old(bus)),
            self.phase == SessionPhase::Active && frame is Some ==> old(bus).can_publish(),
        ensures
            self.holds(&*final(bus)),
            final(bus).cap() == old(bus).cap(),
            final(bus).issued() == old(bus).issued(),
            final(bus).sequenced() == old(bus).sequenced() + (if self.phase == SessionPhase::Active && frame is Some { 1int } else { 0int }),
            self.phase == SessionPhase::Active ==> final(bus)@ == frame_effect(old(bus)@, frame, old(bus).cap()),
            self.phase == SessionPhase::Active && frame is Some ==> final(bus)@.dom() == old(bus)@.dom()
                && final(bus)@[self.subscription].last() == frame->Some_0,
            self.phase == SessionPhase::Active ==> r == (if frame is Some { FrameOutcome::Published } else { FrameOutcome::Discarded }),
            self.phase != SessionPhase::Active ==> r == FrameOutcome::Ignored && final(bus)@ == old(bus)@,
    {
        if self.phase != SessionPhase::Active {
            return FrameOutcome::Ignored;
        }
        match frame {
            Some(msg) => {
                bus.publish(msg);
                FrameOutcome::Published
            },
            None => FrameOutcome::Discarded,
        }
    }

    /// The next event to write to the client, if one is waiting.
    pub fn next_outbound(&self, bus: &mut WsState) -> (r: Option<WsMessage>)
        requires
            self.holds(&*old(bus)),
        ensures
            self.holds(&*final(bus)),
            final(bus).cap() == old(bus).cap(),
            final(bus).sequenced() == old(bus).sequenced(),
            final(bus).issued() == old(bus).issued(),
            self.phase != SessionPhase::Active ==> r is None && final(bus)@ == old(bus)@,
            self.phase == SessionPhase::Active && old(bus)@[self.subscription].len() == 0
                ==> r is None && final(bus)@ == old(bus)@,
            self.phase == SessionPhase::Active && old(bus)@[self.subscription].len() > 0
                ==> r == Some(old(bus)@[self.subscription][0]) && final(bus)@ == old(bus)@.insert(
                self.subscription,
                old(bus)@[self.subscription].drop_first(),
            ),
    {
        if self.phase != SessionPhase::Active {
            return None;
        }
        bus.recv(self.subscription)
    }

    /// Records that the loop serving `ended` has finished (its connection
    /// closed or a write failed). The first such end moves an active session
    /// to `Closing` and names the other loop, which must be cancelled at once.
    pub fn on_loop_end(&mut self, ended: Direction) -> (cancel: Option<Direction>)
        ensures
            final(self).subscription == old(self).subscription,
            old(self).phase == SessionPhase::Active ==> final(self).phase == SessionPhase::Closing
                && cancel == Some(other(ended)),
            old(self).phase != SessionPhase::Active ==> *final(self) == *old(self) && cancel is None,
    {
        if self.phase != SessionPhase::Active {
            return None;
        }
        self.phase = SessionPhase::Closing;
        match ended {
            Direction::Inbound => Some(Direction::Outbound),
            Direction::Outbound => Some(Direction::Inbound),
        }
    }

    /// Finishes a closing session: its subscription is released, so the bus
    /// delivers nothing more to it and counts one subscriber fewer.
    pub fn close(&mut self, bus: &mut WsState)
        requires
            old(self).holds(&*old(bus)),
            old(self).phase == SessionPhase::Closing,
        ensures
            final(self).phase == SessionPhase::Closed,
            final(self).subscription == old(self).subscription,
            final(self).holds(&*final(bus)),
            final(bus)@ == old(bus)@.remove(old(self).subscription),
            final(bus)@.dom().len() + 1 == old(bus)@.dom().len(),
            final(bus).cap() == old(bus).cap(),
            final(bus).sequenced() == old(bus).sequenced(),
            final(bus).issued() == old(bus).issued(),
    {
        proof {
            old(bus).lemma_dom_finite();
        }
        bus.unsubscribe(self.subscription);
        self.phase = SessionPhase::Closed;
    }
}

/// Once a session's subscription is released, no later publish delivers to
/// it, and the bus counts one subscriber fewer than before the release.
pub proof fn lemma_released_gets_nothing(m: Map<u64, Seq<WsMessage>>, id: u64, later: Seq<WsMessage>, cap: nat)
    requires
        m.dom().finite(),
        m.dom().contains(id),
    ensures
        m.remove(id).dom().len() + 1 == m.dom().len(),
        !published_all(m.remove(id), later, cap).dom().contains(id),
{
    lemma_not_resurrected(m.remove(id), id, later, cap);
}

/// The queues after publishing `events` one after another.
pub open spec fn published_all(m: Map<u64, Seq<WsMessage>>, events: Seq<WsMessage>, cap: nat) -> Map<u64, Seq<WsMessage>>
    decreases events.len(),
{
    if events.len() == 0 {
        m
    } else {
        after_publish(published_all(m, events.drop_last(), cap), events.last(), cap)
    }
}

proof fn lemma_not_resurrected(m: Map<u64, Seq<WsMessage>>, id: u64, events: Seq<WsMessage>, cap: nat)
    requires
        !m.dom().contains(id),
    ensures
        !published_all(m, events, cap).dom().contains(id),
    decreases events.len(),
{
    if events.len() > 0 {
        lemma_not_resurrected(m, id, events.drop_last(), cap);
    }
}

/// A frame that does not decode leaves every queue as it was, so the next
/// frame, if it decodes, is published just as if the bad one had not come.
pub proof fn lemma_bad_frame_harmless(m: Map<u64, Seq<WsMessage>>, next: Option<WsMessage>, cap: nat)
    ensures
        frame_effect(m, None, cap) == m,
        frame_effect(frame_effect(m, None, cap), next, cap) == frame_effect(m, next, cap),
{
}

} // verus!
