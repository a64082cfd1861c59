//! The bounded queue between callers and the send pump. The pump sends a
//! message only while the session is authenticated and drops it otherwise.
use vstd::prelude::*;
use crate::bytes::contains;
use crate::frame::{challenge_marker, is_ack};
use crate::identity::DeviceIdentity;
use crate::session::{ack_target, frame_step, Action, Notice, SessionState, OUTBOUND_CAPACITY};

verus! {

/// The queue is full; the message was not taken.
#[derive(Debug, Clone, Copy, PartialEq, Eq, Structural)]
pub struct QueueFull;

/// What one run of the pump did.
#[derive(Debug, PartialEq, Eq)]
pub enum Dispatch {
    /// The queue was empty.
    Idle,
    /// Put this message on the wire.
    Send(String),
    /// A message was taken and dropped: the session was not authenticated.
    Dropped,
}

pub struct OutboundQueue {
    items: Vec<String>,
}

/// The queue after submitting `m`, and whether it was taken.
pub open spec fn submit_spec(q: Seq<Seq<char>>, m: Seq<char>) -> (Seq<Seq<char>>, bool) {
    if q.len() < OUTBOUND_CAPACITY {
        (q.push(m), true)
    } else {
        (q, false)
    }
}

/// The messages that reach the wire when the pump empties `q` while the
/// session stays in state `s`.
pub open spec fn drained_sends(q: Seq<Seq<char>>, s: SessionState) -> Seq<Seq<char>>
    decreases q.len(),
{
    if q.len() == 0 {
        Seq::empty()
    } else if s == SessionState::Authenticated {
        seq![q[0]] + drained_sends(q.drop_first(), s)
    } else {
        drained_sends(q.drop_first(), s)
    }
}

/// Outside the authenticated state the pump sends nothing: every message
/// waiting in the queue is dropped, none is kept for a later session.
pub proof fn lemma_nothing_sent_unless_authenticated(q: Seq<Seq<char>>, s: SessionState)
    requires
        s != SessionState::Authenticated,
    ensures
        drained_sends(q, s) == Seq::<Seq<char>>::empty(),
    decreases q.len(),
{
    if q.len() > 0 {
        lemma_nothing_sent_unless_authenticated(q.drop_first(), s);
    }
}

/// A message submitted while the session is not authenticated, with room
/// in the queue, is accepted and then dropped by the pump, never sent.
pub proof fn lemma_unauthenticated_submit_is_dropped(
    q: Seq<Seq<char>>,
    m: Seq<char>,
    s: SessionState,
)
    requires
        q.len() < OUTBOUND_CAPACITY,
        s != SessionState::Authenticated,
    ensures
        submit_spec(q, m).1,
        submit_spec(q, m).0.last() == m,
        drained_sends(submit_spec(q, m).0, s) == Seq::<Seq<char>>::empty(),
{
    lemma_nothing_sent_unless_authenticated(submit_spec(q, m).0, s);
}

/// While authenticated the pump sends every waiting message, in order.
pub proof fn lemma_authenticated_sends_in_order(q: Seq<Seq<char>>)
    ensures
        drained_sends(q, SessionState::Authenticated) == q,
    decreases q.len(),
{
    if q.len() > 0 {
        lemma_authenticated_sends_in_order(q.drop_first());
        assert(seq![q[0]] + q.drop_first() =~= q);
    }
}

/// A matching acknowledgement authenticates the session, and from then on
/// the pump sends every waiting message, in queue order.
pub proof fn lemma_ack_opens_the_queue(
    p: Option<Seq<char>>,
    n: u64,
    identity: DeviceIdentity,
    text: Seq<char>,
    b: Seq<u8>,
    signed_at: u64,
    s_next: SessionState,
    p_next: Option<Seq<char>>,
    n_next: u64,
    r: Action,
    q: Seq<Seq<char>>,
)
    requires
        frame_step(SessionState::Authenticating, p, n, identity, text, b, signed_at, s_next, p_next, n_next, r),
        !contains(b, challenge_marker()),
        is_ack(b, ack_target(p)),
    ensures
        s_next == SessionState::Authenticated,
        r == Action::Notify(Notice::Authenticated),
        drained_sends(q, s_next) == q,
{
    lemma_authenticated_sends_in_order(q);
}

impl OutboundQueue {
    pub closed spec fn view(&self) -> Seq<Seq<char>> {
        self.items@.map_values(|s: String| s@)
    }

    pub open spec fn wf(&self) -> bool {
        self.view().len() <= OUTBOUND_CAPACITY
    }

    pub fn new() -> (r: OutboundQueue)
        ensures
            r.wf(),
            r.view() == Seq::<Seq<char>>::empty(),
    {
        let r = OutboundQueue { items: Vec::new() };
        assert(r.view() =~= Seq::<Seq<char>>::empty());
        r
    }

    pub fn len(&self) -> (r: usize)
        ensures
            r == self.view().len(),
    {
        self.items.len()
    }

    /// Takes `msg` if there is room; fails at once when the queue is full.
    pub fn submit(&mut self, msg: String) -> (r: Result<(), QueueFull>)
        requires
            old(self).wf(),
        ensures
            final(self).wf(),
            final(self).view() == submit_spec(old(self).view(), msg@).0,
            r is Ok <==> submit_spec(old(self).view(), msg@).1,
    {
        if self.items.len() >= OUTBOUND_CAPACITY {
            return Err(QueueFull);
        }
        let ghost before = self.items@;
        self.items.push(msg);
        assert(self.items@.map_values(|s: String| s@) =~= before.map_values(|s: String| s@).push(
            msg@,
        ));
        Ok(())
    }

    /// Takes the oldest message: to be sent if the session is authenticated,
    /// dropped if not.
    pub fn pump(&mut self, state: SessionState) -> (r: Dispatch)
        requires
            old(self).wf(),
        ensures
            final(self).wf(),
            old(self).view().len() == 0 ==> r is Idle && final(self).view() == old(self).view(),
            old(self).view().len() > 0 ==> final(self).view() == old(self).view().drop_first(),
            old(self).view().len() > 0 && state == SessionState::Authenticated ==> (r matches Dispatch::Send(
                m,
            ) && m@ == old(self).view()[0]),
            old(self).view().len() > 0 && state != SessionState::Authenticated ==> r is Dropped,
    {
        if self.items.len() == 0 {
            return Dispatch::Idle;
        }
        let ghost before = self.items@;
        let m = self.items.remove(0);
        assert(self.items@.map_values(|s: String| s@) =~= before.map_values(|s: String| s@).drop_first());
        if state == SessionState::Authenticated {
            Dispatch::Send(m)
        } else {
            Dispatch::Dropped
        }
    }
}

} // verus!
