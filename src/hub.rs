//! The delivery protocol of one subscription to a signal stream of the hub.
//!
//! A subscriber registers its receiving end first, then takes a snapshot of
//! the current state and hands it to its handler (the replay), then hands on
//! every message that arrives until the stream's sentinel. Because the
//! receiving end exists before the snapshot is taken, no broadcast made
//! during the join is lost; at worst the same state is delivered twice.
use vstd::prelude::*;

verus! {

/// Where a subscription stands.
#[derive(Clone, Copy, Debug, PartialEq, Eq)]
pub enum Phase {
    /// Registered with the hub, snapshot not yet delivered.
    Joining,
    /// Snapshot delivered; live messages are handed on.
    Live,
    /// The sentinel arrived; nothing more is handed on.
    Closed,
}

/// What the subscriber's loop does after a step of the protocol.
#[derive(Clone, Debug, PartialEq, Eq)]
pub enum Step<T> {
    /// Call the handler with this value and keep receiving.
    Deliver(T),
    /// Leave the loop.
    Stop,
}

/// The state of one subscription, with the sequence of values it has handed
/// to its handler.
pub struct Subscription<T> {
    phase: Phase,
    delivered: Ghost<Seq<T>>,
    replayed: Ghost<Option<T>>,
}

impl<T> Subscription<T> {
    pub closed spec fn phase(&self) -> Phase {
        self.phase
    }

    /// Every value handed to the handler so far, in order.
    pub closed spec fn delivered(&self) -> Seq<T> {
        self.delivered@
    }

    /// The snapshot handed over at the join, once there is one.
    pub closed spec fn replayed(&self) -> Option<T> {
        self.replayed@
    }

    /// The snapshot comes first, exactly once, and nothing precedes it.
    pub open spec fn wf(&self) -> bool {
        match self.phase() {
            Phase::Joining => self.delivered().len() == 0 && self.replayed().is_none(),
            _ => self.delivered().len() >= 1 && self.replayed() == Some(self.delivered()[0]),
        }
    }

    /// A subscription whose receiving end has just been registered.
    pub fn new() -> (s: Self)
        ensures
            s.wf(),
            s.phase() == Phase::Joining,
            s.delivered() == Seq::<T>::empty(),
    {
        Subscription { phase: Phase::Joining, delivered: Ghost(Seq::empty()), replayed: Ghost(None) }
    }

    pub fn phase_now(&self) -> (r: Phase)
        ensures
            r == self.phase(),
    {
        self.phase
    }

    pub fn is_open(&self) -> (r: bool)
        ensures
            r == (self.phase() != Phase::Closed),
    {
        !matches!(self.phase, Phase::Closed)
    }

    /// Hands over the snapshot taken after registration.
    pub fn replay(&mut self, snapshot: T) -> (r: Step<T>)
        requires
            old(self).wf(),
            old(self).phase() == Phase::Joining,
        ensures
            final(self).wf(),
            final(self).phase() == Phase::Live,
            final(self).delivered() == seq![snapshot],
            final(self).replayed() == Some(snapshot),
            r == Step::Deliver(snapshot),
    {
        self.phase = Phase::Live;
        proof {
            self.delivered = Ghost(seq![snapshot]);
            self.replayed = Ghost(Some(snapshot));
        }
        Step::Deliver(snapshot)
    }

    /// Handles one message of the stream: `Some` is a live value, `None` the
    /// sentinel. A live subscription hands on a value and closes on the
    /// sentinel; a closed one hands on nothing.
    pub fn receive(&mut self, msg: Option<T>) -> (r: Step<T>)
        requires
            old(self).wf(),
            old(self).phase() != Phase::Joining,
        ensures
            final(self).wf(),
            final(self).replayed() == old(self).replayed(),
            (final(self).delivered(), final(self).phase() == Phase::Live) == receive_model(
                old(self).delivered(),
                old(self).phase() == Phase::Live,
                msg,
            ),
            old(self).phase() == Phase::Live && msg.is_some() ==> {
                &&& r == Step::Deliver(msg.unwrap())
                &&& final(self).phase() == Phase::Live
                &&& final(self).delivered() == old(self).delivered().push(msg.unwrap())
            },
            old(self).phase() == Phase::Closed || msg.is_none() ==> {
                &&& r == Step::<T>::Stop
                &&& final(self).phase() == Phase::Closed
                &&& final(self).delivered() == old(self).delivered()
            },
    {
        match self.phase {
            Phase::Live => match msg {
                Some(v) => {
                    proof {
                        self.delivered = Ghost(self.delivered@.push(v));
                    }
                    Step::Deliver(v)
                },
                None => {
                    self.phase = Phase::Closed;
                    Step::Stop
                },
            },
            _ => {
                self.phase = Phase::Closed;
                Step::Stop
            },
        }
    }
}

/// One message applied to a subscription past its join, as (values handed
/// to the handler, still live).
pub open spec fn receive_model<T>(delivered: Seq<T>, live: bool, msg: Option<T>) -> (Seq<T>, bool) {
    if live && msg.is_some() {
        (delivered.push(msg.unwrap()), true)
    } else {
        (delivered, false)
    }
}

/// A sequence of messages applied in order, from the left.
pub open spec fn run_model<T>(delivered: Seq<T>, live: bool, msgs: Seq<Option<T>>) -> (Seq<T>, bool)
    decreases msgs.len(),
{
    if msgs.len() == 0 {
        (delivered, live)
    } else {
        let prev = run_model(delivered, live, msgs.drop_last());
        receive_model(prev.0, prev.1, msgs.last())
    }
}

/// The live values of a stream: those that precede its first sentinel.
pub open spec fn live_prefix<T>(msgs: Seq<Option<T>>) -> Seq<T>
    decreases msgs.len(),
{
    if msgs.len() == 0 {
        Seq::empty()
    } else if msgs[0].is_none() {
        Seq::empty()
    } else {
        seq![msgs[0].unwrap()] + live_prefix(msgs.drop_first())
    }
}

proof fn lemma_run_split<T>(delivered: Seq<T>, msgs: Seq<Option<T>>)
    ensures
        run_model(delivered, true, msgs).0 == delivered + live_prefix(msgs),
        run_model(delivered, true, msgs).1 <==> (forall|i: int| 0 <= i < msgs.len() ==> #[trigger] msgs[i].is_some()),
    decreases msgs.len(),
{
    if msgs.len() == 0 {
        assert(delivered + Seq::<T>::empty() =~= delivered);
    } else {
        let first = msgs[0];
        let rest = msgs.drop_first();
        if first.is_none() {
            lemma_run_after_close(delivered, msgs);
            assert(delivered + Seq::<T>::empty() =~= delivered);
        } else {
            let d1 = delivered.push(first.unwrap());
            lemma_run_first(delivered, msgs);
            lemma_run_split(d1, rest);
            assert(d1 + live_prefix(rest) =~= delivered + (seq![first.unwrap()] + live_prefix(rest)));
            assert forall|i: int| 0 <= i < msgs.len() implies #[trigger] msgs[i].is_some() <==> (
                i == 0 || rest[i - 1].is_some()
            ) by {
                if i > 0 {
                    assert(rest[i - 1] == msgs[i]);
                }
            }
            if run_model(d1, true, rest).1 {
                assert forall|i: int| 0 <= i < msgs.len() implies #[trigger] msgs[i].is_some() by {
                    if i > 0 {
                        assert(rest[i - 1].is_some());
                    }
                }
            } else {
                let j = choose|j: int| 0 <= j < rest.len() && !(#[trigger] rest[j]).is_some();
                assert(!msgs[j + 1].is_some());
            }
        }
    }
}

/// Running from a closed state hands nothing on and stays closed.
proof fn lemma_run_from_closed<T>(delivered: Seq<T>, msgs: Seq<Option<T>>)
    ensures
        run_model(delivered, false, msgs) == (delivered, false),
    decreases msgs.len(),
{
    if msgs.len() > 0 {
        lemma_run_from_closed(delivered, msgs.drop_last());
    }
}

/// Running a stream that starts with a value: the value first, then the rest.
proof fn lemma_run_first<T>(delivered: Seq<T>, msgs: Seq<Option<T>>)
    requires
        msgs.len() > 0,
    ensures
        run_model(delivered, true, msgs) == run_model(
            receive_model(delivered, true, msgs[0]).0,
            receive_model(delivered, true, msgs[0]).1,
            msgs.drop_first(),
        ),
    decreases msgs.len(),
{
    if msgs.len() == 1 {
        assert(msgs.drop_last() =~= Seq::<Option<T>>::empty());
        assert(msgs.drop_first() =~= Seq::<Option<T>>::empty());
        assert(run_model(delivered, true, msgs.drop_last()) == (delivered, true));
        assert(msgs.last() == msgs[0]);
    } else {
        let r0 = receive_model(delivered, true, msgs[0]);
        let tail = msgs.drop_first();
        lemma_run_first(delivered, msgs.drop_last());
        assert(msgs.drop_last()[0] == msgs[0]);
        assert(msgs.drop_last().drop_first() =~= tail.drop_last());
        assert(tail.last() == msgs.last());
        assert(tail.len() > 0);
        let mid = run_model(r0.0, r0.1, tail.drop_last());
        assert(run_model(r0.0, r0.1, tail) == receive_model(mid.0, mid.1, tail.last()));
        let pre = run_model(delivered, true, msgs.drop_last());
        assert(pre == mid);
        assert(run_model(delivered, true, msgs) == receive_model(pre.0, pre.1, msgs.last()));
    }
}

proof fn lemma_run_after_close<T>(delivered: Seq<T>, msgs: Seq<Option<T>>)
    requires
        msgs.len() > 0,
        msgs[0].is_none(),
    ensures
        run_model(delivered, true, msgs) == (delivered, false),
{
    lemma_run_first(delivered, msgs);
    lemma_run_from_closed(delivered, msgs.drop_first());
}

/// Replay on join: whatever messages follow the join, the handler is handed
/// the snapshot first and once, then exactly the live values that precede
/// the first sentinel, in the order broadcast; the subscription stays live
/// as long as no sentinel has come.
pub proof fn lemma_replay_first<T>(snapshot: T, msgs: Seq<Option<T>>)
    ensures
        run_model(seq![snapshot], true, msgs).0 == seq![snapshot] + live_prefix(msgs),
        run_model(seq![snapshot], true, msgs).0[0] == snapshot,
        run_model(seq![snapshot], true, msgs).1 <==> (forall|i: int| 0 <= i < msgs.len() ==> #[trigger] msgs[i].is_some()),
{
    lemma_run_split(seq![snapshot], msgs);
}

/// Termination: after a sentinel the subscription is closed, and any further
/// messages, a second sentinel included, hand nothing more to the handler.
pub proof fn lemma_sentinel_idempotent<T>(delivered: Seq<T>, live: bool, before: Seq<Option<T>>, after: Seq<Option<T>>)
    ensures
        run_model(delivered, live, before.push(None)).1 == false,
        run_model(delivered, live, before.push(None) + after) == run_model(delivered, live, before.push(None)),
    decreases after.len(),
{
    let closed = before.push(None);
    assert(closed.drop_last() =~= before);
    if after.len() > 0 {
        lemma_sentinel_idempotent(delivered, live, before, after.drop_last());
        assert((closed + after).drop_last() =~= closed + after.drop_last());
    } else {
        assert(closed + after =~= closed);
    }
}

} // verus!
