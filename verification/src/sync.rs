//! The synchronization loop's state and policy. The loop owns the
//! resumption token exclusively: it advances exactly when a fetch delivers
//! a batch, so no events are lost or repeated across fetches. A transient
//! remote failure leaves the state untouched and the loop running; only a
//! rejected credential is fatal. Registered listeners are invoked for the
//! matching events of each batch in receipt order — events in batch order,
//! and for each event the listeners in registration order.

use vstd::prelude::*;

use crate::errors::CliError;

verus! {

/// One registered message listener: deliveries for one room, under an
/// explicit handle so the subscription can be withdrawn.
pub struct Listener {
    pub handle: u64,
    pub room_id: String,
}

/// One protocol update, as the shell reports it: where it happened,
/// whether the acting user has joined there, who sent it, when, and the
/// text body if it is a text message.
pub struct MsgEvent {
    pub room_id: String,
    pub sender: String,
    pub ts_ms: u64,
    pub body: Option<String>,
    pub joined: bool,
}

/// One invocation of one listener: what the shell should print.
pub struct Delivery {
    pub handle: u64,
    pub sender: String,
    pub ts_ms: u64,
    pub body: String,
}

/// The state the loop owns: the resumption token, the listeners in
/// registration order, and the next fresh handle.
pub struct SyncState {
    pub token: Option<String>,
    pub listeners: Vec<Listener>,
    pub next_handle: u64,
}

/// How one fetch ended.
pub enum FetchOutcome {
    /// A batch of updates and the token to resume after them.
    Batch { events: Vec<MsgEvent>, next_token: String },
    /// A remote failure worth retrying: the loop must keep going.
    Transient { detail: String },
    /// The credential is no longer valid: retrying would hang forever.
    AuthInvalid { detail: String },
}

/// Whether the loop keeps running.
pub enum SyncDecision {
    Continue,
    Fatal { error: CliError },
}

/// A listener hears an event when the event is a text message in the
/// listener's room and the user has joined that room.
pub open spec fn matching(l: Listener, e: MsgEvent) -> bool {
    &&& e.joined
    &&& e.body is Some
    &&& e.room_id@ == l.room_id@
}

/// The (event index, listener index) pairs one event gives rise to, in
/// listener registration order.
pub open spec fn pairs_for_event(e_idx: int, listeners: Seq<Listener>, e: MsgEvent) -> Seq<
    (int, int),
>
    decreases listeners.len(),
{
    if listeners.len() == 0 {
        Seq::<(int, int)>::empty()
    } else {
        pairs_for_event(e_idx, listeners.drop_last(), e) + if matching(listeners.last(), e) {
            seq![(e_idx, listeners.len() - 1)]
        } else {
            Seq::<(int, int)>::empty()
        }
    }
}

/// All deliveries a batch gives rise to, in receipt order: events in batch
/// order, listeners in registration order within each event.
pub open spec fn all_pairs(listeners: Seq<Listener>, events: Seq<MsgEvent>) -> Seq<(int, int)>
    decreases events.len(),
{
    if events.len() == 0 {
        Seq::<(int, int)>::empty()
    } else {
        all_pairs(listeners, events.drop_last()) + pairs_for_event(
            events.len() - 1,
            listeners,
            events.last(),
        )
    }
}

/// `d` is the delivery for the pair `p`: the right listener's handle, and
/// the event's sender, timestamp and text.
pub open spec fn pair_delivered(
    d: Delivery,
    p: (int, int),
    listeners: Seq<Listener>,
    events: Seq<MsgEvent>,
) -> bool {
    &&& 0 <= p.0 < events.len()
    &&& 0 <= p.1 < listeners.len()
    &&& matching(listeners[p.1], events[p.0])
    &&& d.handle == listeners[p.1].handle
    &&& d.sender@ == events[p.0].sender@
    &&& d.ts_ms == events[p.0].ts_ms
    &&& events[p.0].body matches Some(b) && d.body@ == b@
}

pub open spec fn corresponds(
    ds: Seq<Delivery>,
    ps: Seq<(int, int)>,
    listeners: Seq<Listener>,
    events: Seq<MsgEvent>,
) -> bool {
    &&& ds.len() == ps.len()
    &&& forall|k: int| 0 <= k < ps.len() ==> pair_delivered(#[trigger] ds[k], ps[k], listeners, events)
}

/// Every pair one event gives rise to carries that event's index and a
/// listener index in range.
proof fn lemma_pairs_for_event_shape(e_idx: int, listeners: Seq<Listener>, e: MsgEvent)
    ensures
        forall|k: int| 0 <= k < pairs_for_event(e_idx, listeners, e).len() ==> {
            let p = #[trigger] pairs_for_event(e_idx, listeners, e)[k];
            p.0 == e_idx && 0 <= p.1 < listeners.len()
        },
    decreases listeners.len(),
{
    if listeners.len() > 0 {
        lemma_pairs_for_event_shape(e_idx, listeners.drop_last(), e);
        let ps = pairs_for_event(e_idx, listeners, e);
        let pre = pairs_for_event(e_idx, listeners.drop_last(), e);
        assert forall|k: int| 0 <= k < ps.len() implies {
            let p = #[trigger] ps[k];
            p.0 == e_idx && 0 <= p.1 < listeners.len()
        } by {
            if k < pre.len() {
                assert(ps[k] == pre[k]);
            } else {
                assert(ps[k] == (e_idx, listeners.len() - 1));
            }
        }
    }
}

/// One event's pairs hold a listener exactly when that listener hears it.
proof fn lemma_pairs_for_event_contains(e_idx: int, listeners: Seq<Listener>, e: MsgEvent, j: int)
    requires
        0 <= j < listeners.len(),
    ensures
        pairs_for_event(e_idx, listeners, e).contains((e_idx, j)) <==> matching(listeners[j], e),
    decreases listeners.len(),
{
    let ps = pairs_for_event(e_idx, listeners, e);
    let pre = pairs_for_event(e_idx, listeners.drop_last(), e);
    lemma_pairs_for_event_shape(e_idx, listeners.drop_last(), e);
    if j == listeners.len() - 1 {
        if matching(listeners[j], e) {
            assert(ps[ps.len() - 1] == (e_idx, j));
            assert(ps.contains((e_idx, j)));
        } else {
            if ps.contains((e_idx, j)) {
                let k = choose|k: int| 0 <= k < ps.len() && ps[k] == (e_idx, j);
                assert(pre[k] == (e_idx, j));
                assert(false);
            }
        }
    } else {
        assert(listeners.drop_last()[j] == listeners[j]);
        lemma_pairs_for_event_contains(e_idx, listeners.drop_last(), e, j);
        if pre.contains((e_idx, j)) {
            let k = choose|k: int| 0 <= k < pre.len() && pre[k] == (e_idx, j);
            assert(ps[k] == (e_idx, j));
            assert(ps.contains((e_idx, j)));
        }
        if ps.contains((e_idx, j)) {
            let k = choose|k: int| 0 <= k < ps.len() && ps[k] == (e_idx, j);
            if k >= pre.len() {
                assert(ps[k].1 == listeners.len() - 1);
                assert(false);
            }
            assert(pre[k] == (e_idx, j));
            assert(pre.contains((e_idx, j)));
        }
    }
}

/// Every pair of a batch carries an event index and a listener index in
/// range.
proof fn lemma_all_pairs_shape(listeners: Seq<Listener>, events: Seq<MsgEvent>)
    ensures
        forall|k: int| 0 <= k < all_pairs(listeners, events).len() ==> {
            let p = #[trigger] all_pairs(listeners, events)[k];
            0 <= p.0 < events.len() && 0 <= p.1 < listeners.len()
        },
    decreases events.len(),
{
    if events.len() > 0 {
        lemma_all_pairs_shape(listeners, events.drop_last());
        lemma_pairs_for_event_shape(events.len() - 1, listeners, events.last());
        let ps = all_pairs(listeners, events);
        let pre = all_pairs(listeners, events.drop_last());
        let tail = pairs_for_event(events.len() - 1, listeners, events.last());
        assert forall|k: int| 0 <= k < ps.len() implies {
            let p = #[trigger] ps[k];
            0 <= p.0 < events.len() && 0 <= p.1 < listeners.len()
        } by {
            if k < pre.len() {
                assert(ps[k] == pre[k]);
            } else {
                assert(ps[k] == tail[k - pre.len()]);
            }
        }
    }
}

/// Delivery is complete and exact: a batch delivers an event to a listener
/// exactly when the listener hears it — none is missed, none is extra.
pub proof fn lemma_all_pairs_complete(
    listeners: Seq<Listener>,
    events: Seq<MsgEvent>,
    i: int,
    j: int,
)
    requires
        0 <= i < events.len(),
        0 <= j < listeners.len(),
    ensures
        all_pairs(listeners, events).contains((i, j)) <==> matching(listeners[j], events[i]),
    decreases events.len(),
{
    let ps = all_pairs(listeners, events);
    let pre = all_pairs(listeners, events.drop_last());
    let tail = pairs_for_event(events.len() - 1, listeners, events.last());
    lemma_all_pairs_shape(listeners, events.drop_last());
    lemma_pairs_for_event_shape(events.len() - 1, listeners, events.last());
    if i == events.len() - 1 {
        lemma_pairs_for_event_contains(i, listeners, events.last(), j);
        if matching(listeners[j], events[i]) {
            let k = choose|k: int| 0 <= k < tail.len() && tail[k] == (i, j);
            assert(ps[pre.len() + k] == (i, j));
            assert(ps.contains((i, j)));
        } else {
            if ps.contains((i, j)) {
                let k = choose|k: int| 0 <= k < ps.len() && ps[k] == (i, j);
                if k < pre.len() {
                    assert(pre[k] == (i, j));
                    assert(false);
                }
                assert(tail[k - pre.len()] == (i, j));
                assert(tail.contains((i, j)));
                assert(false);
            }
        }
    } else {
        assert(events.drop_last()[i] == events[i]);
        lemma_all_pairs_complete(listeners, events.drop_last(), i, j);
        if pre.contains((i, j)) {
            let k = choose|k: int| 0 <= k < pre.len() && pre[k] == (i, j);
            assert(ps[k] == (i, j));
            assert(ps.contains((i, j)));
        }
        if ps.contains((i, j)) {
            let k = choose|k: int| 0 <= k < ps.len() && ps[k] == (i, j);
            if k >= pre.len() {
                assert(ps[k].0 == events.len() - 1);
                assert(false);
            }
            assert(pre[k] == (i, j));
            assert(pre.contains((i, j)));
        }
    }
}

/// The listeners left once a handle is withdrawn, in their old order.
pub open spec fn remove_handle(s: Seq<Listener>, h: u64) -> Seq<Listener>
    decreases s.len(),
{
    if s.len() == 0 {
        s
    } else {
        remove_handle(s.drop_last(), h) + if s.last().handle != h {
            seq![s.last()]
        } else {
            Seq::<Listener>::empty()
        }
    }
}

impl SyncState {
    /// A fresh loop state: no resumption token yet, no listeners.
    pub fn new() -> (r: SyncState)
        ensures
            r.token is None,
            r.listeners@.len() == 0,
            r.next_handle == 0,
    {
        SyncState { token: None, listeners: Vec::new(), next_handle: 0 }
    }

    /// Registers a listener for one room and hands out its fresh handle.
    pub fn register(&mut self, room_id: String) -> (h: u64)
        requires
            old(self).next_handle < u64::MAX,
        ensures
            h == old(self).next_handle,
            final(self).next_handle == old(self).next_handle + 1,
            final(self).listeners@ == old(self).listeners@.push(Listener { handle: h, room_id }),
            final(self).token == old(self).token,
    {
        let h = self.next_handle;
        self.next_handle = self.next_handle + 1;
        self.listeners.push(Listener { handle: h, room_id });
        h
    }

    /// Withdraws the subscription under a handle; every other listener
    /// stays, in order.
    pub fn unregister(&mut self, handle: u64)
        ensures
            final(self).listeners@ == remove_handle(old(self).listeners@, handle),
            final(self).token == old(self).token,
            final(self).next_handle == old(self).next_handle,
    {
        let ghost all = self.listeners@;
        let mut rest: Vec<Listener> = Vec::new();
        core::mem::swap(&mut rest, &mut self.listeners);
        let total = rest.len();
        let mut taken: usize = 0;
        proof {
            assert(all.take(0) =~= Seq::<Listener>::empty());
            assert(remove_handle(all.take(0), handle) =~= Seq::<Listener>::empty());
            assert(all.skip(0) =~= rest@);
        }
        while rest.len() > 0
            invariant
                taken <= total,
                all.len() == total,
                taken + rest@.len() == all.len(),
                rest@ =~= all.skip(taken as int),
                self.listeners@ =~= remove_handle(all.take(taken as int), handle),
                self.token == old(self).token,
                self.next_handle == old(self).next_handle,
            decreases rest@.len(),
        {
            let l = rest.remove(0);
            proof {
                assert(l == all[taken as int]);
                assert(all.take(taken + 1).drop_last() =~= all.take(taken as int));
            }
            if l.handle != handle {
                self.listeners.push(l);
            }
            taken = taken + 1;
            proof {
                assert(rest@ =~= all.skip(taken as int));
            }
        }
        proof {
            assert(all.take(total as int) =~= all);
        }
    }

    /// The deliveries one batch gives rise to, given the listeners now
    /// registered: for every event in batch order, every matching listener
    /// in registration order.
    pub fn deliver(&self, events: &Vec<MsgEvent>) -> (r: Vec<Delivery>)
        ensures
            corresponds(r@, all_pairs(self.listeners@, events@), self.listeners@, events@),
    {
        let n_events = events.len();
        let n_listeners = self.listeners.len();
        let mut out: Vec<Delivery> = Vec::new();
        let mut i: usize = 0;
        proof {
            assert(all_pairs(self.listeners@, events@.take(0)) =~= Seq::<(int, int)>::empty());
        }
        while i < n_events
            invariant
                i <= n_events,
                n_events == events@.len(),
                n_listeners == self.listeners@.len(),
                corresponds(
                    out@,
                    all_pairs(self.listeners@, events@.take(i as int)),
                    self.listeners@,
                    events@,
                ),
            decreases n_events - i,
        {
            let mut j: usize = 0;
            let ghost done = all_pairs(self.listeners@, events@.take(i as int));
            proof {
                assert(pairs_for_event(i as int, self.listeners@.take(0), events@[i as int])
                    =~= Seq::<(int, int)>::empty());
                assert(done + Seq::<(int, int)>::empty() =~= done);
            }
            while j < n_listeners
                invariant
                    i < n_events,
                    j <= n_listeners,
                    n_events == events@.len(),
                    n_listeners == self.listeners@.len(),
                        done == all_pairs(self.listeners@, events@.take(i as int)),
                    corresponds(
                        out@,
                        done + pairs_for_event(
                            i as int,
                            self.listeners@.take(j as int),
                            events@[i as int],
                        ),
                        self.listeners@,
                        events@,
                    ),
                decreases n_listeners - j,
            {
                let event = self.events_at(events, i);
                let listener = self.listener_at(j);
                let hears = event.joined && event.body.is_some() && string_eq(
                    &event.room_id,
                    &listener.room_id,
                );
                proof {
                    assert(self.listeners@.take(j + 1).drop_last() =~= self.listeners@.take(
                        j as int,
                    ));
                }
                if hears {
                    let body = match &event.body {
                        Some(b) => b.clone(),
                        None => unreached(),
                    };
                    let d = Delivery {
                        handle: listener.handle,
                        sender: event.sender.clone(),
                        ts_ms: event.ts_ms,
                        body,
                    };
                    proof {
                        let e = events@[i as int];
                        let ps = done + pairs_for_event(
                            i as int,
                            self.listeners@.take(j as int),
                            e,
                        );
                        assert(pair_delivered(d, (i as int, j as int), self.listeners@, events@));
                        assert(done + pairs_for_event(i as int, self.listeners@.take(j + 1), e)
                            =~= ps.push((i as int, j as int)));
                    }
                    out.push(d);
                } else {
                    proof {
                        let e = events@[i as int];
                        assert(done + pairs_for_event(i as int, self.listeners@.take(j + 1), e)
                            =~= done + pairs_for_event(i as int, self.listeners@.take(j as int), e));
                    }
                }
                j = j + 1;
            }
            proof {
                assert(self.listeners@.take(n_listeners as int) =~= self.listeners@);
                assert(events@.take(i + 1).drop_last() =~= events@.take(i as int));
                assert(events@.take(i + 1).last() == events@[i as int]);
                assert(all_pairs(self.listeners@, events@.take(i + 1)) =~= done
                    + pairs_for_event(i as int, self.listeners@, events@[i as int]));
            }
            i = i + 1;
        }
        proof {
            assert(events@.take(n_events as int) =~= events@);
        }
        out
    }

    /// Applies the outcome of one fetch. A batch advances the token and
    /// yields its deliveries; a transient failure changes nothing and the
    /// loop continues — it never terminates the process; a rejected
    /// credential is fatal, since retrying a doomed fetch forever would be
    /// a silent hang.
    pub fn on_fetch(&mut self, outcome: FetchOutcome) -> (r: (SyncDecision, Vec<Delivery>))
        ensures
            final(self).listeners == old(self).listeners,
            final(self).next_handle == old(self).next_handle,
            match outcome {
                FetchOutcome::Batch { events, next_token } => {
                    &&& final(self).token == Some(next_token)
                    &&& r.0 is Continue
                    &&& corresponds(
                        r.1@,
                        all_pairs(old(self).listeners@, events@),
                        old(self).listeners@,
                        events@,
                    )
                },
                FetchOutcome::Transient { .. } => {
                    &&& final(self).token == old(self).token
                    &&& r.0 is Continue
                    &&& r.1@.len() == 0
                },
                FetchOutcome::AuthInvalid { .. } => {
                    &&& final(self).token == old(self).token
                    &&& r.0 matches SyncDecision::Fatal { error } && error is InvalidSession
                    &&& r.1@.len() == 0
                },
            },
    {
        match outcome {
            FetchOutcome::Batch { events, next_token } => {
                let ds = self.deliver(&events);
                self.token = Some(next_token);
                (SyncDecision::Continue, ds)
            },
            FetchOutcome::Transient { .. } => (SyncDecision::Continue, Vec::new()),
            FetchOutcome::AuthInvalid { .. } => (
                SyncDecision::Fatal { error: CliError::InvalidSession },
                Vec::new(),
            ),
        }
    }

    fn listener_at(&self, j: usize) -> (r: &Listener)
        requires
            j < self.listeners@.len(),
        ensures
            *r == self.listeners@[j as int],
    {
        &self.listeners[j]
    }

    fn events_at<'a>(&self, events: &'a Vec<MsgEvent>, i: usize) -> (r: &'a MsgEvent)
        requires
            i < events@.len(),
        ensures
            *r == events@[i as int],
    {
        &events[i]
    }
}

/// Whether two strings hold the same characters.
fn string_eq(a: &String, b: &String) -> (r: bool)
    ensures
        r == (a@ == b@),
{
    a.eq(b)
}

} // verus!
