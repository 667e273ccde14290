//! Outbound QoS 1/2 inflight tracking and the queue of publishes waiting
//! for an inflight slot.
//!
//! Times are milliseconds on the caller's monotonic clock: the store never
//! reads a clock itself, so every decision it makes is a function of the
//! times it is handed.

use std::collections::{HashMap, VecDeque};

use vstd::prelude::*;
use vstd::std_specs::iter::IteratorSpec;

verus! {

broadcast use vstd::std_specs::hash::group_hash_axioms;

/// A publish waiting for an inflight slot.
#[derive(Debug)]
pub struct PendingPublish {
    pub topic: String,
    pub payload: Vec<u8>,
    pub qos: u8,
    pub retain: bool,
}

/// The view of a queued publish.
pub struct PendingPublishView {
    pub topic: Seq<char>,
    pub payload: Seq<u8>,
    pub qos: u8,
    pub retain: bool,
}

impl View for PendingPublish {
    type V = PendingPublishView;

    open spec fn view(&self) -> PendingPublishView {
        PendingPublishView {
            topic: self.topic@,
            payload: self.payload@,
            qos: self.qos,
            retain: self.retain,
        }
    }
}

/// QoS handshake stage of an outbound publish, named after the packet the
/// client waits for.
#[derive(Debug, Clone, Copy, PartialEq, Eq, Structural)]
pub enum InflightStage {
    /// QoS 1: waiting for PUBACK.
    Ack,
    /// QoS 2: waiting for PUBREC.
    Rec,
    /// QoS 2: PUBREL sent, waiting for PUBCOMP.
    Comp,
}

/// One outbound QoS 1/2 message in flight.
#[derive(Debug)]
pub struct InflightPublish {
    pub topic: String,
    pub payload: Vec<u8>,
    pub qos: u8,
    pub retain: bool,
    pub stage: InflightStage,
    /// When the message was last sent, in milliseconds.
    pub sent_at: u64,
}

/// The view of a message in flight.
pub struct InflightPublishView {
    pub topic: Seq<char>,
    pub payload: Seq<u8>,
    pub qos: u8,
    pub retain: bool,
    pub stage: InflightStage,
    pub sent_at: u64,
}

impl View for InflightPublish {
    type V = InflightPublishView;

    open spec fn view(&self) -> InflightPublishView {
        InflightPublishView {
            topic: self.topic@,
            payload: self.payload@,
            qos: self.qos,
            retain: self.retain,
            stage: self.stage,
            sent_at: self.sent_at,
        }
    }
}

impl InflightPublish {
    /// A copy of this entry.
    pub fn duplicate(&self) -> (r: InflightPublish)
        ensures
            r@ == self@,
    {
        InflightPublish {
            topic: self.topic.clone(),
            payload: self.payload.clone(),
            qos: self.qos,
            retain: self.retain,
            stage: self.stage,
            sent_at: self.sent_at,
        }
    }
}

/// Whether an entry sent at `sent_at` is due for a retry at time `now`:
/// at least `timeout` has passed since it was sent (no time has passed
/// when `now` is earlier).
pub open spec fn is_due(sent_at: u64, now: u64, timeout: u64) -> bool {
    if now >= sent_at {
        now - sent_at >= timeout
    } else {
        timeout == 0
    }
}

/// Whether an entry sent at `sent_at` is due for a retry at `now`.
fn due_at(sent_at: u64, now: u64, timeout: u64) -> (b: bool)
    ensures
        b == is_due(sent_at, now, timeout),
{
    if now >= sent_at {
        now - sent_at >= timeout
    } else {
        timeout == 0
    }
}

/// Bounded inflight window plus overflow queue.
#[derive(Debug)]
pub struct InflightStore {
    max: usize,
    map: HashMap<u16, InflightPublish>,
    pending: VecDeque<PendingPublish>,
}

impl InflightStore {
    /// The size of the inflight window.
    pub closed spec fn capacity(&self) -> nat {
        self.max as nat
    }

    /// The messages in flight, by packet identifier.
    pub closed spec fn entries(&self) -> Map<u16, InflightPublishView> {
        self.map@.map_values(|e: InflightPublish| e@)
    }

    /// The publishes waiting for a slot, oldest first.
    pub closed spec fn queue(&self) -> Seq<PendingPublishView> {
        self.pending@.map_values(|p: PendingPublish| p@)
    }

    /// Whether the window has a free slot.
    pub open spec fn spec_has_capacity(&self) -> bool {
        self.entries().len() < self.capacity()
    }

    /// Creates an empty store whose window holds `max_inflight` messages,
    /// or one when `max_inflight` is 0.
    pub fn new(max_inflight: u16) -> (s: InflightStore)
        ensures
            s.capacity() == if max_inflight == 0 {
                1
            } else {
                max_inflight as nat
            },
            s.entries() == Map::<u16, InflightPublishView>::empty(),
            s.queue() == Seq::<PendingPublishView>::empty(),
    {
        let max: usize = if max_inflight == 0 {
            1
        } else {
            max_inflight as usize
        };
        InflightStore { max, map: HashMap::new(), pending: VecDeque::new() }
    }

    /// Whether the window has a free slot.
    pub fn has_capacity(&self) -> (b: bool)
        ensures
            b == self.spec_has_capacity(),
    {
        proof {
            assert(self.entries().dom() =~= self.map@.dom());
        }
        self.map.len() < self.max
    }

    /// Forgets every message in flight and every queued publish.
    pub fn clear(&mut self)
        ensures
            final(self).capacity() == old(self).capacity(),
            final(self).entries() == Map::<u16, InflightPublishView>::empty(),
            final(self).queue() == Seq::<PendingPublishView>::empty(),
    {
        self.map.clear();
        self.pending.clear();
    }

    /// Records a message in flight under `packet_id`, replacing any entry
    /// with that identifier.
    pub fn insert(&mut self, packet_id: u16, entry: InflightPublish)
        ensures
            final(self).capacity() == old(self).capacity(),
            final(self).entries() == old(self).entries().insert(packet_id, entry@),
            final(self).queue() == old(self).queue(),
    {
        self.map.insert(packet_id, entry);
        proof {
            assert(final(self).entries() =~= old(self).entries().insert(packet_id, entry@));
        }
    }

    /// The message in flight under `packet_id`, if any.
    pub fn get(&self, packet_id: u16) -> (r: Option<&InflightPublish>)
        ensures
            match r {
                Some(e) => self.entries().contains_key(packet_id) && e@ == self.entries()[packet_id],
                None => !self.entries().contains_key(packet_id),
            },
    {
        self.map.get(&packet_id)
    }

    /// Moves the message in flight under `packet_id` to `stage`, sent at
    /// `sent_at`; returns whether there was such a message.
    pub fn update(&mut self, packet_id: u16, stage: InflightStage, sent_at: u64) -> (found: bool)
        ensures
            found == old(self).entries().contains_key(packet_id),
            final(self).capacity() == old(self).capacity(),
            final(self).queue() == old(self).queue(),
            found ==> final(self).entries() == old(self).entries().insert(
                packet_id,
                InflightPublishView { stage, sent_at, ..old(self).entries()[packet_id] },
            ),
            !found ==> final(self).entries() == old(self).entries(),
    {
        match self.map.remove(&packet_id) {
            Some(entry) => {
                let updated = InflightPublish { stage, sent_at, ..entry };
                self.map.insert(packet_id, updated);
                proof {
                    assert(final(self).entries() =~= old(self).entries().insert(
                        packet_id,
                        InflightPublishView { stage, sent_at, ..old(self).entries()[packet_id] },
                    ));
                }
                true
            },
            None => false,
        }
    }

    /// Removes and returns the message in flight under `packet_id`.
    pub fn remove(&mut self, packet_id: u16) -> (r: Option<InflightPublish>)
        ensures
            final(self).capacity() == old(self).capacity(),
            final(self).entries() == old(self).entries().remove(packet_id),
            final(self).queue() == old(self).queue(),
            match r {
                Some(e) => old(self).entries().contains_key(packet_id) && e@ == old(
                    self,
                ).entries()[packet_id],
                None => !old(self).entries().contains_key(packet_id),
            },
    {
        let r = self.map.remove(&packet_id);
        proof {
            assert(final(self).entries() =~= old(self).entries().remove(packet_id));
        }
        r
    }

    /// The packet identifiers of the messages whose last send is due for a
    /// retry at `now` after `timeout`; each once, in no particular order.
    pub fn due_for_retry(&self, now: u64, timeout: u64) -> (due: Vec<u16>)
        ensures
            due@.no_duplicates(),
            forall|id: u16|
                #![trigger due@.contains(id)]
                #![trigger self.entries().contains_key(id)]
                due@.contains(id) <==> self.entries().contains_key(id) && is_due(
                    self.entries()[id].sent_at,
                    now,
                    timeout,
                ),
    {
        let mut due: Vec<u16> = Vec::new();
        let ghost m = self.map@;
        let ghost s0 = vstd::std_specs::hash::spec_hash_map_iter(&self.map).remaining();
        proof {
            assert(s0.len() == m.dom().len());
        }
        for pair in it: self.map.iter()
            invariant
                m == self.map@,
                it.seq() == s0,
                s0.no_duplicates(),
                forall|i: int|
                    0 <= i < s0.len() ==> m.contains_key(*s0[i].0) && m[*s0[i].0] == *s0[i].1,
                forall|k: u16| #[trigger] m.contains_key(k) ==> s0.contains((&k, &m[k])),
                due@.no_duplicates(),
                forall|x: u16|
                    #[trigger] due@.contains(x) <==> exists|i: int|
                        0 <= i < it.index() && *s0[i].0 == x && is_due(s0[i].1.sent_at, now, timeout),
        {
            let ghost k = it.index();
            assert(pair == s0[k]);
            let (id, entry) = pair;
            let ghost old_due = due@;
            if due_at(entry.sent_at, now, timeout) {
                proof {
                    assert forall|i: int| 0 <= i < k implies *s0[i].0 != *id by {
                        if *s0[i].0 == *id {
                            assert(s0[i] == s0[k]);
                        }
                    }
                }
                assert(!old_due.contains(*id));
                due.push(*id);
                proof {
                    assert(*s0[k].0 == *id && is_due(s0[k].1.sent_at, now, timeout));
                    assert forall|a: int, b: int| 0 <= a < b < due@.len() implies due@[a] != due@[b] by {
                        if b == due@.len() - 1 {
                            assert(old_due.contains(due@[a]));
                        }
                    }
                    assert forall|x: u16|
                        #[trigger] due@.contains(x) <==> exists|i: int|
                            0 <= i < k + 1 && *s0[i].0 == x && is_due(s0[i].1.sent_at, now, timeout) by {
                        if due@.contains(x) && x != *id {
                            assert(old_due.contains(x));
                            let i = choose|i: int| 0 <= i < k && *s0[i].0 == x && is_due(s0[i].1.sent_at, now, timeout);
                            assert(0 <= i < k + 1 && *s0[i].0 == x && is_due(s0[i].1.sent_at, now, timeout));
                        }
                        if x == *id {
                            assert(due@[due@.len() - 1] == x);
                            assert(0 <= k < k + 1 && *s0[k].0 == x && is_due(s0[k].1.sent_at, now, timeout));
                        }
                        if exists|i: int| 0 <= i < k + 1 && *s0[i].0 == x && is_due(s0[i].1.sent_at, now, timeout) {
                            if x != *id {
                                let i = choose|i: int| 0 <= i < k + 1 && *s0[i].0 == x && is_due(s0[i].1.sent_at, now, timeout);
                                assert(i < k);
                                assert(0 <= i < k && *s0[i].0 == x && is_due(s0[i].1.sent_at, now, timeout));
                                assert(old_due.contains(x));
                                let j = choose|j: int| 0 <= j < old_due.len() && old_due[j] == x;
                                assert(due@[j] == x);
                            } else {
                                assert(due@[due@.len() - 1] == x);
                            }
                        }
                    }
                }
            } else {
                proof {
                    assert forall|x: u16|
                        #[trigger] due@.contains(x) <==> exists|i: int|
                            0 <= i < k + 1 && *s0[i].0 == x && is_due(s0[i].1.sent_at, now, timeout) by {
                        if exists|i: int| 0 <= i < k + 1 && *s0[i].0 == x && is_due(s0[i].1.sent_at, now, timeout) {
                            let i = choose|i: int| 0 <= i < k + 1 && *s0[i].0 == x && is_due(s0[i].1.sent_at, now, timeout);
                            assert(i < k);
                        }
                    }
                }
            }
        }
        proof {
            assert forall|id: u16|
                #![trigger due@.contains(id)]
                #![trigger self.entries().contains_key(id)]
                due@.contains(id) <==> self.entries().contains_key(id) && is_due(
                    self.entries()[id].sent_at,
                    now,
                    timeout,
                ) by {
                if m.contains_key(id) {
                    assert(s0.contains((&id, &m[id])));
                }
            }
        }
        due
    }

    /// Every message in flight with its packet identifier, each once, in no
    /// particular order.
    pub fn snapshot(&self) -> (snap: Vec<(u16, InflightPublish)>)
        ensures
            forall|a: int, b: int| 0 <= a < b < snap@.len() ==> snap@[a].0 != snap@[b].0,
            forall|j: int|
                0 <= j < snap@.len() ==> self.entries().contains_key(#[trigger] snap@[j].0)
                    && snap@[j].1@ == self.entries()[snap@[j].0],
            forall|id: u16|
                self.entries().contains_key(id) ==> exists|j: int|
                    0 <= j < snap@.len() && #[trigger] snap@[j].0 == id,
    {
        let mut snap: Vec<(u16, InflightPublish)> = Vec::new();
        let ghost m = self.map@;
        let ghost s0 = vstd::std_specs::hash::spec_hash_map_iter(&self.map).remaining();
        for pair in it: self.map.iter()
            invariant
                m == self.map@,
                it.seq() == s0,
                s0.no_duplicates(),
                forall|i: int|
                    0 <= i < s0.len() ==> m.contains_key(*s0[i].0) && m[*s0[i].0] == *s0[i].1,
                forall|k: u16| #[trigger] m.contains_key(k) ==> s0.contains((&k, &m[k])),
                snap@.len() == it.index(),
                forall|j: int| 0 <= j < snap@.len() ==> snap@[j].0 == *s0[j].0 && snap@[j].1@ == (*s0[j].1)@,
        {
            let ghost k = it.index();
            assert(pair == s0[k]);
            let (id, entry) = pair;
            snap.push((*id, entry.duplicate()));
        }
        proof {
            assert forall|a: int, b: int| 0 <= a < b < snap@.len() implies snap@[a].0 != snap@[b].0 by {
                if snap@[a].0 == snap@[b].0 {
                    assert(s0[a] == s0[b]);
                }
            }
            assert forall|j: int| 0 <= j < snap@.len() implies self.entries().contains_key(
                #[trigger] snap@[j].0,
            ) && snap@[j].1@ == self.entries()[snap@[j].0] by {
                assert(m.contains_key(*s0[j].0) && m[*s0[j].0] == *s0[j].1);
                assert(self.entries()[snap@[j].0] == m[snap@[j].0]@);
            }
            assert forall|id: u16| self.entries().contains_key(id) implies exists|j: int|
                0 <= j < snap@.len() && #[trigger] snap@[j].0 == id by {
                assert(m.contains_key(id));
                assert(s0.contains((&id, &m[id])));
                let i = choose|i: int| 0 <= i < s0.len() && s0[i] == (&id, &m[id]);
                assert(snap@[i].0 == id);
            }
        }
        snap
    }

    /// Queues a publish behind the others.
    pub fn push_pending(&mut self, publish: PendingPublish)
        ensures
            final(self).capacity() == old(self).capacity(),
            final(self).entries() == old(self).entries(),
            final(self).queue() == old(self).queue().push(publish@),
    {
        self.pending.push_back(publish);
        proof {
            assert(final(self).queue() =~= old(self).queue().push(publish@));
        }
    }

    /// Takes the oldest queued publish when the window has a free slot;
    /// otherwise leaves the queue alone and returns `None`.
    pub fn pop_pending(&mut self) -> (r: Option<PendingPublish>)
        ensures
            final(self).capacity() == old(self).capacity(),
            final(self).entries() == old(self).entries(),
            old(self).spec_has_capacity() && old(self).queue().len() > 0 ==> (r matches Some(p)
                && p@ == old(self).queue()[0]) && final(self).queue() == old(
                self,
            ).queue().drop_first(),
            !(old(self).spec_has_capacity() && old(self).queue().len() > 0) ==> r is None
                && final(self).queue() == old(self).queue(),
    {
        if self.has_capacity() {
            let r = self.pending.pop_front();
            proof {
                if old(self).queue().len() > 0 {
                    assert(final(self).queue() =~= old(self).queue().drop_first());
                }
            }
            r
        } else {
            None
        }
    }
}

} // verus!
