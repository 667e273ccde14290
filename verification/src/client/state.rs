//! Client session state retained across TCP/TLS reconnects.

use std::collections::{HashMap, VecDeque};

use vstd::prelude::*;

use super::inflight::{InflightStore, PendingPublishView};

verus! {

broadcast use vstd::std_specs::hash::group_hash_axioms;

/// Commands sent from the client handle to the event loop.
#[derive(Debug)]
pub enum Command {
    Publish { topic: String, payload: Vec<u8>, qos: u8, retain: bool },
    Subscribe { topics: Vec<(String, u8)> },
    Unsubscribe { topics: Vec<String> },
    Disconnect,
}

/// An incoming QoS 2 message awaiting PUBREL: topic, payload and retain flag.
pub struct HeldMessage {
    pub topic: Seq<char>,
    pub payload: Seq<u8>,
    pub retain: bool,
}

/// The view of an incoming QoS 2 message awaiting PUBREL.
pub open spec fn held_view(m: (String, Vec<u8>, bool)) -> HeldMessage {
    HeldMessage { topic: m.0@, payload: m.1@, retain: m.2 }
}

/// The identifier that follows `id`: identifiers run from 1 to 65535 and
/// wrap around to 1.
pub open spec fn next_id(id: u16) -> u16 {
    if id == u16::MAX {
        1
    } else {
        (id + 1) as u16
    }
}

/// The active subscriptions, filter to requested QoS, of a list of
/// entries in which each filter occurs once.
pub open spec fn subscription_map(s: Seq<(String, u8)>) -> Map<Seq<char>, u8> {
    Map::new(
        |k: Seq<char>| exists|i: int| 0 <= i < s.len() && #[trigger] s[i].0@ == k,
        |k: Seq<char>| s[choose|i: int| 0 <= i < s.len() && #[trigger] s[i].0@ == k].1,
    )
}

/// Each filter occurs once in a list of subscriptions.
pub open spec fn filters_distinct(s: Seq<(String, u8)>) -> bool {
    forall|a: int, b: int| 0 <= a < b < s.len() ==> s[a].0@ != s[b].0@
}

/// Client-side session state retained across reconnects.
#[derive(Debug)]
pub struct SessionState {
    pub next_packet_id: u16,
    /// Active subscriptions: topic filter and requested QoS, each filter once.
    pub subscriptions: Vec<(String, u8)>,
    pub inflight: InflightStore,
    /// Incoming QoS 2 messages awaiting PUBREL.
    pub qos2_incoming: HashMap<u16, (String, Vec<u8>, bool)>,
    /// Commands received while offline.
    pub pending_commands: VecDeque<Command>,
}

impl SessionState {
    /// The identifier the next allocation returns.
    pub open spec fn next_packet_id(&self) -> u16 {
        self.next_packet_id
    }

    /// The inflight window and the queue of publishes waiting for it.
    pub open spec fn inflight(&self) -> InflightStore {
        self.inflight
    }

    /// The active subscriptions: topic filter to requested QoS.
    pub open spec fn subscriptions(&self) -> Map<Seq<char>, u8> {
        subscription_map(self.subscriptions@)
    }

    /// Incoming QoS 2 messages awaiting PUBREL, by packet identifier.
    pub open spec fn qos2_incoming(&self) -> Map<u16, HeldMessage> {
        self.qos2_incoming@.map_values(|m: (String, Vec<u8>, bool)| held_view(m))
    }

    /// Commands received while offline, oldest first.
    pub open spec fn pending_commands(&self) -> Seq<Command> {
        self.pending_commands@
    }

    /// The state's invariant: identifiers are never 0, each subscribed
    /// filter is listed once, every queued or inflight publish has QoS 1 or
    /// 2, and the window never holds more messages than its capacity.
    pub open spec fn wf(&self) -> bool {
        &&& self.next_packet_id != 0
        &&& self.inflight.entries().dom().finite()
        &&& self.inflight.entries().len() <= self.inflight.capacity()
        &&& filters_distinct(self.subscriptions@)
        &&& forall|i: int|
            0 <= i < self.inflight.queue().len() ==> 1 <= #[trigger] self.inflight.queue()[i].qos
                <= 2
        &&& forall|id: u16|
            #[trigger] self.inflight.entries().contains_key(id) ==> 1 <= self.inflight.entries()[id].qos
                <= 2
    }

    /// A fresh session: identifiers start at 1, nothing subscribed, in
    /// flight, held or pending.
    pub fn new(max_inflight: u16) -> (s: SessionState)
        ensures
            s.wf(),
            s.next_packet_id() == 1,
            s.subscriptions() == Map::<Seq<char>, u8>::empty(),
            s.inflight().entries().len() == 0,
            s.inflight().queue().len() == 0,
            s.inflight().capacity() == if max_inflight == 0 {
                1
            } else {
                max_inflight as nat
            },
            s.qos2_incoming() == Map::<u16, HeldMessage>::empty(),
            s.pending_commands() == Seq::<Command>::empty(),
    {
        let s = SessionState {
            next_packet_id: 1,
            subscriptions: Vec::new(),
            inflight: InflightStore::new(max_inflight),
            qos2_incoming: HashMap::new(),
            pending_commands: VecDeque::new(),
        };
        assert(s.subscriptions() =~= Map::<Seq<char>, u8>::empty());
        assert(s.qos2_incoming() =~= Map::<u16, HeldMessage>::empty());
        s
    }

    /// Clears the state for a clean session: subscriptions, messages in
    /// flight, queued publishes and held messages go, identifiers restart
    /// at 1; commands received while offline are kept.
    pub fn clear_for_clean_start(&mut self)
        requires
            old(self).wf(),
        ensures
            final(self).wf(),
            final(self).next_packet_id() == 1,
            final(self).subscriptions() == Map::<Seq<char>, u8>::empty(),
            final(self).inflight().entries().len() == 0,
            final(self).inflight().queue().len() == 0,
            final(self).inflight().capacity() == old(self).inflight().capacity(),
            final(self).qos2_incoming() == Map::<u16, HeldMessage>::empty(),
            final(self).pending_commands() == old(self).pending_commands(),
    {
        self.subscriptions = Vec::new();
        self.inflight.clear();
        self.qos2_incoming.clear();
        self.next_packet_id = 1;
        assert(self.subscriptions() =~= Map::<Seq<char>, u8>::empty());
        assert(self.qos2_incoming() =~= Map::<u16, HeldMessage>::empty());
    }

    /// Takes the next packet identifier: identifiers run from 1 to 65535
    /// and wrap around to 1, so 0 is never handed out.
    pub fn alloc_packet_id(&mut self) -> (id: u16)
        requires
            old(self).wf(),
        ensures
            final(self).wf(),
            id == old(self).next_packet_id(),
            id != 0,
            final(self).next_packet_id() == next_id(id),
            final(self).subscriptions() == old(self).subscriptions(),
            final(self).inflight() == old(self).inflight(),
            final(self).qos2_incoming() == old(self).qos2_incoming(),
            final(self).pending_commands() == old(self).pending_commands(),
    {
        let id = self.next_packet_id;
        self.next_packet_id = if id == u16::MAX {
            1
        } else {
            id + 1
        };
        id
    }

    /// Records a subscription, replacing the QoS of a filter already subscribed.
    #[verifier::loop_isolation(false)]
    pub fn remember_subscription(&mut self, filter: String, qos: u8)
        requires
            old(self).wf(),
        ensures
            final(self).wf(),
            final(self).subscriptions() == old(self).subscriptions().insert(filter@, qos),
            final(self).next_packet_id() == old(self).next_packet_id(),
            final(self).inflight() == old(self).inflight(),
            final(self).qos2_incoming() == old(self).qos2_incoming(),
            final(self).pending_commands() == old(self).pending_commands(),
    {
        let ghost old_subs = self.subscriptions@;
        let mut i: usize = 0;
        while i < self.subscriptions.len()
            invariant
                i <= self.subscriptions@.len(),
                self.subscriptions@ == old_subs,
                self.next_packet_id == old(self).next_packet_id,
                self.inflight == old(self).inflight,
                self.qos2_incoming == old(self).qos2_incoming,
                self.pending_commands == old(self).pending_commands,
                old(self).wf(),
                filters_distinct(old_subs),
                forall|j: int| 0 <= j < i ==> old_subs[j].0@ != filter@,
            decreases self.subscriptions@.len() - i,
        {
            if crate::text::str_eq(self.subscriptions[i].0.as_str(), filter.as_str()) {
                let ghost k = i as int;
                self.subscriptions.set(i, (filter, qos));
                proof {
                    let s = self.subscriptions@;
                    assert(s[k].0@ == old_subs[k].0@);
                    assert forall|a: int, b: int| 0 <= a < b < s.len() implies s[a].0@ != s[b].0@ by {
                        assert(s[a].0@ == old_subs[a].0@ && s[b].0@ == old_subs[b].0@);
                    }
                    lemma_subscription_map_update(old_subs, k, s);
                }
                return;
            }
            i += 1;
        }
        self.subscriptions.push((filter, qos));
        proof {
            let s = self.subscriptions@;
            assert forall|a: int, b: int| 0 <= a < b < s.len() implies s[a].0@ != s[b].0@ by {
                if b == s.len() - 1 {
                    assert(old_subs[a].0@ != filter@);
                }
            }
            lemma_subscription_map_push(old_subs, s);
        }
    }

    /// Drops the subscriptions to each of `filters`.
    pub fn forget_subscriptions(&mut self, filters: &Vec<String>)
        requires
            old(self).wf(),
        ensures
            final(self).wf(),
            final(self).subscriptions() == old(self).subscriptions().remove_keys(
                filters@.map_values(|f: String| f@).to_set(),
            ),
            final(self).next_packet_id() == old(self).next_packet_id(),
            final(self).inflight() == old(self).inflight(),
            final(self).qos2_incoming() == old(self).qos2_incoming(),
            final(self).pending_commands() == old(self).pending_commands(),
    {
        let ghost start = self.subscriptions();
        let mut i: usize = 0;
        while i < filters.len()
            invariant
                i <= filters@.len(),
                self.wf(),
                self.subscriptions() == start.remove_keys(
                    filters@.take(i as int).map_values(|f: String| f@).to_set(),
                ),
                self.next_packet_id() == old(self).next_packet_id(),
                self.inflight() == old(self).inflight(),
                self.qos2_incoming() == old(self).qos2_incoming(),
                self.pending_commands() == old(self).pending_commands(),
            decreases filters@.len() - i,
        {
            let ghost before = self.subscriptions();
            self.forget_one(filters[i].as_str());
            proof {
                let t0 = filters@.take(i as int).map_values(|f: String| f@).to_set();
                let t1 = filters@.take(i + 1).map_values(|f: String| f@).to_set();
                assert(filters@.take(i + 1).map_values(|f: String| f@) =~= filters@.take(
                    i as int,
                ).map_values(|f: String| f@).push(filters@[i as int]@));
                lemma_to_set_push(filters@.take(i as int).map_values(|f: String| f@), filters@[i as int]@);
                assert(t1 =~= t0.insert(filters@[i as int]@));
                assert(self.subscriptions() =~= start.remove_keys(t1));
            }
            i += 1;
        }
        assert(filters@.take(i as int) =~= filters@);
    }

    /// Drops the subscription to one filter, if there is one.
    #[verifier::loop_isolation(false)]
    fn forget_one(&mut self, filter: &str)
        requires
            old(self).wf(),
        ensures
            final(self).wf(),
            final(self).subscriptions() == old(self).subscriptions().remove(filter@),
            final(self).next_packet_id() == old(self).next_packet_id(),
            final(self).inflight() == old(self).inflight(),
            final(self).qos2_incoming() == old(self).qos2_incoming(),
            final(self).pending_commands() == old(self).pending_commands(),
    {
        let ghost old_subs = self.subscriptions@;
        let mut i: usize = 0;
        while i < self.subscriptions.len()
            invariant
                i <= self.subscriptions@.len(),
                self.subscriptions@ == old_subs,
                self.next_packet_id == old(self).next_packet_id,
                self.inflight == old(self).inflight,
                self.qos2_incoming == old(self).qos2_incoming,
                self.pending_commands == old(self).pending_commands,
                old(self).wf(),
                filters_distinct(old_subs),
                forall|j: int| 0 <= j < i ==> old_subs[j].0@ != filter@,
            decreases self.subscriptions@.len() - i,
        {
            if crate::text::str_eq(self.subscriptions[i].0.as_str(), filter) {
                let ghost k = i as int;
                self.subscriptions.remove(i);
                proof {
                    let s = self.subscriptions@;
                    assert(s =~= old_subs.remove(k));
                    assert forall|a: int, b: int| 0 <= a < b < s.len() implies s[a].0@ != s[b].0@ by {
                        let a0 = if a < k { a } else { a + 1 };
                        let b0 = if b < k { b } else { b + 1 };
                        assert(s[a] == old_subs[a0] && s[b] == old_subs[b0]);
                    }
                    lemma_subscription_map_remove(old_subs, k, s);
                }
                return;
            }
            i += 1;
        }
        proof {
            assert(!subscription_map(old_subs).contains_key(filter@));
            assert(subscription_map(old_subs).remove(filter@) =~= subscription_map(old_subs));
        }
    }

    /// Keeps a command received while offline, behind the others.
    pub fn queue_command(&mut self, cmd: Command)
        requires
            old(self).wf(),
        ensures
            final(self).wf(),
            final(self).pending_commands() == old(self).pending_commands().push(cmd),
            final(self).next_packet_id() == old(self).next_packet_id(),
            final(self).subscriptions() == old(self).subscriptions(),
            final(self).inflight() == old(self).inflight(),
            final(self).qos2_incoming() == old(self).qos2_incoming(),
    {
        self.pending_commands.push_back(cmd);
    }

    /// Takes the oldest command received while offline.
    pub fn take_command(&mut self) -> (cmd: Option<Command>)
        requires
            old(self).wf(),
        ensures
            final(self).wf(),
            old(self).pending_commands().len() == 0 ==> cmd is None && final(self).pending_commands()
                == old(self).pending_commands(),
            old(self).pending_commands().len() > 0 ==> cmd == Some(old(self).pending_commands()[0])
                && final(self).pending_commands() == old(self).pending_commands().drop_first(),
            final(self).next_packet_id() == old(self).next_packet_id(),
            final(self).subscriptions() == old(self).subscriptions(),
            final(self).inflight() == old(self).inflight(),
            final(self).qos2_incoming() == old(self).qos2_incoming(),
    {
        let cmd = self.pending_commands.pop_front();
        proof {
            if old(self).pending_commands().len() > 0 {
                assert(self.pending_commands() =~= old(self).pending_commands().drop_first());
            }
        }
        cmd
    }
}

/// The elements of a sequence with one more element pushed.
proof fn lemma_to_set_push(s: Seq<Seq<char>>, v: Seq<char>)
    ensures
        s.push(v).to_set() == s.to_set().insert(v),
{
    assert forall|x: Seq<char>| #[trigger] s.push(v).to_set().contains(x) == s.to_set().insert(v).contains(x) by {
        if s.push(v).contains(x) && x != v {
            let i = choose|i: int| 0 <= i < s.push(v).len() && s.push(v)[i] == x;
            assert(i < s.len());
            assert(s[i] == x);
        }
        if s.contains(x) {
            let i = choose|i: int| 0 <= i < s.len() && s[i] == x;
            assert(s.push(v)[i] == x);
        }
        if x == v {
            assert(s.push(v)[s.len() as int] == v);
        }
    }
    assert(s.push(v).to_set() =~= s.to_set().insert(v));
}

/// Replacing the QoS of a listed filter replaces it in the subscription map.
proof fn lemma_subscription_map_update(s0: Seq<(String, u8)>, k: int, s1: Seq<(String, u8)>)
    requires
        filters_distinct(s0),
        filters_distinct(s1),
        0 <= k < s0.len(),
        s1.len() == s0.len(),
        s1[k].0@ == s0[k].0@,
        forall|j: int| 0 <= j < s0.len() && j != k ==> s1[j] == s0[j],
    ensures
        subscription_map(s1) == subscription_map(s0).insert(s0[k].0@, s1[k].1),
{
    let m0 = subscription_map(s0);
    let m1 = subscription_map(s1);
    assert forall|key: Seq<char>| #[trigger] m1.contains_key(key) == m0.insert(s0[k].0@, s1[k].1).contains_key(key) by {
        if m0.contains_key(key) {
            let i = choose|i: int| 0 <= i < s0.len() && #[trigger] s0[i].0@ == key;
            assert(s1[i].0@ == key);
        }
        if m1.contains_key(key) {
            let i = choose|i: int| 0 <= i < s1.len() && #[trigger] s1[i].0@ == key;
            assert(s0[i].0@ == key);
        }
        if key == s0[k].0@ {
            assert(s1[k].0@ == key);
        }
    }
    assert forall|key: Seq<char>| m1.contains_key(key) implies #[trigger] m1[key] == m0.insert(
        s0[k].0@,
        s1[k].1,
    )[key] by {
        let i = choose|i: int| 0 <= i < s1.len() && #[trigger] s1[i].0@ == key;
        if key == s0[k].0@ {
            assert(i == k);
        } else {
            let i0 = choose|i: int| 0 <= i < s0.len() && #[trigger] s0[i].0@ == key;
            assert(s1[i0].0@ == key);
            assert(i0 == i);
        }
    }
    assert(m1 =~= m0.insert(s0[k].0@, s1[k].1));
}

/// Appending an unlisted filter adds it to the subscription map.
proof fn lemma_subscription_map_push(s0: Seq<(String, u8)>, s1: Seq<(String, u8)>)
    requires
        filters_distinct(s1),
        s1.len() == s0.len() + 1,
        forall|j: int| 0 <= j < s0.len() ==> s1[j] == s0[j],
    ensures
        subscription_map(s1) == subscription_map(s0).insert(s1[s0.len() as int].0@, s1[s0.len() as int].1),
{
    let n = s0.len() as int;
    let m0 = subscription_map(s0);
    let m1 = subscription_map(s1);
    let m2 = m0.insert(s1[n].0@, s1[n].1);
    assert forall|key: Seq<char>| #[trigger] m1.contains_key(key) == m2.contains_key(key) by {
        if m0.contains_key(key) {
            let i = choose|i: int| 0 <= i < s0.len() && #[trigger] s0[i].0@ == key;
            assert(s1[i].0@ == key);
        }
        if m1.contains_key(key) && key != s1[n].0@ {
            let i = choose|i: int| 0 <= i < s1.len() && #[trigger] s1[i].0@ == key;
            assert(i < n);
            assert(s0[i].0@ == key);
        }
        if key == s1[n].0@ {
            assert(s1[n].0@ == key);
        }
    }
    assert forall|key: Seq<char>| m1.contains_key(key) implies #[trigger] m1[key] == m2[key] by {
        let i = choose|i: int| 0 <= i < s1.len() && #[trigger] s1[i].0@ == key;
        if key == s1[n].0@ {
            assert(i == n);
        } else {
            let i0 = choose|i: int| 0 <= i < s0.len() && #[trigger] s0[i].0@ == key;
            assert(s1[i0].0@ == key);
            assert(i0 == i);
        }
    }
    assert(m1 =~= m2);
}

/// Removing a listed filter removes it from the subscription map.
proof fn lemma_subscription_map_remove(s0: Seq<(String, u8)>, k: int, s1: Seq<(String, u8)>)
    requires
        filters_distinct(s0),
        0 <= k < s0.len(),
        s1 == s0.remove(k),
    ensures
        subscription_map(s1) == subscription_map(s0).remove(s0[k].0@),
{
    let m0 = subscription_map(s0);
    let m1 = subscription_map(s1);
    let m2 = m0.remove(s0[k].0@);
    assert forall|key: Seq<char>| #[trigger] m1.contains_key(key) == m2.contains_key(key) by {
        if m1.contains_key(key) {
            let i = choose|i: int| 0 <= i < s1.len() && #[trigger] s1[i].0@ == key;
            let i0 = if i < k { i } else { i + 1 };
            assert(s0[i0].0@ == key);
            assert(i0 != k);
        }
        if m2.contains_key(key) {
            let i0 = choose|i: int| 0 <= i < s0.len() && #[trigger] s0[i].0@ == key;
            assert(i0 != k);
            let i = if i0 < k { i0 } else { i0 - 1 };
            assert(s1[i].0@ == key);
        }
    }
    assert forall|key: Seq<char>| m1.contains_key(key) implies #[trigger] m1[key] == m2[key] by {
        let i = choose|i: int| 0 <= i < s1.len() && #[trigger] s1[i].0@ == key;
        let i0 = if i < k { i } else { i + 1 };
        assert(s0[i0].0@ == key);
        let j0 = choose|j: int| 0 <= j < s0.len() && #[trigger] s0[j].0@ == key;
        assert(j0 == i0);
    }
    assert(m1 =~= m2);
}

/// The identifier handed out `k` allocations after `id`.
pub open spec fn nth_id(id: u16, k: nat) -> u16
    decreases k,
{
    if k == 0 {
        id
    } else {
        next_id(nth_id(id, (k - 1) as nat))
    }
}

/// Allocation walks the identifiers 1 to 65535 in a cycle.
pub proof fn lemma_ids_cycle(id: u16, k: nat)
    requires
        id != 0,
    ensures
        nth_id(id, k) == ((id - 1 + k) % 65535 + 1),
    decreases k,
{
    if k > 0 {
        lemma_ids_cycle(id, (k - 1) as nat);
        let a: int = id - 1 + k - 1;
        assert(((a % 65535) + 1 == 65535) ==> ((a + 1) % 65535 == 0)) by (nonlinear_arith);
        assert(((a % 65535) + 1 != 65535) ==> ((a + 1) % 65535 == a % 65535 + 1)) by (nonlinear_arith)
            requires
                a >= 0,
        ;
    }
}

/// Any 65535 consecutive allocations hand out distinct identifiers.
pub proof fn lemma_ids_distinct(id: u16, j: nat, k: nat)
    requires
        id != 0,
        j < k < j + 65535,
    ensures
        nth_id(id, j) != nth_id(id, k),
{
    lemma_ids_cycle(id, j);
    lemma_ids_cycle(id, k);
    let a: int = id - 1 + j;
    let b: int = id - 1 + k;
    assert(a % 65535 != b % 65535) by (nonlinear_arith)
        requires
            0 <= a < b < a + 65535,
    ;
}

} // verus!
