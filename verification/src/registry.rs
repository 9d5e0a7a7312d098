//! Connection registry: the one piece of shared state.
//!
//! The registry maps each live connection's identifier to the sending
//! half of that connection's outbound channel. Its view is that map.
//! Registering creates the connection's bounded outbound channel;
//! removing prunes an entry whose writer has gone away. A broadcast
//! snapshots the entries other than the originating connection's and
//! then enqueues outside the registry, so no lock need be held across a
//! whole broadcast.

use crate::event::ChatEvent;
use std::collections::HashMap;
use std::sync::Arc;
use tokio::sync::mpsc::Receiver;
use tokio::sync::mpsc::Sender;
use vstd::prelude::*;

verus! {

/// Capacity of each connection's outbound channel.
pub const OUTBOUND_CAPACITY: usize = 128;

/// Mapping from connection identifier to that connection's outbound
/// channel producer.
pub struct Registry {
    ids: Vec<u64>,
    map: HashMap<u64, Sender<Arc<ChatEvent>>>,
}

impl View for Registry {
    type V = Map<u64, Sender<Arc<ChatEvent>>>;

    closed spec fn view(&self) -> Map<u64, Sender<Arc<ChatEvent>>> {
        self.map@
    }
}

impl Registry {
    /// Internal consistency: the identifier list holds exactly the map's
    /// keys, each once.
    pub closed spec fn wf(self) -> bool {
        &&& self.ids@.no_duplicates()
        &&& forall|k: u64| #[trigger] self.map@.contains_key(k) <==> self.ids@.contains(k)
    }

    /// An empty registry.
    pub fn new() -> (r: Self)
        ensures
            r@ == Map::<u64, Sender<Arc<ChatEvent>>>::empty(),
            r.wf(),
    {
        let r = Registry { ids: Vec::new(), map: HashMap::new() };
        proof {
            broadcast use vstd::std_specs::hash::group_hash_axioms;

            assert(forall|k: u64| !(#[trigger] r.map@.contains_key(k)));
            assert(forall|k: u64| !(#[trigger] r.ids@.contains(k)));
        }
        r
    }

    /// Whether a connection with this identifier is registered.
    pub fn contains(&self, id: u64) -> (r: bool)
        ensures
            r == self@.contains_key(id),
    {
        proof {
            broadcast use vstd::std_specs::hash::group_hash_axioms;

        }
        self.map.contains_key(&id)
    }

    /// How many connections are registered.
    pub fn count(&self) -> (r: usize)
        ensures
            r == self@.dom().len(),
    {
        proof {
            broadcast use vstd::std_specs::hash::group_hash_axioms;

        }
        self.map.len()
    }

    /// Register a connection: create its bounded outbound channel of the
    /// given capacity, store the producing half under `id`, and hand
    /// both halves back. The stored producer and the returned consumer
    /// are the two halves of that one fresh channel. The caller passes
    /// the consumer to the connection's writer loop; the consumer cannot
    /// be duplicated, so that loop is the channel's sole drain.
    pub fn register(&mut self, id: u64, capacity: usize) -> (r: (
        Sender<Arc<ChatEvent>>,
        Receiver<Arc<ChatEvent>>,
    ))
        requires
            old(self).wf(),
            !old(self)@.contains_key(id),
            1 <= capacity <= usize::MAX >> 3,
        ensures
            final(self).wf(),
            final(self)@ == old(self)@.insert(id, r.0),
            crate::channel::outbound_pair(r.0, r.1),
            crate::channel::outbound_capacity(r.0) == capacity,
    {
        let (tx, rx) = crate::channel::new_outbound_channel(capacity);
        let tx_stored = tx.clone();
        proof {
            broadcast use vstd::std_specs::hash::group_hash_axioms;

        }
        self.map.insert(id, tx_stored);
        self.ids.push(id);
        proof {
            broadcast use vstd::seq_lib::lemma_seq_contains_after_push;

            assert(self.ids@ == old(self).ids@.push(id));
            assert(!old(self).ids@.contains(id));
        }
        (tx, rx)
    }

    /// Drop the entry for this identifier, if present. Pruning a
    /// connection whose writer has failed is a no-op for every other
    /// entry.
    #[verifier::loop_isolation(false)]
    pub fn remove(&mut self, id: u64)
        requires
            old(self).wf(),
        ensures
            final(self).wf(),
            final(self)@ == old(self)@.remove(id),
    {
        proof {
            broadcast use vstd::std_specs::hash::group_hash_axioms;

        }
        self.map.remove(&id);
        let n = self.ids.len();
        let mut kept: Vec<u64> = Vec::new();
        let mut j: usize = 0;
        while j < n
            invariant
                j <= n,
                kept@.no_duplicates(),
                forall|m: int|
                    0 <= m < kept@.len() ==> kept@[m] != id && exists|p: int|
                        0 <= p < j && self.ids@[p] == #[trigger] kept@[m],
                forall|p: int|
                    0 <= p < j && self.ids@[p] != id ==> kept@.contains(#[trigger] self.ids@[p]),
            decreases n - j,
        {
            let k = self.ids[j];
            if k != id {
                proof {
                    broadcast use vstd::seq_lib::lemma_seq_contains_after_push;

                    if kept@.contains(k) {
                        let m = choose|m: int| 0 <= m < kept@.len() && kept@[m] == k;
                        let p = choose|p: int| 0 <= p < j && self.ids@[p] == kept@[m];
                        assert(self.ids@[p] == self.ids@[j as int]);
                        assert(false);
                    }
                    assert(self.ids@[j as int] == k);
                }
                kept.push(k);
                proof {
                    broadcast use vstd::seq_lib::lemma_seq_contains_after_push;

                    assert(kept@[kept@.len() - 1] == k);
                }
            }
            j = j + 1;
        }
        self.ids = kept;
        proof {
            assert forall|k: u64| #[trigger] self.map@.contains_key(k) <==> self.ids@.contains(
                k,
            ) by {
                if self.map@.contains_key(k) {
                    assert(k != id);
                    assert(old(self).map@.contains_key(k));
                    assert(old(self).ids@.contains(k));
                    let p = choose|p: int|
                        0 <= p < old(self).ids@.len() && old(self).ids@[p] == k;
                    assert(self.ids@.contains(old(self).ids@[p]));
                }
                if self.ids@.contains(k) {
                    let m = choose|m: int| 0 <= m < self.ids@.len() && self.ids@[m] == k;
                    let p = choose|p: int|
                        0 <= p < old(self).ids@.len() && old(self).ids@[p] == self.ids@[m];
                    assert(old(self).ids@.contains(k));
                    assert(old(self).map@.contains_key(k));
                    assert(self.map@ == old(self).map@.remove(id));
                }
            }
        }
    }

    /// The sending half stored for this identifier, if any.
    pub fn sender_of(&self, id: u64) -> (r: Option<Sender<Arc<ChatEvent>>>)
        ensures
            r is Some <==> self@.contains_key(id),
            r matches Some(s) ==> self@.contains_key(id) && s == self@[id],
    {
        proof {
            broadcast use vstd::std_specs::hash::group_hash_axioms;

        }
        match self.map.get(&id) {
            Some(s) => Some(s.clone()),
            None => None,
        }
    }

    /// The identifiers of every registered connection other than
    /// `origin`: the key snapshot a broadcast iterates over. With no
    /// writer yet failed, these are exactly the model's broadcast
    /// targets.
    #[verifier::loop_isolation(false)]
    pub fn ids_except(&self, origin: u64) -> (r: Vec<u64>)
        requires
            self.wf(),
        ensures
            forall|m: int|
                0 <= m < r@.len() ==> self@.contains_key(#[trigger] r@[m]) && r@[m] != origin,
            forall|k: u64| self@.contains_key(k) && k != origin ==> r@.contains(k),
            r@.no_duplicates(),
            forall|k: u64|
                r@.contains(k) <==> crate::model::broadcast_targets(
                    self@.dom(),
                    origin,
                    Set::empty(),
                ).contains(k),
    {
        let n = self.ids.len();
        let mut out: Vec<u64> = Vec::new();
        let mut j: usize = 0;
        while j < n
            invariant
                j <= n,
                out@.no_duplicates(),
                forall|m: int|
                    0 <= m < out@.len() ==> out@[m] != origin && exists|p: int|
                        0 <= p < j && self.ids@[p] == #[trigger] out@[m],
                forall|p: int|
                    0 <= p < j && self.ids@[p] != origin ==> out@.contains(
                        #[trigger] self.ids@[p],
                    ),
            decreases n - j,
        {
            let k = self.ids[j];
            if k != origin {
                proof {
                    broadcast use vstd::seq_lib::lemma_seq_contains_after_push;

                    if out@.contains(k) {
                        let m = choose|m: int| 0 <= m < out@.len() && out@[m] == k;
                        let p = choose|p: int| 0 <= p < j && self.ids@[p] == out@[m];
                        assert(self.ids@[p] == self.ids@[j as int]);
                        assert(false);
                    }
                    assert(self.ids@[j as int] == k);
                }
                out.push(k);
                proof {
                    broadcast use vstd::seq_lib::lemma_seq_contains_after_push;

                    assert(out@[out@.len() - 1] == k);
                }
            }
            j = j + 1;
        }
        proof {
            assert forall|m: int|
                0 <= m < out@.len() implies self@.contains_key(#[trigger] out@[m]) && out@[m]
                != origin by {
                let p = choose|p: int| 0 <= p < n && self.ids@[p] == out@[m];
                assert(self.ids@.contains(out@[m]));
            }
            assert forall|k: u64| self@.contains_key(k) && k != origin implies out@.contains(
                k,
            ) by {
                let p = choose|p: int| 0 <= p < self.ids@.len() && self.ids@[p] == k;
                assert(out@.contains(self.ids@[p]));
            }
        }
        out
    }

    /// One broadcast's targets: every registered connection except the
    /// originating one, each with its outbound producer. The originating
    /// connection is never among them, so no event is ever delivered back
    /// to its sender.
    pub fn producers_except(&self, origin: u64) -> (r: Vec<(u64, Sender<Arc<ChatEvent>>)>)
        requires
            self.wf(),
        ensures
            forall|m: int|
                0 <= m < r@.len() ==> (#[trigger] r@[m]).0 != origin && self@.contains_key(
                    r@[m].0,
                ) && r@[m].1 == self@[r@[m].0],
            forall|k: u64|
                self@.contains_key(k) && k != origin ==> exists|m: int|
                    0 <= m < r@.len() && (#[trigger] r@[m]).0 == k,
            forall|m1: int, m2: int|
                0 <= m1 < m2 < r@.len() ==> (#[trigger] r@[m1]).0 != (#[trigger] r@[m2]).0,
    {
        let ids = self.ids_except(origin);
        let n = ids.len();
        let mut out: Vec<(u64, Sender<Arc<ChatEvent>>)> = Vec::new();
        for j in 0..n
            invariant
                n == ids@.len(),
                out@.len() == j,
                forall|m: int|
                    0 <= m < ids@.len() ==> self@.contains_key(#[trigger] ids@[m]) && ids@[m]
                        != origin,
                ids@.no_duplicates(),
                forall|m: int|
                    0 <= m < j ==> (#[trigger] out@[m]).0 == ids@[m] && out@[m].1 == self@[ids@[m]],
        {
            let id = ids[j];
            let s = self.sender_of(id).unwrap();
            out.push((id, s));
        }
        proof {
            assert forall|k: u64| self@.contains_key(k) && k != origin implies exists|m: int|
                0 <= m < out@.len() && (#[trigger] out@[m]).0 == k by {
                assert(ids@.contains(k));
                let p = choose|p: int| 0 <= p < ids@.len() && ids@[p] == k;
                assert((out@[p]).0 == k);
            }
        }
        out
    }
}

} // verus!
