//! The node registry: node id -> server handle, store id -> client channel,
//! kept in one-to-one correspondence.
use std::collections::HashMap;
use vstd::prelude::*;
use crate::endpoint::{lemma_endpoint_injective, node_addr, node_addr_spec};
use vstd::std_specs::iter::IteratorSpec;

verus! {

broadcast use vstd::std_specs::hash::group_hash_axioms;

/// A running server together with the store id it reported at startup.
pub struct NodeEntry<S> {
    pub store_id: u64,
    pub server: S,
}

/// A client channel, the node it was opened for and the endpoint it dials.
pub struct ChannelEntry<C> {
    pub node_id: u16,
    pub addr: String,
    pub channel: C,
}

/// Why a node could not be registered.
#[derive(Debug, PartialEq, Eq, Structural, Clone, Copy)]
pub enum RegistryError {
    /// The node id is already registered.
    NodeRunning,
    /// Another node already reported this store id.
    StoreTaken,
}

/// The registry of the nodes of one test cluster.
pub struct ServerCluster<S, C> {
    servers: HashMap<u16, NodeEntry<S>>,
    channels: HashMap<u64, ChannelEntry<C>>,
}

impl<S, C> ServerCluster<S, C> {
    /// The registered node ids.
    pub closed spec fn node_set(&self) -> Set<u16> {
        self.servers@.dom()
    }

    /// The store ids that have a client channel.
    pub closed spec fn store_set(&self) -> Set<u64> {
        self.channels@.dom()
    }

    /// The store id that node `n` reported.
    pub closed spec fn store_of(&self, n: u16) -> u64 {
        self.servers@[n].store_id
    }

    /// The node whose channel is kept under store id `s`.
    pub closed spec fn channel_node(&self, s: u64) -> u16 {
        self.channels@[s].node_id
    }

    /// The endpoint that the channel under store id `s` dials.
    pub closed spec fn channel_addr(&self, s: u64) -> Seq<char> {
        self.channels@[s].addr@
    }

    /// The server handle of node `n`.
    pub closed spec fn server_of(&self, n: u16) -> S {
        self.servers@[n].server
    }

    /// The channel kept under store id `s`.
    pub closed spec fn channel_of(&self, s: u64) -> C {
        self.channels@[s].channel
    }

    /// Every node has the channel of its store, dialling the node's own
    /// endpoint, and every channel belongs to the node that reported its store.
    pub open spec fn wf(&self) -> bool {
        &&& forall|n: u16| #[trigger]
            self.node_set().contains(n) ==> {
                &&& self.store_set().contains(self.store_of(n))
                &&& self.channel_node(self.store_of(n)) == n
                &&& self.channel_addr(self.store_of(n)) == node_addr_spec(n)
            }
        &&& forall|s: u64| #[trigger]
            self.store_set().contains(s) ==> {
                &&& self.node_set().contains(self.channel_node(s))
                &&& self.store_of(self.channel_node(s)) == s
            }
    }

    /// An empty registry.
    pub fn new() -> (r: Self)
        ensures
            r.wf(),
            r.node_set() == Set::<u16>::empty(),
            r.store_set() == Set::<u64>::empty(),
    {
        let r = ServerCluster { servers: HashMap::new(), channels: HashMap::new() };
        assert(r.node_set() =~= Set::<u16>::empty());
        assert(r.store_set() =~= Set::<u64>::empty());
        r
    }

    /// Registers a started server under `node_id`, with the channel opened to
    /// the node's client endpoint under the store id the server reported.
    pub fn register(&mut self, node_id: u16, store_id: u64, server: S, channel: C) -> (r: Result<
        (),
        RegistryError,
    >)
        requires
            old(self).wf(),
        ensures
            final(self).wf(),
            old(self).node_set().contains(node_id) ==> r == Err::<(), RegistryError>(
                RegistryError::NodeRunning,
            ),
            !old(self).node_set().contains(node_id) && old(self).store_set().contains(store_id)
                ==> r == Err::<(), RegistryError>(RegistryError::StoreTaken),
            r is Err ==> *final(self) == *old(self),
            r is Ok <==> !old(self).node_set().contains(node_id) && !old(self).store_set().contains(
                store_id,
            ),
            r is Ok ==> {
                &&& final(self).node_set() == old(self).node_set().insert(node_id)
                &&& final(self).store_set() == old(self).store_set().insert(store_id)
                &&& final(self).store_of(node_id) == store_id
                &&& final(self).server_of(node_id) == server
                &&& final(self).channel_of(store_id) == channel
                &&& forall|n: u16| #[trigger]
                    old(self).node_set().contains(n) ==> final(self).store_of(n) == old(
                        self,
                    ).store_of(n) && final(self).server_of(n) == old(self).server_of(n)
                &&& forall|s: u64| #[trigger]
                    old(self).store_set().contains(s) ==> final(self).channel_of(s) == old(
                        self,
                    ).channel_of(s)
            },
    {
        if self.servers.contains_key(&node_id) {
            return Err(RegistryError::NodeRunning);
        }
        if self.channels.contains_key(&store_id) {
            return Err(RegistryError::StoreTaken);
        }
        let addr = node_addr(node_id);
        self.channels.insert(store_id, ChannelEntry { node_id, addr, channel });
        self.servers.insert(node_id, NodeEntry { store_id, server });
        assert(self.node_set() =~= old(self).node_set().insert(node_id));
        assert(self.store_set() =~= old(self).store_set().insert(store_id));
        Ok(())
    }

    /// Takes node `node_id` out of the registry together with the channel of
    /// its store, and hands back its server so that the caller can stop it.
    /// An unknown node leaves the registry as it is.
    pub fn stop_node(&mut self, node_id: u16) -> (r: Option<S>)
        requires
            old(self).wf(),
        ensures
            final(self).wf(),
            r is Some <==> old(self).node_set().contains(node_id),
            !final(self).node_set().contains(node_id),
            r is None ==> *final(self) == *old(self),
            r is Some ==> {
                &&& r == Some(old(self).server_of(node_id))
                &&& final(self).node_set() == old(self).node_set().remove(node_id)
                &&& final(self).store_set() == old(self).store_set().remove(
                    old(self).store_of(node_id),
                )
                &&& forall|n: u16| #[trigger]
                    final(self).node_set().contains(n) ==> final(self).store_of(n) == old(
                        self,
                    ).store_of(n) && final(self).server_of(n) == old(self).server_of(n)
                &&& forall|s: u64| #[trigger]
                    final(self).store_set().contains(s) ==> final(self).channel_of(s) == old(
                        self,
                    ).channel_of(s)
            },
    {
        if !self.servers.contains_key(&node_id) {
            return None;
        }
        let ghost pre = *self;
        assert(pre.node_set().contains(node_id));
        let entry = self.servers.remove(&node_id).unwrap();
        let store_id = entry.store_id;
        assert(pre.store_set().contains(store_id));
        self.channels.remove(&store_id);
        assert(self.node_set() =~= old(self).node_set().remove(node_id));
        assert(self.store_set() =~= old(self).store_set().remove(store_id));
        assert forall|s: u64| #[trigger] self.store_set().contains(s) implies {
            &&& self.node_set().contains(self.channel_node(s))
            &&& self.store_of(self.channel_node(s)) == s
        } by {
            assert(pre.store_set().contains(s));
        }
        assert forall|n: u16| #[trigger] self.node_set().contains(n) implies {
            &&& self.store_set().contains(self.store_of(n))
            &&& self.channel_node(self.store_of(n)) == n
            &&& self.channel_addr(self.store_of(n)) == node_addr_spec(n)
        } by {
            assert(pre.node_set().contains(n));
        }
        Some(entry.server)
    }

    /// The registered node ids, each once, in no particular order.
    pub fn get_nodes(&self) -> (r: Vec<u16>)
        ensures
            r@.to_set() == self.node_set(),
            r@.no_duplicates(),
    {
        let mut r: Vec<u16> = Vec::new();
        for k in it: self.servers.keys()
            invariant
                r@ == it.seq().take(it.index()).unref(),
                it.index() == it.seq().len() ==> r@ =~= it.seq().unref(),
                it.seq().unref().to_set() == self.node_set(),
                it.seq().unref().no_duplicates(),
            ensures
                r@.to_set() == self.node_set(),
                r@.no_duplicates(),
        {
            r.push(*k);
            assert(r@ =~= it.seq().take(it.index() + 1).unref());
            assert(it.index() + 1 == it.seq().len() ==> r@ =~= it.seq().unref());
        }
        r
    }

    /// The registered store ids, each once, in no particular order.
    pub fn get_stores(&self) -> (r: Vec<u64>)
        ensures
            r@.to_set() == self.store_set(),
            r@.no_duplicates(),
    {
        let mut r: Vec<u64> = Vec::new();
        for k in it: self.channels.keys()
            invariant
                r@ == it.seq().take(it.index()).unref(),
                it.index() == it.seq().len() ==> r@ =~= it.seq().unref(),
                it.seq().unref().to_set() == self.store_set(),
                it.seq().unref().no_duplicates(),
            ensures
                r@.to_set() == self.store_set(),
                r@.no_duplicates(),
        {
            r.push(*k);
            assert(r@ =~= it.seq().take(it.index() + 1).unref());
            assert(it.index() + 1 == it.seq().len() ==> r@ =~= it.seq().unref());
        }
        r
    }

    /// Takes every node out of the registry, with its channel, and hands back
    /// their servers so that the caller can stop them.
    pub fn stop(&mut self) -> (r: Vec<S>)
        requires
            old(self).wf(),
        ensures
            final(self).wf(),
            final(self).node_set() == Set::<u16>::empty(),
            final(self).store_set() == Set::<u64>::empty(),
            exists|order: Seq<u16>|
                {
                    &&& order.no_duplicates()
                    &&& order.to_set() == old(self).node_set()
                    &&& r@ == order.map_values(|n: u16| old(self).server_of(n))
                },
    {
        let nodes = self.get_nodes();
        let ghost all = self.node_set();
        let mut servers: Vec<S> = Vec::new();
        for i in 0..nodes.len()
            invariant
                self.wf(),
                nodes@.no_duplicates(),
                nodes@.to_set() == all,
                all == old(self).node_set(),
                servers@ == nodes@.take(i as int).map_values(|n: u16| old(self).server_of(n)),
                self.node_set() == all.difference(nodes@.take(i as int).to_set()),
                forall|n: u16| #[trigger]
                    self.node_set().contains(n) ==> self.server_of(n) == old(self).server_of(n),
        {
            let n = nodes[i];
            proof {
                assert(all.contains(n));
                let t0 = nodes@.take(i as int);
                let t1 = nodes@.take(i + 1);
                assert forall|x: u16| #[trigger] t1.contains(x) <==> t0.contains(x) || x == n by {
                    if t1.contains(x) && x != n {
                        let j = choose|j: int| 0 <= j < t1.len() && #[trigger] t1[j] == x;
                        assert(t0[j] == x);
                    }
                    if x == n {
                        assert(t1[i as int] == n);
                    }
                    if t0.contains(x) {
                        let j = choose|j: int| 0 <= j < t0.len() && #[trigger] t0[j] == x;
                        assert(t1[j] == x);
                    }
                }
                assert(t1.to_set() =~= t0.to_set().insert(n));
            }
            let stopped = self.stop_node(n);
            servers.push(stopped.unwrap());
            assert(servers@ =~= nodes@.take(i + 1).map_values(|n: u16| old(self).server_of(n)));
            assert(self.node_set() =~= all.difference(nodes@.take(i + 1).to_set()));
        }
        assert(nodes@.take(nodes@.len() as int) =~= nodes@);
        assert(servers@ =~= nodes@.map_values(|n: u16| old(self).server_of(n)));
        assert(self.node_set() =~= Set::<u16>::empty());
        assert(self.store_set() =~= Set::<u64>::empty()) by {
            assert forall|s: u64| !self.store_set().contains(s) by {
                if self.store_set().contains(s) {
                    assert(self.node_set().contains(self.channel_node(s)));
                }
            }
        }
        servers
    }

    /// Whether `node_id` is registered.
    pub fn has_node(&self, node_id: u16) -> (r: bool)
        ensures
            r == self.node_set().contains(node_id),
    {
        self.servers.contains_key(&node_id)
    }

    /// Whether store `store_id` has a channel.
    pub fn has_store(&self, store_id: u64) -> (r: bool)
        ensures
            r == self.store_set().contains(store_id),
    {
        self.channels.contains_key(&store_id)
    }

    /// The server handle of a registered node.
    pub fn server(&self, node_id: u16) -> (r: &S)
        requires
            self.node_set().contains(node_id),
        ensures
            *r == self.server_of(node_id),
    {
        &self.servers.get(&node_id).unwrap().server
    }

    /// The store id that a registered node reported.
    pub fn store_id(&self, node_id: u16) -> (r: u64)
        requires
            self.node_set().contains(node_id),
        ensures
            r == self.store_of(node_id),
    {
        self.servers.get(&node_id).unwrap().store_id
    }

    /// The client channel of a store that has one.
    pub fn get_client_channel(&self, store_id: u64) -> (r: &C)
        requires
            self.store_set().contains(store_id),
        ensures
            *r == self.channel_of(store_id),
    {
        &self.channels.get(&store_id).unwrap().channel
    }

    /// The node that reported store `store_id`, if any.
    pub fn get_server_node_id(&self, store_id: u64) -> (r: Option<u16>)
        requires
            self.wf(),
        ensures
            r is Some <==> exists|n: u16| #[trigger]
                self.node_set().contains(n) && self.store_of(n) == store_id,
            r matches Some(n) ==> self.node_set().contains(n) && self.store_of(n) == store_id,
    {
        match self.channels.get(&store_id) {
            Some(entry) => {
                assert(self.store_set().contains(store_id));
                Some(entry.node_id)
            },
            None => {
                assert forall|n: u16| #[trigger]
                    self.node_set().contains(n) implies self.store_of(n) != store_id by {}
                None
            },
        }
    }
}

/// A registered node has exactly one channel dialling its client endpoint:
/// the one kept under the store id it reported.
pub proof fn lemma_node_has_one_channel<S, C>(c: &ServerCluster<S, C>, n: u16)
    requires
        c.wf(),
        c.node_set().contains(n),
    ensures
        c.store_set().contains(c.store_of(n)),
        c.channel_addr(c.store_of(n)) == node_addr_spec(n),
        forall|s: u64|
            c.store_set().contains(s) && #[trigger] c.channel_addr(s) == node_addr_spec(n) ==> s
                == c.store_of(n),
{
    assert forall|s: u64|
        c.store_set().contains(s) && #[trigger] c.channel_addr(s) == node_addr_spec(
            n,
        ) implies s == c.store_of(n) by {
        let m = c.channel_node(s);
        assert(c.node_set().contains(m));
        lemma_endpoint_injective('2', m, n);
    }
}

/// Stopping a node takes both the node id and its store id out of the
/// registry, so the node can be registered again under the same store id.
pub proof fn lemma_restart_accepted<S, C>(
    running: &ServerCluster<S, C>,
    stopped: &ServerCluster<S, C>,
    n: u16,
)
    requires
        running.wf(),
        running.node_set().contains(n),
        stopped.node_set() == running.node_set().remove(n),
        stopped.store_set() == running.store_set().remove(running.store_of(n)),
    ensures
        !stopped.node_set().contains(n),
        !stopped.store_set().contains(running.store_of(n)),
{
}

} // verus!
