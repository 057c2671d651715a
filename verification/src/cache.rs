//! The connection cache: at most one pool for each destination, each pool
//! with at most the configured number of connections.

use vstd::prelude::*;
use vstd::pervasive::unreached;
use std::sync::Arc;
use std::sync::RwLock;
use solana_connection_cache::connection_cache_stats::ConnectionCacheStats;
use solana_streamer::streamer::StakedNodes;
use crate::address::{Endpoint, IpAddress, SocketAddress};
use crate::config::{ConfigView, ManagerView, QuicConfig, QuicConnectionManager, rotation_result};
use crate::connection::{new_stats, BlockingQuicClientConnection, NonblockingQuicClientConnection};
use crate::error::ClientError;
use crate::lazy_endpoint::{Completion, EndpointAction, EndpointState};
use crate::pool::{ClientView, PoolView, Quic, QuicPool};
use crate::tls::{identity_of, is_keypair, keypair_pubkey, public_key};

verus! {

/// A destination and its pool, as a value.
pub struct PoolSlotView {
    pub addr: SocketAddress,
    pub pool: PoolView,
}

/// One call of `get_or_create`: the destination, and what binding a local
/// socket gave the caller.
pub struct Request {
    pub addr: SocketAddress,
    pub bound: Option<Endpoint>,
}

/// A cache as a value.
pub struct CacheView {
    pub name: Seq<char>,
    /// The pools, in the order in which their destinations were first asked for.
    pub pools: Seq<PoolSlotView>,
    pub manager: ManagerView,
    /// The number of connections a pool may grow to.
    pub pool_size: nat,
    pub stats: Arc<ConnectionCacheStats>,
}

/// What holds of a pool in a cache: it is a pool to its destination, on the
/// manager's endpoint, with at least one connection and no more than the
/// cache allows.
pub open spec fn slot_wf(slot: PoolSlotView, pool_size: nat, manager: ManagerView) -> bool {
    &&& slot.pool.wf()
    &&& slot.pool.leads_to(slot.addr)
    &&& 1 <= slot.pool.connections.len() <= pool_size
    &&& manager.endpoint.state == EndpointState::Ready(slot.pool.endpoint)
}

/// The connections of all pools, pool after pool.
pub open spec fn all_connections(pools: Seq<PoolSlotView>) -> Seq<ClientView>
    decreases pools.len(),
{
    if pools.len() == 0 {
        Seq::empty()
    } else {
        pools[0].pool.connections + all_connections(pools.remove(0))
    }
}

impl CacheView {
    /// Whether the cache has a pool for `addr`.
    pub open spec fn has(self, addr: SocketAddress) -> bool {
        exists|i: int| 0 <= i < self.pools.len() && (#[trigger] self.pools[i]).addr == addr
    }

    /// Where the pool for `addr` stands, in a cache that has one.
    pub open spec fn slot(self, addr: SocketAddress) -> int {
        choose|i: int| 0 <= i < self.pools.len() && (#[trigger] self.pools[i]).addr == addr
    }

    /// The pool for `addr`, if the cache has one.
    pub open spec fn pool(self, addr: SocketAddress) -> Option<PoolView> {
        if self.has(addr) {
            Some(self.pools[self.slot(addr)].pool)
        } else {
            None
        }
    }

    /// No destination has two pools, and every pool is as `slot_wf` says.
    pub open spec fn wf(self) -> bool {
        &&& self.pool_size >= 1
        &&& self.manager.wf()
        &&& forall|i: int, j: int|
            0 <= i < j < self.pools.len() ==> (#[trigger] self.pools[i]).addr != (
            #[trigger] self.pools[j]).addr
        &&& forall|i: int|
            0 <= i < self.pools.len() ==> slot_wf(#[trigger] self.pools[i], self.pool_size, self.manager)
    }

    /// The cache with the pool at `k` replaced.
    pub open spec fn with_pool(self, k: int, pool: PoolView) -> CacheView {
        CacheView { pools: self.pools.update(k, PoolSlotView { addr: self.pools[k].addr, pool }), ..self }
    }

    /// One call of `get_or_create`: the cache after it, and what it returns.
    ///
    /// A destination that has a pool is served from it: by a new connection
    /// while the pool has fewer than the cache allows, else by the connection
    /// whose turn it is. A destination that has none gets a pool with one
    /// connection, for which the manager's endpoint is set up if it is not
    /// yet; where that fails, only the error is returned and no pool is made.
    pub open spec fn get_or_create(self, addr: SocketAddress, bound: Option<Endpoint>) -> (
        CacheView,
        Result<ClientView, ClientError>,
    ) {
        if self.has(addr) {
            let k = self.slot(addr);
            let pool = self.pools[k].pool;
            if pool.connections.len() < self.pool_size {
                let entry = pool.entry(addr, self.manager.config.identity);
                (self.with_pool(k, pool.add(entry)), Ok(entry))
            } else {
                (self.with_pool(k, pool.lend()), Ok(pool.connections[pool.turn()]))
            }
        } else {
            let manager = self.manager.after_new_pool(bound);
            match self.manager.new_pool(bound) {
                Ok(pool) => {
                    let entry = pool.entry(addr, self.manager.config.identity);
                    (
                        CacheView {
                            pools: self.pools.push(PoolSlotView { addr, pool: pool.add(entry) }),
                            manager,
                            ..self
                        },
                        Ok(entry),
                    )
                },
                Err(e) => (CacheView { manager, ..self }, Err(e)),
            }
        }
    }

    /// The cache after a series of calls of `get_or_create`.
    pub open spec fn serve(self, requests: Seq<Request>) -> CacheView
        decreases requests.len(),
    {
        if requests.len() == 0 {
            self
        } else {
            self.serve(requests.drop_last()).get_or_create(requests.last().addr, requests.last().bound).0
        }
    }

    /// The connection to close next: the oldest of the first pool.
    pub open spec fn oldest(self) -> Option<ClientView> {
        if self.pools.len() == 0 {
            None
        } else {
            self.pools[0].pool.oldest()
        }
    }

    /// The cache after that connection was handed to a caller to be closed:
    /// it is still in its pool.
    pub open spec fn hand_out(self) -> CacheView {
        if self.pools.len() == 0 {
            self
        } else {
            self.with_pool(0, self.pools[0].pool.hand_out())
        }
    }

    /// The cache after the caller reported the connection closed: only now
    /// does it leave its pool, and a pool that has none left leaves the
    /// cache. With no connection out to be closed, nothing changes.
    pub open spec fn release(self) -> CacheView {
        if self.pools.len() == 0 || !self.pools[0].pool.closing {
            self
        } else {
            let pool = self.pools[0].pool.release();
            if pool.connections.len() == 0 {
                CacheView { pools: self.pools.remove(0), ..self }
            } else {
                self.with_pool(0, pool)
            }
        }
    }

    /// The cache after `k` steps of tearing it down. In each, the connection
    /// to close next is handed out, closed by the caller, and released.
    pub open spec fn after_closes(self, k: nat) -> CacheView
        decreases k,
    {
        if k == 0 {
            self
        } else {
            self.after_closes((k - 1) as nat).hand_out().release()
        }
    }

    /// The connections handed out to be closed by the first `k` steps of
    /// tearing the cache down, in the order in which they were handed out.
    pub open spec fn closed_by(self, k: nat) -> Seq<ClientView>
        decreases k,
    {
        if k == 0 {
            Seq::empty()
        } else {
            match self.after_closes((k - 1) as nat).oldest() {
                Some(connection) => self.closed_by((k - 1) as nat).push(connection),
                None => self.closed_by((k - 1) as nat),
            }
        }
    }

    /// The cache after its identity was rotated to `keypair`.
    pub open spec fn rotate(self, keypair: Seq<u8>) -> CacheView {
        CacheView { manager: self.manager.rotate(keypair), ..self }
    }
}

/// A destination with its pool.
struct PoolSlot {
    addr: SocketAddress,
    pool: QuicPool,
}

/// The cache of QUIC connections.
pub struct QuicConnectionCache {
    name: &'static str,
    map: Vec<PoolSlot>,
    connection_manager: QuicConnectionManager,
    connection_pool_size: usize,
    stats: Arc<ConnectionCacheStats>,
}

impl View for QuicConnectionCache {
    type V = CacheView;

    closed spec fn view(&self) -> CacheView {
        CacheView {
            name: self.name@,
            pools: Seq::new(
                self.map@.len(),
                |i: int| PoolSlotView { addr: self.map@[i].addr, pool: self.map@[i].pool@ },
            ),
            manager: self.connection_manager@,
            pool_size: self.connection_pool_size as nat,
            stats: self.stats,
        }
    }
}

impl QuicConnectionCache {
    /// A cache without pools. A pool may grow to `connection_pool_size`
    /// connections, and to one where that is zero.
    pub fn new(name: &'static str, connection_manager: QuicConnectionManager, connection_pool_size: usize) -> (r:
        Result<Self, ClientError>)
        requires
            connection_manager@.wf(),
        ensures
            r matches Ok(cache) && cache@.wf(),
            r matches Ok(cache) ==> {
                &&& cache@.name == name@
                &&& cache@.pools == Seq::<PoolSlotView>::empty()
                &&& cache@.manager == connection_manager@
                &&& cache@.pool_size == if connection_pool_size == 0 {
                    1nat
                } else {
                    connection_pool_size as nat
                }
            },
    {
        // The minimum pool size is 1.
        let connection_pool_size: usize = if connection_pool_size == 0 {
            1
        } else {
            connection_pool_size
        };
        let cache = Self {
            name,
            map: Vec::new(),
            connection_manager,
            connection_pool_size,
            stats: new_stats(),
        };
        assert(cache@.pools =~= Seq::<PoolSlotView>::empty());
        Ok(cache)
    }

    pub fn name(&self) -> (name: &'static str)
        ensures
            name@ == self@.name,
    {
        self.name
    }

    /// The number of connections a pool may grow to.
    pub fn connection_pool_size(&self) -> (size: usize)
        ensures
            size == self@.pool_size,
    {
        self.connection_pool_size
    }

    /// The number of destinations that have a pool.
    pub fn num_pools(&self) -> (n: usize)
        ensures
            n == self@.pools.len(),
    {
        self.map.len()
    }

    /// The manager that makes this cache's pools.
    pub fn connection_manager(&self) -> (manager: &QuicConnectionManager)
        ensures
            manager@ == self@.manager,
    {
        &self.connection_manager
    }

    /// A handle on the counters that this cache's connections record in.
    pub fn stats(&self) -> (stats: Arc<ConnectionCacheStats>)
        ensures
            stats == self@.stats,
    {
        self.stats.clone()
    }

    /// A caller that is about to ask for a connection asks for the endpoint
    /// first and is told what to do: to bind the local socket and report
    /// with `complete_endpoint`, to wait for the caller that was told so, or
    /// to go on. Of the callers that find the endpoint not set up, one is
    /// told to bind. The pools are not touched.
    pub fn acquire_endpoint(&mut self) -> (action: EndpointAction)
        requires
            old(self)@.wf(),
        ensures
            final(self)@ == (CacheView { manager: old(self)@.manager.acquire(), ..old(self)@ }),
            action == old(self)@.manager.endpoint.acquire().1,
            final(self)@.wf(),
    {
        let ghost before = self@;
        let action = self.connection_manager.acquire_endpoint();
        proof {
            assert(self@.pools =~= before.pools);
            assert forall|i: int| 0 <= i < self@.pools.len() implies slot_wf(
                #[trigger] self@.pools[i],
                self@.pool_size,
                self@.manager,
            ) by {
                assert(slot_wf(before.pools[i], before.pool_size, before.manager));
            }
        }
        action
    }

    /// The caller that was told to bind reports what binding gave: the
    /// endpoint, or nothing where it failed. The outcome is that of every
    /// caller that waited. After a failure the endpoint is not set up, and
    /// the next caller is told to bind. The pools are not touched.
    pub fn complete_endpoint(&mut self, bound: Option<Endpoint>) -> (completion: Completion)
        requires
            old(self)@.wf(),
        ensures
            final(self)@ == (CacheView { manager: old(self)@.manager.complete(bound), ..old(self)@ }),
            completion == old(self)@.manager.endpoint.complete(bound).1,
            final(self)@.wf(),
    {
        let ghost before = self@;
        let completion = self.connection_manager.complete_endpoint(bound);
        proof {
            assert(self@.pools =~= before.pools);
            assert forall|i: int| 0 <= i < self@.pools.len() implies slot_wf(
                #[trigger] self@.pools[i],
                self@.pool_size,
                self@.manager,
            ) by {
                assert(slot_wf(before.pools[i], before.pool_size, before.manager));
            }
        }
        completion
    }

    /// Whether a caller of `get_or_create` for a destination without a pool
    /// has to bind a local socket first and pass what that gave.
    pub fn needs_bind(&self) -> (needed: bool)
        ensures
            needed == self@.manager.endpoint.needs_bind(),
    {
        self.connection_manager.needs_bind()
    }

    /// Where the pool for `addr` stands.
    fn position(&self, addr: &SocketAddress) -> (r: Option<usize>)
        ensures
            match r {
                Some(k) => k < self@.pools.len() && self@.pools[k as int].addr == *addr,
                None => !self@.has(*addr),
            },
            self@.wf() ==> (r matches Some(k) ==> k == self@.slot(*addr)),
    {
        let mut i: usize = 0;
        while i < self.map.len()
            invariant
                i <= self.map@.len(),
                forall|j: int| 0 <= j < i ==> (#[trigger] self@.pools[j]).addr != *addr,
            decreases self.map@.len() - i,
        {
            if self.map[i].addr == *addr {
                return Some(i);
            }
            i += 1;
        }
        None
    }

    /// The pool for `addr`, if there is one.
    pub fn pool(&self, addr: &SocketAddress) -> (r: Option<&QuicPool>)
        requires
            self@.wf(),
        ensures
            match r {
                Some(pool) => self@.pool(*addr) == Some(pool@),
                None => self@.pool(*addr) is None,
            },
    {
        match self.position(addr) {
            Some(k) => Some(&self.map[k].pool),
            None => None,
        }
    }

    /// Rotates the identity to that of `key`, a keypair given as its 64
    /// bytes. The pools and their connections stay as they are; connections
    /// made from now on present the new identity. Bytes that are no keypair
    /// are refused and change nothing.
    pub fn update_key(&mut self, key: &[u8]) -> (r: Result<(), ClientError>)
        requires
            old(self)@.wf(),
        ensures
            r == rotation_result(key@),
            final(self)@ == old(self)@.rotate(key@),
            final(self)@.wf(),
    {
        let ghost before = self@;
        let r = self.connection_manager.update_key(key);
        proof {
            assert(self@.pools =~= before.pools);
        }
        r
    }

    /// Replaces the table of staked nodes and the public key under which
    /// this client is looked up in it.
    pub fn set_staked_nodes(&mut self, staked_nodes: &Arc<RwLock<StakedNodes>>, client_pubkey: &[u8; 32])
        requires
            old(self)@.wf(),
        ensures
            final(self)@ == (CacheView {
                manager: ManagerView {
                    config: ConfigView {
                        staked_nodes: Some(*staked_nodes),
                        client_pubkey: Some(*client_pubkey),
                        ..old(self)@.manager.config
                    },
                    ..old(self)@.manager
                },
                ..old(self)@
            }),
            final(self)@.wf(),
    {
        let ghost before = self@;
        self.connection_manager.set_staked_nodes(staked_nodes, client_pubkey);
        proof {
            assert(self@.pools =~= before.pools);
        }
    }

    /// A connection to `addr`: see `CacheView::get_or_create`. `bound` is
    /// what binding a local socket gave the caller, or nothing where it
    /// failed or was not tried; it is looked at only where `addr` has no
    /// pool and `needs_bind` holds.
    pub fn get_or_create(&mut self, addr: &SocketAddress, bound: Option<Endpoint>) -> (r: Result<
        Quic,
        ClientError,
    >)
        requires
            old(self)@.wf(),
        ensures
            final(self)@ == old(self)@.get_or_create(*addr, bound).0,
            match r {
                Ok(connection) => old(self)@.get_or_create(*addr, bound).1 == Ok::<ClientView, ClientError>(
                    connection@,
                ),
                Err(e) => old(self)@.get_or_create(*addr, bound).1 == Err::<ClientView, ClientError>(e),
            },
            final(self)@.wf(),
    {
        proof {
            lemma_get_or_create_wf(self@, *addr, bound);
        }
        let config = self.connection_manager.new_connection_config();
        match self.position(addr) {
            Some(k) => {
                let size: usize = self.connection_pool_size;
                let PoolSlot { addr: at, pool: mut pool } = self.map.remove(k);
                let r = if pool.num_connections() < size {
                    let idx: usize = pool.add_connection(&config, addr);
                    match pool.get(idx) {
                        Ok(connection) => Ok(connection),
                        Err(_) => unreached(),
                    }
                } else {
                    match pool.borrow_connection() {
                        Ok(connection) => Ok(connection),
                        Err(_) => unreached(),
                    }
                };
                self.map.insert(k, PoolSlot { addr: at, pool });
                assert(self@.pools =~= old(self)@.get_or_create(*addr, bound).0.pools);
                r
            },
            None => {
                match self.connection_manager.new_connection_pool(bound) {
                    Ok(mut pool) => {
                        let idx: usize = pool.add_connection(&config, addr);
                        let r = match pool.get(idx) {
                            Ok(connection) => Ok(connection),
                            Err(_) => unreached(),
                        };
                        self.map.push(PoolSlot { addr: *addr, pool });
                        assert(self@.pools =~= old(self)@.get_or_create(*addr, bound).0.pools);
                        r
                    },
                    Err(e) => {
                        assert(self@.pools =~= old(self)@.pools);
                        Err(e)
                    },
                }
            },
        }
    }

    /// A blocking connection to `addr`, on the entry that `get_or_create`
    /// gives.
    pub fn get_connection(&mut self, addr: &SocketAddress, bound: Option<Endpoint>) -> (r: Result<
        Arc<BlockingQuicClientConnection>,
        ClientError,
    >)
        requires
            old(self)@.wf(),
        ensures
            final(self)@ == old(self)@.get_or_create(*addr, bound).0,
            match r {
                Ok(connection) => old(self)@.get_or_create(*addr, bound).1 == Ok::<ClientView, ClientError>(
                    connection@.client,
                ) && connection@.stats == old(self)@.stats,
                Err(e) => old(self)@.get_or_create(*addr, bound).1 == Err::<ClientView, ClientError>(e),
            },
            final(self)@.wf(),
    {
        match self.get_or_create(addr, bound) {
            Ok(connection) => Ok(connection.new_blocking_connection(*addr, self.stats.clone())),
            Err(e) => Err(e),
        }
    }

    /// A non-blocking connection to `addr`, on the entry that
    /// `get_or_create` gives.
    pub fn get_nonblocking_connection(&mut self, addr: &SocketAddress, bound: Option<Endpoint>) -> (r:
        Result<Arc<NonblockingQuicClientConnection>, ClientError>)
        requires
            old(self)@.wf(),
        ensures
            final(self)@ == old(self)@.get_or_create(*addr, bound).0,
            match r {
                Ok(connection) => old(self)@.get_or_create(*addr, bound).1 == Ok::<ClientView, ClientError>(
                    connection@.client,
                ) && connection@.stats == old(self)@.stats,
                Err(e) => old(self)@.get_or_create(*addr, bound).1 == Err::<ClientView, ClientError>(e),
            },
            final(self)@.wf(),
    {
        match self.get_or_create(addr, bound) {
            Ok(connection) => Ok(connection.new_nonblocking_connection(*addr, self.stats.clone())),
            Err(e) => Err(e),
        }
    }

    /// First half of a step of tearing the cache down: hands the connection
    /// to close next to the caller, who closes it. The connection stays in
    /// its pool until the caller reports with `release_closed`. There is
    /// none only where the cache has no pools.
    pub fn next_to_close(&mut self) -> (r: Option<Quic>)
        requires
            old(self)@.wf(),
        ensures
            final(self)@ == old(self)@.hand_out(),
            match r {
                Some(connection) => old(self)@.oldest() == Some(connection@),
                None => old(self)@.oldest() is None && old(self)@.pools.len() == 0,
            },
            final(self)@.wf(),
    {
        if self.map.len() == 0 {
            return None;
        }
        proof {
            lemma_teardown_wf(self@);
            assert(slot_wf(self@.pools[0], self@.pool_size, self@.manager));
        }
        let PoolSlot { addr: at, pool: mut pool } = self.map.remove(0);
        let r = pool.next_to_close();
        self.map.insert(0, PoolSlot { addr: at, pool });
        assert(self@.pools =~= old(self)@.hand_out().pools);
        r
    }

    /// Second half of a step of tearing the cache down: the caller has
    /// closed the connection that `next_to_close` handed out, and the
    /// connection leaves its pool; a pool that has none left leaves the
    /// cache. A connection leaves the cache no other way. Says whether one
    /// left.
    pub fn release_closed(&mut self) -> (released: bool)
        requires
            old(self)@.wf(),
        ensures
            final(self)@ == old(self)@.release(),
            released == (old(self)@.pools.len() > 0 && old(self)@.pools[0].pool.closing),
            final(self)@.wf(),
    {
        if self.map.len() == 0 {
            return false;
        }
        proof {
            lemma_teardown_wf(self@);
            assert(slot_wf(self@.pools[0], self@.pool_size, self@.manager));
        }
        let PoolSlot { addr: at, pool: mut pool } = self.map.remove(0);
        let released = pool.release_closed();
        if pool.num_connections() > 0 {
            self.map.insert(0, PoolSlot { addr: at, pool });
        }
        assert(self@.pools =~= old(self)@.release().pools);
        released
    }
}

/// What holds of the cache that is built from the configuration `config`
/// for the identity `keypair`: it has no pools and an endpoint that is not
/// set up, and its manager's configuration is `config` with the keypair's
/// identity, the table of staked nodes and the keypair's public key set.
pub open spec fn is_fresh_cache(
    cache: CacheView,
    config: ConfigView,
    name: Seq<char>,
    keypair: Seq<u8>,
    staked_nodes: Arc<RwLock<StakedNodes>>,
    connection_pool_size: usize,
) -> bool {
    &&& cache.wf()
    &&& cache.name == name
    &&& cache.pools == Seq::<PoolSlotView>::empty()
    &&& cache.pool_size == if connection_pool_size == 0 {
        1nat
    } else {
        connection_pool_size as nat
    }
    &&& cache.manager.endpoint.state == EndpointState::Uninitialized
    &&& cache.manager.endpoint.client_endpoint == config.client_endpoint
    &&& cache.manager.endpoint.identity == identity_of(keypair)
    &&& cache.manager.config.identity == identity_of(keypair)
    &&& cache.manager.config.staked_nodes == Some(staked_nodes)
    &&& cache.manager.config.client_endpoint == config.client_endpoint
    &&& cache.manager.config.client_pubkey matches Some(key) && key@ == public_key(keypair)
}

/// Builds the cache for a client whose identity is `keypair`, given as its
/// 64 bytes: no pools yet, an endpoint that is not set up, the table of
/// staked nodes set, and the keypair's public key as the key under which
/// the client is looked up in it. Bytes that are no keypair give
/// `CacheCreationError`, and nothing else does.
pub fn new_quic_connection_cache(
    name: &'static str,
    keypair: &[u8],
    ipaddr: IpAddress,
    staked_nodes: &Arc<RwLock<StakedNodes>>,
    connection_pool_size: usize,
) -> (r: Result<QuicConnectionCache, ClientError>)
    ensures
        (r is Ok) == is_keypair(keypair@),
        r matches Err(e) ==> e == ClientError::CacheCreationError,
        r matches Ok(cache) ==> cache@.manager.config.client_endpoint is None && is_fresh_cache(
            cache@,
            cache@.manager.config,
            name@,
            keypair@,
            *staked_nodes,
            connection_pool_size,
        ),
{
    match QuicConfig::new() {
        Ok(config) => new_quic_connection_cache_with_config(
            config,
            name,
            keypair,
            ipaddr,
            staked_nodes,
            connection_pool_size,
        ),
        Err(e) => Err(e),
    }
}

/// Builds the cache from a configuration to start with: its identity is
/// replaced by that of `keypair`, the table of staked nodes is set, and the
/// keypair's public key becomes the key under which the client is looked up
/// in it. There is a cache for every keypair, and `CacheCreationError` for
/// bytes that are none.
pub fn new_quic_connection_cache_with_config(
    config: QuicConfig,
    name: &'static str,
    keypair: &[u8],
    ipaddr: IpAddress,
    staked_nodes: &Arc<RwLock<StakedNodes>>,
    connection_pool_size: usize,
) -> (r: Result<QuicConnectionCache, ClientError>)
    ensures
        (r is Ok) == is_keypair(keypair@),
        r matches Err(e) ==> e == ClientError::CacheCreationError,
        r matches Ok(cache) ==> is_fresh_cache(
            cache@,
            config@,
            name@,
            keypair@,
            *staked_nodes,
            connection_pool_size,
        ),
{
    let mut config = config;
    match config.update_client_certificate(keypair, ipaddr) {
        Ok(()) => {},
        Err(e) => {
            return Err(e);
        },
    }
    let client_pubkey: [u8; 32] = match keypair_pubkey(keypair) {
        Some(key) => key,
        None => unreached(),
    };
    config.set_staked_nodes(staked_nodes, &client_pubkey);
    let connection_manager = QuicConnectionManager::new_with_connection_config(config);
    QuicConnectionCache::new(name, connection_manager, connection_pool_size)
}

/// A call of `get_or_create` keeps a cache in order: still one pool at most
/// for a destination, every pool within the size the cache allows.
pub proof fn lemma_get_or_create_wf(cache: CacheView, addr: SocketAddress, bound: Option<Endpoint>)
    requires
        cache.wf(),
    ensures
        cache.get_or_create(addr, bound).0.wf(),
        cache.get_or_create(addr, bound).0.pool_size == cache.pool_size,
{
    let after = cache.get_or_create(addr, bound).0;
    if cache.has(addr) {
        let k = cache.slot(addr);
        assert(slot_wf(cache.pools[k], cache.pool_size, cache.manager));
        assert forall|i: int| 0 <= i < after.pools.len() implies slot_wf(
            #[trigger] after.pools[i],
            after.pool_size,
            after.manager,
        ) by {
            assert(slot_wf(cache.pools[i], cache.pool_size, cache.manager));
        }
    } else {
        match cache.manager.new_pool(bound) {
            Ok(pool) => {
                assert forall|i: int| 0 <= i < after.pools.len() implies slot_wf(
                    #[trigger] after.pools[i],
                    after.pool_size,
                    after.manager,
                ) by {
                    if i < cache.pools.len() {
                        assert(slot_wf(cache.pools[i], cache.pool_size, cache.manager));
                    }
                }
                assert forall|i: int, j: int| 0 <= i < j < after.pools.len() implies (
                #[trigger] after.pools[i]).addr != (#[trigger] after.pools[j]).addr by {
                    if j == cache.pools.len() {
                        assert(cache.pools[i].addr != addr);
                    }
                }
            },
            Err(e) => {
                assert forall|i: int| 0 <= i < after.pools.len() implies slot_wf(
                    #[trigger] after.pools[i],
                    after.pool_size,
                    after.manager,
                ) by {
                    assert(slot_wf(cache.pools[i], cache.pool_size, cache.manager));
                }
            },
        }
    }
}

/// A call of `get_or_create` for one destination leaves the pool of every
/// other destination as it was, and where it returns a connection, the
/// destination has a pool that holds it.
pub proof fn lemma_other_destinations_untouched(
    cache: CacheView,
    addr: SocketAddress,
    bound: Option<Endpoint>,
    other: SocketAddress,
)
    requires
        cache.wf(),
        other != addr,
    ensures
        cache.get_or_create(addr, bound).0.pool(other) == cache.pool(other),
        cache.get_or_create(addr, bound).1 matches Ok(connection) ==> {
            &&& cache.get_or_create(addr, bound).0.pool(addr) matches Some(pool)
            &&& pool.connections.contains(connection)
        },
{
    let after = cache.get_or_create(addr, bound).0;
    lemma_get_or_create_wf(cache, addr, bound);
    if cache.has(other) {
        let k = cache.slot(other);
        assert(after.pools[k].addr == other);
        assert(after.has(other));
        assert(after.slot(other) == k);
    } else if after.has(other) {
        let k = after.slot(other);
        if k < cache.pools.len() {
            assert(cache.pools[k].addr == other);
        }
    }
    if cache.get_or_create(addr, bound).1 is Ok {
        let connection = cache.get_or_create(addr, bound).1.unwrap();
        if cache.has(addr) {
            let k = cache.slot(addr);
            assert(slot_wf(cache.pools[k], cache.pool_size, cache.manager));
            assert(after.pools[k].addr == addr);
            assert(after.has(addr));
            assert(after.slot(addr) == k);
            let pool = cache.pools[k].pool;
            if pool.connections.len() < cache.pool_size {
                assert(after.pools[k].pool.connections[pool.connections.len() as int] == connection);
            } else {
                assert(after.pools[k].pool.connections[pool.turn()] == connection);
            }
        } else {
            let k = cache.pools.len() as int;
            assert(after.pools[k].addr == addr);
            assert(after.has(addr));
            assert(after.slot(addr) == k);
            assert(after.pools[k].pool.connections[0] == connection);
        }
    }
}

/// Whatever calls of `get_or_create` a cache has served, for whatever
/// destinations and in whatever order, no pool holds more connections than
/// the cache allows, and every pool holds one at least.
pub proof fn lemma_capacity(cache: CacheView, requests: Seq<Request>, addr: SocketAddress)
    requires
        cache.wf(),
    ensures
        cache.serve(requests).wf(),
        cache.serve(requests).pool_size == cache.pool_size,
        cache.serve(requests).pool(addr) matches Some(pool) ==> 1 <= pool.connections.len()
            <= cache.pool_size,
    decreases requests.len(),
{
    if requests.len() > 0 {
        lemma_capacity(cache, requests.drop_last(), addr);
        lemma_get_or_create_wf(cache.serve(requests.drop_last()), requests.last().addr, requests.last().bound);
    }
    let after = cache.serve(requests);
    if after.has(addr) {
        assert(slot_wf(after.pools[after.slot(addr)], after.pool_size, after.manager));
    }
}

/// Whatever calls of `get_or_create` a cache has served, no destination has
/// two pools: two places in the cache that hold a pool for one destination
/// are one place.
pub proof fn lemma_single_pool_per_address(cache: CacheView, requests: Seq<Request>, i: int, j: int)
    requires
        cache.wf(),
        0 <= i < cache.serve(requests).pools.len(),
        0 <= j < cache.serve(requests).pools.len(),
        cache.serve(requests).pools[i].addr == cache.serve(requests).pools[j].addr,
    ensures
        i == j,
{
    lemma_capacity(cache, requests, cache.serve(requests).pools[i].addr);
}

/// Rotating the identity touches no connection that exists: the pools are
/// what they were. A call of `get_or_create` after it keeps every connection
/// that a pool held, at its place, and a connection that it makes presents
/// the identity of the new keypair. Certificate and key of every connection,
/// old or new, come from one keypair.
pub proof fn lemma_rotation_isolation(
    cache: CacheView,
    keypair: Seq<u8>,
    addr: SocketAddress,
    bound: Option<Endpoint>,
)
    requires
        cache.wf(),
        is_keypair(keypair),
    ensures
        cache.rotate(keypair).pools == cache.pools,
        cache.rotate(keypair).wf(),
        ({
            let after = cache.rotate(keypair).get_or_create(addr, bound).0;
            &&& forall|k: int|
                0 <= k < cache.pools.len() ==> {
                    &&& (#[trigger] after.pools[k]).addr == cache.pools[k].addr
                    &&& cache.pools[k].pool.connections.is_prefix_of(after.pools[k].pool.connections)
                }
            &&& forall|k: int, i: int|
                0 <= k < after.pools.len() && 0 <= i < after.pools[k].pool.connections.len() ==> {
                    let connection = #[trigger] after.pools[k].pool.connections[i];
                    &&& connection.identity.wf()
                    &&& (k >= cache.pools.len() || i >= cache.pools[k].pool.connections.len())
                        ==> connection.identity == identity_of(keypair)
                }
        }),
{
    let rotated = cache.rotate(keypair);
    assert(identity_of(keypair).wf());
    assert forall|i: int| 0 <= i < rotated.pools.len() implies slot_wf(
        #[trigger] rotated.pools[i],
        rotated.pool_size,
        rotated.manager,
    ) by {
        assert(slot_wf(cache.pools[i], cache.pool_size, cache.manager));
    }
    lemma_get_or_create_wf(rotated, addr, bound);
    let after = rotated.get_or_create(addr, bound).0;
    assert forall|k: int| 0 <= k < cache.pools.len() implies {
        &&& (#[trigger] after.pools[k]).addr == cache.pools[k].addr
        &&& cache.pools[k].pool.connections.is_prefix_of(after.pools[k].pool.connections)
    } by {
        assert(slot_wf(cache.pools[k], cache.pool_size, cache.manager));
    }
    assert forall|k: int, i: int|
        0 <= k < after.pools.len() && 0 <= i < after.pools[k].pool.connections.len() implies {
        let connection = #[trigger] after.pools[k].pool.connections[i];
        &&& connection.identity.wf()
        &&& (k >= cache.pools.len() || i >= cache.pools[k].pool.connections.len()) ==> connection.identity
            == identity_of(keypair)
    } by {
        assert(slot_wf(after.pools[k], after.pool_size, after.manager));
        if k < cache.pools.len() {
            assert(slot_wf(cache.pools[k], cache.pool_size, cache.manager));
        }
    }
}

/// Handing a connection out to be closed, and releasing one that was closed,
/// keep a cache in order.
pub proof fn lemma_teardown_wf(cache: CacheView)
    requires
        cache.wf(),
    ensures
        cache.hand_out().wf(),
        cache.release().wf(),
        cache.hand_out().pools.len() == cache.pools.len(),
        all_connections(cache.hand_out().pools) == all_connections(cache.pools),
        cache.pools.len() > 0 ==> all_connections(cache.pools) == seq![cache.oldest().unwrap()]
            + all_connections(cache.hand_out().release().pools),
{
    let handed = cache.hand_out();
    if cache.pools.len() > 0 {
        assert(slot_wf(cache.pools[0], cache.pool_size, cache.manager));
        assert forall|i: int| 0 <= i < handed.pools.len() implies slot_wf(
            #[trigger] handed.pools[i],
            handed.pool_size,
            handed.manager,
        ) by {
            assert(slot_wf(cache.pools[i], cache.pool_size, cache.manager));
        }
        assert(handed.pools.remove(0) =~= cache.pools.remove(0));
        let pool = handed.pools[0].pool.release();
        let after = handed.release();
        assert(pool.connections =~= cache.pools[0].pool.connections.remove(0));
        if pool.connections.len() == 0 {
            assert(after.pools =~= cache.pools.remove(0));
            assert(cache.pools[0].pool.connections =~= seq![cache.oldest().unwrap()]);
        } else {
            assert(after.pools.remove(0) =~= cache.pools.remove(0));
            assert(cache.pools[0].pool.connections =~= seq![cache.oldest().unwrap()] + pool.connections);
            assert(all_connections(after.pools) == pool.connections + all_connections(
                cache.pools.remove(0),
            ));
        }
        assert(all_connections(cache.pools) =~= seq![cache.oldest().unwrap()] + all_connections(
            after.pools,
        ));
    }
    let released = cache.release();
    if cache.pools.len() > 0 && cache.pools[0].pool.closing {
        assert forall|i: int| 0 <= i < released.pools.len() implies slot_wf(
            #[trigger] released.pools[i],
            released.pool_size,
            released.manager,
        ) by {
            if cache.pools[0].pool.release().connections.len() == 0 {
                assert(slot_wf(cache.pools[i + 1], cache.pool_size, cache.manager));
            } else {
                assert(slot_wf(cache.pools[i], cache.pool_size, cache.manager));
            }
        }
        assert forall|i: int, j: int| 0 <= i < j < released.pools.len() implies (
        #[trigger] released.pools[i]).addr != (#[trigger] released.pools[j]).addr by {
            if cache.pools[0].pool.release().connections.len() == 0 {
                assert(cache.pools[i + 1].addr != cache.pools[j + 1].addr);
            } else {
                assert(cache.pools[i].addr != cache.pools[j].addr);
            }
        }
    }
}

/// Tearing down a cache closes every connection of every pool before the
/// cache is empty. A connection leaves the cache only after it was handed
/// out to be closed. After `k` steps the first `min(k, K)` of the cache's
/// `K` connections were handed out, pool after pool and oldest first within
/// a pool, each once, and the others are still in their pools; the cache has
/// no pools only once all `K` were handed out.
pub proof fn lemma_cache_close_before_release(cache: CacheView, k: nat)
    requires
        cache.wf(),
    ensures
        cache.after_closes(k).wf(),
        cache.closed_by(k) + all_connections(cache.after_closes(k).pools) == all_connections(cache.pools),
        cache.closed_by(k).len() == if k < all_connections(cache.pools).len() {
            k
        } else {
            all_connections(cache.pools).len()
        },
        cache.after_closes(k).pools.len() == 0 <==> k >= all_connections(cache.pools).len(),
    decreases k,
{
    if k > 0 {
        lemma_cache_close_before_release(cache, (k - 1) as nat);
        let before = cache.after_closes((k - 1) as nat);
        let out = cache.closed_by((k - 1) as nat);
        lemma_teardown_wf(before);
        lemma_teardown_wf(before.hand_out());
        let after = cache.after_closes(k);
        assert(after == before.hand_out().release());
        if before.pools.len() > 0 {
            assert(slot_wf(before.pools[0], before.pool_size, before.manager));
            let oldest = before.oldest().unwrap();
            assert(out.push(oldest) + all_connections(after.pools) =~= out + (seq![oldest]
                + all_connections(after.pools)));
        } else {
            assert(after == before);
        }
    }
    let after = cache.after_closes(k);
    assert((cache.closed_by(k) + all_connections(after.pools)).len() == cache.closed_by(k).len()
        + all_connections(after.pools).len());
    if after.pools.len() > 0 {
        assert(slot_wf(after.pools[0], after.pool_size, after.manager));
        assert(all_connections(after.pools).len() >= after.pools[0].pool.connections.len());
    }
    if k == 0 {
        assert(cache.closed_by(k) + all_connections(after.pools) =~= all_connections(cache.pools));
    }
}

} // verus!
