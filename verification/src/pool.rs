//! Connection entries and the pool that holds those of one destination.

use vstd::prelude::*;
use std::sync::Arc;
use crate::address::{Endpoint, SocketAddress};
use crate::config::QuicConfig;
use crate::error::ConnectionPoolError;
use crate::tls::{IdentityView, QuicClientCertificate};

verus! {

/// A client as a value: the endpoint it goes out through, where it connects
/// to, and the identity it presents.
pub struct ClientView {
    pub endpoint: Endpoint,
    pub addr: SocketAddress,
    pub identity: IdentityView,
}

/// The client of one connection to one destination. Nothing in it changes
/// once it is made.
#[derive(Debug)]
pub struct QuicClient {
    endpoint: Endpoint,
    addr: SocketAddress,
    client_certificate: Arc<QuicClientCertificate>,
}

impl View for QuicClient {
    type V = ClientView;

    closed spec fn view(&self) -> ClientView {
        ClientView {
            endpoint: self.endpoint,
            addr: self.addr,
            identity: self.client_certificate@,
        }
    }
}

impl QuicClient {
    pub fn new(endpoint: Endpoint, addr: SocketAddress, client_certificate: Arc<QuicClientCertificate>) -> (r: Self)
        ensures
            r@.endpoint == endpoint,
            r@.addr == addr,
            r@.identity == client_certificate@,
    {
        QuicClient { endpoint, addr, client_certificate }
    }

    /// The local endpoint this client goes out through.
    pub fn endpoint(&self) -> (endpoint: Endpoint)
        ensures
            endpoint == self@.endpoint,
    {
        self.endpoint
    }

    /// The destination.
    pub fn server_addr(&self) -> (addr: SocketAddress)
        ensures
            addr == self@.addr,
    {
        self.addr
    }

    /// The identity this client presents.
    pub fn client_certificate(&self) -> (identity: Arc<QuicClientCertificate>)
        ensures
            identity@ == self@.identity,
    {
        self.client_certificate.clone()
    }
}

/// An entry of a pool: a shared handle on one client.
#[derive(Debug)]
pub struct Quic(Arc<QuicClient>);

impl View for Quic {
    type V = ClientView;

    closed spec fn view(&self) -> ClientView {
        self.0@
    }
}

impl Quic {
    /// An entry for a client.
    pub fn new(client: Arc<QuicClient>) -> (r: Self)
        ensures
            r@ == client@,
    {
        Quic(client)
    }

    /// A handle on the entry's client.
    pub fn client(&self) -> (client: Arc<QuicClient>)
        ensures
            client@ == self@,
    {
        self.0.clone()
    }
}

impl Clone for Quic {
    /// Another handle on the same client.
    fn clone(&self) -> (r: Self)
        ensures
            r == *self,
    {
        Quic(self.0.clone())
    }
}

/// How full a pool is, measured against the size it may grow to.
#[derive(Clone, Copy, Debug, PartialEq, Eq, Structural)]
pub enum PoolStatus {
    Empty,
    PartiallyFull,
    Full,
}

/// A pool as a value.
pub struct PoolView {
    /// The entries, oldest first.
    pub connections: Seq<ClientView>,
    /// The endpoint every entry goes out through.
    pub endpoint: Endpoint,
    /// Index of the entry that is lent next.
    pub next: nat,
    /// Whether the oldest entry is out with a caller to be closed.
    pub closing: bool,
}

impl PoolView {
    /// The entry that a pool on `endpoint` makes for `addr` under `identity`.
    pub open spec fn entry(self, addr: SocketAddress, identity: IdentityView) -> ClientView {
        ClientView { endpoint: self.endpoint, addr, identity }
    }

    /// A pool's entries all use the pool's endpoint and each presents an
    /// identity that was made whole; `next` points into the entries.
    pub open spec fn wf(self) -> bool {
        &&& self.next < self.connections.len() || self.next == 0
        &&& self.closing ==> self.connections.len() > 0
        &&& forall|i: int|
            0 <= i < self.connections.len() ==> {
                &&& (#[trigger] self.connections[i]).endpoint == self.endpoint
                &&& self.connections[i].identity.wf()
            }
    }

    /// Every entry leads to `addr`.
    pub open spec fn leads_to(self, addr: SocketAddress) -> bool {
        forall|i: int| 0 <= i < self.connections.len() ==> (#[trigger] self.connections[i]).addr == addr
    }

    /// The pool with one more entry at the end.
    pub open spec fn add(self, entry: ClientView) -> PoolView {
        PoolView { connections: self.connections.push(entry), ..self }
    }

    pub open spec fn status(self, required_pool_size: nat) -> PoolStatus {
        if self.connections.len() == 0 {
            PoolStatus::Empty
        } else if self.connections.len() < required_pool_size {
            PoolStatus::PartiallyFull
        } else {
            PoolStatus::Full
        }
    }

    /// Index of the entry that is lent next, in a pool that has one.
    pub open spec fn turn(self) -> int {
        if self.next < self.connections.len() {
            self.next as int
        } else {
            0
        }
    }

    /// The pool after it has lent an entry: the turn passes to the entry
    /// behind, and from the last to the first.
    pub open spec fn lend(self) -> PoolView {
        if self.connections.len() == 0 {
            self
        } else {
            PoolView { next: ((self.turn() + 1) % (self.connections.len() as int)) as nat, ..self }
        }
    }

    /// The oldest entry, which is the one to close next.
    pub open spec fn oldest(self) -> Option<ClientView> {
        if self.connections.len() == 0 {
            None
        } else {
            Some(self.connections[0])
        }
    }

    /// The pool after its oldest entry was handed to a caller to be closed:
    /// the entry is still in the pool.
    pub open spec fn hand_out(self) -> PoolView {
        if self.connections.len() == 0 {
            self
        } else {
            PoolView { closing: true, ..self }
        }
    }

    /// The pool after the caller reported the entry closed: only now does
    /// the entry leave the pool. With no entry out to be closed, nothing
    /// changes.
    pub open spec fn release(self) -> PoolView {
        if self.closing && self.connections.len() > 0 {
            PoolView { connections: self.connections.remove(0), next: 0, closing: false, ..self }
        } else {
            self
        }
    }

    /// The pool after `k` steps of tearing it down. In each, the oldest
    /// entry is handed out, closed by the caller, and released.
    pub open spec fn after_closes(self, k: nat) -> PoolView
        decreases k,
    {
        if k == 0 {
            self
        } else {
            self.after_closes((k - 1) as nat).hand_out().release()
        }
    }

    /// The entries handed out to be closed by the first `k` steps of tearing
    /// the pool down, in the order in which they were handed out.
    pub open spec fn closed_by(self, k: nat) -> Seq<ClientView>
        decreases k,
    {
        if k == 0 {
            Seq::empty()
        } else {
            match self.after_closes((k - 1) as nat).oldest() {
                Some(connection) => self.closed_by((k - 1) as nat).push(connection),
                None => self.closed_by((k - 1) as nat),
            }
        }
    }
}

/// The bounded pool of connections to one destination. Entries are added at
/// the end and stay where they are until the pool is torn down.
#[derive(Debug)]
pub struct QuicPool {
    connections: Vec<Quic>,
    endpoint: Endpoint,
    next: usize,
    closing: bool,
}

impl View for QuicPool {
    type V = PoolView;

    closed spec fn view(&self) -> PoolView {
        PoolView {
            connections: Seq::new(self.connections@.len(), |i: int| self.connections@[i]@),
            endpoint: self.endpoint,
            next: self.next as nat,
            closing: self.closing,
        }
    }
}

impl QuicPool {
    /// An empty pool whose entries will go out through `endpoint`.
    pub fn new(endpoint: Endpoint) -> (r: Self)
        ensures
            r@.connections == Seq::<ClientView>::empty(),
            r@.endpoint == endpoint,
            r@.next == 0,
            !r@.closing,
            r@.wf(),
    {
        let r = QuicPool { connections: Vec::new(), endpoint, next: 0, closing: false };
        assert(r@.connections =~= Seq::<ClientView>::empty());
        r
    }

    /// Adds a connection to `addr` at the end of the pool and returns its
    /// index. The entry presents the identity that `config` holds now.
    pub fn add_connection(&mut self, config: &QuicConfig, addr: &SocketAddress) -> (idx: usize)
        ensures
            idx == old(self)@.connections.len(),
            final(self)@ == old(self)@.add(old(self)@.entry(*addr, config@.identity)),
            old(self)@.wf() && config@.wf() ==> final(self)@.wf(),
            old(self)@.leads_to(*addr) ==> final(self)@.leads_to(*addr),
    {
        let connection = self.create_pool_entry(config, addr);
        let idx: usize = self.connections.len();
        self.connections.push(connection);
        assert(self@.connections =~= old(self)@.connections.push(connection@));
        idx
    }

    /// The number of connections in the pool.
    pub fn num_connections(&self) -> (n: usize)
        ensures
            n == self@.connections.len(),
    {
        self.connections.len()
    }

    /// A handle on the entry at `index`.
    pub fn get(&self, index: usize) -> (r: Result<Quic, ConnectionPoolError>)
        ensures
            match r {
                Ok(connection) => index < self@.connections.len() && connection@
                    == self@.connections[index as int],
                Err(e) => index >= self@.connections.len() && e == ConnectionPoolError::IndexOutOfRange,
            },
    {
        if index < self.connections.len() {
            Ok(self.connections[index].clone())
        } else {
            Err(ConnectionPoolError::IndexOutOfRange)
        }
    }

    /// Makes the entry for a connection to `addr`, without adding it.
    pub fn create_pool_entry(&self, config: &QuicConfig, addr: &SocketAddress) -> (entry: Quic)
        ensures
            entry@ == self@.entry(*addr, config@.identity),
    {
        Quic::new(Arc::new(QuicClient::new(self.endpoint, *addr, config.client_certificate())))
    }

    /// How full the pool is, where it may hold `required_pool_size` entries.
    pub fn check_pool_status(&self, required_pool_size: usize) -> (status: PoolStatus)
        ensures
            status == self@.status(required_pool_size as nat),
    {
        if self.connections.len() == 0 {
            PoolStatus::Empty
        } else if self.connections.len() < required_pool_size {
            PoolStatus::PartiallyFull
        } else {
            PoolStatus::Full
        }
    }

    /// Lends an entry of the pool. Entries take turns in the order in which
    /// they were added. An empty pool has none to lend.
    pub fn borrow_connection(&mut self) -> (r: Result<Quic, ConnectionPoolError>)
        ensures
            final(self)@ == old(self)@.lend(),
            match r {
                Ok(connection) => old(self)@.connections.len() > 0 && connection@
                    == old(self)@.connections[old(self)@.turn()],
                Err(e) => old(self)@.connections.len() == 0 && e == ConnectionPoolError::IndexOutOfRange,
            },
            old(self)@.wf() ==> final(self)@.wf(),
    {
        let len: usize = self.connections.len();
        if len == 0 {
            return Err(ConnectionPoolError::IndexOutOfRange);
        }
        let turn: usize = if self.next < len {
            self.next
        } else {
            0
        };
        let connection = self.connections[turn].clone();
        self.next = (turn + 1) % len;
        assert(self@.connections =~= old(self)@.connections);
        Ok(connection)
    }

    /// First half of a step of tearing the pool down: hands the oldest entry
    /// to the caller, who closes it. The entry stays in the pool until the
    /// caller reports with `release_closed`.
    pub fn next_to_close(&mut self) -> (r: Option<Quic>)
        ensures
            final(self)@ == old(self)@.hand_out(),
            match r {
                Some(connection) => old(self)@.oldest() == Some(connection@),
                None => old(self)@.oldest() is None,
            },
            old(self)@.wf() ==> final(self)@.wf(),
    {
        if self.connections.len() == 0 {
            return None;
        }
        let connection = self.connections[0].clone();
        self.closing = true;
        assert(self@.connections =~= old(self)@.connections);
        Some(connection)
    }

    /// Second half of a step of tearing the pool down: the caller has closed
    /// the entry that `next_to_close` handed out, and the entry leaves the
    /// pool. An entry leaves the pool no other way: where none is out to be
    /// closed, nothing is removed. Says whether an entry left.
    pub fn release_closed(&mut self) -> (released: bool)
        ensures
            final(self)@ == old(self)@.release(),
            released == (old(self)@.closing && old(self)@.connections.len() > 0),
            old(self)@.wf() ==> final(self)@.wf(),
    {
        if !self.closing || self.connections.len() == 0 {
            return false;
        }
        self.connections.remove(0);
        self.next = 0;
        self.closing = false;
        assert(self@.connections =~= old(self)@.connections.remove(0));
        true
    }
}

/// Tearing down a pool of `K` entries closes `K` entries before the pool is
/// empty. An entry leaves the pool only after it was handed out to be
/// closed: releasing with none handed out changes nothing. Each step hands
/// out the oldest entry and releases it, so after `k` steps the first
/// `min(k, K)` entries were handed out, in the pool's order and each once,
/// and the other `K - min(k, K)` are still in the pool.
pub proof fn lemma_close_before_release(pool: PoolView, k: nat)
    ensures
        !pool.closing ==> pool.release() == pool,
        pool.hand_out().connections == pool.connections,
        pool.closed_by(k).len() == if k < pool.connections.len() { k } else { pool.connections.len() },
        pool.closed_by(k) + pool.after_closes(k).connections == pool.connections,
        pool.after_closes(k).connections.len() == 0 <==> k >= pool.connections.len(),
        k >= pool.connections.len() ==> pool.closed_by(k) == pool.connections,
    decreases k,
{
    if k > 0 {
        lemma_close_before_release(pool, (k - 1) as nat);
        let before = pool.after_closes((k - 1) as nat);
        let out = pool.closed_by((k - 1) as nat);
        assert((out + before.connections).len() == out.len() + before.connections.len());
        if before.connections.len() > 0 {
            assert(out.push(before.connections[0]) + before.connections.remove(0) =~= out
                + before.connections);
        }
    }
    assert(pool.closed_by(k) + pool.after_closes(k).connections =~= pool.connections);
    assert((pool.closed_by(k) + pool.after_closes(k).connections).len() == pool.closed_by(k).len()
        + pool.after_closes(k).connections.len());
    if k >= pool.connections.len() {
        assert(pool.closed_by(k) =~= pool.connections);
    }
}

} // verus!
