//! The two faces of a connection: one that blocks the caller while it sends,
//! one that does not. Both are handles on the client of a pool entry.

use vstd::prelude::*;
use std::sync::Arc;
use solana_connection_cache::connection_cache_stats::ConnectionCacheStats;
use crate::address::SocketAddress;
use crate::pool::{ClientView, Quic, QuicClient};

verus! {

/// The counters that sends are recorded in. This library hands them on and
/// never reads or writes them.
#[verifier::external_type_specification]
#[verifier::external_body]
pub struct ExConnectionCacheStats(ConnectionCacheStats);

/// `ConnectionCacheStats::default`, shared: counters that all start at zero.
#[verifier::external_body]
pub(crate) fn new_stats() -> (stats: Arc<ConnectionCacheStats>) {
    Arc::new(ConnectionCacheStats::default())
}

/// A connection as a value: the client it sends through and the counters it
/// records in.
pub struct ConnectionView {
    pub client: ClientView,
    pub stats: Arc<ConnectionCacheStats>,
}

/// A connection whose sends do not block the caller.
pub struct NonblockingQuicClientConnection {
    client: Arc<QuicClient>,
    connection_stats: Arc<ConnectionCacheStats>,
}

impl View for NonblockingQuicClientConnection {
    type V = ConnectionView;

    closed spec fn view(&self) -> ConnectionView {
        ConnectionView { client: self.client@, stats: self.connection_stats }
    }
}

impl NonblockingQuicClientConnection {
    /// A connection on a client that exists: no new client is made.
    pub fn new_with_client(client: Arc<QuicClient>, connection_stats: Arc<ConnectionCacheStats>) -> (r: Self)
        ensures
            r@.client == client@,
            r@.stats == connection_stats,
    {
        Self { client, connection_stats }
    }

    /// The destination.
    pub fn server_addr(&self) -> (addr: SocketAddress)
        ensures
            addr == self@.client.addr,
    {
        self.client.server_addr()
    }

    /// A handle on the client this connection sends through.
    pub fn client(&self) -> (client: Arc<QuicClient>)
        ensures
            client@ == self@.client,
    {
        self.client.clone()
    }

    /// A handle on the counters this connection records in.
    pub fn connection_stats(&self) -> (stats: Arc<ConnectionCacheStats>)
        ensures
            stats == self@.stats,
    {
        self.connection_stats.clone()
    }
}

/// A connection whose sends block the caller until they are done. It sends
/// through a non-blocking connection and waits for it.
pub struct BlockingQuicClientConnection {
    inner: Arc<NonblockingQuicClientConnection>,
}

impl View for BlockingQuicClientConnection {
    type V = ConnectionView;

    closed spec fn view(&self) -> ConnectionView {
        self.inner@
    }
}

impl BlockingQuicClientConnection {
    /// A connection on a client that exists: no new client is made.
    pub fn new_with_client(client: Arc<QuicClient>, connection_stats: Arc<ConnectionCacheStats>) -> (r: Self)
        ensures
            r@.client == client@,
            r@.stats == connection_stats,
    {
        Self { inner: Arc::new(NonblockingQuicClientConnection::new_with_client(client, connection_stats)) }
    }

    /// The destination.
    pub fn server_addr(&self) -> (addr: SocketAddress)
        ensures
            addr == self@.client.addr,
    {
        self.inner.server_addr()
    }

    /// A handle on the non-blocking connection underneath.
    pub fn inner(&self) -> (inner: Arc<NonblockingQuicClientConnection>)
        ensures
            inner@ == self@,
    {
        self.inner.clone()
    }
}

impl Quic {
    /// The blocking face of this entry, recording in `stats`. It sends
    /// through the entry's own client.
    pub fn new_blocking_connection(&self, _addr: SocketAddress, stats: Arc<ConnectionCacheStats>) -> (r: Arc<
        BlockingQuicClientConnection,
    >)
        ensures
            r@.client == self@,
            r@.stats == stats,
    {
        Arc::new(BlockingQuicClientConnection::new_with_client(self.client(), stats))
    }

    /// The non-blocking face of this entry, recording in `stats`. It sends
    /// through the entry's own client.
    pub fn new_nonblocking_connection(&self, _addr: SocketAddress, stats: Arc<ConnectionCacheStats>) -> (r:
        Arc<NonblockingQuicClientConnection>)
        ensures
            r@.client == self@,
            r@.stats == stats,
    {
        Arc::new(NonblockingQuicClientConnection::new_with_client(self.client(), stats))
    }
}

} // verus!
