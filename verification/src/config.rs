//! What new connections are made with, and the manager that makes pools.

use vstd::prelude::*;
use std::sync::Arc;
use std::sync::RwLock;
use solana_streamer::streamer::StakedNodes;
use crate::address::{Endpoint, IpAddress};
use crate::error::ClientError;
use crate::lazy_endpoint::{
    Completion, EndpointAction, EndpointState, LazyEndpointView, QuicLazyInitializedEndpoint,
};
use crate::pool::{ClientView, PoolView, QuicPool};
use crate::tls::{identity_of, is_keypair, IdentityView, QuicClientCertificate};

verus! {

/// The table of staked nodes, which this library passes on and never reads.
#[verifier::external_type_specification]
#[verifier::external_body]
pub struct ExStakedNodes(StakedNodes);

/// The lock the table of staked nodes is shared under.
#[verifier::external_type_specification]
#[verifier::external_body]
#[verifier::reject_recursive_types(T)]
pub struct ExRwLock<T: ?Sized>(RwLock<T>);

/// The wire protocol a connection manager speaks.
#[derive(Clone, Copy, Debug, PartialEq, Eq, Structural, Hash)]
pub enum Protocol {
    UDP,
    QUIC,
}

/// A configuration as a value.
pub struct ConfigView {
    /// The identity that connections made from now on present.
    pub identity: IdentityView,
    /// The table of staked nodes, if one was set.
    pub staked_nodes: Option<Arc<RwLock<StakedNodes>>>,
    /// The public key under which this client is looked up in that table.
    pub client_pubkey: Option<[u8; 32]>,
    /// An endpoint supplied from outside, to use in place of binding one.
    pub client_endpoint: Option<Endpoint>,
}

impl ConfigView {
    /// The identity was made whole, from one keypair.
    pub open spec fn wf(self) -> bool {
        self.identity.wf()
    }

    /// The configuration after an endpoint was supplied: where building it
    /// failed, nothing changes.
    pub open spec fn with_client_endpoint(self, client_endpoint: Option<Endpoint>) -> ConfigView {
        match client_endpoint {
            Some(endpoint) => ConfigView { client_endpoint: Some(endpoint), ..self },
            None => self,
        }
    }

    /// The configuration after its identity was rotated to `keypair`: bytes
    /// that are no keypair change nothing.
    pub open spec fn rotate(self, keypair: Seq<u8>) -> ConfigView {
        if is_keypair(keypair) {
            ConfigView { identity: identity_of(keypair), ..self }
        } else {
            self
        }
    }
}

/// What `update_client_endpoint` returns for what building the endpoint gave.
pub open spec fn endpoint_update_result(client_endpoint: Option<Endpoint>) -> Result<(), ClientError> {
    match client_endpoint {
        Some(_) => Ok(()),
        None => Err(ClientError::EndpointInitError),
    }
}

/// What `update_keypair` and its like return for a keypair.
pub open spec fn rotation_result(keypair: Seq<u8>) -> Result<(), ClientError> {
    if is_keypair(keypair) {
        Ok(())
    } else {
        Err(ClientError::CacheCreationError)
    }
}

/// The configuration new connections are made with.
pub struct QuicConfig {
    // Shared, so that taking a copy of the configuration copies no key.
    client_certificate: Arc<QuicClientCertificate>,
    maybe_staked_nodes: Option<Arc<RwLock<StakedNodes>>>,
    maybe_client_pubkey: Option<[u8; 32]>,
    // The optional specified endpoint for the quic based client connections
    // If not specified, the connection cache will create as needed.
    client_endpoint: Option<Endpoint>,
}

impl View for QuicConfig {
    type V = ConfigView;

    closed spec fn view(&self) -> ConfigView {
        ConfigView {
            identity: self.client_certificate@,
            staked_nodes: self.maybe_staked_nodes,
            client_pubkey: self.maybe_client_pubkey,
            client_endpoint: self.client_endpoint,
        }
    }
}

impl Clone for QuicConfig {
    /// A copy that shares the identity and the table of staked nodes with
    /// the configuration it is taken from.
    fn clone(&self) -> (r: Self)
        ensures
            r@ == self@,
    {
        QuicConfig {
            client_certificate: self.client_certificate.clone(),
            maybe_staked_nodes: match &self.maybe_staked_nodes {
                Some(staked_nodes) => Some(staked_nodes.clone()),
                None => None,
            },
            maybe_client_pubkey: self.maybe_client_pubkey,
            client_endpoint: self.client_endpoint,
        }
    }
}

impl QuicConfig {
    /// A configuration with the identity of a keypair fresh from the
    /// system's random source, and nothing else set. There always is one.
    pub fn new() -> (r: Result<Self, ClientError>)
        ensures
            r matches Ok(config) && {
                &&& config@.wf()
                &&& config@.staked_nodes is None
                &&& config@.client_pubkey is None
                &&& config@.client_endpoint is None
            },
    {
        match QuicClientCertificate::new_random() {
            Ok(client_certificate) => Ok(Self::with_certificate(client_certificate)),
            Err(e) => Err(e),
        }
    }

    /// A configuration with this identity, and nothing else set.
    pub fn with_certificate(client_certificate: QuicClientCertificate) -> (config: Self)
        ensures
            config@ == (ConfigView {
                identity: client_certificate@,
                staked_nodes: None,
                client_pubkey: None,
                client_endpoint: None,
            }),
    {
        Self {
            client_certificate: Arc::new(client_certificate),
            maybe_staked_nodes: None,
            maybe_client_pubkey: None,
            client_endpoint: None,
        }
    }

    /// The endpoint for a manager with this configuration, not yet set up.
    pub fn create_endpoint(&self) -> (endpoint: QuicLazyInitializedEndpoint)
        ensures
            endpoint@.state == EndpointState::Uninitialized,
            endpoint@.client_endpoint == self@.client_endpoint,
            endpoint@.identity == self@.identity,
    {
        QuicLazyInitializedEndpoint::new(self.client_certificate.clone(), self.client_endpoint)
    }

    /// A handle on the identity the configuration holds now. It stays what
    /// it is when the configuration's identity is rotated later.
    pub fn client_certificate(&self) -> (identity: Arc<QuicClientCertificate>)
        ensures
            identity@ == self@.identity,
    {
        self.client_certificate.clone()
    }

    pub fn maybe_client_pubkey(&self) -> (pubkey: Option<[u8; 32]>)
        ensures
            pubkey == self@.client_pubkey,
    {
        self.maybe_client_pubkey
    }

    pub fn client_endpoint(&self) -> (endpoint: Option<Endpoint>)
        ensures
            endpoint == self@.client_endpoint,
    {
        self.client_endpoint
    }

    pub fn maybe_staked_nodes(&self) -> (staked_nodes: Option<Arc<RwLock<StakedNodes>>>)
        ensures
            staked_nodes == self@.staked_nodes,
    {
        match &self.maybe_staked_nodes {
            Some(staked_nodes) => Some(staked_nodes.clone()),
            None => None,
        }
    }

    /// Replaces the identity by that of `keypair`, given as its 64 bytes.
    /// Bytes that are no keypair are refused and change nothing.
    pub fn update_client_certificate(&mut self, keypair: &[u8], _ipaddr: IpAddress) -> (r: Result<
        (),
        ClientError,
    >)
        ensures
            r == rotation_result(keypair@),
            final(self)@ == old(self)@.rotate(keypair@),
            old(self)@.wf() ==> final(self)@.wf(),
    {
        self.update_keypair(keypair)
    }

    /// Replaces the identity by that of `keypair`, given as its 64 bytes.
    /// Bytes that are no keypair are refused and change nothing. Certificate
    /// and key are replaced together: handles taken before keep the old
    /// pair, handles taken after have the new one.
    pub fn update_keypair(&mut self, keypair: &[u8]) -> (r: Result<(), ClientError>)
        ensures
            r == rotation_result(keypair@),
            final(self)@ == old(self)@.rotate(keypair@),
            old(self)@.wf() ==> final(self)@.wf(),
    {
        match QuicClientCertificate::new(keypair) {
            Ok(client_certificate) => {
                self.client_certificate = Arc::new(client_certificate);
                Ok(())
            },
            Err(e) => Err(e),
        }
    }

    /// Sets the table of staked nodes and the public key under which this
    /// client is looked up in it.
    pub fn set_staked_nodes(&mut self, staked_nodes: &Arc<RwLock<StakedNodes>>, client_pubkey: &[u8; 32])
        ensures
            final(self)@ == (ConfigView {
                staked_nodes: Some(*staked_nodes),
                client_pubkey: Some(*client_pubkey),
                ..old(self)@
            }),
    {
        self.maybe_staked_nodes = Some(staked_nodes.clone());
        self.maybe_client_pubkey = Some(*client_pubkey);
    }

    /// Supplies the endpoint that managers made from this configuration
    /// will use in place of binding one. `client_endpoint` is what building
    /// an endpoint on the caller's socket gave, or nothing where that
    /// failed: then the failure is reported and the configuration stays as
    /// it was. A manager that exists already is not touched: it keeps the
    /// configuration it was made with.
    pub fn update_client_endpoint(&mut self, client_endpoint: Option<Endpoint>) -> (r: Result<(), ClientError>)
        ensures
            r == endpoint_update_result(client_endpoint),
            final(self)@ == old(self)@.with_client_endpoint(client_endpoint),
            old(self)@.wf() ==> final(self)@.wf(),
    {
        match client_endpoint {
            Some(endpoint) => {
                self.client_endpoint = Some(endpoint);
                Ok(())
            },
            None => Err(ClientError::EndpointInitError),
        }
    }
}

/// A connection manager as a value.
pub struct ManagerView {
    pub config: ConfigView,
    pub endpoint: LazyEndpointView,
}

impl ManagerView {
    /// The endpoint is configured with the identity that the configuration
    /// holds, and a set-up is running only where no endpoint was supplied.
    pub open spec fn wf(self) -> bool {
        &&& self.config.wf()
        &&& self.endpoint.wf()
        &&& self.endpoint.identity == self.config.identity
    }

    /// The manager after a caller asked for the endpoint.
    pub open spec fn acquire(self) -> ManagerView {
        ManagerView { endpoint: self.endpoint.acquire().0, ..self }
    }

    /// The manager after the caller that was told to bind reported.
    pub open spec fn complete(self, bound: Option<Endpoint>) -> ManagerView {
        ManagerView { endpoint: self.endpoint.complete(bound).0, ..self }
    }

    /// The manager after its identity was rotated to `keypair`: the
    /// configuration and the endpoint both hold the new identity. Bytes that
    /// are no keypair change nothing.
    pub open spec fn rotate(self, keypair: Seq<u8>) -> ManagerView {
        if is_keypair(keypair) {
            ManagerView {
                config: self.config.rotate(keypair),
                endpoint: LazyEndpointView { identity: identity_of(keypair), ..self.endpoint },
            }
        } else {
            self
        }
    }

    /// What `new_connection_pool` returns.
    pub open spec fn new_pool(self, bound: Option<Endpoint>) -> Result<PoolView, ClientError> {
        match self.endpoint.resolve(bound).1 {
            Ok(endpoint) => Ok(
                PoolView { connections: Seq::<ClientView>::empty(), endpoint, next: 0, closing: false },
            ),
            Err(e) => Err(e),
        }
    }

    /// The manager after `new_connection_pool`.
    pub open spec fn after_new_pool(self, bound: Option<Endpoint>) -> ManagerView {
        ManagerView { endpoint: self.endpoint.resolve(bound).0, ..self }
    }
}

/// Makes the pools of QUIC connections: holds the configuration and the one
/// endpoint all its pools share.
pub struct QuicConnectionManager {
    connection_config: QuicConfig,
    endpoint: QuicLazyInitializedEndpoint,
}

impl View for QuicConnectionManager {
    type V = ManagerView;

    closed spec fn view(&self) -> ManagerView {
        ManagerView { config: self.connection_config@, endpoint: self.endpoint@ }
    }
}

impl QuicConnectionManager {
    /// A manager with this configuration. Its endpoint is set up when the
    /// first pool is made.
    pub fn new_with_connection_config(connection_config: QuicConfig) -> (r: Self)
        ensures
            r@.config == connection_config@,
            r@.endpoint.state == EndpointState::Uninitialized,
            r@.endpoint.client_endpoint == connection_config@.client_endpoint,
            r@.endpoint.identity == connection_config@.identity,
            connection_config@.wf() ==> r@.wf(),
    {
        let endpoint = connection_config.create_endpoint();
        Self { connection_config, endpoint }
    }

    /// The protocol this manager's connections speak.
    pub fn protocol() -> (protocol: Protocol)
        ensures
            protocol == Protocol::QUIC,
    {
        Protocol::QUIC
    }

    /// An empty pool on the manager's endpoint, which is set up first if it
    /// is not yet. `bound` is what binding a local socket gave the caller,
    /// or nothing where it failed or was not tried; see `needs_bind`.
    pub fn new_connection_pool(&mut self, bound: Option<Endpoint>) -> (r: Result<QuicPool, ClientError>)
        ensures
            final(self)@ == old(self)@.after_new_pool(bound),
            match r {
                Ok(pool) => old(self)@.new_pool(bound) == Ok::<PoolView, ClientError>(pool@),
                Err(e) => old(self)@.new_pool(bound) == Err::<PoolView, ClientError>(e),
            },
            r matches Ok(pool) ==> pool@.wf(),
            old(self)@.wf() ==> final(self)@.wf(),
    {
        match self.endpoint.get_endpoint(bound) {
            Ok(endpoint) => Ok(QuicPool::new(endpoint)),
            Err(e) => Err(e),
        }
    }

    /// A caller asks for the endpoint and is told what to do: to bind the
    /// local socket and report with `complete_endpoint`, to wait for the
    /// caller that was told so, or to go on. Of the callers that find the
    /// endpoint not set up, one is told to bind.
    pub fn acquire_endpoint(&mut self) -> (action: EndpointAction)
        ensures
            final(self)@ == old(self)@.acquire(),
            action == old(self)@.endpoint.acquire().1,
            old(self)@.wf() ==> final(self)@.wf(),
    {
        self.endpoint.acquire()
    }

    /// The caller that was told to bind reports what binding gave: the
    /// endpoint, or nothing where it failed. The outcome is that of every
    /// caller that waited.
    pub fn complete_endpoint(&mut self, bound: Option<Endpoint>) -> (completion: Completion)
        ensures
            final(self)@ == old(self)@.complete(bound),
            completion == old(self)@.endpoint.complete(bound).1,
            old(self)@.wf() ==> final(self)@.wf(),
    {
        self.endpoint.complete(bound)
    }

    /// Whether the caller of `new_connection_pool` has to bind a socket
    /// first and pass what that gave.
    pub fn needs_bind(&self) -> (needed: bool)
        ensures
            needed == self@.endpoint.needs_bind(),
    {
        self.endpoint.needs_bind()
    }

    /// A handle on the identity the manager's endpoint is configured with.
    pub fn endpoint_certificate(&self) -> (identity: Arc<QuicClientCertificate>)
        ensures
            identity@ == self@.endpoint.identity,
    {
        self.endpoint.client_certificate()
    }

    /// The state of the manager's endpoint.
    pub fn endpoint_state(&self) -> (state: EndpointState)
        ensures
            state == self@.endpoint.state,
    {
        self.endpoint.state()
    }

    /// A copy of the configuration as it is now.
    pub fn new_connection_config(&self) -> (config: QuicConfig)
        ensures
            config@ == self@.config,
    {
        self.connection_config.clone()
    }

    /// Rotates the identity to that of `key`, a keypair given as its bytes:
    /// in the configuration, for the connections made from now on, and in
    /// the endpoint. Bytes that are no keypair are refused and change nothing.
    pub fn update_key(&mut self, key: &[u8]) -> (r: Result<(), ClientError>)
        ensures
            r == rotation_result(key@),
            final(self)@ == old(self)@.rotate(key@),
            old(self)@.wf() ==> final(self)@.wf(),
    {
        match self.connection_config.update_keypair(key) {
            Ok(()) => {
                self.endpoint.update_client_certificate(self.connection_config.client_certificate());
                Ok(())
            },
            Err(e) => Err(e),
        }
    }

    /// Sets the table of staked nodes and the public key under which this
    /// client is looked up in it.
    pub fn set_staked_nodes(&mut self, staked_nodes: &Arc<RwLock<StakedNodes>>, client_pubkey: &[u8; 32])
        ensures
            final(self)@ == (ManagerView {
                config: ConfigView {
                    staked_nodes: Some(*staked_nodes),
                    client_pubkey: Some(*client_pubkey),
                    ..old(self)@.config
                },
                ..old(self)@
            }),
            old(self)@.wf() ==> final(self)@.wf(),
    {
        self.connection_config.set_staked_nodes(staked_nodes, client_pubkey)
    }
}

} // verus!
