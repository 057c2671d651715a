//! Outbound QUIC connection management: bounded pools of reusable client
//! handles per destination, a lazily initialised shared endpoint and a
//! rotatable TLS identity, together with the check of a loader-v4 source
//! buffer account.

pub mod address;
pub mod cache;
pub mod config;
pub mod connection;
pub mod error;
pub mod lazy_endpoint;
pub mod pool;
pub mod source_buffer_v4;
pub mod tls;

pub use address::{Endpoint, IpAddress, SocketAddress};
pub use cache::{
    new_quic_connection_cache, new_quic_connection_cache_with_config, QuicConnectionCache,
};
pub use config::{Protocol, QuicConfig, QuicConnectionManager};
pub use connection::{BlockingQuicClientConnection, NonblockingQuicClientConnection};
pub use error::{ClientError, ConnectionPoolError};
pub use lazy_endpoint::{Completion, EndpointAction, EndpointState, QuicLazyInitializedEndpoint};
pub use pool::{PoolStatus, Quic, QuicClient, QuicPool};
pub use source_buffer_v4::{BufferAccount, CoreBpfMigrationError, SourceBufferV4};
pub use tls::QuicClientCertificate;
