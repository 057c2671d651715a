use quic_client::{
    Completion, ClientError, ConnectionPoolError, Endpoint, EndpointAction, EndpointState, PoolStatus,
    QuicClientCertificate, QuicConfig, QuicConnectionManager, QuicLazyInitializedEndpoint, QuicPool,
    SocketAddress,
};
use solana_keypair::Keypair;
use std::sync::Arc;

fn addr(port: u16) -> SocketAddress {
    SocketAddress::V4 { ip: u32::from_be_bytes([10, 0, 0, 1]), port }
}

fn endpoint(port: u16) -> Endpoint {
    Endpoint { local_addr: SocketAddress::V4 { ip: 0, port } }
}

fn config(seed: u8) -> QuicConfig {
    let mut config = QuicConfig::new().unwrap();
    config.update_keypair(&Keypair::new_from_array([seed; 32]).to_bytes()).unwrap();
    config
}

fn identity(seed: u8) -> Arc<QuicClientCertificate> {
    Arc::new(QuicClientCertificate::new(&Keypair::new_from_array([seed; 32]).to_bytes()).unwrap())
}

#[test]
fn get_past_the_end_is_out_of_range() {
    let mut pool = QuicPool::new(endpoint(1));
    assert_eq!(pool.get(0).unwrap_err(), ConnectionPoolError::IndexOutOfRange);
    assert_eq!(pool.add_connection(&config(1), &addr(1)), 0);
    assert_eq!(pool.num_connections(), 1);
    assert!(pool.get(0).is_ok());
    assert_eq!(pool.get(5).unwrap_err(), ConnectionPoolError::IndexOutOfRange);
    assert_eq!(pool.get(1).unwrap_err(), ConnectionPoolError::IndexOutOfRange);
    assert_eq!(pool.get(usize::MAX).unwrap_err(), ConnectionPoolError::IndexOutOfRange);
    assert_eq!(pool.num_connections(), 1);
}

#[test]
fn add_connection_appends_and_returns_the_index() {
    let mut pool = QuicPool::new(endpoint(7));
    let config = config(2);
    for expected in 0..5usize {
        assert_eq!(pool.num_connections(), expected);
        assert_eq!(pool.add_connection(&config, &addr(expected as u16)), expected);
    }
    for index in 0..5usize {
        let client = pool.get(index).unwrap().client();
        assert_eq!(client.server_addr(), addr(index as u16));
        assert_eq!(client.endpoint(), endpoint(7));
        assert!(Arc::ptr_eq(&client.client_certificate(), &config.client_certificate()));
    }
}

#[test]
fn get_hands_out_the_same_client_each_time() {
    let mut pool = QuicPool::new(endpoint(1));
    pool.add_connection(&config(3), &addr(1));
    pool.add_connection(&config(3), &addr(1));
    let a = pool.get(1).unwrap().client();
    let b = pool.get(1).unwrap().clone().client();
    assert!(Arc::ptr_eq(&a, &b));
    assert!(!Arc::ptr_eq(&a, &pool.get(0).unwrap().client()));
}

#[test]
fn create_pool_entry_adds_nothing() {
    let pool = QuicPool::new(endpoint(3));
    let entry = pool.create_pool_entry(&config(4), &addr(9));
    assert_eq!(pool.num_connections(), 0);
    assert_eq!(entry.client().server_addr(), addr(9));
    assert_eq!(entry.client().endpoint(), endpoint(3));
}

#[test]
fn pool_status_measures_against_the_required_size() {
    let mut pool = QuicPool::new(endpoint(1));
    assert_eq!(pool.check_pool_status(0), PoolStatus::Empty);
    assert_eq!(pool.check_pool_status(2), PoolStatus::Empty);
    pool.add_connection(&config(5), &addr(1));
    assert_eq!(pool.check_pool_status(2), PoolStatus::PartiallyFull);
    assert_eq!(pool.check_pool_status(1), PoolStatus::Full);
    assert_eq!(pool.check_pool_status(0), PoolStatus::Full);
    pool.add_connection(&config(5), &addr(1));
    assert_eq!(pool.check_pool_status(2), PoolStatus::Full);
    assert_eq!(pool.check_pool_status(3), PoolStatus::PartiallyFull);
}

#[test]
fn borrowed_connections_take_turns() {
    let mut pool = QuicPool::new(endpoint(1));
    assert_eq!(pool.borrow_connection().unwrap_err(), ConnectionPoolError::IndexOutOfRange);
    for port in 0..3u16 {
        pool.add_connection(&config(6), &addr(port));
    }
    let order: Vec<SocketAddress> =
        (0..7).map(|_| pool.borrow_connection().unwrap().client().server_addr()).collect();
    assert_eq!(order, vec![addr(0), addr(1), addr(2), addr(0), addr(1), addr(2), addr(0)]);
    assert_eq!(pool.num_connections(), 3);
    // A pool that grows keeps the turn where it was.
    pool.add_connection(&config(6), &addr(3));
    assert_eq!(pool.borrow_connection().unwrap().client().server_addr(), addr(1));
    assert_eq!(pool.borrow_connection().unwrap().client().server_addr(), addr(2));
    assert_eq!(pool.borrow_connection().unwrap().client().server_addr(), addr(3));
    assert_eq!(pool.borrow_connection().unwrap().client().server_addr(), addr(0));
}

#[test]
fn teardown_closes_each_entry_before_it_leaves_the_pool() {
    let mut pool = QuicPool::new(endpoint(1));
    let mut made = Vec::new();
    for port in 0..4u16 {
        let index = pool.add_connection(&config(7), &addr(port));
        made.push(pool.get(index).unwrap().client());
    }
    for (step, expected) in made.iter().enumerate() {
        let handed_out = pool.next_to_close().unwrap();
        assert!(Arc::ptr_eq(&handed_out.client(), expected));
        // The entry is with the caller to be closed, and still in the pool.
        assert_eq!(pool.num_connections(), 4 - step);
        assert!(Arc::ptr_eq(&pool.get(0).unwrap().client(), expected));
        // Asking again hands out the same entry, not the one behind it.
        assert!(Arc::ptr_eq(&pool.next_to_close().unwrap().client(), expected));
        assert!(pool.release_closed());
        assert_eq!(pool.num_connections(), 3 - step);
    }
    assert_eq!(pool.num_connections(), 0);
    assert!(pool.next_to_close().is_none());
    assert!(!pool.release_closed());
    assert_eq!(pool.num_connections(), 0);
}

#[test]
fn nothing_leaves_the_pool_that_was_not_handed_out() {
    let mut pool = QuicPool::new(endpoint(1));
    assert!(!pool.release_closed());
    for port in 0..3u16 {
        pool.add_connection(&config(8), &addr(port));
    }
    pool.borrow_connection().unwrap();
    assert!(!pool.release_closed());
    assert!(!pool.release_closed());
    assert_eq!(pool.num_connections(), 3);
    assert!(pool.next_to_close().is_some());
    assert!(pool.release_closed());
    // One hand-out lets one entry go.
    assert!(!pool.release_closed());
    assert_eq!(pool.num_connections(), 2);
    let order: Vec<SocketAddress> =
        (0..2).map(|index| pool.get(index).unwrap().client().server_addr()).collect();
    assert_eq!(order, vec![addr(1), addr(2)]);
    // Lending starts at the front again.
    assert_eq!(pool.borrow_connection().unwrap().client().server_addr(), addr(1));
}

#[test]
fn one_caller_binds_and_the_others_wait() {
    let mut lazy = QuicLazyInitializedEndpoint::new(identity(1), None);
    assert_eq!(lazy.state(), EndpointState::Uninitialized);
    assert!(lazy.needs_bind());
    assert_eq!(lazy.endpoint(), None);
    let actions: Vec<EndpointAction> = (0..5).map(|_| lazy.acquire()).collect();
    assert_eq!(
        actions,
        vec![
            EndpointAction::Bind,
            EndpointAction::Wait,
            EndpointAction::Wait,
            EndpointAction::Wait,
            EndpointAction::Wait
        ]
    );
    assert_eq!(lazy.state(), EndpointState::Initializing { waiters: 4 });
    assert!(!lazy.needs_bind());
    let completion = lazy.complete(Some(endpoint(5)));
    assert_eq!(completion, Completion { outcome: Ok(endpoint(5)), released: 4 });
    assert_eq!(lazy.state(), EndpointState::Ready(endpoint(5)));
    assert_eq!(lazy.endpoint(), Some(endpoint(5)));
    // From now on everyone is given the endpoint, and nothing changes it.
    assert_eq!(lazy.acquire(), EndpointAction::Use(endpoint(5)));
    assert_eq!(lazy.complete(Some(endpoint(6))), Completion { outcome: Ok(endpoint(5)), released: 0 });
    assert_eq!(lazy.complete(None), Completion { outcome: Ok(endpoint(5)), released: 0 });
    assert_eq!(lazy.get_endpoint(Some(endpoint(6))), Ok(endpoint(5)));
    assert_eq!(lazy.state(), EndpointState::Ready(endpoint(5)));
}

#[test]
fn failed_set_up_fails_for_all_and_can_be_retried() {
    let mut lazy = QuicLazyInitializedEndpoint::new(identity(2), None);
    assert_eq!(lazy.acquire(), EndpointAction::Bind);
    assert_eq!(lazy.acquire(), EndpointAction::Wait);
    assert_eq!(lazy.acquire(), EndpointAction::Wait);
    let completion = lazy.complete(None);
    assert_eq!(completion, Completion { outcome: Err(ClientError::EndpointInitError), released: 2 });
    assert_eq!(lazy.state(), EndpointState::Uninitialized);
    // Reporting with no set-up running changes nothing.
    assert_eq!(
        lazy.complete(Some(endpoint(1))),
        Completion { outcome: Err(ClientError::EndpointInitError), released: 0 }
    );
    assert_eq!(lazy.state(), EndpointState::Uninitialized);
    // The next caller binds again.
    assert_eq!(lazy.acquire(), EndpointAction::Bind);
    assert_eq!(lazy.complete(Some(endpoint(2))), Completion { outcome: Ok(endpoint(2)), released: 0 });
    assert_eq!(lazy.state(), EndpointState::Ready(endpoint(2)));
}

#[test]
fn supplied_endpoint_needs_no_bind() {
    let mut lazy = QuicLazyInitializedEndpoint::new(identity(3), Some(endpoint(9)));
    assert!(!lazy.needs_bind());
    assert_eq!(lazy.state(), EndpointState::Uninitialized);
    assert_eq!(lazy.acquire(), EndpointAction::Use(endpoint(9)));
    assert_eq!(lazy.state(), EndpointState::Ready(endpoint(9)));

    let mut lazy = QuicLazyInitializedEndpoint::new(identity(3), Some(endpoint(9)));
    assert_eq!(lazy.get_endpoint(Some(endpoint(1))), Ok(endpoint(9)));
    assert_eq!(lazy.state(), EndpointState::Ready(endpoint(9)));
}

#[test]
fn endpoint_identity_can_be_replaced() {
    let mut lazy = QuicLazyInitializedEndpoint::new(identity(5), None);
    assert_eq!(lazy.client_certificate().key()[16..], [5u8; 32]);
    assert_eq!(lazy.acquire(), EndpointAction::Bind);
    lazy.update_client_certificate(identity(6));
    assert_eq!(lazy.client_certificate().key()[16..], [6u8; 32]);
    assert_eq!(lazy.state(), EndpointState::Initializing { waiters: 0 });
}

#[test]
fn get_endpoint_sets_up_at_once() {
    let mut lazy = QuicLazyInitializedEndpoint::new(identity(4), None);
    assert_eq!(lazy.get_endpoint(None), Err(ClientError::EndpointInitError));
    assert_eq!(lazy.state(), EndpointState::Uninitialized);
    assert_eq!(lazy.get_endpoint(Some(endpoint(3))), Ok(endpoint(3)));
    assert_eq!(lazy.get_endpoint(None), Ok(endpoint(3)));
    // While another caller's set-up is running there is no endpoint to give.
    let mut lazy = QuicLazyInitializedEndpoint::new(identity(4), None);
    assert_eq!(lazy.acquire(), EndpointAction::Bind);
    assert_eq!(lazy.get_endpoint(Some(endpoint(3))), Err(ClientError::EndpointInitError));
    assert_eq!(lazy.state(), EndpointState::Initializing { waiters: 0 });
}

#[test]
fn manager_makes_empty_pools_on_its_endpoint() {
    let mut manager = QuicConnectionManager::new_with_connection_config(config(9));
    assert!(manager.needs_bind());
    assert_eq!(manager.new_connection_pool(None).err(), Some(ClientError::EndpointInitError));
    assert_eq!(manager.endpoint_state(), EndpointState::Uninitialized);
    let mut pool = manager.new_connection_pool(Some(endpoint(4))).unwrap();
    assert_eq!(pool.num_connections(), 0);
    assert_eq!(manager.endpoint_state(), EndpointState::Ready(endpoint(4)));
    let other = manager.new_connection_pool(Some(endpoint(5))).unwrap();
    assert_eq!(other.num_connections(), 0);
    pool.add_connection(&manager.new_connection_config(), &addr(1));
    assert_eq!(pool.get(0).unwrap().client().endpoint(), endpoint(4));
    assert_eq!(other.create_pool_entry(&manager.new_connection_config(), &addr(1)).client().endpoint(), endpoint(4));
}

#[test]
fn configuration_copy_keeps_the_identity_it_was_taken_with() {
    let mut manager = QuicConnectionManager::new_with_connection_config(config(10));
    let before = manager.new_connection_config();
    let new_key = Keypair::new_from_array([11; 32]);
    assert_eq!(manager.update_key(&new_key.to_bytes()), Ok(()));
    let after = manager.new_connection_config();
    assert!(Arc::ptr_eq(&before.clone().client_certificate(), &before.client_certificate()));
    assert!(!Arc::ptr_eq(&before.client_certificate(), &after.client_certificate()));
    assert_eq!(before.client_certificate().key()[16..], [10u8; 32]);
    assert_eq!(after.client_certificate().key()[16..], [11u8; 32]);
    assert_eq!(manager.update_key(&[0u8; 64]), Err(ClientError::CacheCreationError));
    assert_eq!(manager.new_connection_config().client_certificate().key()[16..], [11u8; 32]);
}

#[test]
fn update_client_certificate_rotates_like_update_keypair() {
    let mut by_certificate = config(12);
    let mut by_keypair = config(12);
    let key = Keypair::new_from_array([13; 32]).to_bytes();
    assert_eq!(by_certificate.update_client_certificate(&key, quic_client::IpAddress::V4(1)), Ok(()));
    assert_eq!(by_keypair.update_keypair(&key), Ok(()));
    assert_eq!(
        by_certificate.client_certificate().certificate(),
        by_keypair.client_certificate().certificate()
    );
    assert_eq!(by_certificate.client_certificate().key()[16..], [13u8; 32]);
    assert_eq!(
        by_certificate.update_client_certificate(&key[..40], quic_client::IpAddress::V4(1)),
        Err(ClientError::CacheCreationError)
    );
    assert_eq!(by_certificate.client_certificate().key()[16..], [13u8; 32]);
}

#[test]
fn socket_addresses_differ_in_any_part() {
    let v6 = SocketAddress::V6 { ip: 1, port: 443, flowinfo: 2, scope_id: 3 };
    assert_eq!(v6, SocketAddress::V6 { ip: 1, port: 443, flowinfo: 2, scope_id: 3 });
    assert_ne!(v6, SocketAddress::V6 { ip: 1, port: 443, flowinfo: 2, scope_id: 4 });
    assert_ne!(v6, SocketAddress::V6 { ip: 1, port: 443, flowinfo: 0, scope_id: 3 });
    assert_ne!(v6, SocketAddress::V4 { ip: 1, port: 443 });
    assert_ne!(SocketAddress::V4 { ip: 1, port: 443 }, SocketAddress::V4 { ip: 1, port: 444 });
}
