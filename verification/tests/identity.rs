use quic_client::tls::{QuicClientCertificate, KEYPAIR_LENGTH, KEY_LENGTH};
use quic_client::{ClientError, QuicConfig};
use solana_keypair::Keypair;
use solana_pubkey::Pubkey;
use solana_signer::Signer;
use solana_tls_utils::{get_pubkey_from_tls_certificate, new_dummy_x509_certificate};

const PKCS8_HEAD: [u8; 16] = [
    0x30, 0x2e, 0x02, 0x01, 0x00, 0x30, 0x05, 0x06, 0x03, 0x2b, 0x65, 0x70, 0x04, 0x22, 0x04, 0x20,
];

fn test_keypair(seed: u8) -> Keypair {
    Keypair::new_from_array([seed; 32])
}

#[test]
fn identity_is_that_of_the_keypair() {
    let keypair = test_keypair(1);
    let bytes = keypair.to_bytes();
    let identity = QuicClientCertificate::new(&bytes).unwrap();
    let (certificate, key) = new_dummy_x509_certificate(&keypair);
    assert_eq!(identity.certificate().as_slice(), certificate.as_ref());
    assert_eq!(identity.key().as_slice(), key.secret_der());
    assert_ne!(identity.certificate().as_slice(), &bytes[..]);
}

#[test]
fn certificate_carries_the_public_key_and_key_the_secret() {
    let keypair = test_keypair(2);
    let bytes = keypair.to_bytes();
    assert_eq!(bytes.len(), KEYPAIR_LENGTH);
    let identity = QuicClientCertificate::new(&bytes).unwrap();
    let certificate = identity.certificate();
    assert_eq!(certificate.len(), 100 + KEY_LENGTH + 117);
    assert_eq!(certificate[..4], [0x30, 0x81, 0xf6, 0x30]);
    assert_eq!(certificate[96..100], [0x70, 0x03, 0x21, 0x00]);
    assert_eq!(certificate[100..132], bytes[32..]);
    assert_eq!(certificate[100..132], keypair.pubkey().to_bytes());
    assert_eq!(certificate[132..136], [0xa3, 0x29, 0x30, 0x27]);
    assert!(certificate[185..].iter().all(|byte| *byte == 0xff));
    let key = identity.key();
    assert_eq!(key.len(), 16 + KEY_LENGTH);
    assert_eq!(key[..16], PKCS8_HEAD);
    assert_eq!(key[16..], bytes[..32]);
}

#[test]
fn certificate_parses_back_to_the_public_key() {
    let keypair = test_keypair(3);
    let identity = QuicClientCertificate::new(&keypair.to_bytes()).unwrap();
    let der = rustls_certificate(identity.certificate());
    assert_eq!(der, Some(keypair.pubkey()));
}

fn rustls_certificate(certificate: &[u8]) -> Option<Pubkey> {
    // A certificate of the handshake's own type, made to hold our bytes.
    let (mut der, _) = new_dummy_x509_certificate(&test_keypair(9));
    der = certificate.to_vec().into();
    get_pubkey_from_tls_certificate(&der)
}

#[test]
fn bytes_that_are_no_keypair_have_no_identity() {
    let keypair = test_keypair(4);
    let bytes = keypair.to_bytes();
    // Too short, too long.
    assert_eq!(QuicClientCertificate::new(&bytes[..63]).unwrap_err(), ClientError::CacheCreationError);
    assert_eq!(QuicClientCertificate::new(&[]).unwrap_err(), ClientError::CacheCreationError);
    let mut long = bytes.to_vec();
    long.push(0);
    assert_eq!(QuicClientCertificate::new(&long).unwrap_err(), ClientError::CacheCreationError);
    // A public half that does not belong to the secret half.
    let other = test_keypair(5).to_bytes();
    let mut mixed = bytes;
    mixed[32..].copy_from_slice(&other[32..]);
    assert_eq!(QuicClientCertificate::new(&mixed).unwrap_err(), ClientError::CacheCreationError);
    assert!(QuicClientCertificate::new(&bytes).is_ok());
}

#[test]
fn from_generated_takes_what_it_is_given() {
    let identity = QuicClientCertificate::from_generated(Some((vec![1, 2, 3], vec![4, 5]))).unwrap();
    assert_eq!(identity.certificate(), &vec![1u8, 2, 3]);
    assert_eq!(identity.key(), &vec![4u8, 5]);
    assert_eq!(
        QuicClientCertificate::from_generated(None).unwrap_err(),
        ClientError::CacheCreationError
    );
}

#[test]
fn random_identity_is_whole() {
    let identity = QuicClientCertificate::new_random().unwrap();
    let secret: [u8; 32] = identity.key()[16..].try_into().unwrap();
    let keypair = Keypair::new_from_array(secret);
    assert_eq!(identity.certificate()[100..132], keypair.pubkey().to_bytes());
    let other = QuicClientCertificate::new_random().unwrap();
    assert_ne!(identity.key(), other.key());
}

#[test]
fn new_configuration_has_an_identity_only() {
    let config = QuicConfig::new().unwrap();
    assert!(config.maybe_staked_nodes().is_none());
    assert!(config.maybe_client_pubkey().is_none());
    assert!(config.client_endpoint().is_none());
    let identity = config.client_certificate();
    assert_eq!(identity.certificate().len(), 249);
    assert_eq!(identity.key().len(), 48);
}
