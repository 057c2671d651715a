//! The identity a client presents: a self-signed certificate and the private
//! key that goes with it, both made from one ed25519 keypair.

use vstd::prelude::*;
use crate::error::ClientError;
use solana_keypair::Keypair;
use solana_signer::Signer;

verus! {

/// What a keypair's bytes hold: the secret key, then the public key.
pub const KEYPAIR_LENGTH: usize = 64;

/// Length of each half of a keypair.
pub const KEY_LENGTH: usize = 32;

/// Whether 64 bytes are an ed25519 keypair: a secret key followed by the
/// public key that belongs to it. This is what `Keypair::try_from` accepts.
pub uninterp spec fn is_keypair(bytes: Seq<u8>) -> bool;

/// The secret half of a keypair's bytes.
pub open spec fn secret_key(keypair: Seq<u8>) -> Seq<u8> {
    keypair.subrange(0, KEY_LENGTH as int)
}

/// The public half of a keypair's bytes.
pub open spec fn public_key(keypair: Seq<u8>) -> Seq<u8> {
    keypair.subrange(KEY_LENGTH as int, KEYPAIR_LENGTH as int)
}

/// The start of a PKCS#8 private key document for an ed25519 key; the 32
/// bytes of the secret key follow it.
pub open spec fn pkcs8_head() -> Seq<u8> {
    seq![
        0x30u8, 0x2e, 0x02, 0x01, 0x00, 0x30, 0x05, 0x06, 0x03, 0x2b, 0x65, 0x70,
        0x04, 0x22, 0x04, 0x20,
    ]
}

/// The part of the certificate that precedes the public key: version, serial
/// number, algorithm, issuer, validity, an empty subject and the head of the
/// public key field.
pub open spec fn certificate_head() -> Seq<u8> {
    seq![
        0x30u8, 0x81, 0xf6, 0x30, 0x81, 0xa9, 0xa0, 0x03, 0x02, 0x01, 0x02, 0x02,
        0x08, 0x01, 0x01, 0x01, 0x01, 0x01, 0x01, 0x01, 0x01, 0x30, 0x05, 0x06,
        0x03, 0x2b, 0x65, 0x70, 0x30, 0x16, 0x31, 0x14, 0x30, 0x12, 0x06, 0x03,
        0x55, 0x04, 0x03, 0x0c, 0x0b, 0x53, 0x6f, 0x6c, 0x61, 0x6e, 0x61, 0x20,
        0x6e, 0x6f, 0x64, 0x65, 0x30, 0x20, 0x17, 0x0d, 0x37, 0x30, 0x30, 0x31,
        0x30, 0x31, 0x30, 0x30, 0x30, 0x30, 0x30, 0x30, 0x5a, 0x18, 0x0f, 0x34,
        0x30, 0x39, 0x36, 0x30, 0x31, 0x30, 0x31, 0x30, 0x30, 0x30, 0x30, 0x30,
        0x30, 0x5a, 0x30, 0x00, 0x30, 0x2a, 0x30, 0x05, 0x06, 0x03, 0x2b, 0x65,
        0x70, 0x03, 0x21, 0x00,
    ]
}

/// The part of the certificate that follows the public key: the extensions
/// and a signature field that is deliberately not a signature.
pub open spec fn certificate_tail() -> Seq<u8> {
    seq![
        0xa3u8, 0x29, 0x30, 0x27, 0x30, 0x17, 0x06, 0x03, 0x55, 0x1d, 0x11, 0x01,
        0x01, 0xff, 0x04, 0x0d, 0x30, 0x0b, 0x82, 0x09, 0x6c, 0x6f, 0x63, 0x61,
        0x6c, 0x68, 0x6f, 0x73, 0x74, 0x30, 0x0c, 0x06, 0x03, 0x55, 0x1d, 0x13,
        0x01, 0x01, 0xff, 0x04, 0x02, 0x30, 0x00, 0x30, 0x05, 0x06, 0x03, 0x2b,
        0x65, 0x70, 0x03, 0x41, 0x00, 0xff, 0xff, 0xff, 0xff, 0xff, 0xff, 0xff,
        0xff, 0xff, 0xff, 0xff, 0xff, 0xff, 0xff, 0xff, 0xff, 0xff, 0xff, 0xff,
        0xff, 0xff, 0xff, 0xff, 0xff, 0xff, 0xff, 0xff, 0xff, 0xff, 0xff, 0xff,
        0xff, 0xff, 0xff, 0xff, 0xff, 0xff, 0xff, 0xff, 0xff, 0xff, 0xff, 0xff,
        0xff, 0xff, 0xff, 0xff, 0xff, 0xff, 0xff, 0xff, 0xff, 0xff, 0xff, 0xff,
        0xff, 0xff, 0xff, 0xff, 0xff, 0xff, 0xff, 0xff, 0xff,
    ]
}

/// A certificate and private key, as their DER bytes.
pub struct IdentityView {
    pub certificate: Seq<u8>,
    pub key: Seq<u8>,
}

/// The identity that is made from a keypair: the certificate carries the
/// public key, the private key document carries the secret key.
pub open spec fn identity_of(keypair: Seq<u8>) -> IdentityView {
    IdentityView {
        certificate: certificate_head() + public_key(keypair) + certificate_tail(),
        key: pkcs8_head() + secret_key(keypair),
    }
}

impl IdentityView {
    /// Certificate and key were made together, from one keypair.
    pub open spec fn wf(self) -> bool {
        exists|keypair: Seq<u8>| #[trigger] is_keypair(keypair) && self == identity_of(keypair)
    }
}

/// What `QuicClientCertificate::from_generated` returns.
pub open spec fn generated_identity(generated: Option<(Vec<u8>, Vec<u8>)>) -> Result<
    IdentityView,
    ClientError,
> {
    match generated {
        Some(pair) => Ok(IdentityView { certificate: pair.0@, key: pair.1@ }),
        None => Err(ClientError::CacheCreationError),
    }
}

/// `solana_tls_utils::new_dummy_x509_certificate`, on a keypair given as its
/// bytes. `Keypair::try_from` reads the bytes and decides whether there is a
/// result: it takes 64 bytes whose second half is the public key of the
/// first. The certificate returned is a fixed head, the public key and a
/// fixed tail; the private key is a fixed PKCS#8 head and the secret key.
#[verifier::external_body]
fn dummy_x509_certificate(keypair: &[u8]) -> (generated: Option<(Vec<u8>, Vec<u8>)>)
    ensures
        generated.is_some() == is_keypair(keypair@),
        generated.is_some() ==> keypair@.len() == KEYPAIR_LENGTH,
        generated matches Some(pair) ==> pair.0@ == identity_of(keypair@).certificate,
        generated matches Some(pair) ==> pair.1@ == identity_of(keypair@).key,
{
    let keypair = Keypair::try_from(keypair).ok()?;
    let (certificate, key) = solana_tls_utils::new_dummy_x509_certificate(&keypair);
    Some((certificate.as_ref().to_vec(), key.secret_der().to_vec()))
}

/// `Signer::pubkey` of a keypair given as its bytes: the public half, where
/// `Keypair::try_from` takes the bytes.
#[verifier::external_body]
pub(crate) fn keypair_pubkey(keypair: &[u8]) -> (pubkey: Option<[u8; 32]>)
    ensures
        pubkey.is_some() == is_keypair(keypair@),
        pubkey.is_some() ==> keypair@.len() == KEYPAIR_LENGTH,
        pubkey matches Some(key) ==> key@ == public_key(keypair@),
{
    let keypair = Keypair::try_from(keypair).ok()?;
    Some(keypair.pubkey().to_bytes())
}

/// `Keypair::new`: a keypair from the system's random source, as its bytes.
/// Which keypair it is nobody can say; that it is one, the source shows:
/// the public half is derived from the secret half when the keypair is
/// generated, `to_bytes` writes the secret half and then the public half,
/// and `Keypair::try_from` takes 64 bytes whose second half is the public
/// key derived from the first.
#[verifier::external_body]
fn random_keypair() -> (keypair: [u8; 64])
    ensures
        is_keypair(keypair@),
{
    Keypair::new().to_bytes()
}

/// The identity material a client presents in the handshake. It is made
/// whole and never changed: rotation installs another.
#[derive(Debug)]
pub struct QuicClientCertificate {
    certificate: Vec<u8>,
    key: Vec<u8>,
}

impl View for QuicClientCertificate {
    type V = IdentityView;

    closed spec fn view(&self) -> IdentityView {
        IdentityView { certificate: self.certificate@, key: self.key@ }
    }
}

impl QuicClientCertificate {
    /// The identity for a keypair, given as its 64 bytes. There is none for
    /// bytes that are no keypair.
    pub fn new(keypair: &[u8]) -> (r: Result<Self, ClientError>)
        ensures
            r.is_ok() == is_keypair(keypair@),
            r matches Ok(identity) ==> identity@ == identity_of(keypair@) && identity@.wf(),
            r matches Err(e) ==> e == ClientError::CacheCreationError,
    {
        Self::from_generated(dummy_x509_certificate(keypair))
    }

    /// The identity for a keypair fresh from the system's random source.
    /// There always is one.
    pub fn new_random() -> (r: Result<Self, ClientError>)
        ensures
            r matches Ok(identity) && identity@.wf(),
    {
        let keypair = random_keypair();
        Self::new(keypair.as_slice())
    }

    /// Takes what generating a certificate gave: the certificate and key as
    /// they came, or the error where nothing came.
    pub fn from_generated(generated: Option<(Vec<u8>, Vec<u8>)>) -> (r: Result<Self, ClientError>)
        ensures
            match r {
                Ok(identity) => generated_identity(generated) == Ok::<IdentityView, ClientError>(identity@),
                Err(e) => generated_identity(generated) == Err::<IdentityView, ClientError>(e),
            },
    {
        match generated {
            Some((certificate, key)) => Ok(QuicClientCertificate { certificate, key }),
            None => Err(ClientError::CacheCreationError),
        }
    }

    /// The certificate, in DER.
    pub fn certificate(&self) -> (der: &Vec<u8>)
        ensures
            der@ == self@.certificate,
    {
        &self.certificate
    }

    /// The private key, as a PKCS#8 document in DER.
    pub fn key(&self) -> (der: &Vec<u8>)
        ensures
            der@ == self@.key,
    {
        &self.key
    }
}

} // verus!
