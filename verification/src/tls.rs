//! Certificate minting: leaf certificates signed by the proxy's own
//! certificate authority, and the cache of server TLS configurations built
//! from them.

use crate::error::BackendError;
use crate::message::Authority;
use moka::sync::Cache;
use rand::Rng;
use rcgen::{Certificate, CertificateParams, KeyPair};
use rustls::pki_types::{CertificateDer, PrivateKeyDer, PrivatePkcs8KeyDer};
use rustls::ServerConfig;
use std::sync::Arc;
use vstd::prelude::*;
use vstd::string::{StrSliceExecFns, StringSliceAdditionalSpecFns};

verus! {

/// Number of server configurations the cache keeps.
pub const MAX_CAPACITY: u64 = 1000;

/// `rcgen::KeyPair`, a private key with its public key.
#[verifier::external_type_specification]
#[verifier::external_body]
pub struct ExKeyPair(KeyPair);

/// `rcgen::Certificate`, a signed certificate.
#[verifier::external_type_specification]
#[verifier::external_body]
pub struct ExCertificate(Certificate);

/// `rcgen::CertificateParams`, what a certificate is to contain.
#[verifier::external_type_specification]
#[verifier::external_body]
pub struct ExCertificateParams(CertificateParams);

/// `rcgen::Error`.
#[verifier::external_type_specification]
#[verifier::external_body]
pub struct ExRcgenError(rcgen::Error);

/// `rustls::ServerConfig`, the TLS settings of a server.
#[verifier::external_type_specification]
#[verifier::external_body]
pub struct ExServerConfig(ServerConfig);

/// `rustls::Error`.
#[verifier::external_type_specification]
#[verifier::external_body]
pub struct ExRustlsError(rustls::Error);

/// `moka::sync::Cache`, a bounded concurrent cache.
#[verifier::external_type_specification]
#[verifier::external_body]
#[verifier::reject_recursive_types(K)]
#[verifier::reject_recursive_types(V)]
#[verifier::reject_recursive_types(S)]
pub struct ExCache<K, V, S>(Cache<K, V, S>);

/// The limit a cache of server configurations was made with.
pub uninterp spec fn cache_limit(cache: Cache<Vec<u8>, Arc<ServerConfig>>) -> Option<u64>;

/// What a leaf certificate minted for an origin contains.
#[derive(Debug, Clone, PartialEq, Eq)]
pub struct LeafCertificate {
    /// Serial number.
    pub serial: u64,
    /// The subject's common name.
    pub common_name: String,
    /// The one DNS name in the subject alternative names.
    pub dns_name: String,
}

/// Trusted: `KeyPair::from_pem`. Nothing is claimed about the outcome: besides
/// the text, the system's random number generator has a say in it.
#[verifier::external_body]
fn key_pair_from_pem(pem: &str) -> Result<KeyPair, rcgen::Error> {
    KeyPair::from_pem(pem)
}

/// Trusted: `KeyPair::serialize_der`. Nothing is claimed about the bytes.
#[verifier::external_body]
fn key_pair_der(key_pair: &KeyPair) -> Vec<u8> {
    key_pair.serialize_der()
}

/// Whether the certificate parser accepts a text as the PEM form of a
/// certificate authority's certificate.
pub uninterp spec fn ca_certificate_accepted(pem: Seq<char>) -> bool;

/// Trusted: `CertificateParams::from_ca_cert_pem`. It only parses, so
/// whether it succeeds depends on the text alone; that answer is referred to
/// as [`ca_certificate_accepted`]. Nothing is claimed about the parameters.
#[verifier::external_body]
fn ca_params_from_pem(pem: &str) -> (params: Result<CertificateParams, rcgen::Error>)
    ensures
        params is Ok <==> ca_certificate_accepted(pem@),
{
    CertificateParams::from_ca_cert_pem(pem)
}

/// Trusted: `CertificateParams::self_signed`. Nothing is claimed about the
/// outcome.
#[verifier::external_body]
fn self_signed(params: CertificateParams, key_pair: &KeyPair) -> Result<Certificate, rcgen::Error> {
    params.self_signed(key_pair)
}

/// Trusted: builds the `rcgen::CertificateParams` that describe `leaf`, from
/// `CertificateParams::default`, with the serial number, a distinguished name
/// holding the common name, and the DNS name as the only subject alternative
/// name. Fails when the DNS name is not an IA5 string. Nothing is claimed
/// about the outcome.
#[verifier::external_body]
fn leaf_params(leaf: &LeafCertificate) -> Result<CertificateParams, rcgen::Error> {
    let mut params = CertificateParams::default();
    params.serial_number = Some(leaf.serial.into());
    let mut name = rcgen::DistinguishedName::new();
    name.push(rcgen::DnType::CommonName, leaf.common_name.as_str());
    params.distinguished_name = name;
    let dns_name = rcgen::Ia5String::try_from(leaf.dns_name.as_str())?;
    params.subject_alt_names.push(rcgen::SanType::DnsName(dns_name));
    Ok(params)
}

/// Trusted: `CertificateParams::signed_by`, with the issuer's key pair as the
/// subject's key as well; the certificate is handed back in DER form. Nothing
/// is claimed about the outcome.
#[verifier::external_body]
fn signed_by(params: CertificateParams, key_pair: &KeyPair, issuer: &Certificate) -> Result<
    Vec<u8>,
    rcgen::Error,
> {
    let certificate = params.signed_by(key_pair, issuer, key_pair)?;
    Ok(certificate.der().to_vec())
}

/// Trusted: `rand::Rng::gen::<u64>` on `rand::thread_rng()`. Any value may
/// come back.
#[verifier::external_body]
fn random_serial() -> u64 {
    rand::thread_rng().gen::<u64>()
}

/// Trusted: the `rustls::ServerConfig` builder, with the aws-lc-rs provider,
/// its safe default protocol versions, no client authentication and a single
/// certificate with its PKCS#8 key; the ALPN protocols are then set on the
/// result. Nothing is claimed about the outcome.
#[verifier::external_body]
fn build_server_config(certificate: Vec<u8>, key: Vec<u8>, alpn: Vec<Vec<u8>>) -> Result<
    ServerConfig,
    rustls::Error,
> {
    let provider = Arc::new(rustls::crypto::aws_lc_rs::default_provider());
    let chain = vec![CertificateDer::from(certificate)];
    let key = PrivateKeyDer::from(PrivatePkcs8KeyDer::from(key));
    let mut config = ServerConfig::builder_with_provider(provider)
        .with_safe_default_protocol_versions()?
        .with_no_client_auth()
        .with_single_cert(chain, key)?;
    config.alpn_protocols = alpn;
    Ok(config)
}

/// Trusted: `Cache::new`. The cache is bounded by the given capacity.
#[verifier::external_body]
fn new_cache(max_capacity: u64) -> (cache: Cache<Vec<u8>, Arc<ServerConfig>>)
    ensures
        cache_limit(cache) == Some(max_capacity),
{
    Cache::new(max_capacity)
}

/// Trusted: `Cache::policy` and `Policy::max_capacity`. The limit the cache
/// was made with.
#[verifier::external_body]
fn cache_max_capacity(cache: &Cache<Vec<u8>, Arc<ServerConfig>>) -> (limit: Option<u64>)
    ensures
        limit == cache_limit(*cache),
{
    cache.policy().max_capacity()
}

/// The protocols a minted server configuration offers through ALPN, in
/// order of preference: `h2`, then `http/1.1`.
pub open spec fn alpn_offer() -> Seq<Seq<u8>> {
    seq!["h2".spec_bytes(), "http/1.1".spec_bytes()]
}

/// The protocols a minted server configuration offers through ALPN.
pub fn alpn_protocols() -> (protocols: Vec<Vec<u8>>)
    ensures
        protocols.deep_view() == alpn_offer(),
{
    let mut protocols: Vec<Vec<u8>> = Vec::new();
    protocols.push("h2".as_bytes_vec());
    protocols.push("http/1.1".as_bytes_vec());
    assert(protocols.deep_view() =~~= alpn_offer());
    protocols
}

/// What becomes of a step in loading the certificate authority: its result
/// when it succeeded, and [`BackendError::TlsSetupError`] whatever made it
/// fail.
pub fn loaded<T, E>(outcome: Result<T, E>) -> (result: Result<T, BackendError>)
    ensures
        match outcome {
            Ok(value) => result == Ok::<T, BackendError>(value),
            Err(_) => result == Err::<T, BackendError>(BackendError::TlsSetupError),
        },
{
    match outcome {
        Ok(value) => Ok(value),
        Err(_) => Err(BackendError::TlsSetupError),
    }
}

/// What becomes of a step in minting a server configuration: its result when
/// it succeeded, and [`BackendError::TlsConfigSetup`] whatever made it fail.
pub fn minted<T, E>(outcome: Result<T, E>) -> (result: Result<T, BackendError>)
    ensures
        match outcome {
            Ok(value) => result == Ok::<T, BackendError>(value),
            Err(_) => result == Err::<T, BackendError>(BackendError::TlsConfigSetup),
        },
{
    match outcome {
        Ok(value) => Ok(value),
        Err(_) => Err(BackendError::TlsConfigSetup),
    }
}

/// The certificate authority of the proxy together with the cache of server
/// TLS configurations minted under it.
pub struct TlsCertCache {
    key_pair: Arc<KeyPair>,
    cert: Arc<Certificate>,
    private_key: Arc<Vec<u8>>,
    inner: Cache<Vec<u8>, Arc<ServerConfig>>,
}

impl TlsCertCache {
    /// The limit the cache was made with.
    pub closed spec fn limit(&self) -> Option<u64> {
        cache_limit(self.inner)
    }

    /// Creates a certificate cache from the PEM private key and the PEM
    /// certificate of the certificate authority. The certificate is signed
    /// anew with the key; leaf certificates reuse the key pair.
    ///
    /// Whether the material loads is decided by the key loader, the
    /// certificate parser and the signer. A certificate that the parser does
    /// not accept always makes it fail, and a failure is always reported as
    /// [`BackendError::TlsSetupError`].
    pub fn new(key_pem: &str, cert_pem: &str) -> (cache: Result<Self, BackendError>)
        ensures
            cache matches Ok(created) ==> created.limit() == Some(MAX_CAPACITY),
            cache matches Err(error) ==> error == BackendError::TlsSetupError,
            !ca_certificate_accepted(cert_pem@) ==> cache is Err,
    {
        let key_pair = match loaded(key_pair_from_pem(key_pem)) {
            Ok(key_pair) => key_pair,
            Err(error) => return Err(error),
        };
        let private_key = key_pair_der(&key_pair);
        let params = match loaded(ca_params_from_pem(cert_pem)) {
            Ok(params) => params,
            Err(error) => return Err(error),
        };
        let cert = match loaded(self_signed(params, &key_pair)) {
            Ok(cert) => cert,
            Err(error) => return Err(error),
        };
        Ok(
            TlsCertCache {
                key_pair: Arc::new(key_pair),
                cert: Arc::new(cert),
                private_key: Arc::new(private_key),
                inner: new_cache(MAX_CAPACITY),
            },
        )
    }

    /// The number of server configurations the cache keeps at most.
    pub fn capacity(&self) -> (limit: Option<u64>)
        ensures
            limit == self.limit(),
    {
        cache_max_capacity(&self.inner)
    }

    /// What the leaf certificate for `authority` contains: the given serial
    /// number, and the host of the authority both as common name and as the
    /// one DNS name.
    pub fn leaf_for(authority: &Authority, serial: u64) -> (leaf: LeafCertificate)
        ensures
            leaf.serial == serial,
            leaf.common_name@ == authority.host_view(),
            leaf.dns_name@ == authority.host_view(),
    {
        let host = authority.host();
        LeafCertificate { serial, common_name: host.to_owned(), dns_name: host.to_owned() }
    }

    /// Mints the leaf certificate for `authority`, in DER form, under a random
    /// serial number.
    ///
    /// Whether signing succeeds is decided by the signing library; a failure
    /// is always reported as [`BackendError::TlsConfigSetup`].
    pub fn generate_cert(&self, authority: &Authority) -> (certificate: Result<
        Vec<u8>,
        BackendError,
    >)
        ensures
            certificate matches Err(error) ==> error == BackendError::TlsConfigSetup,
    {
        let leaf = Self::leaf_for(authority, random_serial());
        let params = match minted(leaf_params(&leaf)) {
            Ok(params) => params,
            Err(error) => return Err(error),
        };
        minted(signed_by(params, &self.key_pair, &self.cert))
    }

    /// Builds the server TLS configuration for `authority`: a freshly minted
    /// leaf certificate, no client authentication, and [`alpn_protocols`].
    ///
    /// A failure is always reported as [`BackendError::TlsConfigSetup`].
    pub fn generate_server_config(&self, authority: &Authority) -> (config: Result<
        ServerConfig,
        BackendError,
    >)
        ensures
            config matches Err(error) ==> error == BackendError::TlsConfigSetup,
    {
        let certificate = match self.generate_cert(authority) {
            Ok(certificate) => certificate,
            Err(error) => return Err(error),
        };
        let key: Vec<u8> = (*self.private_key).clone();
        minted(build_server_config(certificate, key, alpn_protocols()))
    }

    /// Builds the server TLS configuration for `authority` in the shared form
    /// in which the cache stores it, see
    /// [`TlsCertCache::generate_server_config`].
    pub fn mint(&self, authority: &Authority) -> (config: Result<Arc<ServerConfig>, BackendError>)
        ensures
            config matches Err(error) ==> error == BackendError::TlsConfigSetup,
    {
        match self.generate_server_config(authority) {
            Ok(config) => Ok(Arc::new(config)),
            Err(error) => Err(error),
        }
    }

    /// Trusted: `Cache::entry` and `OwnedKeyEntrySelector::or_try_insert_with`,
    /// with [`TlsCertCache::mint`] as the initializer. The cache runs the
    /// initializer at most once per key among concurrent callers and hands
    /// every caller the value it stored, or the failure of the initializer.
    /// Nothing is claimed about the outcome.
    #[verifier::external_body]
    fn entry_or_mint(&self, key: Vec<u8>, authority: &Authority) -> Result<
        Arc<ServerConfig>,
        Arc<BackendError>,
    > {
        match self.inner.entry(key).or_try_insert_with(|| self.mint(authority)) {
            Ok(entry) => Ok(entry.into_value()),
            Err(error) => Err(error),
        }
    }

    /// Gets the server TLS configuration for `authority` from the cache, or
    /// mints one and stores it if the cache holds none. Authorities that
    /// differ only in ASCII case share an entry.
    ///
    /// A failure to mint is reported as [`BackendError::TlsConfigSetup`].
    pub fn get_or_insert(&self, authority: &Authority) -> (config: Result<
        Arc<ServerConfig>,
        BackendError,
    >)
        ensures
            config matches Err(error) ==> error == BackendError::TlsConfigSetup,
    {
        minted(self.entry_or_mint(authority.cache_key(), authority))
    }
}

} // verus!
