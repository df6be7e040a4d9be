//! Identities, certificates and failures of TLS-secured connections between
//! nodes.

use openssl::error::ErrorStack;
use openssl::hash::MessageDigest;
use openssl::x509::X509;
use std::collections::{BTreeSet, HashSet};
use std::hash::{Hash, Hasher};
use vstd::prelude::*;
use vstd::std_specs::cmp::PartialEqSpecImpl;
use vstd::std_specs::convert::FromSpecImpl;
use vstd::string::StringExecFns;

verus! {

#[verifier::external_type_specification]
#[verifier::external_body]
pub struct ExX509(openssl::x509::X509);

#[verifier::external_type_specification]
#[verifier::external_body]
pub struct ExErrorStack(openssl::error::ErrorStack);

/// The certificate that a DER encoding decodes to, `None` where the bytes do
/// not decode.
pub uninterp spec fn decoded(der: Seq<u8>) -> Option<X509>;

/// The DER encoding of a certificate, `None` where it cannot be encoded.
pub uninterp spec fn encoded(cert: X509) -> Option<Seq<u8>>;

/// The SHA-256 digest of the DER representation of a certificate, `None`
/// where it cannot be computed.
pub uninterp spec fn sha256_digest(cert: X509) -> Option<Seq<u8>>;

/// `openssl::x509::X509::from_der`: decodes a DER-encoded certificate. What
/// comes out depends on the bytes alone.
#[verifier::external_body]
fn x509_from_der(der: &[u8]) -> (outcome: Result<X509, ErrorStack>)
    ensures
        match outcome {
            Ok(cert) => decoded(der@) == Some(cert),
            Err(_) => decoded(der@) is None,
        },
{
    X509::from_der(der)
}

/// `openssl::x509::X509Ref::to_der`: the DER encoding of the certificate.
#[verifier::external_body]
fn x509_to_der(cert: &X509) -> (outcome: Result<Vec<u8>, ErrorStack>)
    ensures
        match outcome {
            Ok(der) => encoded(*cert) == Some(der@),
            Err(_) => encoded(*cert) is None,
        },
{
    cert.to_der()
}

/// `openssl::x509::X509Ref::digest` with `MessageDigest::sha256`: the SHA-256
/// digest of the DER representation of the certificate, which is 32 bytes
/// long, as the array that `openssl::sha::sha256` returns is.
#[verifier::external_body]
fn x509_digest_sha256(cert: &X509) -> (outcome: Result<Vec<u8>, ErrorStack>)
    ensures
        match outcome {
            Ok(digest) => sha256_digest(*cert) == Some(digest@) && digest@.len() == 32,
            Err(_) => sha256_digest(*cert) is None,
        },
{
    cert.digest(MessageDigest::sha256()).map(|digest| digest.to_vec())
}

/// `Clone::clone` of `openssl::x509::X509`: another handle to the same
/// certificate.
pub assume_specification[ <openssl::x509::X509 as Clone>::clone ](cert: &X509) -> (copy: X509)
    ensures
        copy == *cert,
;

/// `Clone::clone` of `std::collections::HashSet`: a set with the same
/// elements.
#[verifier::external_body]
fn clone_certs(certs: &HashSet<TlsPublicKeyCert>) -> (copy: HashSet<TlsPublicKeyCert>)
    ensures
        copy@ == certs@,
{
    certs.clone()
}

/// The text of an `openssl::error::ErrorStack`, as its `Display` gives it.
#[verifier::external_body]
fn error_text(error: &ErrorStack) -> (text: String) {
    format!("{}", error)
}

/// Whether `text` begins with `prefix`.
pub open spec fn begins_with(text: Seq<char>, prefix: Seq<char>) -> bool {
    prefix.len() <= text.len() && text.subrange(0, prefix.len() as int) == prefix
}

fn described(prefix: &str, error: &ErrorStack) -> (text: String)
    ensures
        begins_with(text@, prefix@),
{
    let detail = error_text(error);
    let text = String::from_str(prefix).concat(detail.as_str());
    assert(text@.subrange(0, prefix@.len() as int) =~= prefix@);
    text
}

fn same_bytes(a: &Vec<u8>, b: &Vec<u8>) -> (same: bool)
    ensures
        same == (a@ == b@),
{
    if a.len() != b.len() {
        return false;
    }
    let mut i: usize = 0;
    while i < a.len()
        invariant
            i <= a@.len(),
            a@.len() == b@.len(),
            forall|j: int| 0 <= j < i ==> a@[j] == b@[j],
        decreases a@.len() - i,
    {
        if a[i] != b[i] {
            return false;
        }
        i = i + 1;
    }
    assert(a@ =~= b@);
    true
}

/// The identity of a node: the bytes of its principal.
#[derive(Clone, Debug, PartialEq, Eq, PartialOrd, Ord, Hash)]
pub struct NodeId(pub Vec<u8>);

/// A version of the registry.
#[derive(Clone, Copy, Debug, PartialEq, Eq, PartialOrd, Ord, Hash, Structural)]
pub struct RegistryVersion(pub u64);

/// A failure of the registry client, as it describes itself.
#[derive(Clone, Debug, PartialEq, Eq)]
pub struct RegistryClientError {
    pub description: String,
}

/// A certificate as the registry stores it.
#[derive(Clone, Debug, PartialEq, Eq)]
pub struct X509PublicKeyCert {
    pub certificate_der: Vec<u8>,
}

/// An X.509 certificate, with its DER encoding and its SHA-256 digest.
#[derive(Debug)]
pub struct TlsPublicKeyCert {
    cert: X509,
    der_cached: Vec<u8>,
    hash_cached: Vec<u8>,
}

impl TlsPublicKeyCert {
    /// The certificate itself.
    pub closed spec fn x509(self) -> X509 {
        self.cert
    }

    /// The DER encoding that the certificate was made from or gave.
    pub closed spec fn der(self) -> Seq<u8> {
        self.der_cached@
    }

    /// The SHA-256 digest, by which certificates are compared: 32 bytes in
    /// every certificate that was created.
    pub closed spec fn digest(self) -> Seq<u8> {
        self.hash_cached@
    }

    /// Creates a certificate from ASN.1 DER encoding.
    pub fn new_from_der(cert_der: Vec<u8>) -> (outcome: Result<Self, TlsPublicKeyCertCreationError>)
        ensures
            match decoded(cert_der@) {
                None => outcome matches Err(e) && begins_with(
                    e.internal_error@,
                    "Error parsing DER: "@,
                ),
                Some(cert) => match sha256_digest(cert) {
                    None => outcome matches Err(e) && begins_with(
                        e.internal_error@,
                        "Error hashing certificate: "@,
                    ),
                    Some(digest) => outcome matches Ok(created) && created.x509() == cert
                        && created.der() == cert_der@ && created.digest() == digest
                        && created.digest().len() == 32,
                },
            },
    {
        let cert = match x509_from_der(cert_der.as_slice()) {
            Ok(cert) => cert,
            Err(e) => {
                return Err(
                    TlsPublicKeyCertCreationError {
                        internal_error: described("Error parsing DER: ", &e),
                    },
                );
            },
        };
        let hash_cached = match Self::hash(&cert) {
            Ok(hash) => hash,
            Err(e) => {
                return Err(e);
            },
        };
        Ok(Self { hash_cached, cert, der_cached: cert_der })
    }

    /// Creates a certificate from an existing OpenSSL struct.
    pub fn new_from_x509(cert: X509) -> (outcome: Result<Self, TlsPublicKeyCertCreationError>)
        ensures
            match encoded(cert) {
                None => outcome matches Err(e) && begins_with(
                    e.internal_error@,
                    "Error encoding DER: "@,
                ),
                Some(der) => match sha256_digest(cert) {
                    None => outcome matches Err(e) && begins_with(
                        e.internal_error@,
                        "Error hashing certificate: "@,
                    ),
                    Some(digest) => outcome matches Ok(created) && created.x509() == cert
                        && created.der() == der && created.digest() == digest
                        && created.digest().len() == 32,
                },
            },
    {
        let der_cached = match x509_to_der(&cert) {
            Ok(der) => der,
            Err(e) => {
                return Err(
                    TlsPublicKeyCertCreationError {
                        internal_error: described("Error encoding DER: ", &e),
                    },
                );
            },
        };
        let hash_cached = match Self::hash(&cert) {
            Ok(hash) => hash,
            Err(e) => {
                return Err(e);
            },
        };
        Ok(Self { hash_cached, cert, der_cached })
    }

    /// Returns the certificate in DER format.
    pub fn as_der(&self) -> (der: &Vec<u8>)
        ensures
            der@ == self.der(),
    {
        &self.der_cached
    }

    /// Returns the certificate as an OpenSSL struct.
    pub fn as_x509(&self) -> (cert: &X509)
        ensures
            *cert == self.x509(),
    {
        &self.cert
    }

    /// Returns the certificate as the registry stores it.
    pub fn to_proto(&self) -> (proto: X509PublicKeyCert)
        ensures
            proto.certificate_der@ == self.der(),
    {
        let certificate_der = self.der_cached.clone();
        assert(certificate_der@ =~= self.der_cached@);
        X509PublicKeyCert { certificate_der }
    }

    fn hash(cert: &X509) -> (outcome: Result<Vec<u8>, TlsPublicKeyCertCreationError>)
        ensures
            match sha256_digest(*cert) {
                None => outcome matches Err(e) && begins_with(
                    e.internal_error@,
                    "Error hashing certificate: "@,
                ),
                Some(digest) => outcome matches Ok(hash) && hash@ == digest && hash@.len() == 32,
            },
    {
        match x509_digest_sha256(cert) {
            Ok(hash) => Ok(hash),
            Err(e) => Err(
                TlsPublicKeyCertCreationError {
                    internal_error: described("Error hashing certificate: ", &e),
                },
            ),
        }
    }
}

impl Clone for TlsPublicKeyCert {
    fn clone(&self) -> (copy: Self)
        ensures
            copy.x509() == self.x509(),
            copy.der() == self.der(),
            copy.digest() == self.digest(),
    {
        let der_cached = self.der_cached.clone();
        let hash_cached = self.hash_cached.clone();
        assert(der_cached@ =~= self.der_cached@);
        assert(hash_cached@ =~= self.hash_cached@);
        Self { cert: self.cert.clone(), der_cached, hash_cached }
    }
}

impl PartialEq for TlsPublicKeyCert {
    /// Equality is determined by comparison of the SHA-256 digests.
    fn eq(&self, rhs: &Self) -> (equal: bool) {
        same_bytes(&self.hash_cached, &rhs.hash_cached)
    }
}

impl PartialEqSpecImpl for TlsPublicKeyCert {
    open spec fn obeys_eq_spec() -> bool {
        true
    }

    open spec fn eq_spec(&self, rhs: &Self) -> bool {
        self.digest() == rhs.digest()
    }
}

impl Eq for TlsPublicKeyCert {

}

impl Hash for TlsPublicKeyCert {
    /// `Hash::hash` of the digest: certificates that are equal hash alike.
    #[verifier::external_body]
    fn hash<H: Hasher>(&self, state: &mut H) {
        self.hash_cached.hash(state)
    }
}

/// Why a certificate could not be created from its encoding.
#[derive(Clone, Debug, PartialEq, Eq)]
pub struct TlsPublicKeyCertCreationError {
    pub internal_error: String,
}

/// The certificate offered by the peer is malformed.
#[derive(Clone, Debug, PartialEq, Eq)]
pub struct MalformedPeerCertificateError {
    pub internal_error: String,
}

impl MalformedPeerCertificateError {
    pub fn new(internal_error: &str) -> (e: Self)
        ensures
            e.internal_error@ == internal_error@,
    {
        Self { internal_error: internal_error.to_owned() }
    }
}

/// Why a peer that completed the handshake is turned away.
#[derive(Clone, Copy, Debug, PartialEq, Eq, Structural)]
pub enum PeerNotAllowedError {
    /// The identity the peer claims is not among the authorized identities.
    HandshakeCertificateNodeIdNotAllowed,
    /// The certificate offered in the handshake is not the trusted one.
    CertificatesDiffer,
}

/// Errors from a TLS handshake performed as the server.
#[derive(Clone, Debug, PartialEq, Eq)]
pub enum TlsServerHandshakeError {
    /// The registry could not be read.
    RegistryError(RegistryClientError),
    /// A certificate that should be in the registry is not.
    CertificateNotInRegistry { node_id: NodeId, registry_version: RegistryVersion },
    /// The node's own certificate is malformed.
    MalformedSelfCertificate { internal_error: String },
    /// The certificate of an allowed client is malformed.
    MalformedClientCertificate(MalformedPeerCertificateError),
    /// The server could not be set up to accept connections.
    CreateAcceptorError {
        description: String,
        cert_der: Option<Vec<u8>>,
        internal_error: Option<String>,
    },
    /// The handshake failed.
    HandshakeError { internal_error: String },
    /// The client is not allowed, or offered another certificate than the
    /// registry holds for it.
    ClientNotAllowed(PeerNotAllowedError),
    /// The client offered no certificate.
    UnauthenticatedClient,
}

impl From<MalformedPeerCertificateError> for TlsServerHandshakeError {
    fn from(malformed_peer_cert_error: MalformedPeerCertificateError) -> (e: Self) {
        TlsServerHandshakeError::MalformedClientCertificate(malformed_peer_cert_error)
    }
}

impl FromSpecImpl<MalformedPeerCertificateError> for TlsServerHandshakeError {
    open spec fn obeys_from_spec() -> bool {
        true
    }

    open spec fn from_spec(malformed_peer_cert_error: MalformedPeerCertificateError) -> Self {
        TlsServerHandshakeError::MalformedClientCertificate(malformed_peer_cert_error)
    }
}

impl From<PeerNotAllowedError> for TlsServerHandshakeError {
    fn from(peer_not_allowed_error: PeerNotAllowedError) -> (e: Self) {
        TlsServerHandshakeError::ClientNotAllowed(peer_not_allowed_error)
    }
}

impl FromSpecImpl<PeerNotAllowedError> for TlsServerHandshakeError {
    open spec fn obeys_from_spec() -> bool {
        true
    }

    open spec fn from_spec(peer_not_allowed_error: PeerNotAllowedError) -> Self {
        TlsServerHandshakeError::ClientNotAllowed(peer_not_allowed_error)
    }
}

/// Errors from a TLS handshake performed as the client.
#[derive(Clone, Debug, PartialEq, Eq)]
pub enum TlsClientHandshakeError {
    /// The registry could not be read.
    RegistryError(RegistryClientError),
    /// A certificate that should be in the registry is not.
    CertificateNotInRegistry { node_id: NodeId, registry_version: RegistryVersion },
    /// The node's own certificate is malformed.
    MalformedSelfCertificate { internal_error: String },
    /// The certificate that the registry holds for the server is malformed.
    MalformedServerCertificate(MalformedPeerCertificateError),
    /// The client could not be set up to connect.
    CreateConnectorError {
        description: String,
        client_cert_der: Option<Vec<u8>>,
        server_cert_der: Option<Vec<u8>>,
        internal_error: String,
    },
    /// The handshake failed.
    HandshakeError { internal_error: String },
    /// The server is not the node asked for, or offered another certificate
    /// than the registry holds for it.
    ServerNotAllowed(PeerNotAllowedError),
}

impl From<MalformedPeerCertificateError> for TlsClientHandshakeError {
    fn from(malformed_peer_cert_error: MalformedPeerCertificateError) -> (e: Self) {
        TlsClientHandshakeError::MalformedServerCertificate(malformed_peer_cert_error)
    }
}

impl FromSpecImpl<MalformedPeerCertificateError> for TlsClientHandshakeError {
    open spec fn obeys_from_spec() -> bool {
        true
    }

    open spec fn from_spec(malformed_peer_cert_error: MalformedPeerCertificateError) -> Self {
        TlsClientHandshakeError::MalformedServerCertificate(malformed_peer_cert_error)
    }
}

impl From<PeerNotAllowedError> for TlsClientHandshakeError {
    fn from(peer_not_allowed_error: PeerNotAllowedError) -> (e: Self) {
        TlsClientHandshakeError::ServerNotAllowed(peer_not_allowed_error)
    }
}

impl FromSpecImpl<PeerNotAllowedError> for TlsClientHandshakeError {
    open spec fn obeys_from_spec() -> bool {
        true
    }

    open spec fn from_spec(peer_not_allowed_error: PeerNotAllowedError) -> Self {
        TlsClientHandshakeError::ServerNotAllowed(peer_not_allowed_error)
    }
}

/// A list of node IDs, or "all nodes".
#[derive(Debug, PartialEq, Eq)]
pub enum SomeOrAllNodes {
    /// These nodes.
    Subset(BTreeSet<NodeId>),
    /// Every node.
    All,
}

impl View for SomeOrAllNodes {
    type V = Option<Set<NodeId>>;

    /// The set of the nodes, `None` for all nodes.
    open spec fn view(&self) -> Option<Set<NodeId>> {
        match self {
            SomeOrAllNodes::Subset(node_ids) => Some(node_ids@),
            SomeOrAllNodes::All => None,
        }
    }
}

impl Clone for SomeOrAllNodes {
    fn clone(&self) -> (copy: Self)
        ensures
            copy@ == self@,
    {
        match self {
            SomeOrAllNodes::Subset(node_ids) => SomeOrAllNodes::Subset(node_ids.clone()),
            SomeOrAllNodes::All => SomeOrAllNodes::All,
        }
    }
}

/// Why a set of allowed clients could not be created.
#[derive(Clone, Debug, PartialEq, Eq)]
pub enum AllowedClientsError {
    /// A certificate among the clients is malformed.
    MalformedCertProto { internal_error: String },
    /// Neither a node nor a certificate was given.
    ClientsEmpty,
}

/// Whether the nodes and certificates allow no client at all. "All nodes" is
/// never empty.
pub open spec fn allows_nobody(nodes: SomeOrAllNodes, certs: HashSet<TlsPublicKeyCert>) -> bool {
    nodes matches SomeOrAllNodes::Subset(node_ids) && node_ids@.is_empty() && certs@.is_empty()
}

/// A list of allowed TLS peers and their trusted certificates, which can be
/// `All` to allow any node to connect. It is never empty.
#[derive(Debug)]
pub struct AllowedClients {
    nodes: SomeOrAllNodes,
    certs: HashSet<TlsPublicKeyCert>,
}

impl Clone for AllowedClients {
    fn clone(&self) -> (copy: Self)
        ensures
            copy.spec_nodes()@ == self.spec_nodes()@,
            copy.spec_certs()@ == self.spec_certs()@,
    {
        Self { nodes: self.nodes.clone(), certs: clone_certs(&self.certs) }
    }
}

impl AllowedClients {
    pub closed spec fn spec_nodes(self) -> SomeOrAllNodes {
        self.nodes
    }

    pub closed spec fn spec_certs(self) -> HashSet<TlsPublicKeyCert> {
        self.certs
    }

    pub fn new(nodes: SomeOrAllNodes, certs: HashSet<TlsPublicKeyCert>) -> (outcome: Result<
        Self,
        AllowedClientsError,
    >)
        ensures
            outcome is Err <==> allows_nobody(nodes, certs),
            outcome matches Err(e) ==> e is ClientsEmpty,
            outcome matches Ok(allowed) ==> allowed.spec_nodes() == nodes && allowed.spec_certs()
                == certs,
    {
        let allowed_clients = Self { nodes, certs };
        match Self::ensure_clients_not_empty(&allowed_clients) {
            Ok(_) => Ok(allowed_clients),
            Err(e) => Err(e),
        }
    }

    /// Create an `AllowedClients` with a set of nodes, but no certificates.
    pub fn new_with_nodes(node_ids: BTreeSet<NodeId>) -> (outcome: Result<
        Self,
        AllowedClientsError,
    >)
        ensures
            outcome is Err <==> node_ids@.is_empty(),
            outcome matches Err(e) ==> e is ClientsEmpty,
            outcome matches Ok(allowed) ==> allowed.spec_nodes() == SomeOrAllNodes::Subset(node_ids)
                && allowed.spec_certs()@.is_empty(),
    {
        Self::new(SomeOrAllNodes::Subset(node_ids), HashSet::new())
    }

    /// Access the allowed nodes.
    pub fn nodes(&self) -> (nodes: &SomeOrAllNodes)
        ensures
            *nodes == self.spec_nodes(),
    {
        &self.nodes
    }

    /// Access the allowed certificates.
    pub fn certs(&self) -> (certs: &HashSet<TlsPublicKeyCert>)
        ensures
            *certs == self.spec_certs(),
    {
        &self.certs
    }

    fn ensure_clients_not_empty(candidate: &Self) -> (outcome: Result<(), AllowedClientsError>)
        ensures
            outcome is Err <==> allows_nobody(candidate.nodes, candidate.certs),
            outcome matches Err(e) ==> e is ClientsEmpty,
    {
        match &candidate.nodes {
            SomeOrAllNodes::Subset(node_ids) => {
                if node_ids.is_empty() && candidate.certs.is_empty() {
                    return Err(AllowedClientsError::ClientsEmpty);
                }
            },
            SomeOrAllNodes::All => {  /* All is considered non-empty */
            },
        }
        Ok(())
    }
}

/// An authenticated node ID, or an authenticated certificate.
#[derive(Clone, Debug, PartialEq)]
pub enum AuthenticatedPeer {
    /// Authenticated node ID.
    Node(NodeId),
    /// Authenticated X.509 certificate.
    Cert(TlsPublicKeyCert),
}

/// A TLS peer, with identification information if authenticated.
#[derive(Clone, Debug, PartialEq)]
pub enum Peer {
    /// Peer hasn't been authenticated.
    Unauthenticated,
    /// Peer has been authenticated.
    Authenticated(AuthenticatedPeer),
}

} // verus!
