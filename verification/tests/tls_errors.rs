use canister_sandbox::tls::{
    AllowedClients, AllowedClientsError, AuthenticatedPeer, MalformedPeerCertificateError, NodeId,
    Peer, PeerNotAllowedError, RegistryVersion, SomeOrAllNodes, TlsClientHandshakeError,
    TlsPublicKeyCert, TlsPublicKeyCertCreationError, TlsServerHandshakeError,
};
use openssl::asn1::Asn1Time;
use openssl::hash::MessageDigest;
use openssl::pkey::PKey;
use openssl::x509::{X509NameBuilder, X509};
use std::collections::{BTreeSet, HashSet};
use std::hash::{Hash, Hasher};

/// A hasher that keeps what it is fed.
struct Recorder(Vec<u8>);

impl Hasher for Recorder {
    fn write(&mut self, bytes: &[u8]) {
        self.0.extend_from_slice(bytes);
    }

    fn finish(&self) -> u64 {
        self.0.len() as u64
    }
}

fn certificate(common_name: &str) -> X509 {
    let key = PKey::generate_ed25519().unwrap();
    let mut name = X509NameBuilder::new().unwrap();
    name.append_entry_by_text("CN", common_name).unwrap();
    let name = name.build();
    let mut builder = X509::builder().unwrap();
    builder.set_version(2).unwrap();
    builder.set_subject_name(&name).unwrap();
    builder.set_issuer_name(&name).unwrap();
    builder.set_pubkey(&key).unwrap();
    builder.set_not_before(&Asn1Time::days_from_now(0).unwrap()).unwrap();
    builder.set_not_after(&Asn1Time::days_from_now(30).unwrap()).unwrap();
    builder.sign(&key, MessageDigest::null()).unwrap();
    builder.build()
}

fn node(id: u8) -> NodeId {
    NodeId(vec![id, 0xfd])
}

#[test]
fn malformed_peer_certificate_error_keeps_text() {
    let e = MalformedPeerCertificateError::new("bad cert");
    assert_eq!(e.internal_error, "bad cert".to_string());
    assert_eq!(e, MalformedPeerCertificateError { internal_error: "bad cert".to_string() });
}

#[test]
fn certificate_from_der_keeps_encoding_and_digest() {
    let x509 = certificate("node-1");
    let der = x509.to_der().unwrap();
    let cert = TlsPublicKeyCert::new_from_der(der.clone()).unwrap();
    assert_eq!(cert.as_der(), &der);
    assert_eq!(cert.as_x509().to_der().unwrap(), der);
    assert_eq!(cert.to_proto().certificate_der, der);
    let same = TlsPublicKeyCert::new_from_x509(x509.clone()).unwrap();
    assert_eq!(same.as_der(), &der);
    assert!(cert == same);
    assert!(cert == cert.clone());
    let other = TlsPublicKeyCert::new_from_x509(certificate("node-2")).unwrap();
    assert!(cert != other);
    assert_ne!(other.as_der(), &der);
}

#[test]
fn bytes_that_are_no_certificate_are_refused() {
    for der in [vec![], vec![0x30], vec![1, 2, 3, 4, 5, 6, 7, 8]] {
        let error: TlsPublicKeyCertCreationError =
            TlsPublicKeyCert::new_from_der(der).unwrap_err();
        assert!(
            error.internal_error.starts_with("Error parsing DER: "),
            "{}",
            error.internal_error
        );
        assert!(error.internal_error.len() > "Error parsing DER: ".len());
    }
}

#[test]
fn equal_certificates_are_one_member_of_a_set() {
    let x509 = certificate("node-1");
    let mut certs = HashSet::new();
    certs.insert(TlsPublicKeyCert::new_from_x509(x509.clone()).unwrap());
    certs.insert(TlsPublicKeyCert::new_from_der(x509.to_der().unwrap()).unwrap());
    assert_eq!(certs.len(), 1);
    certs.insert(TlsPublicKeyCert::new_from_x509(certificate("node-2")).unwrap());
    assert_eq!(certs.len(), 2);
}

#[test]
fn allowed_clients_are_never_empty() {
    assert_eq!(
        AllowedClients::new(SomeOrAllNodes::Subset(BTreeSet::new()), HashSet::new()).unwrap_err(),
        AllowedClientsError::ClientsEmpty
    );
    assert_eq!(
        AllowedClients::new_with_nodes(BTreeSet::new()).unwrap_err(),
        AllowedClientsError::ClientsEmpty
    );

    let everybody = AllowedClients::new(SomeOrAllNodes::All, HashSet::new()).unwrap();
    assert_eq!(everybody.nodes(), &SomeOrAllNodes::All);
    assert!(everybody.certs().is_empty());

    let mut node_ids = BTreeSet::new();
    node_ids.insert(node(1));
    node_ids.insert(node(2));
    node_ids.insert(node(1));
    let some = AllowedClients::new_with_nodes(node_ids.clone()).unwrap();
    assert_eq!(some.nodes(), &SomeOrAllNodes::Subset(node_ids));
    assert!(some.certs().is_empty());

    let mut certs = HashSet::new();
    certs.insert(TlsPublicKeyCert::new_from_x509(certificate("client")).unwrap());
    let by_cert =
        AllowedClients::new(SomeOrAllNodes::Subset(BTreeSet::new()), certs.clone()).unwrap();
    assert_eq!(by_cert.certs(), &certs);
    let copy = by_cert.clone();
    assert_eq!(copy.certs(), &certs);
    assert_eq!(copy.nodes(), by_cert.nodes());
}

#[test]
fn handshake_errors_wrap_their_causes() {
    let malformed = MalformedPeerCertificateError::new("no CN");
    assert_eq!(
        TlsServerHandshakeError::from(malformed.clone()),
        TlsServerHandshakeError::MalformedClientCertificate(malformed.clone())
    );
    assert_eq!(
        TlsClientHandshakeError::from(malformed.clone()),
        TlsClientHandshakeError::MalformedServerCertificate(malformed)
    );
    assert_eq!(
        TlsServerHandshakeError::from(PeerNotAllowedError::CertificatesDiffer),
        TlsServerHandshakeError::ClientNotAllowed(PeerNotAllowedError::CertificatesDiffer)
    );
    assert_eq!(
        TlsClientHandshakeError::from(PeerNotAllowedError::HandshakeCertificateNodeIdNotAllowed),
        TlsClientHandshakeError::ServerNotAllowed(
            PeerNotAllowedError::HandshakeCertificateNodeIdNotAllowed
        )
    );
    let missing = TlsServerHandshakeError::CertificateNotInRegistry {
        node_id: node(3),
        registry_version: RegistryVersion(7),
    };
    assert_ne!(missing, TlsServerHandshakeError::UnauthenticatedClient);
}

#[test]
fn peers_compare_by_identity() {
    let cert = TlsPublicKeyCert::new_from_x509(certificate("peer")).unwrap();
    assert_eq!(
        Peer::Authenticated(AuthenticatedPeer::Cert(cert.clone())),
        Peer::Authenticated(AuthenticatedPeer::Cert(cert))
    );
    assert_ne!(Peer::Authenticated(AuthenticatedPeer::Node(node(1))), Peer::Unauthenticated);
    assert_ne!(
        Peer::Authenticated(AuthenticatedPeer::Node(node(1))),
        Peer::Authenticated(AuthenticatedPeer::Node(node(2)))
    );
}

#[test]
fn certificate_hashes_its_sha256_digest() {
    let x509 = certificate("node-1");
    let der = x509.to_der().unwrap();
    let cert = TlsPublicKeyCert::new_from_der(der.clone()).unwrap();
    let mut recorder = Recorder(Vec::new());
    cert.hash(&mut recorder);
    let fed = recorder.0;
    // the length of the digest, then its 32 bytes
    let prefix = std::mem::size_of::<usize>();
    assert_eq!(fed.len(), prefix + 32);
    assert_eq!(fed[..prefix], 32usize.to_ne_bytes());
    assert_eq!(fed[prefix..], openssl::sha::sha256(&der));
    assert_ne!(fed[prefix..], der[..32]);

    let mut again = Recorder(Vec::new());
    TlsPublicKeyCert::new_from_x509(x509).unwrap().hash(&mut again);
    assert_eq!(again.0, fed);
}
