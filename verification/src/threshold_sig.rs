//! The decisions around threshold signing: which algorithm is served and which
//! key signs. The signing itself is done by whoever holds the keys.

use vstd::prelude::*;
use vstd::std_specs::convert::FromSpecImpl;

verus! {

/// The algorithms by which keys and signatures are known.
#[allow(non_camel_case_types)]
#[derive(Clone, Copy, Debug, PartialEq, Eq, Hash, Structural)]
pub enum AlgorithmId {
    Placeholder,
    MultiBls12_381,
    ThresBls12_381,
    SchnorrSecp256k1,
    StaticDhSecp256k1,
    HashSha256,
    Tls,
    Ed25519,
    Secp256k1,
    Groth20_Bls12_381,
    NiDkg_Groth20_Bls12_381,
    EcdsaP256,
    EcdsaSecp256k1,
    IcCanisterSignature,
    RsaSha256,
}

/// The name under which a secret key is kept.
#[derive(Clone, Copy, Debug, PartialEq, Eq, Hash)]
pub struct KeyId(pub [u8; 32]);

/// Why a threshold signature could not be made.
#[derive(Clone, Debug, PartialEq, Eq)]
pub enum CspThresholdSignError {
    /// No key is kept under the name.
    SecretKeyNotFound { algorithm: AlgorithmId, key_id: KeyId },
    /// The algorithm is not served.
    UnsupportedAlgorithm { algorithm: AlgorithmId },
    /// The key kept under the name is of another kind.
    WrongSecretKeyType {  },
    /// The key kept under the name cannot be read.
    MalformedSecretKey { algorithm: AlgorithmId },
    /// The signing library failed.
    InternalError { internal_error: String },
}

/// Whether threshold signatures are made with the algorithm.
pub open spec fn is_served(algorithm_id: AlgorithmId) -> bool {
    algorithm_id is ThresBls12_381
}

/// The key that signs: the one found under `key_id`, for an algorithm that is
/// served. Where the algorithm is not served no key is looked at.
pub fn signing_key<K>(algorithm_id: AlgorithmId, key_id: KeyId, found: Option<K>) -> (outcome: Result<
    K,
    CspThresholdSignError,
>)
    ensures
        outcome == if !is_served(algorithm_id) {
            Err::<K, CspThresholdSignError>(
                CspThresholdSignError::UnsupportedAlgorithm { algorithm: algorithm_id },
            )
        } else {
            match found {
                Some(key) => Ok(key),
                None => Err(
                    CspThresholdSignError::SecretKeyNotFound {
                        algorithm: AlgorithmId::ThresBls12_381,
                        key_id,
                    },
                ),
            }
        },
{
    match algorithm_id {
        AlgorithmId::ThresBls12_381 => match found {
            Some(key) => Ok(key),
            None => Err(
                CspThresholdSignError::SecretKeyNotFound {
                    algorithm: AlgorithmId::ThresBls12_381,
                    key_id,
                },
            ),
        },
        _ => Err(CspThresholdSignError::UnsupportedAlgorithm { algorithm: algorithm_id }),
    }
}

/// A failure of the crypto component, as far as key generation tells its
/// kinds apart.
#[derive(Clone, Debug, PartialEq, Eq)]
pub enum CryptoError {
    /// The algorithm is not served.
    AlgorithmNotSupported { algorithm: AlgorithmId, reason: String },
    /// An argument is out of its range.
    InvalidArgument { message: String },
    /// Any other failure, as it describes itself.
    Other { description: String },
}

/// Why threshold keys could not be generated.
#[derive(Clone, Debug, PartialEq, Eq)]
pub enum CspThresholdSignatureKeygenError {
    UnsupportedAlgorithm { algorithm: AlgorithmId },
    InvalidArgument { message: String },
}

impl From<CryptoError> for CspThresholdSignatureKeygenError {
    fn from(crypto_error: CryptoError) -> (e: Self) {
        match crypto_error {
            CryptoError::AlgorithmNotSupported { algorithm, .. } => {
                CspThresholdSignatureKeygenError::UnsupportedAlgorithm { algorithm }
            },
            CryptoError::InvalidArgument { message } => {
                CspThresholdSignatureKeygenError::InvalidArgument { message }
            },
            CryptoError::Other { description } => CspThresholdSignatureKeygenError::InvalidArgument {
                message: description,
            },
        }
    }
}

impl FromSpecImpl<CryptoError> for CspThresholdSignatureKeygenError {
    open spec fn obeys_from_spec() -> bool {
        true
    }

    open spec fn from_spec(crypto_error: CryptoError) -> Self {
        match crypto_error {
            CryptoError::AlgorithmNotSupported { algorithm, .. } => {
                CspThresholdSignatureKeygenError::UnsupportedAlgorithm { algorithm }
            },
            CryptoError::InvalidArgument { message } => {
                CspThresholdSignatureKeygenError::InvalidArgument { message }
            },
            CryptoError::Other { description } => CspThresholdSignatureKeygenError::InvalidArgument {
                message: description,
            },
        }
    }
}

} // verus!
