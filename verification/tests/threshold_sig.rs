use canister_sandbox::threshold_sig::{
    signing_key, AlgorithmId, CryptoError, CspThresholdSignError,
    CspThresholdSignatureKeygenError, KeyId,
};

#[test]
fn only_threshold_bls_is_served() {
    let key_id = KeyId([7; 32]);
    assert_eq!(signing_key(AlgorithmId::ThresBls12_381, key_id, Some(vec![1u8, 2])), Ok(vec![1, 2]));
    assert_eq!(
        signing_key::<Vec<u8>>(AlgorithmId::ThresBls12_381, key_id, None),
        Err(CspThresholdSignError::SecretKeyNotFound {
            algorithm: AlgorithmId::ThresBls12_381,
            key_id
        })
    );
    for algorithm in [AlgorithmId::MultiBls12_381, AlgorithmId::Ed25519, AlgorithmId::Placeholder] {
        assert_eq!(
            signing_key(algorithm, key_id, Some(vec![1u8])),
            Err(CspThresholdSignError::UnsupportedAlgorithm { algorithm })
        );
        assert_eq!(
            signing_key::<Vec<u8>>(algorithm, key_id, None),
            Err(CspThresholdSignError::UnsupportedAlgorithm { algorithm })
        );
    }
}

#[test]
fn keygen_error_from_crypto_error() {
    assert_eq!(
        CspThresholdSignatureKeygenError::from(CryptoError::AlgorithmNotSupported {
            algorithm: AlgorithmId::Tls,
            reason: "no".to_string()
        }),
        CspThresholdSignatureKeygenError::UnsupportedAlgorithm { algorithm: AlgorithmId::Tls }
    );
    assert_eq!(
        CspThresholdSignatureKeygenError::from(CryptoError::InvalidArgument {
            message: "threshold too high".to_string()
        }),
        CspThresholdSignatureKeygenError::InvalidArgument {
            message: "threshold too high".to_string()
        }
    );
    assert_eq!(
        CspThresholdSignatureKeygenError::from(CryptoError::Other {
            description: "key store is locked".to_string()
        }),
        CspThresholdSignatureKeygenError::InvalidArgument {
            message: "key store is locked".to_string()
        }
    );
}
