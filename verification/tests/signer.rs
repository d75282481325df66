use kora_signer::backends::{PrivySigner, SolanaMemorySigner, TurnkeySigner, VaultSigner};
use kora_signer::error::KoraError;
use kora_signer::signer::{KoraSigner, NativeSignature, Signature, Signer};
use kora_signer::solana::{SolanaPubkey, SolanaSignature};

fn memory_signer() -> KoraSigner {
    KoraSigner::Memory(SolanaMemorySigner::new(SolanaPubkey::new([1u8; 32])))
}

fn privy_signer() -> KoraSigner {
    KoraSigner::Privy(PrivySigner::new(SolanaPubkey::new([2u8; 32])))
}

fn turnkey_signer() -> KoraSigner {
    KoraSigner::Turnkey(TurnkeySigner::new(SolanaPubkey::new([3u8; 32])))
}

fn vault_signer() -> KoraSigner {
    KoraSigner::Vault(VaultSigner::new(SolanaPubkey::new([4u8; 32])))
}

#[test]
fn sign_memory_passes_carrier_through() {
    let s = memory_signer();
    let carrier = Signature { bytes: vec![10, 20, 30], is_partial: false };
    let r = s.sign(Ok(NativeSignature::Carrier(carrier))).unwrap();
    assert_eq!(r.bytes, vec![10, 20, 30]);
    assert!(!r.is_partial);
}

#[test]
fn sign_memory_preserves_partial_flag() {
    let s = memory_signer();
    let carrier = Signature { bytes: vec![1, 2], is_partial: true };
    let r = s.sign(Ok(NativeSignature::Carrier(carrier))).unwrap();
    assert_eq!(r.bytes, vec![1, 2]);
    assert!(r.is_partial);
}

#[test]
fn sign_vault_passes_carrier_through() {
    let s = vault_signer();
    let carrier = Signature { bytes: vec![9; 64], is_partial: false };
    let r = s.sign(Ok(NativeSignature::Carrier(carrier))).unwrap();
    assert_eq!(r.bytes, vec![9; 64]);
    assert!(!r.is_partial);
}

#[test]
fn sign_privy_wraps_chain_signature_as_complete() {
    let s = privy_signer();
    let chain = SolanaSignature::new([5u8; 64]);
    let r = s.sign(Ok(NativeSignature::Chain(chain))).unwrap();
    assert_eq!(r.bytes, vec![5u8; 64]);
    assert!(!r.is_partial);
}

#[test]
fn sign_turnkey_wraps_raw_bytes_as_complete() {
    let s = turnkey_signer();
    let r = s.sign(Ok(NativeSignature::Raw(vec![7, 8, 9]))).unwrap();
    assert_eq!(r.bytes, vec![7, 8, 9]);
    assert!(!r.is_partial);
}

#[test]
fn sign_rejects_unexpected_reply_shape() {
    let r = memory_signer().sign(Ok(NativeSignature::Raw(vec![1])));
    assert!(matches!(r, Err(KoraError::UnexpectedResponse)));

    let carrier = Signature { bytes: vec![1], is_partial: false };
    let r = privy_signer().sign(Ok(NativeSignature::Carrier(carrier)));
    assert!(matches!(r, Err(KoraError::UnexpectedResponse)));

    let chain = SolanaSignature::new([0u8; 64]);
    let r = turnkey_signer().sign(Ok(NativeSignature::Chain(chain)));
    assert!(matches!(r, Err(KoraError::UnexpectedResponse)));
}

#[test]
fn sign_wraps_backend_failure_losslessly() {
    let s = turnkey_signer();
    let r = s.sign(Err(String::from("connection reset by peer")));
    let e = r.unwrap_err();
    match &e {
        KoraError::SigningError(m) => assert_eq!(m, "connection reset by peer"),
        other => panic!("expected SigningError, got {:?}", other),
    }
    assert_eq!(
        e.backend_message().map(String::as_str),
        Some("connection reset by peer")
    );
}

#[test]
fn backend_message_is_none_without_wrapped_failure() {
    assert!(KoraError::UnexpectedResponse.backend_message().is_none());
    assert!(KoraError::PartialSignature.backend_message().is_none());
    let e = KoraError::InvalidSignatureLength { expected: 64, actual: 3 };
    assert!(e.backend_message().is_none());
}

#[test]
fn sign_solana_returns_chain_signature_unchanged() {
    let chain = SolanaSignature::new([11u8; 64]);
    for s in [memory_signer(), privy_signer(), turnkey_signer(), vault_signer()] {
        let r = s.sign_solana(Ok(NativeSignature::Chain(chain))).unwrap();
        assert_eq!(r, chain);
    }
}

#[test]
fn sign_solana_reinterprets_raw_bytes_of_exact_size() {
    let s = turnkey_signer();
    let mut bytes = vec![0u8; 64];
    bytes[0] = 42;
    bytes[63] = 43;
    let r = s.sign_solana(Ok(NativeSignature::Raw(bytes.clone()))).unwrap();
    assert_eq!(r.bytes.to_vec(), bytes);
}

#[test]
fn sign_solana_reinterprets_complete_carrier_of_exact_size() {
    let s = vault_signer();
    let carrier = Signature { bytes: vec![6u8; 64], is_partial: false };
    let r = s.sign_solana(Ok(NativeSignature::Carrier(carrier))).unwrap();
    assert_eq!(r.bytes, [6u8; 64]);
}

#[test]
fn sign_solana_fails_on_wrong_length_instead_of_truncating() {
    let s = turnkey_signer();
    let r = s.sign_solana(Ok(NativeSignature::Raw(vec![1u8; 10])));
    assert!(matches!(
        r,
        Err(KoraError::InvalidSignatureLength { expected: 64, actual: 10 })
    ));

    let r = s.sign_solana(Ok(NativeSignature::Raw(vec![1u8; 65])));
    assert!(matches!(
        r,
        Err(KoraError::InvalidSignatureLength { expected: 64, actual: 65 })
    ));

    let carrier = Signature { bytes: vec![1u8; 63], is_partial: false };
    let r = vault_signer().sign_solana(Ok(NativeSignature::Carrier(carrier)));
    assert!(matches!(
        r,
        Err(KoraError::InvalidSignatureLength { expected: 64, actual: 63 })
    ));
}

#[test]
fn sign_solana_refuses_partial_signature() {
    let carrier = Signature { bytes: vec![1u8; 64], is_partial: true };
    let r = memory_signer().sign_solana(Ok(NativeSignature::Carrier(carrier)));
    assert!(matches!(r, Err(KoraError::PartialSignature)));
}

#[test]
fn sign_solana_wraps_backend_failure_losslessly() {
    let r = privy_signer().sign_solana(Err(String::from("401 unauthorized")));
    match r.unwrap_err() {
        KoraError::SigningError(m) => assert_eq!(m, "401 unauthorized"),
        other => panic!("expected SigningError, got {:?}", other),
    }
}

#[test]
fn sign_and_sign_solana_agree_on_one_native_reply() {
    let s = privy_signer();
    let chain = SolanaSignature::new([77u8; 64]);
    let generic = s.sign(Ok(NativeSignature::Chain(chain))).unwrap();
    let native = s.sign_solana(Ok(NativeSignature::Chain(chain))).unwrap();
    assert_eq!(generic.bytes, native.bytes.to_vec());
}

#[test]
fn independent_replies_give_independent_results() {
    let s = memory_signer();
    let payloads: Vec<Vec<u8>> = (0u8..4).map(|k| vec![k; 8]).collect();
    let results: Vec<Signature> = payloads
        .iter()
        .map(|p| {
            let carrier = Signature { bytes: p.clone(), is_partial: false };
            s.sign(Ok(NativeSignature::Carrier(carrier))).unwrap()
        })
        .collect();
    for (p, r) in payloads.iter().zip(results.iter()) {
        assert_eq!(&r.bytes, p);
        assert!(!r.is_partial);
    }
}

#[test]
fn identity_is_stable_across_calls() {
    let signers = [memory_signer(), privy_signer(), turnkey_signer(), vault_signer()];
    for s in &signers {
        let first = s.solana_pubkey();
        let _ = s.sign(Ok(NativeSignature::Raw(vec![1, 2, 3])));
        let _ = s.sign_solana(Err(String::from("transient outage")));
        let second = s.solana_pubkey();
        assert_eq!(first, second);
    }
    assert_eq!(signers[0].solana_pubkey(), SolanaPubkey::new([1u8; 32]));
    assert_eq!(signers[1].solana_pubkey(), SolanaPubkey::new([2u8; 32]));
    assert_eq!(signers[2].solana_pubkey(), SolanaPubkey::new([3u8; 32]));
    assert_eq!(signers[3].solana_pubkey(), SolanaPubkey::new([4u8; 32]));
}
