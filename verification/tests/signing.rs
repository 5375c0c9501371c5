use chain_config::error::Error;
use chain_config::registry::ConfigId;
use chain_config::resolver::resolve_signer;
use chain_config::signer::verify_ecdsa;
use chain_config::signer::verify_sr25519;
use chain_config::signer::Address;
use chain_config::signer::Signature;
use chain_config::signer::Signer;
use chain_config::signer::SignerEcdsa;
use chain_config::signer::SignerSR25519;
use sp_core::Pair as SpPair;

fn hex_to_bytes(s: &str) -> Vec<u8> {
    (0..s.len())
        .step_by(2)
        .map(|i| u8::from_str_radix(&s[i..i + 2], 16).unwrap())
        .collect()
}

/// The well-known public key of the `//Alice` development account, SR25519.
const ALICE_SR25519_PUBLIC_HEX: &str =
    "d43593c715fdd31c61141abd04a99fd6822c8558854ccde39a5684e7a56da27d";

#[test]
fn sr25519_from_str_accepts_a_valid_seed_uri() {
    let signer = SignerSR25519::from_str("//Alice").unwrap();
    let account = signer.account_id();
    assert_eq!(account.bytes.to_vec(), hex_to_bytes(ALICE_SR25519_PUBLIC_HEX));
}

#[test]
fn sr25519_account_id_matches_the_underlying_derivation() {
    let signer = SignerSR25519::from_str("//Alice").unwrap();
    let pair = <sp_core::sr25519::Pair as SpPair>::from_string("//Alice", None).unwrap();
    assert_eq!(signer.account_id().bytes, pair.public().0);
    assert_eq!(signer.public_key_bytes(), pair.public().0.to_vec());
}

#[test]
fn sr25519_from_str_rejects_an_invalid_seed_uri() {
    let Err(err) = SignerSR25519::from_str("not a valid phrase at all") else {
        panic!("construction must fail");
    };
    assert!(matches!(err, Error::InvalidSecret(_)));
    let Err(err) = SignerSR25519::from_str("0xzz") else {
        panic!("construction must fail");
    };
    assert!(matches!(err, Error::InvalidSecret(_)));
}

#[test]
fn sr25519_construction_is_stable_across_repeats() {
    let a = SignerSR25519::from_str("//Alice").unwrap();
    let b = SignerSR25519::from_str("//Alice").unwrap();
    assert_eq!(a.account_id(), b.account_id());
    assert_eq!(a.address(), b.address());
    assert_eq!(a.public_key_bytes(), b.public_key_bytes());
}

#[test]
fn sr25519_address_is_the_account_id_and_is_idempotent() {
    let signer = SignerSR25519::from_str("//Alice").unwrap();
    let Address::Id(account) = signer.address();
    assert_eq!(account, signer.account_id());
    assert_eq!(signer.address(), signer.address());
}

#[test]
fn sr25519_signature_verifies_under_own_public_key() {
    let signer = SignerSR25519::from_str("//Alice").unwrap();
    let payload = b"an arbitrary payload";
    let Signature::Sr25519(sig) = signer.sign(payload) else {
        panic!("wrong signature scheme");
    };
    assert_eq!(sig.len(), 64);
    let public = signer.public_key_bytes();
    assert!(verify_sr25519(&sig, payload, &public));

    let mut tampered = sig.clone();
    tampered[0] ^= 0x01;
    assert!(!verify_sr25519(&tampered, payload, &public));
    assert!(!verify_sr25519(&sig, b"another payload", &public));
}

/// The ECDSA account id is the blake2b-256 digest of the compressed public
/// key, not the public key itself.
#[test]
fn ecdsa_account_id_is_the_digest_of_the_public_key() {
    let signer = SignerEcdsa::from_str("//Alice").unwrap();
    let pair = <sp_core::ecdsa::Pair as SpPair>::from_string("//Alice", None).unwrap();
    let public = pair.public().0;
    assert_eq!(signer.public_key_bytes(), public.to_vec());
    let digest = <sp_core::Blake2Hasher as sp_core::Hasher>::hash(&public).0;
    assert_eq!(signer.account_id().bytes, digest);
    assert_ne!(signer.account_id().bytes.to_vec(), public[..32].to_vec());
}

#[test]
fn ecdsa_from_str_rejects_an_invalid_seed_uri() {
    let Err(err) = SignerEcdsa::from_str("not a valid phrase at all") else {
        panic!("construction must fail");
    };
    assert!(matches!(err, Error::InvalidSecret(_)));
}

#[test]
fn ecdsa_construction_is_stable_across_repeats() {
    let a = SignerEcdsa::from_str("//Alice").unwrap();
    let b = SignerEcdsa::from_str("//Alice").unwrap();
    assert_eq!(a.account_id(), b.account_id());
    assert_eq!(a.address(), b.address());
    assert_eq!(a.public_key_bytes(), b.public_key_bytes());
}

#[test]
fn ecdsa_address_is_the_account_id_and_is_idempotent() {
    let signer = SignerEcdsa::from_str("//Alice").unwrap();
    let Address::Id(account) = signer.address();
    assert_eq!(account, signer.account_id());
    assert_eq!(signer.address(), signer.address());
}

#[test]
fn ecdsa_signature_verifies_under_own_public_key() {
    let signer = SignerEcdsa::from_str("//Alice").unwrap();
    let payload = b"an arbitrary payload";
    let Signature::Ecdsa(sig) = signer.sign(payload) else {
        panic!("wrong signature scheme");
    };
    assert_eq!(sig.len(), 65);
    let public = signer.public_key_bytes();
    assert!(verify_ecdsa(&sig, payload, &public));

    let mut tampered = sig.clone();
    tampered[1] ^= 0x01;
    assert!(!verify_ecdsa(&tampered, payload, &public));
    assert!(!verify_ecdsa(&sig, b"another payload", &public));
}

#[test]
fn scenario_polkadot_identity_builds_an_sr25519_signer() {
    let Ok((id, signer)) = resolve_signer("Polkadot", "//Alice") else {
        panic!("dispatch must succeed");
    };
    assert_eq!(id, ConfigId::Polkadot);
    assert!(matches!(signer, Signer::Sr25519(_)));
    assert_eq!(
        signer.account_id().bytes.to_vec(),
        hex_to_bytes(ALICE_SR25519_PUBLIC_HEX)
    );
}

#[test]
fn scenario_ecdsachain_identity_builds_a_verifying_ecdsa_signer() {
    let Ok((id, signer)) = resolve_signer("Ecdsachain", "//Alice") else {
        panic!("dispatch must succeed");
    };
    assert_eq!(id, ConfigId::Ecdsachain);
    let Signer::Ecdsa(ecdsa_signer) = &signer else {
        panic!("wrong signer scheme");
    };
    let payload = b"extrinsic bytes";
    let Signature::Ecdsa(sig) = signer.sign(payload) else {
        panic!("wrong signature scheme");
    };
    assert!(verify_ecdsa(&sig, payload, &ecdsa_signer.public_key_bytes()));
}

#[test]
fn uniform_signer_contract_holds_across_schemes() {
    for identity in ["Polkadot", "Ecdsachain"] {
        let Ok((_, signer)) = resolve_signer(identity, "//Alice") else {
            panic!("dispatch must succeed");
        };
        let Address::Id(account) = signer.address();
        assert_eq!(account, signer.account_id());
        let payload = b"payload";
        match signer.sign(payload) {
            Signature::Sr25519(sig) => assert_eq!(sig.len(), 64),
            Signature::Ecdsa(sig) => assert_eq!(sig.len(), 65),
        }
    }
}

/// A 32-byte hex seed is rejected by ECDSA key derivation when its value is
/// not a valid secp256k1 secret (zero, or at least the curve order); the
/// failure must surface as `InvalidSecret`, never abort.
#[test]
fn ecdsa_from_str_rejects_out_of_range_hex_seeds() {
    let zero = "0x0000000000000000000000000000000000000000000000000000000000000000";
    let Err(err) = SignerEcdsa::from_str(zero) else {
        panic!("construction must fail");
    };
    assert!(matches!(err, Error::InvalidSecret(_)));
    let Err(sp_err) = <sp_core::ecdsa::Pair as SpPair>::from_seed_slice(&[0u8; 32]) else {
        panic!("the zero seed must be rejected");
    };
    assert_eq!(err.message(), &format!("{}", sp_err));

    let all_ff = "0xffffffffffffffffffffffffffffffffffffffffffffffffffffffffffffffff";
    assert!(matches!(
        SignerEcdsa::from_str(all_ff),
        Err(Error::InvalidSecret(_))
    ));
    let zero_with_junction =
        "0x0000000000000000000000000000000000000000000000000000000000000000//Alice";
    assert!(matches!(
        SignerEcdsa::from_str(zero_with_junction),
        Err(Error::InvalidSecret(_))
    ));
}

/// Any 32 bytes are a valid SR25519 secret, so the all-zero hex seed is a
/// valid seed-URI for that scheme.
#[test]
fn sr25519_accepts_the_zero_hex_seed() {
    let zero = "0x0000000000000000000000000000000000000000000000000000000000000000";
    assert!(SignerSR25519::from_str(zero).is_ok());
}

#[test]
fn ecdsa_signing_is_deterministic() {
    let signer = SignerEcdsa::from_str("//Alice").unwrap();
    let payload = b"an arbitrary payload";
    assert_eq!(signer.sign(payload), signer.sign(payload));
    let again = SignerEcdsa::from_str("//Alice").unwrap();
    assert_eq!(signer.sign(payload), again.sign(payload));
}

/// The `InvalidSecret` message is the underlying derivation failure,
/// verbatim.
#[test]
fn invalid_secret_messages_are_surfaced_verbatim() {
    let Err(err) = SignerSR25519::from_str("not a valid phrase at all") else {
        panic!("construction must fail");
    };
    let Err(sp_err) = <sp_core::sr25519::Pair as SpPair>::from_string("not a valid phrase at all", None)
    else {
        panic!("the phrase must be rejected");
    };
    assert_eq!(err.message(), &format!("{}", sp_err));

    let Err(err) = SignerEcdsa::from_str("not a valid phrase at all") else {
        panic!("construction must fail");
    };
    let Err(sp_err) = <sp_core::ecdsa::Pair as SpPair>::from_string("not a valid phrase at all", None)
    else {
        panic!("the phrase must be rejected");
    };
    assert_eq!(err.message(), &format!("{}", sp_err));
}
