use offchain::canister::{do_canister_auth, AdminSession, Canisters, UserSession};
use offchain::crypto::{
    principal_text, public_key_der, random_secret_key, secret_from_jwk, secret_to_jwk,
    sign_message, verify_signature,
};
use offchain::delegation::{
    delegation_message_bytes, effective_expiry, extract_identity, verify_chain, Delegation,
    DelegatedIdentity, DelegatedIdentityWire, DelegationError, SignedDelegation,
    DELEGATION_MAX_AGE_NS, SHORT_LIVED_MAX_AGE_NS,
};
use offchain::ledger::{Customer, PaymentProof};
use offchain::service::IcAgentTransactionRepository;

fn root() -> DelegatedIdentity {
    DelegatedIdentity::from_secret(random_secret_key()).unwrap()
}

/// A chain of three links from `root_secret`, with the given expirations.
fn chain_of(root_secret: &Vec<u8>, expirations: [u64; 3]) -> (Vec<u8>, Vec<SignedDelegation>) {
    let root_key = public_key_der(root_secret).unwrap();
    let mut signer = root_secret.clone();
    let mut chain = Vec::new();
    for e in expirations {
        let next = random_secret_key();
        let delegation = Delegation { pubkey: public_key_der(&next).unwrap(), expiration: e, targets: None };
        let signature = sign_message(&signer, &delegation_message_bytes(&delegation)).unwrap();
        chain.push(SignedDelegation { delegation, signature });
        signer = next;
    }
    (root_key, chain)
}

#[test]
fn signatures_verify_under_their_key_only() {
    let k = random_secret_key();
    assert_eq!(k.len(), 32);
    let pk = public_key_der(&k).unwrap();
    let sig = sign_message(&k, &b"hello".to_vec()).unwrap();
    assert_eq!(sig, sign_message(&k, &b"hello".to_vec()).unwrap());
    assert!(verify_signature(&pk, &b"hello".to_vec(), &sig));
    assert!(!verify_signature(&pk, &b"hellp".to_vec(), &sig));
    let other = public_key_der(&random_secret_key()).unwrap();
    assert!(!verify_signature(&other, &b"hello".to_vec(), &sig));
    assert!(!verify_signature(&b"not a key".to_vec(), &b"hello".to_vec(), &sig));
    assert!(public_key_der(&vec![0u8; 32]).is_none());
    assert!(sign_message(&vec![0u8; 32], &vec![]).is_none());
}

#[test]
fn jwk_round_trip() {
    let k = random_secret_key();
    let jwk = secret_to_jwk(&k).unwrap();
    assert!(jwk.contains("secp256k1"));
    assert_eq!(secret_from_jwk(&jwk).unwrap(), k);
    assert!(secret_from_jwk("{}").is_none());
    assert!(secret_from_jwk("").is_none());
}

#[test]
fn principal_is_self_authenticating() {
    let pk = public_key_der(&random_secret_key()).unwrap();
    let expected = candid::Principal::self_authenticating(&pk).to_text();
    assert_eq!(principal_text(&pk), expected);
    assert_ne!(principal_text(&pk), principal_text(&public_key_der(&random_secret_key()).unwrap()));
}

#[test]
fn valid_chain_is_accepted() {
    let root_secret = random_secret_key();
    let (root_key, chain) = chain_of(&root_secret, [1000, 900, 2000]);
    assert_eq!(verify_chain(&root_key, &chain, 899), Ok(()));
    assert_eq!(verify_chain(&root_key, &chain, 0), Ok(()));
}

#[test]
fn each_tampered_link_is_rejected() {
    let root_secret = random_secret_key();
    let (root_key, chain) = chain_of(&root_secret, [1000, 900, 2000]);
    for i in 0..3 {
        let mut bad = chain.clone();
        bad[i].signature[10] ^= 1;
        assert_eq!(verify_chain(&root_key, &bad, 0), Err(DelegationError::InvalidSignature { index: i }));
        let mut bad = chain.clone();
        bad[i].delegation.expiration += 1;
        assert_eq!(verify_chain(&root_key, &bad, 0), Err(DelegationError::InvalidSignature { index: i }));
    }
    let other = public_key_der(&random_secret_key()).unwrap();
    assert_eq!(verify_chain(&other, &chain, 0), Err(DelegationError::InvalidSignature { index: 0 }));
}

#[test]
fn each_expired_link_is_rejected() {
    let root_secret = random_secret_key();
    let (root_key, chain) = chain_of(&root_secret, [1000, 900, 2000]);
    assert_eq!(verify_chain(&root_key, &chain, 900), Err(DelegationError::Expired { index: 1 }));
    assert_eq!(verify_chain(&root_key, &chain, 1000), Err(DelegationError::Expired { index: 0 }));
    let (root_key, chain) = chain_of(&root_secret, [3000, 3000, 2000]);
    assert_eq!(verify_chain(&root_key, &chain, 2500), Err(DelegationError::Expired { index: 2 }));
    assert_eq!(verify_chain(&root_key, &Vec::new(), 0), Err(DelegationError::EmptyChain));
}

#[test]
fn effective_expiry_is_the_earliest_link() {
    let t = 1_700_000_000_000_000_000u64;
    let root_secret = random_secret_key();
    let (_, chain) = chain_of(&root_secret, [t + 10, t + 5, t + 20]);
    assert_eq!(effective_expiry(&chain), t + 5);
    assert_eq!(effective_expiry(&Vec::new()), u64::MAX);
}

#[test]
fn delegation_extends_the_chain() {
    let base = root();
    let w = DelegatedIdentityWire::delegate_at(&base, &random_secret_key(), 1000, 50).unwrap();
    assert_eq!(w.from_key(), base.from_key());
    assert_eq!(w.delegation_chain().len(), 1);
    assert_eq!(w.expiry_ns(), 1050);
    let id = DelegatedIdentity::try_from(w.clone()).unwrap();
    assert_eq!(id.verify_at(1049), Ok(()));
    assert_eq!(id.verify_at(1050), Err(DelegationError::Expired { index: 0 }));
    let w2 = DelegatedIdentityWire::delegate_at(&id, &random_secret_key(), 1010, 10).unwrap();
    assert_eq!(w2.delegation_chain().len(), 2);
    assert_eq!(w2.expiry_ns(), 1020);
    let id2 = DelegatedIdentity::try_from(w2).unwrap();
    assert_eq!(id2.verify_at(1015), Ok(()));
    assert_eq!(id2.sender(), base.sender());
    let sat = DelegatedIdentityWire::delegate_at(&base, &random_secret_key(), u64::MAX - 1, 50).unwrap();
    assert_eq!(sat.expiry_ns(), u64::MAX);
    assert!(DelegatedIdentityWire::delegate_at(&base, &vec![0u8; 32], 0, 1).is_err());
}

#[test]
fn session_presets() {
    let base = root();
    let w = DelegatedIdentityWire::delegate(&base).unwrap();
    let s = DelegatedIdentityWire::delegate_short_lived_identity(&base).unwrap();
    let week = w.expiry_ns() - s.expiry_ns();
    // The short-lived session was made a moment later than the standard one.
    assert!(week <= DELEGATION_MAX_AGE_NS - SHORT_LIVED_MAX_AGE_NS);
    assert!(week > DELEGATION_MAX_AGE_NS - SHORT_LIVED_MAX_AGE_NS - 60_000_000_000);
    assert!(extract_identity(None).is_none());
    assert!(extract_identity(Some(random_secret_key())).is_some());
}

#[test]
fn malformed_session_key_is_refused() {
    let base = root();
    let w = DelegatedIdentityWire::delegate_at(&base, &random_secret_key(), 0, 100).unwrap();
    let broken = DelegatedIdentityWire::new(w.from_key().clone(), "{\"kty\":\"EC\"}".to_string(), w.delegation_chain().clone());
    assert_eq!(DelegatedIdentity::try_from(broken).unwrap_err(), DelegationError::MalformedKey);
}

fn customer() -> Customer {
    Customer {
        name: "A".to_string(),
        email: "a@b.c".to_string(),
        age: 30,
        country_code: "91".to_string(),
        mobile_number: "9876543210".to_string(),
        pan: "ABCDE1234F".to_string(),
        aadhar: "123456789012".to_string(),
    }
}

#[test]
fn user_and_admin_handles_offer_different_calls() {
    let base = root();
    let w = DelegatedIdentityWire::delegate_at(&base, &random_secret_key(), 0, 1000).unwrap();
    let id = DelegatedIdentity::try_from(w).unwrap();
    let user: Canisters<UserSession> = Canisters::<UserSession>::authenticated(id, 10).unwrap();
    assert_eq!(user.expiry_ns(), 1000);
    assert_eq!(user.principal(), base.sender());
    let call = user.validate_availability(7, 100, 200, customer());
    assert_eq!((call.car_id(), call.start(), call.end()), (7, 100, 200));
    assert_eq!(call.customer(), &customer());

    let key = k256::SecretKey::from_slice(&random_secret_key()).unwrap();
    let pem = key.to_sec1_pem(k256::pkcs8::LineEnding::LF).unwrap().to_string();
    let admin: Canisters<AdminSession> = IcAgentTransactionRepository::new(pem).admin_canisters().unwrap();
    assert_eq!(admin.expiry_ns(), u64::MAX);
    let proof = PaymentProof {
        payment_id: "pay_1".to_string(),
        payment_link_id: "plink_1".to_string(),
        reference_id: "42".to_string(),
        status: "paid".to_string(),
        signature: "sig".to_string(),
    };
    let call = admin.reserve(42, proof.clone());
    assert_eq!((call.booking_id(), call.payment()), (42, &proof));

    let anonymous: Canisters<offchain::canister::Unauthenticated> = Default::default();
    assert_eq!(anonymous.principal(), "2vxsx-fae");
    assert_eq!(anonymous.principal(), candid::Principal::anonymous().to_text());
}

#[test]
fn expired_or_forged_session_gives_no_handle() {
    let base = root();
    let w = DelegatedIdentityWire::delegate_at(&base, &random_secret_key(), 0, 1000).unwrap();
    let id = DelegatedIdentity::try_from(w.clone()).unwrap();
    assert_eq!(Canisters::<UserSession>::authenticated(id, 1000).unwrap_err(), DelegationError::Expired { index: 0 });
    let auth = do_canister_auth(w.clone(), 5).unwrap();
    assert_eq!(auth.expiry, 1000);
    assert!(auth.canisters(5).is_ok());
    let mut chain = w.delegation_chain().clone();
    chain[0].signature[0] ^= 0x80;
    let forged = DelegatedIdentityWire::new(w.from_key().clone(), w.to_secret().to_string(), chain);
    assert_eq!(do_canister_auth(forged, 5).unwrap_err(), DelegationError::InvalidSignature { index: 0 });
}

#[test]
fn handle_refuses_a_key_other_than_the_delegated_one() {
    let base = root();
    let w = DelegatedIdentityWire::delegate_at(&base, &random_secret_key(), 0, 1000).unwrap();
    let other_jwk = secret_to_jwk(&random_secret_key()).unwrap();
    let swapped = DelegatedIdentityWire::new(w.from_key().clone(), other_jwk, w.delegation_chain().clone());
    let id = DelegatedIdentity::try_from(swapped).unwrap();
    assert_eq!(id.verify_at(5), Ok(()));
    assert!(!id.holds_session_key());
    assert_eq!(Canisters::<UserSession>::authenticated(id, 5).unwrap_err(), DelegationError::SessionKeyMismatch);
    let good = DelegatedIdentity::try_from(w).unwrap();
    assert!(good.holds_session_key());
    assert!(!base.holds_session_key());
}
