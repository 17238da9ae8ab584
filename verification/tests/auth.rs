use ed25519_dalek::{Signer, SigningKey};
use soroban_auth::address::{Address, AddressOrder};
use soroban_auth::codec::encode_payload;
use soroban_auth::context::AuthContext;
use soroban_auth::engine::{commit_invocation, domain_bytes, verify};
use soroban_auth::errors::AuthError;
use soroban_auth::example::{examplefn_selector_bytes, ExampleContract};
use soroban_auth::identity::{ArgVal, Identifier, Signature};
use soroban_auth::nonce::NonceStore;

fn test_context(id: u64, contract_byte: u8) -> AuthContext {
    let host = soroban_env_host::Host::default();
    AuthContext::new(id, host, vec![contract_byte; 32], vec![7u8; 32]).unwrap()
}

fn keypair(seed: u8) -> (SigningKey, Vec<u8>) {
    let sk = SigningKey::from_bytes(&[seed; 32]);
    let pk = sk.verifying_key().to_bytes().to_vec();
    (sk, pk)
}

fn sign_payload(
    sk: &SigningKey,
    pk: &[u8],
    env: &AuthContext,
    nonce: u64,
    selector: &[u8],
    args: &Vec<ArgVal>,
) -> Signature {
    let domain = domain_bytes(env);
    let msg = encode_payload(&domain, nonce, &selector.to_vec(), args);
    Signature::KeyHolder {
        identifier: pk.to_vec(),
        signature: sk.sign(&msg).to_bytes().to_vec(),
    }
}

#[test]
fn test() {
    let env = test_context(1, 0);
    let mut store = NonceStore::new();

    let (sk, pk) = keypair(42);
    println!("signer: {:?}", sk.to_bytes());
    let id = Identifier::KeyHolder(pk.clone());
    println!("id: {:?}", id);

    let args = vec![
        ArgVal::Ident(Identifier::KeyHolder(pk.clone())),
        ArgVal::Int(1),
        ArgVal::Int(2),
    ];
    let sig = sign_payload(&sk, &pk, &env, 0, &examplefn_selector_bytes(), &args);
    println!("signature: {:?}", sig);

    let r = ExampleContract::examplefn(&env, &mut store, &sig, 0, 1, 2);
    assert_eq!(r, Ok(()));
}

#[test]
fn scenario_nonce_lifecycle() {
    let env = test_context(1, 3);
    let mut store = NonceStore::new();
    let (sk, pk) = keypair(9);
    let ident = Identifier::KeyHolder(pk.clone());
    let selector = b"transfer".to_vec();
    let args = vec![ArgVal::Ident(Identifier::KeyHolder(pk.clone())), ArgVal::Int(100)];

    // Stored nonce is 0: a payload signed over nonce 0 is accepted.
    let sig0 = sign_payload(&sk, &pk, &env, 0, &selector, &args);
    let r = verify(&env, &mut store, &sig0, 0, &selector, &args);
    assert_eq!(r, Ok(()));
    assert_eq!(store.nonce_of(&ident), 1);

    // The identical signature and arguments are rejected as replayed.
    let r = verify(&env, &mut store, &sig0, 0, &selector, &args);
    assert_eq!(r, Err(AuthError::StaleOrReplayedNonce));
    assert_eq!(store.nonce_of(&ident), 1);

    // A fresh approval over nonce 1 is accepted.
    let sig1 = sign_payload(&sk, &pk, &env, 1, &selector, &args);
    let r = verify(&env, &mut store, &sig1, 1, &selector, &args);
    assert_eq!(r, Ok(()));
    assert_eq!(store.nonce_of(&ident), 2);

    // A signature over different arguments does not cover the submitted
    // ones: the payloads differ, so verification fails.
    let other_args = vec![ArgVal::Ident(Identifier::KeyHolder(pk.clone())), ArgVal::Int(999)];
    let sig2 = sign_payload(&sk, &pk, &env, 2, &selector, &other_args);
    let r = verify(&env, &mut store, &sig2, 2, &selector, &args);
    assert_eq!(r, Err(AuthError::InvalidSignature));
    assert_eq!(store.nonce_of(&ident), 2);
}

#[test]
fn nonce_counts_successes() {
    let env = test_context(1, 4);
    let mut store = NonceStore::new();
    let (sk, pk) = keypair(11);
    let ident = Identifier::KeyHolder(pk.clone());
    let selector = b"transfer".to_vec();
    let args = vec![ArgVal::Int(5)];

    for n in 0..3u64 {
        let sig = sign_payload(&sk, &pk, &env, n, &selector, &args);
        assert_eq!(verify(&env, &mut store, &sig, n, &selector, &args), Ok(()));
    }
    assert_eq!(store.nonce_of(&ident), 3);

    // The fourth attempt is only accepted with embedded nonce 3.
    let sig = sign_payload(&sk, &pk, &env, 2, &selector, &args);
    assert_eq!(
        verify(&env, &mut store, &sig, 2, &selector, &args),
        Err(AuthError::StaleOrReplayedNonce)
    );
    let sig = sign_payload(&sk, &pk, &env, 3, &selector, &args);
    assert_eq!(verify(&env, &mut store, &sig, 3, &selector, &args), Ok(()));
}

#[test]
fn binding_changes_message() {
    let env = test_context(1, 5);
    let domain = domain_bytes(&env);
    let selector = b"transfer".to_vec();
    let args = vec![ArgVal::Bytes(vec![1, 2, 3]), ArgVal::Int(100)];

    let base = encode_payload(&domain, 0, &selector, &args);

    // A different argument value.
    let changed_args = vec![ArgVal::Bytes(vec![1, 2, 3]), ArgVal::Int(101)];
    assert_ne!(base, encode_payload(&domain, 0, &selector, &changed_args));

    // A different argument type carrying the same bytes.
    let retagged = vec![ArgVal::Ident(Identifier::KeyHolder(vec![1, 2, 3])), ArgVal::Int(100)];
    assert_ne!(base, encode_payload(&domain, 0, &selector, &retagged));

    // A different selector.
    assert_ne!(base, encode_payload(&domain, 0, &b"transfeR".to_vec(), &args));

    // A different nonce.
    assert_ne!(base, encode_payload(&domain, 1, &selector, &args));

    // A different domain separator (another contract instance).
    let other = test_context(1, 6);
    assert_ne!(base, encode_payload(&domain_bytes(&other), 0, &selector, &args));

    // Field boundaries do not blur: moving a byte across the
    // selector/argument boundary still changes the encoding.
    let shifted = encode_payload(&domain, 0, &b"transferX".to_vec(), &args);
    assert_ne!(base, shifted);
}

#[test]
fn abort_rolls_back_nonce() {
    let env = test_context(1, 8);
    let (sk, pk) = keypair(23);
    let ident = Identifier::KeyHolder(pk.clone());
    let selector = b"transfer".to_vec();
    let args = vec![ArgVal::Int(100)];
    let sig = sign_payload(&sk, &pk, &env, 0, &selector, &args);

    // The invocation verifies successfully but a later step fails, so the
    // framework discards the invocation's writes.
    let pre = NonceStore::new();
    let mut working = NonceStore::new();
    assert_eq!(verify(&env, &mut working, &sig, 0, &selector, &args), Ok(()));
    let mut store = commit_invocation(pre, working, false);

    // The nonce reads as it did before, and the same approval is still
    // consumable.
    assert_eq!(store.nonce_of(&ident), 0);
    assert_eq!(verify(&env, &mut store, &sig, 0, &selector, &args), Ok(()));
    assert_eq!(store.nonce_of(&ident), 1);
}

#[test]
fn cross_context_never_equal() {
    let env_a = test_context(1, 9);
    let env_b = test_context(2, 9);
    let id = vec![5u8; 32];
    let a = Address::from_contract_id(&env_a, &id).unwrap();
    let b = Address::from_contract_id(&env_b, &id).unwrap();

    // Same underlying bytes, independent runtime contexts: never equal.
    let r = a.compare(&b);
    assert_eq!(r, Err(AuthError::ContextMismatch));
    assert_ne!(r, Ok(AddressOrder::Equal));
}

#[test]
fn same_context_compare() {
    let env = test_context(1, 10);
    let a = Address::from_contract_id(&env, &vec![5u8; 32]).unwrap();
    let b = Address::from_contract_id(&env, &vec![5u8; 32]).unwrap();
    let c = Address::from_contract_id(&env, &vec![6u8; 32]).unwrap();

    assert_eq!(a.compare(&b), Ok(AddressOrder::Equal));
    let r = a.compare(&c).unwrap();
    assert_ne!(r, AddressOrder::Equal);
    // The order is canonical: comparing the other way round reverses it.
    let rev = c.compare(&a).unwrap();
    assert_ne!(rev, r);
}

#[test]
fn address_accessors() {
    let env = test_context(1, 11);
    let a = Address::from_contract_id(&env, &vec![5u8; 32]).unwrap();
    assert_eq!(a.env().id, 1);
    assert_eq!(a.env().contract_id, vec![11u8; 32]);

    // The raw value round-trips through the conversion back to an address.
    let again = Address::try_from_val(&env, a.to_raw()).unwrap();
    assert_eq!(again.compare(&a), Ok(AddressOrder::Equal));
    assert_eq!(a.as_raw().get_payload(), a.to_raw().get_payload());
    assert_eq!(a.as_object().to_val().get_payload(), a.to_object().to_val().get_payload());
}

#[test]
fn try_from_val_rejects_non_address() {
    let env = test_context(1, 12);
    let v: soroban_env_host::Val = soroban_env_host::Val::VOID.into();
    let r = Address::try_from_val(&env, v);
    assert!(matches!(r, Err(AuthError::ConversionError)));
}

#[test]
fn invalid_signature_rejected() {
    let env = test_context(1, 13);
    let mut store = NonceStore::new();
    let (_sk, pk) = keypair(31);
    let ident = Identifier::KeyHolder(pk.clone());
    let sig = Signature::KeyHolder { identifier: pk.clone(), signature: vec![0u8; 64] };
    let selector = b"transfer".to_vec();
    let args = vec![ArgVal::Int(1)];
    let r = verify(&env, &mut store, &sig, 0, &selector, &args);
    assert_eq!(r, Err(AuthError::InvalidSignature));
    assert_eq!(store.nonce_of(&ident), 0);
}

#[test]
fn contract_identity_wrong_length_is_conversion_error() {
    let env = test_context(1, 14);
    let mut store = NonceStore::new();
    let sig = Signature::Contract { identifier: vec![1, 2, 3] };
    let r = verify(&env, &mut store, &sig, 0, &b"transfer".to_vec(), &vec![]);
    assert_eq!(r, Err(AuthError::ConversionError));
}

#[test]
fn contract_identity_unknown_contract_fails() {
    let env = test_context(1, 15);
    let mut store = NonceStore::new();
    let sig = Signature::Contract { identifier: vec![9u8; 32] };
    let ident = Identifier::Contract(vec![9u8; 32]);
    let r = verify(&env, &mut store, &sig, 0, &b"transfer".to_vec(), &vec![]);
    assert_eq!(r, Err(AuthError::NestedAuthorizationFailed));
    assert_eq!(store.nonce_of(&ident), 0);
}

#[test]
fn examplefn_rejects_changed_argument() {
    let env = test_context(1, 16);
    let mut store = NonceStore::new();
    let (sk, pk) = keypair(47);
    let args = vec![
        ArgVal::Ident(Identifier::KeyHolder(pk.clone())),
        ArgVal::Int(1),
        ArgVal::Int(2),
    ];
    let sig = sign_payload(&sk, &pk, &env, 0, &examplefn_selector_bytes(), &args);

    // The signature covers (1, 2); the call is made with (1, 3).
    let r = ExampleContract::examplefn(&env, &mut store, &sig, 0, 1, 3);
    assert_eq!(r, Err(AuthError::InvalidSignature));

    // With the covered arguments it is accepted.
    let r = ExampleContract::examplefn(&env, &mut store, &sig, 0, 1, 2);
    assert_eq!(r, Ok(()));
}

#[test]
fn identifier_extraction_is_pure() {
    let sig = Signature::KeyHolder { identifier: vec![1, 2, 3], signature: vec![9, 9] };
    match sig.identifier() {
        Identifier::KeyHolder(k) => assert_eq!(k, vec![1, 2, 3]),
        Identifier::Contract(_) => panic!("wrong variant"),
    }
    let sig = Signature::Contract { identifier: vec![4, 5] };
    match sig.identifier() {
        Identifier::Contract(c) => assert_eq!(c, vec![4, 5]),
        Identifier::KeyHolder(_) => panic!("wrong variant"),
    }
}

#[test]
fn nonce_store_last_write_wins() {
    let mut store = NonceStore::new();
    let a = Identifier::KeyHolder(vec![1]);
    let b = Identifier::Contract(vec![1]);
    assert_eq!(store.nonce_of(&a), 0);
    store.set_nonce(Identifier::KeyHolder(vec![1]), 5);
    store.set_nonce(Identifier::Contract(vec![1]), 7);
    assert_eq!(store.nonce_of(&a), 5);
    assert_eq!(store.nonce_of(&b), 7);
    store.set_nonce(Identifier::KeyHolder(vec![1]), 6);
    assert_eq!(store.nonce_of(&a), 6);
    assert_eq!(store.nonce_of(&b), 7);
}

#[test]
fn require_auth_outside_invocation_is_refused() {
    // Outside a live contract invocation the host grants nothing, so both
    // delegated checks report a failed authorization rather than success.
    let env = test_context(1, 17);
    let a = Address::from_contract_id(&env, &vec![5u8; 32]).unwrap();
    assert_eq!(a.require_auth(), Err(AuthError::NestedAuthorizationFailed));
    let args = vec![
        ArgVal::Int(3),
        ArgVal::Bytes(vec![1, 2]),
        ArgVal::Ident(Identifier::KeyHolder(vec![8u8; 32])),
    ];
    let r = a.require_auth_for_args(&args);
    assert_eq!(r, Err(AuthError::NestedAuthorizationFailed));
}

struct NoopContract;

impl soroban_env_host::ContractFunctionSet for NoopContract {
    fn call(
        &self,
        _func: &soroban_env_host::Symbol,
        _host: &soroban_env_host::Host,
        _args: &[soroban_env_host::Val],
    ) -> Option<soroban_env_host::Val> {
        Some(soroban_env_host::Val::VOID.into())
    }
}

#[test]
fn require_auth_recorded_in_test_context() {
    // In a test context the host records authorizations instead of
    // enforcing signatures; the recorded payload can then be inspected.
    let host = soroban_env_host::Host::test_host_with_recording_footprint();
    host.switch_to_recording_auth(true).unwrap();
    let env = AuthContext::new(1, host.clone(), vec![1u8; 32], vec![7u8; 32]).unwrap();
    let running = Address::from_contract_id(&env, &vec![1u8; 32]).unwrap();
    host.register_test_contract(running.to_object(), std::rc::Rc::new(NoopContract)).unwrap();
    let a = Address::from_contract_id(&env, &vec![5u8; 32]).unwrap();

    let r = host.with_test_contract_frame(
        soroban_env_host::xdr::ContractId(soroban_env_host::xdr::Hash([1u8; 32])),
        soroban_env_host::Symbol::try_from_small_str("test").unwrap(),
        || {
            assert_eq!(a.require_auth(), Ok(()));
            Ok(soroban_env_host::Val::VOID.into())
        },
    );
    assert!(r.is_ok());
    let payloads = host.get_recorded_auth_payloads().unwrap();
    assert_eq!(payloads.len(), 1);
}

#[test]
fn contract_identity_nested_authorization() {
    // A contract identity stands in for a key: verification invokes that
    // contract's own authorization entry point, and its approval both
    // authorizes the call and consumes the nonce.
    let host = soroban_env_host::Host::test_host_with_recording_footprint();
    let env = AuthContext::new(1, host.clone(), vec![1u8; 32], vec![7u8; 32]).unwrap();
    let cid = vec![9u8; 32];
    let approver = Address::from_contract_id(&env, &cid).unwrap();
    host.register_test_contract(approver.to_object(), std::rc::Rc::new(NoopContract)).unwrap();

    let mut store = NonceStore::new();
    let sig = Signature::Contract { identifier: cid.clone() };
    let args = vec![ArgVal::Int(1)];
    let r = verify(&env, &mut store, &sig, 0, &b"transfer".to_vec(), &args);
    assert_eq!(r, Ok(()));
    assert_eq!(store.nonce_of(&Identifier::Contract(cid)), 1);

    // Replaying the consumed approval is rejected before the nested call.
    let r = verify(&env, &mut store, &sig, 0, &b"transfer".to_vec(), &args);
    assert_eq!(r, Err(AuthError::StaleOrReplayedNonce));
}

#[test]
fn random_addresses() {
    let env = test_context(1, 18);
    let a = Address::random(&env);
    let b = Address::random(&env);
    assert_eq!(a.env().id, 1);

    // A random address is coherent: it equals itself and survives the
    // round trip through its raw value.
    assert_eq!(a.compare(&a), Ok(AddressOrder::Equal));
    let back = Address::try_from_val(&env, a.to_raw()).unwrap();
    assert_eq!(back.compare(&a), Ok(AddressOrder::Equal));

    // Two independent draws name different identities.
    assert_ne!(a.compare(&b), Ok(AddressOrder::Equal));
}
