use vstd::prelude::*;

use crate::codec::lemma_enc_args_congruent;
use crate::context::AuthContext;
use crate::engine::{auth_payload, verify};
use crate::errors::AuthError;
use crate::hostio::sig_check;
use crate::identity::{ArgVal, Identifier, Signature};
use crate::nonce::{stored_nonce, NonceStore};

verus! {

/// The selector naming the protected entry point, the bytes of
/// "examplefn".
pub open spec fn examplefn_selector() -> Seq<u8> {
    seq![101u8, 120u8, 97u8, 109u8, 112u8, 108u8, 101u8, 102u8, 110u8]
}

/// The identity a signature claims, as a value.
pub open spec fn ident_of(sig: Signature) -> Identifier {
    match sig {
        Signature::KeyHolder { identifier, .. } => Identifier::KeyHolder(identifier),
        Signature::Contract { identifier } => Identifier::Contract(identifier),
    }
}

/// The argument tuple the entry point has authorized: the claimed identity
/// itself, then both integer arguments. Embedding the identity binds whose
/// approval is claimed into the signed payload.
pub open spec fn examplefn_args(sig: Signature, arg1: i32, arg2: i32) -> Seq<ArgVal> {
    seq![ArgVal::Ident(ident_of(sig)), ArgVal::Int(arg1 as i64), ArgVal::Int(arg2 as i64)]
}

/// The selector bytes of the entry point.
pub fn examplefn_selector_bytes() -> (r: Vec<u8>)
    ensures
        r@ == examplefn_selector(),
{
    let mut out: Vec<u8> = Vec::new();
    out.push(101u8);
    out.push(120u8);
    out.push(97u8);
    out.push(109u8);
    out.push(112u8);
    out.push(108u8);
    out.push(101u8);
    out.push(102u8);
    out.push(110u8);
    proof {
        assert(out@ =~= examplefn_selector());
    }
    out
}

/// A minimal protected contract: its one entry point demands the caller's
/// approval, bound to the exact selector and argument tuple, before it
/// does anything.
pub struct ExampleContract;

impl ExampleContract {
    /// Proceeds only when `sig` approves the call
    /// `(examplefn, (identity, arg1, arg2))` under `env` with `nonce` as
    /// the embedded nonce of the attempt.
    pub fn examplefn(
        env: &AuthContext,
        store: &mut NonceStore,
        sig: &Signature,
        nonce: u64,
        arg1: i32,
        arg2: i32,
    ) -> (r: Result<(), AuthError>)
        requires
            nonce < u64::MAX,
        ensures
            (r == Err::<(), AuthError>(AuthError::StaleOrReplayedNonce) <==> nonce != stored_nonce(
                old(store)@,
                sig.claimed_key(),
            )),
            r != Ok::<(), AuthError>(()) ==> final(store)@ == old(store)@,
            r == Ok::<(), AuthError>(()) ==> final(store)@ == old(store)@.insert(
                sig.claimed_key(),
                (nonce + 1) as u64,
            ),
            (sig matches Signature::KeyHolder { identifier, signature } ==> (r == Ok::<
                (),
                AuthError,
            >(()) <==> (nonce == stored_nonce(old(store)@, sig.claimed_key()) && sig_check(
                identifier@,
                auth_payload(
                    *env,
                    nonce,
                    examplefn_selector(),
                    examplefn_args(*sig, arg1, arg2),
                ),
                signature@,
            )))),
            (sig matches Signature::Contract { identifier } && nonce == stored_nonce(
                old(store)@,
                sig.claimed_key(),
            ) && identifier@.len() != 32) ==> r == Err::<(), AuthError>(AuthError::ConversionError),
            (sig matches Signature::Contract { .. } && nonce == stored_nonce(
                old(store)@,
                sig.claimed_key(),
            ) && r != Ok::<(), AuthError>(())) ==> (r == Err::<(), AuthError>(
                AuthError::NestedAuthorizationFailed,
            ) || r == Err::<(), AuthError>(AuthError::ConversionError)),
    {
        let id = sig.identifier();
        let mut args: Vec<ArgVal> = Vec::new();
        args.push(ArgVal::Ident(id));
        args.push(ArgVal::Int(arg1 as i64));
        args.push(ArgVal::Int(arg2 as i64));
        let selector = examplefn_selector_bytes();
        let r = verify(env, store, sig, nonce, &selector, &args);
        proof {
            let canonical = examplefn_args(*sig, arg1, arg2);
            assert(args@.len() == canonical.len());
            assert(forall|i: int|
                0 <= i < args@.len() ==> crate::identity::arg_key(#[trigger] args@[i])
                    == crate::identity::arg_key(canonical[i]));
            lemma_enc_args_congruent(args@, canonical);
            assert(auth_payload(*env, nonce, selector@, args@) == auth_payload(
                *env,
                nonce,
                examplefn_selector(),
                canonical,
            ));
        }
        r
    }
}

} // verus!
