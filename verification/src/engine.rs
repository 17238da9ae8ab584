use vstd::prelude::*;

use crate::codec::{encode_payload, payload_enc, push_lp};
use crate::context::AuthContext;
use crate::errors::AuthError;
use crate::hostio::{contract_address_obj, ed25519_verify, invoke_contract_auth, sig_check};
use crate::identity::{ArgVal, Signature};
use crate::nonce::{stored_nonce, NonceStore};

verus! {

/// The canonical bytes a signature must cover for this context, nonce,
/// selector and argument tuple.
pub open spec fn auth_payload(ctx: AuthContext, nonce: u64, selector: Seq<u8>, args: Seq<ArgVal>) -> Seq<
    u8,
> {
    payload_enc(ctx.domain(), nonce, selector, args)
}

/// Whether a key-holder signature authenticates this attempt: the
/// cryptographic verdict on the canonical payload. Meaningful only for
/// key-holder signatures.
pub open spec fn key_auth_ok(
    ctx: AuthContext,
    sig: Signature,
    nonce: u64,
    selector: Seq<u8>,
    args: Seq<ArgVal>,
) -> bool {
    match sig {
        Signature::KeyHolder { identifier, signature } => sig_check(
            identifier@,
            auth_payload(ctx, nonce, selector, args),
            signature@,
        ),
        Signature::Contract { .. } => false,
    }
}

/// An attempt is accepted exactly when its embedded nonce equals the
/// stored nonce and its authentication succeeded.
pub open spec fn accepts(
    m: Map<(int, Seq<u8>), u64>,
    k: (int, Seq<u8>),
    nonce: u64,
    auth_ok: bool,
) -> bool {
    nonce == stored_nonce(m, k) && auth_ok
}

/// The nonce map after an attempt: advanced by one for the identity on
/// acceptance, untouched otherwise.
pub open spec fn store_after(
    m: Map<(int, Seq<u8>), u64>,
    k: (int, Seq<u8>),
    nonce: u64,
    auth_ok: bool,
) -> Map<(int, Seq<u8>), u64> {
    if accepts(m, k, nonce, auth_ok) {
        m.insert(k, (nonce + 1) as u64)
    } else {
        m
    }
}

/// The domain separator bytes of a context.
pub fn domain_bytes(ctx: &AuthContext) -> (r: Vec<u8>)
    ensures
        r@ == ctx.domain(),
{
    let mut out: Vec<u8> = Vec::new();
    push_lp(&mut out, &ctx.contract_id);
    push_lp(&mut out, &ctx.network_id);
    proof {
        assert(out@ =~= ctx.domain());
    }
    out
}

/// The verification engine. Checks that `sig` approves exactly the call
/// `(selector, args)` under `ctx`, with `nonce` as the embedded nonce of
/// the attempt, against the state in `store`.
///
/// The attempt is rejected unless `nonce` equals the identity's stored
/// nonce; an accepted attempt advances the stored nonce by one, so the
/// same approval can never be consumed twice. Nothing is written on any
/// failure.
pub fn verify(
    ctx: &AuthContext,
    store: &mut NonceStore,
    sig: &Signature,
    nonce: u64,
    selector: &Vec<u8>,
    args: &Vec<ArgVal>,
) -> (r: Result<(), AuthError>)
    requires
        nonce < u64::MAX,
    ensures
        (r == Err::<(), AuthError>(AuthError::StaleOrReplayedNonce) <==> nonce != stored_nonce(
            old(store)@,
            sig.claimed_key(),
        )),
        r != Ok::<(), AuthError>(()) ==> final(store)@ == old(store)@,
        r == Ok::<(), AuthError>(()) ==> final(store)@ == old(store)@.insert(
            sig.claimed_key(),
            (nonce + 1) as u64,
        ),
        (sig matches Signature::KeyHolder { .. }) ==> (r == Ok::<(), AuthError>(()) <==> accepts(
            old(store)@,
            sig.claimed_key(),
            nonce,
            key_auth_ok(*ctx, *sig, nonce, selector@, args@),
        )),
        (sig matches Signature::KeyHolder { .. } && nonce == stored_nonce(
            old(store)@,
            sig.claimed_key(),
        ) && !key_auth_ok(*ctx, *sig, nonce, selector@, args@)) ==> r == Err::<(), AuthError>(
            AuthError::InvalidSignature,
        ),
        (sig matches Signature::KeyHolder { .. }) ==> final(store)@ == store_after(
            old(store)@,
            sig.claimed_key(),
            nonce,
            key_auth_ok(*ctx, *sig, nonce, selector@, args@),
        ),
        (sig matches Signature::Contract { identifier } && nonce == stored_nonce(
            old(store)@,
            sig.claimed_key(),
        ) && identifier@.len() != 32) ==> r == Err::<(), AuthError>(AuthError::ConversionError),
        (sig matches Signature::Contract { .. } && nonce == stored_nonce(
            old(store)@,
            sig.claimed_key(),
        ) && r != Ok::<(), AuthError>(())) ==> (r == Err::<(), AuthError>(
            AuthError::NestedAuthorizationFailed,
        ) || r == Err::<(), AuthError>(AuthError::ConversionError)),
{
    let id = sig.identifier();
    let current = store.nonce_of(&id);
    if nonce != current {
        return Err(AuthError::StaleOrReplayedNonce);
    }
    let domain = domain_bytes(ctx);
    let msg = encode_payload(&domain, nonce, selector, args);
    match sig {
        Signature::KeyHolder { identifier, signature } => {
            if ed25519_verify(&ctx.host, identifier, &msg, signature) {
                store.set_nonce(id, nonce + 1);
                Ok(())
            } else {
                Err(AuthError::InvalidSignature)
            }
        }
        Signature::Contract { identifier } => {
            if identifier.len() != 32 {
                return Err(AuthError::ConversionError);
            }
            match contract_address_obj(&ctx.host, identifier) {
                None => Err(AuthError::ConversionError),
                Some(addr) => {
                    if invoke_contract_auth(&ctx.host, addr, &msg) {
                        store.set_nonce(id, nonce + 1);
                        Ok(())
                    } else {
                        Err(AuthError::NestedAuthorizationFailed)
                    }
                }
            }
        }
    }
}

/// The nonce map an invocation leaves behind: its writes commit only when
/// the whole invocation succeeded; an aborted invocation leaves the
/// pre-invocation state.
pub open spec fn committed(
    pre: Map<(int, Seq<u8>), u64>,
    post: Map<(int, Seq<u8>), u64>,
    invocation_ok: bool,
) -> Map<(int, Seq<u8>), u64> {
    if invocation_ok {
        post
    } else {
        pre
    }
}

/// The invocation boundary: `pre` is the store as it was before the
/// invocation, `post` the store after the invocation's writes. When any
/// later step of the invocation failed, the writes are discarded whole.
pub fn commit_invocation(pre: NonceStore, post: NonceStore, invocation_ok: bool) -> (r: NonceStore)
    ensures
        r@ == committed(pre@, post@, invocation_ok),
{
    if invocation_ok {
        post
    } else {
        pre
    }
}

} // verus!
