use vstd::prelude::*;

use crate::codec::{args_wf, lemma_domain_binding, lemma_payload_binding};
use crate::context::AuthContext;
use crate::engine::{accepts, auth_payload, committed, store_after};
use crate::identity::{arg_key, ArgVal};
use crate::nonce::stored_nonce;

verus! {

/// The nonce map after one accepted verification for identity `k`.
pub open spec fn advanced(m: Map<(int, Seq<u8>), u64>, k: (int, Seq<u8>)) -> Map<
    (int, Seq<u8>),
    u64,
> {
    m.insert(k, (stored_nonce(m, k) + 1) as u64)
}

/// The nonce map after `n` consecutive accepted verifications for `k`.
pub open spec fn advanced_n(m: Map<(int, Seq<u8>), u64>, k: (int, Seq<u8>), n: nat) -> Map<
    (int, Seq<u8>),
    u64,
>
    decreases n,
{
    if n == 0 {
        m
    } else {
        advanced(advanced_n(m, k, (n - 1) as nat), k)
    }
}

/// An accepted verification advances the identity's stored nonce by
/// exactly one: the map it leaves is `advanced` of the map it read.
pub proof fn lemma_acceptance_advances(
    m: Map<(int, Seq<u8>), u64>,
    k: (int, Seq<u8>),
    nonce: u64,
    auth_ok: bool,
)
    requires
        nonce < u64::MAX,
        accepts(m, k, nonce, auth_ok),
    ensures
        store_after(m, k, nonce, auth_ok) == advanced(m, k),
        stored_nonce(store_after(m, k, nonce, auth_ok), k) == stored_nonce(m, k) + 1,
{
}

/// Nonce monotonicity: starting from a store where identity `k` has nonce
/// zero, after `n` accepted verifications the stored nonce for `k` is
/// exactly `n`; in particular each accepted attempt carried the nonce the
/// store held when it ran.
pub proof fn lemma_nonce_monotonicity(m: Map<(int, Seq<u8>), u64>, k: (int, Seq<u8>), n: nat)
    requires
        stored_nonce(m, k) == 0,
        n <= u64::MAX,
    ensures
        stored_nonce(advanced_n(m, k, n), k) == n,
    decreases n,
{
    if n > 0 {
        lemma_nonce_monotonicity(m, k, (n - 1) as nat);
    }
}

/// The attempt after `n` accepted verifications is itself accepted only if
/// its embedded nonce equals `n`.
pub proof fn lemma_nth_acceptance(
    m: Map<(int, Seq<u8>), u64>,
    k: (int, Seq<u8>),
    n: nat,
    nonce: u64,
    auth_ok: bool,
)
    requires
        stored_nonce(m, k) == 0,
        n <= u64::MAX,
        accepts(advanced_n(m, k, n), k, nonce, auth_ok),
    ensures
        nonce == n,
{
    lemma_nonce_monotonicity(m, k, n);
}

/// Replay rejection: once an attempt with nonce `nonce` has been accepted,
/// the very same attempt is no longer acceptable against the store it
/// produced, whatever its authentication would say; the engine reports it
/// as stale.
pub proof fn lemma_replay_rejected(
    m: Map<(int, Seq<u8>), u64>,
    k: (int, Seq<u8>),
    nonce: u64,
    auth_ok: bool,
    auth_ok_again: bool,
)
    requires
        nonce < u64::MAX,
        accepts(m, k, nonce, auth_ok),
    ensures
        !accepts(store_after(m, k, nonce, auth_ok), k, nonce, auth_ok_again),
        nonce != stored_nonce(store_after(m, k, nonce, auth_ok), k),
{
}

/// Binding completeness: two calls whose canonical payloads coincide
/// agree on the contract instance, the network, the nonce, the function
/// selector, and every argument. Changing any of these while reusing the
/// same signature bytes changes the message handed to the cryptographic
/// check.
pub proof fn lemma_call_binding(
    c1: AuthContext,
    n1: u64,
    s1: Seq<u8>,
    a1: Seq<ArgVal>,
    c2: AuthContext,
    n2: u64,
    s2: Seq<u8>,
    a2: Seq<ArgVal>,
)
    requires
        auth_payload(c1, n1, s1, a1) == auth_payload(c2, n2, s2, a2),
        c1.wf(),
        c2.wf(),
        s1.len() <= u64::MAX,
        s2.len() <= u64::MAX,
        a1.len() <= u64::MAX,
        a2.len() <= u64::MAX,
        args_wf(a1),
        args_wf(a2),
    ensures
        c1.contract_id@ == c2.contract_id@,
        c1.network_id@ == c2.network_id@,
        n1 == n2,
        s1 == s2,
        a1.len() == a2.len(),
        forall|i: int| 0 <= i < a1.len() ==> arg_key(#[trigger] a1[i]) == arg_key(a2[i]),
{
    lemma_payload_binding(c1.domain(), n1, s1, a1, c2.domain(), n2, s2, a2);
    lemma_domain_binding(c1.contract_id@, c1.network_id@, c2.contract_id@, c2.network_id@);
}

/// Atomicity under abort: when an invocation is rolled back, the store it
/// leaves is the pre-invocation store, so every identity's nonce reads as
/// it did before the invocation began, whatever was written meanwhile.
pub proof fn lemma_abort_preserves_nonce(
    pre: Map<(int, Seq<u8>), u64>,
    post: Map<(int, Seq<u8>), u64>,
    k: (int, Seq<u8>),
)
    ensures
        stored_nonce(committed(pre, post, false), k) == stored_nonce(pre, k),
{
}

} // verus!
