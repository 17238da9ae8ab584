use vstd::prelude::*;

verus! {

use soroban_env_host::{Env, EnvBase, TryFromVal};

// The runtime host and its value handles are opaque to the verifier: a
// handle only has meaning together with the host that issued it.

#[verifier::external_type_specification]
#[verifier::external_body]
pub struct ExHost(soroban_env_host::Host);

#[verifier::external_type_specification]
#[verifier::external_body]
pub struct ExAddressObject(soroban_env_host::AddressObject);

#[verifier::external_type_specification]
#[verifier::external_body]
pub struct ExVal(soroban_env_host::Val);

/// What strict Ed25519 verification says of a public key, a message and a
/// signature. The outcome is a pure function of the three byte strings;
/// nothing else about it is assumed.
pub uninterp spec fn sig_check(pk: Seq<u8>, msg: Seq<u8>, sig: Seq<u8>) -> bool;

/// Relies on Host::verify_sig_ed25519, which performs strict Ed25519
/// verification: its verdict depends on the key, message and signature
/// bytes alone. The host's metering limits are lifted first, so the call
/// cannot fail for budget reasons.
#[verifier::external_body]
pub(crate) fn ed25519_verify(
    host: &soroban_env_host::Host,
    pk: &Vec<u8>,
    msg: &Vec<u8>,
    sig: &Vec<u8>,
) -> (r: bool)
    ensures
        r == sig_check(pk@, msg@, sig@),
{
    let _ = host.budget_cloned().reset_unlimited();
    let k = host.bytes_new_from_slice(pk.as_slice());
    let m = host.bytes_new_from_slice(msg.as_slice());
    let s = host.bytes_new_from_slice(sig.as_slice());
    match (k, m, s) {
        (Ok(k), Ok(m), Ok(s)) => host.verify_sig_ed25519(k, m, s).is_ok(),
        _ => false,
    }
}

/// Relies on stellar_strkey::Contract::to_string and
/// Env::strkey_to_address: a 32-byte contract identifier renders as a
/// valid 'C...' strkey, which the host parses back into an address object
/// of this host.
#[verifier::external_body]
pub(crate) fn contract_address_obj(host: &soroban_env_host::Host, contract_id: &Vec<u8>) -> (r:
    Option<soroban_env_host::AddressObject>)
    requires
        contract_id@.len() == 32,
{
    let arr: [u8; 32] = match contract_id.as_slice().try_into() {
        Ok(a) => a,
        Err(_) => return None,
    };
    let sk = stellar_strkey::Contract(arr).to_string();
    match host.string_new_from_slice(sk.as_bytes()) {
        Ok(so) => host.strkey_to_address(so.to_val()).ok(),
        Err(_) => None,
    }
}

/// Relies on Env::call: invokes the authorization entry point of the
/// contract at the given address, handing it the payload. Whether that
/// contract grants the authorization depends on its own code and state, so
/// nothing is promised of the outcome.
#[verifier::external_body]
pub(crate) fn invoke_contract_auth(
    host: &soroban_env_host::Host,
    addr: soroban_env_host::AddressObject,
    payload: &Vec<u8>,
) -> (r: bool) {
    let pb = host.bytes_new_from_slice(payload.as_slice());
    let sym = host.symbol_new_from_slice(b"check_auth");
    match (pb, sym) {
        (Ok(pb), Ok(sym)) => match host.vec_new_from_slice(&[pb.to_val()]) {
            Ok(args) => host.call(addr, sym.into(), args).is_ok(),
            Err(_) => false,
        },
        _ => false,
    }
}

/// Relies on Env::obj_cmp, the host's canonical total order on its
/// objects: comparing a value with itself reports equality.
#[verifier::external_body]
pub(crate) fn host_obj_cmp(
    host: &soroban_env_host::Host,
    a: soroban_env_host::Val,
    b: soroban_env_host::Val,
) -> (r: Option<i64>)
    ensures
        a == b && r is Some ==> r == Some(0i64),
{
    match host.obj_cmp(a, b) {
        Ok(v) => Some(v),
        Err(_) => None,
    }
}

/// Relies on Env::require_auth, the host's native authorization check for
/// the current invocation. The verdict depends on host state, so nothing
/// is promised of it.
#[verifier::external_body]
pub(crate) fn host_require_auth(
    host: &soroban_env_host::Host,
    addr: soroban_env_host::AddressObject,
) -> bool {
    host.require_auth(addr).is_ok()
}

/// Relies on Env::require_auth_for_args, the host's native authorization
/// check for an explicitly supplied argument tuple. The verdict depends on
/// host state, so nothing is promised of it.
#[verifier::external_body]
pub(crate) fn host_require_auth_for_args(
    host: &soroban_env_host::Host,
    addr: soroban_env_host::AddressObject,
    vals: &Vec<soroban_env_host::Val>,
) -> bool {
    let vo = match host.vec_new_from_slice(vals.as_slice()) {
        Ok(v) => v,
        Err(_) => return false,
    };
    host.require_auth_for_args(addr, vo).is_ok()
}

/// Relies on Val::try_from_val for i64: represents the integer as a host
/// value of this host.
#[verifier::external_body]
pub(crate) fn host_val_from_i64(host: &soroban_env_host::Host, v: i64) -> (r: Option<
    soroban_env_host::Val,
>) {
    soroban_env_host::Val::try_from_val(host, &v).ok()
}

/// Relies on EnvBase::bytes_new_from_slice: represents the byte string as
/// a host value of this host.
#[verifier::external_body]
pub(crate) fn host_val_from_bytes(host: &soroban_env_host::Host, b: &Vec<u8>) -> (r: Option<
    soroban_env_host::Val,
>) {
    match host.bytes_new_from_slice(b.as_slice()) {
        Ok(o) => Some(o.to_val()),
        Err(_) => None,
    }
}

/// Whether a host value carries an address object: a tag check that is a
/// pure function of the value's bits.
pub uninterp spec fn val_is_address(v: soroban_env_host::Val) -> bool;

/// The raw value of an address object. The object wrapper holds the value
/// itself, so this is a pure function of the handle.
pub uninterp spec fn obj_val(o: soroban_env_host::AddressObject) -> soroban_env_host::Val;

/// Relies on AddressObject::try_from, a tag check on the value's bits: it
/// succeeds exactly when the value carries an address object, and the
/// object it returns is that very value under the address tag.
#[verifier::external_body]
pub(crate) fn host_val_to_address_obj(v: soroban_env_host::Val) -> (r: Option<
    soroban_env_host::AddressObject,
>)
    ensures
        r is Some <==> val_is_address(v),
        (r matches Some(o) ==> obj_val(o) == v),
{
    soroban_env_host::AddressObject::try_from(v).ok()
}

/// Relies on rand::random: 32 bytes from the thread-local generator.
/// Nothing is promised of their value.
#[verifier::external_body]
pub(crate) fn random_id_bytes() -> (r: Vec<u8>)
    ensures
        r@.len() == 32,
{
    let arr: [u8; 32] = rand::random();
    arr.to_vec()
}

} // verus!
