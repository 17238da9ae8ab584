use vstd::prelude::*;

use crate::codec::push_ident;
use crate::context::AuthContext;
use crate::errors::AuthError;
use crate::hostio::{
    host_obj_cmp, host_require_auth, host_require_auth_for_args, host_val_from_bytes,
    host_val_from_i64, host_val_to_address_obj, obj_val, random_id_bytes, val_is_address,
};
use crate::identity::ArgVal;
use vstd::pervasive::unreached;

verus! {


/// The outcome of comparing two addresses of the same runtime context.
#[derive(Clone, Copy, Debug, PartialEq, Eq, Structural)]
pub enum AddressOrder {
    Less,
    Equal,
    Greater,
}

/// The order named by the sign of the host's comparison verdict.
pub open spec fn order_of_sign(c: i64) -> AddressOrder {
    if c < 0 {
        AddressOrder::Less
    } else if c > 0 {
        AddressOrder::Greater
    } else {
        AddressOrder::Equal
    }
}

/// Maps the host's comparison verdict to an order.
fn sign_to_order(c: i64) -> (r: AddressOrder)
    ensures
        r == order_of_sign(c),
{
    if c < 0 {
        AddressOrder::Less
    } else if c > 0 {
        AddressOrder::Greater
    } else {
        AddressOrder::Equal
    }
}

/// An opaque identity handle over either an account or a contract, held
/// by reference to the runtime context it was created in. Ordering and
/// equality are delegated to that runtime's canonical comparison of the
/// underlying object; two addresses are comparable only inside one
/// context.
pub struct Address {
    pub ctx: AuthContext,
    pub obj: soroban_env_host::AddressObject,
    pub raw: soroban_env_host::Val,
}

impl Address {
    /// A coherent address: the stored raw value is the value of the
    /// stored object and carries the address tag. Every constructor of
    /// this crate establishes it.
    pub open spec fn wf(&self) -> bool {
        self.raw == obj_val(self.obj) && val_is_address(self.raw)
    }

    /// Builds the address of the contract with the given 32-byte
    /// identifier, under the given context.
    pub fn from_contract_id(env: &AuthContext, contract_id: &Vec<u8>) -> (r: Option<Address>)
        ensures
            r is Some <==> contract_id@.len() == 32,
            (r matches Some(a) ==> a.ctx == *env && a.wf()),
    {
        if contract_id.len() == 32 {
            Some(Self::host_new_contract_address(env, contract_id))
        } else {
            None
        }
    }

    /// Relies on Env::strkey_to_address through `contract_address_obj`:
    /// with the host's metering limits lifted first, a well-formed 32-byte
    /// identifier always parses, so the object is there to unwrap. The raw
    /// field is set to the object's own value, which carries the address
    /// tag.
    #[verifier::external_body]
    fn host_new_contract_address(env: &AuthContext, contract_id: &Vec<u8>) -> (r: Address)
        requires
            contract_id@.len() == 32,
        ensures
            r.ctx == *env,
            r.raw == obj_val(r.obj),
            val_is_address(r.raw),
    {
        let _ = env.host.budget_cloned().reset_unlimited();
        let obj = crate::hostio::contract_address_obj(&env.host, contract_id).unwrap();
        Address { ctx: env.clone_ctx(), obj, raw: obj.to_val() }
    }

    /// Builds an address of the given context from fresh random identity
    /// bytes. Meant for tests and simulations; nothing is promised of
    /// which address comes out.
    pub fn random(env: &AuthContext) -> (r: Address)
        ensures
            r.ctx == *env,
            r.wf(),
    {
        let bytes = random_id_bytes();
        match Self::from_contract_id(env, &bytes) {
            Some(a) => a,
            None => unreached(),
        }
    }

    /// Interprets a raw host value of this context as an address. It
    /// succeeds exactly when the value carries an address object, and
    /// fails with a conversion error otherwise.
    pub fn try_from_val(env: &AuthContext, val: soroban_env_host::Val) -> (r: Result<
        Address,
        AuthError,
    >)
        ensures
            r is Ok <==> val_is_address(val),
            (r matches Ok(a) ==> a.ctx == *env && a.raw == val && a.wf()),
            (r matches Err(e) ==> e == AuthError::ConversionError),
    {
        match host_val_to_address_obj(val) {
            Some(obj) => Ok(Address { ctx: env.clone_ctx(), obj, raw: val }),
            None => Err(AuthError::ConversionError),
        }
    }

    /// The context this address was created in.
    pub fn env(&self) -> (r: &AuthContext)
        ensures
            *r == self.ctx,
    {
        &self.ctx
    }

    /// The raw host value of this address, by reference.
    pub fn as_raw(&self) -> (r: &soroban_env_host::Val)
        ensures
            *r == self.raw,
    {
        &self.raw
    }

    /// The raw host value of this address.
    pub fn to_raw(&self) -> (r: soroban_env_host::Val)
        ensures
            r == self.raw,
    {
        self.raw
    }

    /// The underlying address object, by reference.
    pub fn as_object(&self) -> (r: &soroban_env_host::AddressObject)
        ensures
            *r == self.obj,
    {
        &self.obj
    }

    /// The underlying address object.
    pub fn to_object(&self) -> (r: soroban_env_host::AddressObject)
        ensures
            r == self.obj,
    {
        self.obj
    }

    /// Compares two addresses by the runtime's canonical order on their
    /// underlying objects: the sign of the host's verdict, read through
    /// `order_of_sign`.
    ///
    /// Cross-context isolation: addresses from different runtime contexts
    /// are never reported equal (or ordered at all) — the comparison is
    /// refused with a context mismatch, whatever the underlying bytes.
    /// Within one context the host decides; comparing a value with itself
    /// reports equality whenever the host answers at all.
    pub fn compare(&self, other: &Address) -> (r: Result<AddressOrder, AuthError>)
        ensures
            (self.ctx.id != other.ctx.id <==> r == Err::<AddressOrder, AuthError>(
                AuthError::ContextMismatch,
            )),
            self.ctx.id != other.ctx.id ==> r != Ok::<AddressOrder, AuthError>(
                AddressOrder::Equal,
            ),
            self.ctx.id == other.ctx.id ==> ((r matches Ok(_)) || r == Err::<
                AddressOrder,
                AuthError,
            >(AuthError::ConversionError)),
            (self.ctx.id == other.ctx.id && self.raw == other.raw) ==> (r == Ok::<
                AddressOrder,
                AuthError,
            >(AddressOrder::Equal) || r == Err::<AddressOrder, AuthError>(
                AuthError::ConversionError,
            )),
    {
        if self.ctx.id != other.ctx.id {
            return Err(AuthError::ContextMismatch);
        }
        match host_obj_cmp(&self.ctx.host, self.raw, other.raw) {
            Some(c) => Ok(sign_to_order(c)),
            None => Err(AuthError::ConversionError),
        }
    }

    /// Asserts that this address has authorized the current invocation
    /// with its own arguments, by the host's native authorization
    /// mechanism. The host performs the signature and replay checks; a
    /// refusal surfaces as a failed delegated check.
    pub fn require_auth(&self) -> (r: Result<(), AuthError>)
        ensures
            r == Ok::<(), AuthError>(()) || r == Err::<(), AuthError>(
                AuthError::NestedAuthorizationFailed,
            ),
    {
        if host_require_auth(&self.ctx.host, self.obj) {
            Ok(())
        } else {
            Err(AuthError::NestedAuthorizationFailed)
        }
    }

    /// Asserts that this address has authorized the current invocation
    /// with the explicitly supplied argument tuple, by the host's native
    /// authorization mechanism.
    pub fn require_auth_for_args(&self, args: &Vec<ArgVal>) -> (r: Result<(), AuthError>)
        ensures
            r == Ok::<(), AuthError>(()) || r == Err::<(), AuthError>(
                AuthError::NestedAuthorizationFailed,
            ) || r == Err::<(), AuthError>(AuthError::ConversionError),
    {
        let mut vals: Vec<soroban_env_host::Val> = Vec::new();
        let mut i: usize = 0;
        while i < args.len()
            decreases args@.len() - i,
        {
            let hv = match &args[i] {
                ArgVal::Int(v) => host_val_from_i64(&self.ctx.host, *v),
                ArgVal::Bytes(b) => host_val_from_bytes(&self.ctx.host, b),
                ArgVal::Ident(id) => {
                    let mut tmp: Vec<u8> = Vec::new();
                    push_ident(&mut tmp, id);
                    host_val_from_bytes(&self.ctx.host, &tmp)
                }
            };
            match hv {
                Some(v) => vals.push(v),
                None => {
                    return Err(AuthError::ConversionError);
                }
            }
            i += 1;
        }
        if host_require_auth_for_args(&self.ctx.host, self.obj, &vals) {
            Ok(())
        } else {
            Err(AuthError::NestedAuthorizationFailed)
        }
    }
}

} // verus!
