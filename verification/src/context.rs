use vstd::prelude::*;

use crate::codec::domain_of;

verus! {

/// The execution context of one contract invocation: a handle to the
/// runtime host together with the identifiers that the domain separator is
/// derived from. Every core operation takes the context explicitly; there
/// is no ambient global environment.
///
/// `id` distinguishes independent runtime contexts: values carrying
/// different ids were created under different hosts and must never be
/// compared. The embedding program is responsible for giving each host it
/// creates a distinct id.
pub struct AuthContext {
    pub id: u64,
    pub host: soroban_env_host::Host,
    pub contract_id: Vec<u8>,
    pub network_id: Vec<u8>,
}

impl AuthContext {
    /// A well-formed context carries 32-byte contract and network
    /// identifiers, as the platform defines them.
    pub open spec fn wf(&self) -> bool {
        self.contract_id@.len() == 32 && self.network_id@.len() == 32
    }

    /// The domain separator of this context: payloads signed under it are
    /// not portable to any other contract or network.
    pub open spec fn domain(&self) -> Seq<u8> {
        domain_of(self.contract_id@, self.network_id@)
    }

    /// Builds the context for a host, rejecting malformed identifiers.
    pub fn new(id: u64, host: soroban_env_host::Host, contract_id: Vec<u8>, network_id: Vec<u8>)
        -> (r: Option<AuthContext>)
        ensures
            r is Some <==> (contract_id@.len() == 32 && network_id@.len() == 32),
            (r matches Some(c) ==> c.id == id && c.contract_id@ == contract_id@
                && c.network_id@ == network_id@ && c.wf()),
    {
        if contract_id.len() == 32 && network_id.len() == 32 {
            Some(Self::assemble(id, host, contract_id, network_id))
        } else {
            None
        }
    }

    /// Relies on Budget::reset_unlimited: lifts the host's metering limits
    /// so that host calls made on behalf of this context never fail for
    /// budget reasons.
    #[verifier::external_body]
    fn assemble(id: u64, host: soroban_env_host::Host, contract_id: Vec<u8>, network_id: Vec<u8>)
        -> (r: AuthContext)
        ensures
            r.id == id,
            r.contract_id@ == contract_id@,
            r.network_id@ == network_id@,
    {
        let _ = host.budget_cloned().reset_unlimited();
        AuthContext { id, host, contract_id, network_id }
    }

    /// Relies on Host::clone: the cloned handle denotes the same host, so
    /// the copy is the same context.
    #[verifier::external_body]
    pub fn clone_ctx(&self) -> (r: AuthContext)
        ensures
            r == *self,
    {
        AuthContext {
            id: self.id,
            host: self.host.clone(),
            contract_id: self.contract_id.clone(),
            network_id: self.network_id.clone(),
        }
    }
}

} // verus!
