//! The custodian record, the caller-presented account set, the error
//! taxonomy, and the create-once store that persists the record.

use vstd::prelude::*;

use crate::addr::Address;

verus! {

/// The distinct, named failure conditions of initialization. Every failure
/// is detected before any write, so an operator can tell which precondition
/// was violated.
#[derive(Clone, Copy, Debug, PartialEq, Eq, Structural)]
pub enum GatewayError {
    /// A caller-presented address does not equal the recomputed derivation
    /// for its role, or the role has no derivable address.
    DerivationMismatch,
    /// The native token-issuance system has not completed its own bootstrap.
    PrerequisiteNotInitialized,
    /// A custodian record already exists at the target address.
    AlreadyInitialized,
    /// The minting limit lies above the configured hard ceiling.
    InvalidConfiguration,
}

/// The immutable custodian record: the root of trust every later transfer
/// operation reads. Every address field equals the value the derivation
/// function recomputes for its role; the record never stores a value the
/// initializer did not verify.
pub struct Custodian {
    /// Proof-of-derivation nonce of the record's own address.
    pub bump: u8,
    /// The identity permitted to administer the gateway.
    pub authority: Address,
    /// Address of the native token's canonical issuance account.
    pub native_mint: Address,
    /// Address of the wrapped token's issuance account.
    pub wrapped_mint: Address,
    /// Address of the escrow account holding wrapped tokens.
    pub wrapped_token_account: Address,
    /// Address of the bridge's outbound signing authority.
    pub bridge_sender: Address,
    /// Proof-of-derivation nonce of the outbound authority.
    pub bridge_sender_bump: u8,
    /// Address bound for the bridge's inbound signing authority.
    pub bridge_redeemer: Address,
    /// Proof-of-derivation nonce of the inbound authority.
    pub bridge_redeemer_bump: u8,
    /// Upper bound on outstanding wrapped-token supply this gateway may
    /// mint; caller-supplied, never defaulted.
    pub minting_limit: u64,
}

impl Custodian {
    /// All held addresses are well formed.
    pub open spec fn wf(&self) -> bool {
        &&& self.authority.wf()
        &&& self.native_mint.wf()
        &&& self.wrapped_mint.wf()
        &&& self.wrapped_token_account.wf()
        &&& self.bridge_sender.wf()
        &&& self.bridge_redeemer.wf()
    }
}

/// The account references a caller presents at initialization. None of them
/// is trusted: each must match its recomputed derivation before anything is
/// written.
pub struct Initialize {
    /// The identity paying for and signing the initialization.
    pub authority: Address,
    /// Claimed address of the custodian record itself.
    pub custodian: Address,
    /// Claimed address of the native token's issuance account.
    pub native_mint: Address,
    /// Stored data of the native token's issuance account, as read from the
    /// substrate; evidence of whether that system has been bootstrapped.
    pub native_mint_data: Vec<u8>,
    /// Claimed address of the wrapped token's issuance account.
    pub wrapped_mint: Address,
    /// Claimed address of the escrow token account.
    pub wrapped_token_account: Address,
    /// Claimed address of the bridge's outbound signing authority.
    pub bridge_sender: Address,
    /// Claimed address of the bridge's inbound signing authority.
    pub bridge_redeemer: Address,
}

/// The durable, address-indexed storage slot of the custodian record. The
/// substrate serializes writers on one address, so create-if-absent is the
/// only coordination the record needs.
pub struct Store {
    /// The record, once one was committed; `None` while uninitialized.
    pub custodian: Option<Custodian>,
}

impl Store {
    /// The store of a fresh deployment, holding no record.
    pub fn empty() -> (r: Store)
        ensures
            r.custodian is None,
    {
        Store { custodian: None }
    }

    /// Whether a record has been committed.
    pub fn is_initialized(&self) -> (r: bool)
        ensures
            r == (self.custodian is Some),
    {
        match self.custodian {
            Some(_) => true,
            None => false,
        }
    }

    /// Commits `record` if and only if no record exists yet; a second commit
    /// fails and leaves the existing record untouched.
    pub fn create(&mut self, record: Custodian) -> (r: Result<(), GatewayError>)
        ensures
            old(self).custodian is None ==> r is Ok && final(self).custodian == Some(record),
            old(self).custodian is Some ==> r == Err::<(), GatewayError>(
                GatewayError::AlreadyInitialized,
            ) && *final(self) == *old(self),
    {
        match self.custodian {
            Some(_) => Err(GatewayError::AlreadyInitialized),
            None => {
                self.custodian = Some(record);
                Ok(())
            },
        }
    }
}

} // verus!
