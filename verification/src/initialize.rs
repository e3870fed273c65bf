//! One-time initialization: recompute every address, cross-check the
//! caller's references, confirm the upstream bootstrap, assemble the
//! custodian record, and commit it exactly once.
//!
//! The whole flow is a single synchronous attempt. Every failure is detected
//! before the write, is reported as a distinct error, and leaves the store
//! unchanged; [`initialize_post`] states the full transition.

use vstd::prelude::*;

use crate::addr::Address;
use crate::adf::DerivedAccounts;
use crate::adf::all_derivable;
use crate::adf::bridge_redeemer_pda;
use crate::adf::bridge_sender_pda;
use crate::adf::custodian_pda;
use crate::adf::derive_accounts;
use crate::adf::escrow_pda;
use crate::adf::native_mint_pda;
use crate::adf::wrapped_mint_pda;
use crate::config::Config;
use crate::mint::mint_data_initialized;
use crate::mint::mint_is_initialized;
use crate::state::Custodian;
use crate::state::GatewayError;
use crate::state::Initialize;
use crate::state::Store;

verus! {

/// Every caller-presented address equals the value recomputed for its role,
/// and every role has a derivable address.
pub open spec fn addresses_match(cfg: Config, accounts: Initialize) -> bool {
    &&& all_derivable(cfg)
    &&& custodian_pda(cfg) matches Some(p) && accounts.custodian@ == p.0
    &&& native_mint_pda(cfg) matches Some(p) && accounts.native_mint@ == p.0
    &&& wrapped_mint_pda(cfg) matches Some(p) && accounts.wrapped_mint@ == p.0
    &&& escrow_pda(cfg) matches Some(p) && accounts.wrapped_token_account@ == p.0
    &&& bridge_sender_pda(cfg) matches Some(p) && accounts.bridge_sender@ == p.0
    &&& bridge_redeemer_pda(cfg) matches Some(p) && accounts.bridge_redeemer@ == p.0
}

/// The native token-issuance system has bootstrapped its mint account.
pub open spec fn prerequisite_ok(accounts: Initialize) -> bool {
    mint_data_initialized(accounts.native_mint_data@)
}

/// The requested minting limit lies at or below the configured hard ceiling,
/// when one is configured.
pub open spec fn limit_allowed(cfg: Config, minting_limit: u64) -> bool {
    match cfg.minting_ceiling {
        Some(ceiling) => minting_limit <= ceiling,
        None => true,
    }
}

/// The committed record binds exactly the recomputed addresses and nonces,
/// the given authority, and the given minting limit. The inbound-authority
/// address field records the outbound authority's address, as the gateway
/// has always written it; confirm intent before changing that binding.
pub open spec fn record_bound(
    c: Custodian,
    cfg: Config,
    authority: Seq<u8>,
    minting_limit: u64,
) -> bool {
    &&& custodian_pda(cfg) matches Some(p) && c.bump == p.1
    &&& c.authority@ == authority
    &&& native_mint_pda(cfg) matches Some(p) && c.native_mint@ == p.0
    &&& wrapped_mint_pda(cfg) matches Some(p) && c.wrapped_mint@ == p.0
    &&& escrow_pda(cfg) matches Some(p) && c.wrapped_token_account@ == p.0
    &&& bridge_sender_pda(cfg) matches Some(p) && c.bridge_sender@ == p.0
        && c.bridge_sender_bump == p.1
    &&& bridge_sender_pda(cfg) matches Some(p) && c.bridge_redeemer@ == p.0
    &&& bridge_redeemer_pda(cfg) matches Some(p) && c.bridge_redeemer_bump == p.1
    &&& c.minting_limit == minting_limit
}

/// The full transition of one initialization attempt: which error each
/// precondition violation yields, that every failure leaves the store
/// unchanged, and what a committed record binds.
pub open spec fn initialize_post(
    cfg: Config,
    pre: Store,
    accounts: Initialize,
    minting_limit: u64,
    post: Store,
    r: Result<(), GatewayError>,
) -> bool {
    &&& pre.custodian is Some ==> r == Err::<(), GatewayError>(GatewayError::AlreadyInitialized)
        && post == pre
    &&& pre.custodian is None && !addresses_match(cfg, accounts) ==> r == Err::<(),
        GatewayError,
    >(GatewayError::DerivationMismatch) && post == pre
    &&& pre.custodian is None && addresses_match(cfg, accounts) && !prerequisite_ok(accounts)
        ==> r == Err::<(), GatewayError>(GatewayError::PrerequisiteNotInitialized) && post == pre
    &&& pre.custodian is None && addresses_match(cfg, accounts) && prerequisite_ok(accounts)
        && !limit_allowed(cfg, minting_limit) ==> r == Err::<(), GatewayError>(
        GatewayError::InvalidConfiguration,
    ) && post == pre
    &&& pre.custodian is None && addresses_match(cfg, accounts) && prerequisite_ok(accounts)
        && limit_allowed(cfg, minting_limit) ==> r is Ok && (post.custodian matches Some(c)
        && c.wf() && record_bound(c, cfg, accounts.authority@, minting_limit))
}

/// The dependency verifier: recomputes every address, compares each
/// caller-presented reference against it, and confirms the upstream mint is
/// bootstrapped. Fails closed on the first violated precondition.
pub fn verify_accounts(cfg: &Config, accounts: &Initialize) -> (r: Result<
    DerivedAccounts,
    GatewayError,
>)
    requires
        cfg.wf(),
    ensures
        (r matches Ok(d) ==> d.wf() && d.derived_from(*cfg)),
        (r is Ok) == (addresses_match(*cfg, *accounts) && prerequisite_ok(*accounts)),
        !addresses_match(*cfg, *accounts) ==> r == Err::<DerivedAccounts, GatewayError>(
            GatewayError::DerivationMismatch,
        ),
        addresses_match(*cfg, *accounts) && !prerequisite_ok(*accounts) ==> r == Err::<
            DerivedAccounts,
            GatewayError,
        >(GatewayError::PrerequisiteNotInitialized),
{
    let derived = match derive_accounts(cfg) {
        Some(d) => d,
        None => {
            return Err(GatewayError::DerivationMismatch);
        },
    };
    if !accounts.custodian.eq_bytes(&derived.custodian) {
        return Err(GatewayError::DerivationMismatch);
    }
    if !accounts.native_mint.eq_bytes(&derived.native_mint) {
        return Err(GatewayError::DerivationMismatch);
    }
    if !accounts.wrapped_mint.eq_bytes(&derived.wrapped_mint) {
        return Err(GatewayError::DerivationMismatch);
    }
    if !accounts.wrapped_token_account.eq_bytes(&derived.escrow) {
        return Err(GatewayError::DerivationMismatch);
    }
    if !accounts.bridge_sender.eq_bytes(&derived.bridge_sender) {
        return Err(GatewayError::DerivationMismatch);
    }
    if !accounts.bridge_redeemer.eq_bytes(&derived.bridge_redeemer) {
        return Err(GatewayError::DerivationMismatch);
    }
    if !mint_is_initialized(&accounts.native_mint_data) {
        return Err(GatewayError::PrerequisiteNotInitialized);
    }
    Ok(derived)
}

/// The record builder: pure assembly of verified addresses, nonces, the
/// authority, and the minting limit; rejects a limit above the configured
/// ceiling and performs no other verification.
pub fn build_custodian(
    cfg: &Config,
    derived: &DerivedAccounts,
    authority: &Address,
    minting_limit: u64,
) -> (r: Result<Custodian, GatewayError>)
    requires
        cfg.wf(),
        derived.wf(),
        derived.derived_from(*cfg),
        authority.wf(),
    ensures
        limit_allowed(*cfg, minting_limit) ==> (r matches Ok(c) && c.wf() && record_bound(
            c,
            *cfg,
            authority@,
            minting_limit,
        )),
        !limit_allowed(*cfg, minting_limit) ==> r == Err::<Custodian, GatewayError>(
            GatewayError::InvalidConfiguration,
        ),
{
    if let Some(ceiling) = cfg.minting_ceiling {
        if minting_limit > ceiling {
            return Err(GatewayError::InvalidConfiguration);
        }
    }
    // The inbound-authority address is bound to the outbound authority's
    // key, as the gateway has always written it; confirm intent before
    // changing this to `derived.bridge_redeemer`.
    Ok(
        Custodian {
            bump: derived.custodian_bump,
            authority: authority.duplicate(),
            native_mint: derived.native_mint.duplicate(),
            wrapped_mint: derived.wrapped_mint.duplicate(),
            wrapped_token_account: derived.escrow.duplicate(),
            bridge_sender: derived.bridge_sender.duplicate(),
            bridge_sender_bump: derived.bridge_sender_bump,
            bridge_redeemer: derived.bridge_sender.duplicate(),
            bridge_redeemer_bump: derived.bridge_redeemer_bump,
            minting_limit,
        },
    )
}

/// One initialization attempt: verify, build, and commit, atomically. The
/// full transition, including which error each violated precondition yields
/// and that every failure leaves the store unchanged, is
/// [`initialize_post`].
pub fn initialize(
    store: &mut Store,
    cfg: &Config,
    accounts: &Initialize,
    minting_limit: u64,
) -> (r: Result<(), GatewayError>)
    requires
        cfg.wf(),
        accounts.authority.wf(),
    ensures
        initialize_post(*cfg, *old(store), *accounts, minting_limit, *final(store), r),
{
    if store.is_initialized() {
        return Err(GatewayError::AlreadyInitialized);
    }
    let derived = match verify_accounts(cfg, accounts) {
        Ok(d) => d,
        Err(e) => {
            return Err(e);
        },
    };
    let record = match build_custodian(cfg, &derived, &accounts.authority, minting_limit) {
        Ok(c) => c,
        Err(e) => {
            return Err(e);
        },
    };
    store.create(record)
}

} // verus!
