//! The laws of initialization, proved from the transition predicate
//! [`initialize_post`] that `initialize` ensures.

use vstd::prelude::*;

use crate::config::Config;
use crate::initialize::addresses_match;
use crate::initialize::initialize_post;
use crate::initialize::limit_allowed;
use crate::initialize::prerequisite_ok;
use crate::initialize::record_bound;
use crate::state::GatewayError;
use crate::state::Initialize;
use crate::state::Store;

verus! {

/// With no record yet, matching addresses, a bootstrapped upstream mint,
/// and an allowed limit, initialization succeeds and the committed record's
/// minting limit equals the requested one.
pub proof fn lemma_success_records_limit(
    cfg: Config,
    pre: Store,
    accounts: Initialize,
    minting_limit: u64,
    post: Store,
    r: Result<(), GatewayError>,
)
    requires
        initialize_post(cfg, pre, accounts, minting_limit, post, r),
        pre.custodian is None,
        addresses_match(cfg, accounts),
        prerequisite_ok(accounts),
        limit_allowed(cfg, minting_limit),
    ensures
        r is Ok,
        post.custodian matches Some(c) && c.minting_limit == minting_limit,
{
}

/// A committed record binds exactly the recomputed addresses and nonces:
/// initialization never stores an address it did not itself verify.
pub proof fn lemma_committed_record_is_derived(
    cfg: Config,
    pre: Store,
    accounts: Initialize,
    minting_limit: u64,
    post: Store,
    r: Result<(), GatewayError>,
)
    requires
        initialize_post(cfg, pre, accounts, minting_limit, post, r),
        r is Ok,
    ensures
        post.custodian matches Some(c) && record_bound(c, cfg, accounts.authority@, minting_limit),
{
}

/// After one successful initialization, every further attempt fails with
/// `AlreadyInitialized` and leaves the committed record untouched: the
/// record is created exactly once per deployment.
pub proof fn lemma_reinitialization_rejected(
    cfg: Config,
    pre: Store,
    first_accounts: Initialize,
    first_limit: u64,
    mid: Store,
    first_result: Result<(), GatewayError>,
    second_accounts: Initialize,
    second_limit: u64,
    post: Store,
    second_result: Result<(), GatewayError>,
)
    requires
        initialize_post(cfg, pre, first_accounts, first_limit, mid, first_result),
        first_result is Ok,
        initialize_post(cfg, mid, second_accounts, second_limit, post, second_result),
    ensures
        second_result == Err::<(), GatewayError>(GatewayError::AlreadyInitialized),
        post == mid,
{
}

/// Any single presented address that differs from its recomputed
/// counterpart fails the whole attempt with `DerivationMismatch`, and the
/// target stays absent.
pub proof fn lemma_mismatch_rejected(
    cfg: Config,
    pre: Store,
    accounts: Initialize,
    minting_limit: u64,
    post: Store,
    r: Result<(), GatewayError>,
)
    requires
        initialize_post(cfg, pre, accounts, minting_limit, post, r),
        pre.custodian is None,
        !addresses_match(cfg, accounts),
    ensures
        r == Err::<(), GatewayError>(GatewayError::DerivationMismatch),
        post == pre,
        post.custodian is None,
{
}

/// Initializing before the native token-issuance system has bootstrapped
/// its mint fails with `PrerequisiteNotInitialized`, with no state change.
pub proof fn lemma_missing_prerequisite_rejected(
    cfg: Config,
    pre: Store,
    accounts: Initialize,
    minting_limit: u64,
    post: Store,
    r: Result<(), GatewayError>,
)
    requires
        initialize_post(cfg, pre, accounts, minting_limit, post, r),
        pre.custodian is None,
        addresses_match(cfg, accounts),
        !prerequisite_ok(accounts),
    ensures
        r == Err::<(), GatewayError>(GatewayError::PrerequisiteNotInitialized),
        post == pre,
{
}

} // verus!
