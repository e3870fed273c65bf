//! Address derivation: every account the gateway uses is recomputed from
//! fixed seed tags and a program address, never taken from the caller.
//!
//! Derivation is the storage substrate's seeded-hash search; its result is a
//! pure function of the seed list and the program address, named here by
//! [`pda_of`]. Each role's expected address is stated over that name, so the
//! rest of the library can compare caller-presented references against it.

use vstd::prelude::*;

use crate::addr::Address;
use crate::config::Config;
use crate::config::FOREIGN_TOKEN_CHAIN;
use crate::config::bridge_redeemer_tag;
use crate::config::bridge_redeemer_tag_spec;
use crate::config::bridge_sender_tag;
use crate::config::bridge_sender_tag_spec;
use crate::config::custodian_tag;
use crate::config::custodian_tag_spec;
use crate::config::escrow_tag;
use crate::config::escrow_tag_spec;
use crate::config::foreign_token_address;
use crate::config::foreign_token_address_spec;
use crate::config::native_mint_tag;
use crate::config::native_mint_tag_spec;
use crate::config::wrapped_mint_tag;
use crate::config::wrapped_mint_tag_spec;

verus! {

/// What the substrate's derivation returns for a seed list and a program
/// address: the derived address and its proof-of-derivation nonce, or nothing
/// when no nonce yields a usable address. A pure function of its arguments.
pub uninterp spec fn pda_of(seeds: Seq<Seq<u8>>, program_id: Seq<u8>) -> Option<(Seq<u8>, u8)>;

/// Relies on `Pubkey::try_find_program_address` of `solana-program`: the
/// search over bump nonces is deterministic in the seed list and the program
/// address, returns a 32-byte address, and never panics.
#[verifier::external_body]
fn try_derive(seeds: &Vec<Vec<u8>>, program_id: &Address) -> (r: Option<(Address, u8)>)
    requires
        program_id.wf(),
    ensures
        (r is Some) == (pda_of(seeds.deep_view(), program_id@) is Some),
        (r matches Some(p) ==> pda_of(seeds.deep_view(), program_id@) matches Some(q) && p.0@
            == q.0 && p.1 == q.1 && p.0.wf()),
{
    let slices: Vec<&[u8]> = seeds.iter().map(|s| s.as_slice()).collect();
    let mut arr = [0u8; 32];
    arr.copy_from_slice(&program_id.bytes);
    let pk = solana_program::pubkey::Pubkey::new_from_array(arr);
    solana_program::pubkey::Pubkey::try_find_program_address(&slices, &pk)
        .map(|(a, b)| (Address { bytes: a.to_bytes().to_vec() }, b))
}

/// Expected derivation of the custodian record's own address.
pub open spec fn custodian_pda(cfg: Config) -> Option<(Seq<u8>, u8)> {
    pda_of(seq![custodian_tag_spec()], cfg.gateway_program@)
}

/// Expected derivation of the native token's issuance account address.
pub open spec fn native_mint_pda(cfg: Config) -> Option<(Seq<u8>, u8)> {
    pda_of(seq![native_mint_tag_spec()], cfg.native_token_program@)
}

/// Expected derivation of the wrapped token's issuance account address.
pub open spec fn wrapped_mint_pda(cfg: Config) -> Option<(Seq<u8>, u8)> {
    pda_of(
        seq![wrapped_mint_tag_spec(), seq![FOREIGN_TOKEN_CHAIN], foreign_token_address_spec()],
        cfg.gateway_program@,
    )
}

/// Expected derivation of the local escrow token account address.
pub open spec fn escrow_pda(cfg: Config) -> Option<(Seq<u8>, u8)> {
    pda_of(seq![escrow_tag_spec()], cfg.gateway_program@)
}

/// Expected derivation of the bridge's outbound signing authority address.
pub open spec fn bridge_sender_pda(cfg: Config) -> Option<(Seq<u8>, u8)> {
    pda_of(seq![bridge_sender_tag_spec()], cfg.bridge_program@)
}

/// Expected derivation of the bridge's inbound signing authority address.
pub open spec fn bridge_redeemer_pda(cfg: Config) -> Option<(Seq<u8>, u8)> {
    pda_of(seq![bridge_redeemer_tag_spec()], cfg.bridge_program@)
}

/// All six roles have a derivable address under this configuration.
pub open spec fn all_derivable(cfg: Config) -> bool {
    &&& custodian_pda(cfg) is Some
    &&& native_mint_pda(cfg) is Some
    &&& wrapped_mint_pda(cfg) is Some
    &&& escrow_pda(cfg) is Some
    &&& bridge_sender_pda(cfg) is Some
    &&& bridge_redeemer_pda(cfg) is Some
}

/// The full set of derived addresses and nonces, one per role.
pub struct DerivedAccounts {
    pub custodian: Address,
    pub custodian_bump: u8,
    pub native_mint: Address,
    pub native_mint_bump: u8,
    pub wrapped_mint: Address,
    pub wrapped_mint_bump: u8,
    pub escrow: Address,
    pub escrow_bump: u8,
    pub bridge_sender: Address,
    pub bridge_sender_bump: u8,
    pub bridge_redeemer: Address,
    pub bridge_redeemer_bump: u8,
}

impl DerivedAccounts {
    /// All held addresses are well formed.
    pub open spec fn wf(&self) -> bool {
        &&& self.custodian.wf()
        &&& self.native_mint.wf()
        &&& self.wrapped_mint.wf()
        &&& self.escrow.wf()
        &&& self.bridge_sender.wf()
        &&& self.bridge_redeemer.wf()
    }

    /// Every field equals the value the derivation function yields for its
    /// role under `cfg`.
    pub open spec fn derived_from(&self, cfg: Config) -> bool {
        &&& custodian_pda(cfg) matches Some(p) && self.custodian@ == p.0 && self.custodian_bump
            == p.1
        &&& native_mint_pda(cfg) matches Some(p) && self.native_mint@ == p.0
            && self.native_mint_bump == p.1
        &&& wrapped_mint_pda(cfg) matches Some(p) && self.wrapped_mint@ == p.0
            && self.wrapped_mint_bump == p.1
        &&& escrow_pda(cfg) matches Some(p) && self.escrow@ == p.0 && self.escrow_bump == p.1
        &&& bridge_sender_pda(cfg) matches Some(p) && self.bridge_sender@ == p.0
            && self.bridge_sender_bump == p.1
        &&& bridge_redeemer_pda(cfg) matches Some(p) && self.bridge_redeemer@ == p.0
            && self.bridge_redeemer_bump == p.1
    }
}

/// Derives the address and nonce of every role under `cfg`. Returns `None`
/// exactly when some role has no derivable address, which the rest of the
/// library treats as a derivation mismatch.
pub fn derive_accounts(cfg: &Config) -> (r: Option<DerivedAccounts>)
    requires
        cfg.wf(),
    ensures
        (r is Some) == all_derivable(*cfg),
        (r matches Some(d) ==> d.wf() && d.derived_from(*cfg)),
{
    let mut custodian_seeds: Vec<Vec<u8>> = Vec::new();
    custodian_seeds.push(custodian_tag());
    assert(custodian_seeds.deep_view() =~~= seq![custodian_tag_spec()]);
    let custodian = try_derive(&custodian_seeds, &cfg.gateway_program);

    let mut native_mint_seeds: Vec<Vec<u8>> = Vec::new();
    native_mint_seeds.push(native_mint_tag());
    assert(native_mint_seeds.deep_view() =~~= seq![native_mint_tag_spec()]);
    let native_mint = try_derive(&native_mint_seeds, &cfg.native_token_program);

    let mut wrapped_mint_seeds: Vec<Vec<u8>> = Vec::new();
    wrapped_mint_seeds.push(wrapped_mint_tag());
    let chain: Vec<u8> = vec![FOREIGN_TOKEN_CHAIN];
    wrapped_mint_seeds.push(chain);
    wrapped_mint_seeds.push(foreign_token_address());
    assert(wrapped_mint_seeds.deep_view() =~~= seq![
        wrapped_mint_tag_spec(),
        seq![FOREIGN_TOKEN_CHAIN],
        foreign_token_address_spec(),
    ]);
    let wrapped_mint = try_derive(&wrapped_mint_seeds, &cfg.gateway_program);

    let mut escrow_seeds: Vec<Vec<u8>> = Vec::new();
    escrow_seeds.push(escrow_tag());
    assert(escrow_seeds.deep_view() =~~= seq![escrow_tag_spec()]);
    let escrow = try_derive(&escrow_seeds, &cfg.gateway_program);

    let mut sender_seeds: Vec<Vec<u8>> = Vec::new();
    sender_seeds.push(bridge_sender_tag());
    assert(sender_seeds.deep_view() =~~= seq![bridge_sender_tag_spec()]);
    let bridge_sender = try_derive(&sender_seeds, &cfg.bridge_program);

    let mut redeemer_seeds: Vec<Vec<u8>> = Vec::new();
    redeemer_seeds.push(bridge_redeemer_tag());
    assert(redeemer_seeds.deep_view() =~~= seq![bridge_redeemer_tag_spec()]);
    let bridge_redeemer = try_derive(&redeemer_seeds, &cfg.bridge_program);

    match (custodian, native_mint, wrapped_mint, escrow, bridge_sender, bridge_redeemer) {
        (Some(c), Some(n), Some(w), Some(e), Some(s), Some(r)) => Some(
            DerivedAccounts {
                custodian: c.0,
                custodian_bump: c.1,
                native_mint: n.0,
                native_mint_bump: n.1,
                wrapped_mint: w.0,
                wrapped_mint_bump: w.1,
                escrow: e.0,
                escrow_bump: e.1,
                bridge_sender: s.0,
                bridge_sender_bump: s.1,
                bridge_redeemer: r.0,
                bridge_redeemer_bump: r.1,
            },
        ),
        _ => None,
    }
}

/// Determinism of address derivation: any two results of the derivation
/// function on the same seed list and program address are the same pair.
pub proof fn lemma_derivation_deterministic(
    seeds: Seq<Seq<u8>>,
    program_id: Seq<u8>,
    r1: Option<(Seq<u8>, u8)>,
    r2: Option<(Seq<u8>, u8)>,
)
    requires
        r1 == pda_of(seeds, program_id),
        r2 == pda_of(seeds, program_id),
    ensures
        r1 == r2,
{
}

} // verus!
