//! Deploy-time configuration: seed tags, the foreign token identity, and the
//! addresses of the collaborating programs.
//!
//! The foreign-chain identifier and the 32-byte foreign-token identifier are
//! fixed constants of the build, never runtime input, so that a caller cannot
//! substitute another token. Program addresses are chosen once per deployment
//! and carried in a [`Config`] value.

use vstd::prelude::*;

use crate::addr::Address;

verus! {

/// Identifier of the foreign chain that issued the wrapped token.
pub const FOREIGN_TOKEN_CHAIN: u8 = 2;

/// The 32-byte identifier of the token contract on the foreign chain.
pub open spec fn foreign_token_address_spec() -> Seq<u8> {
    seq![
        0x00u8, 0x00, 0x00, 0x00, 0x00, 0x00, 0x00, 0x00, 0x00, 0x00, 0x00, 0x00, 0x18, 0x08,
        0x4f, 0xba, 0x66, 0x6a, 0x33, 0xd3, 0x75, 0x92, 0xfa, 0x26, 0x33, 0xfd, 0x49, 0xa7,
        0x4d, 0xd9, 0x3a, 0x88,
    ]
}

/// The 32-byte identifier of the token contract on the foreign chain.
pub fn foreign_token_address() -> (r: Vec<u8>)
    ensures
        r@ == foreign_token_address_spec(),
{
    let v: Vec<u8> = vec![
        0x00u8, 0x00, 0x00, 0x00, 0x00, 0x00, 0x00, 0x00, 0x00, 0x00, 0x00, 0x00, 0x18, 0x08,
        0x4f, 0xba, 0x66, 0x6a, 0x33, 0xd3, 0x75, 0x92, 0xfa, 0x26, 0x33, 0xfd, 0x49, 0xa7,
        0x4d, 0xd9, 0x3a, 0x88,
    ];
    assert(v@ =~= foreign_token_address_spec());
    v
}

/// Seed tag under which the custodian record itself is derived.
pub open spec fn custodian_tag_spec() -> Seq<u8> {
    seq![
        'c' as u8, 'u' as u8, 's' as u8, 't' as u8, 'o' as u8, 'd' as u8, 'i' as u8, 'a' as u8,
        'n' as u8,
    ]
}

/// Seed tag under which the custodian record itself is derived.
pub fn custodian_tag() -> (r: Vec<u8>)
    ensures
        r@ == custodian_tag_spec(),
{
    let v: Vec<u8> = vec![
        'c' as u8, 'u' as u8, 's' as u8, 't' as u8, 'o' as u8, 'd' as u8, 'i' as u8, 'a' as u8,
        'n' as u8,
    ];
    assert(v@ =~= custodian_tag_spec());
    v
}

/// Seed tag of the native token's issuance account, scoped to the native
/// token program.
pub open spec fn native_mint_tag_spec() -> Seq<u8> {
    seq![
        't' as u8, 'b' as u8, 't' as u8, 'c' as u8, '-' as u8, 'm' as u8, 'i' as u8, 'n' as u8,
        't' as u8,
    ]
}

/// Seed tag of the native token's issuance account, scoped to the native
/// token program.
pub fn native_mint_tag() -> (r: Vec<u8>)
    ensures
        r@ == native_mint_tag_spec(),
{
    let v: Vec<u8> = vec![
        't' as u8, 'b' as u8, 't' as u8, 'c' as u8, '-' as u8, 'm' as u8, 'i' as u8, 'n' as u8,
        't' as u8,
    ];
    assert(v@ =~= native_mint_tag_spec());
    v
}

/// Leading seed tag of the wrapped-token issuance account; the foreign chain
/// and foreign token identifiers complete its seed set.
pub open spec fn wrapped_mint_tag_spec() -> Seq<u8> {
    seq!['w' as u8, 'r' as u8, 'a' as u8, 'p' as u8, 'p' as u8, 'e' as u8, 'd' as u8]
}

/// Leading seed tag of the wrapped-token issuance account.
pub fn wrapped_mint_tag() -> (r: Vec<u8>)
    ensures
        r@ == wrapped_mint_tag_spec(),
{
    let v: Vec<u8> = vec![
        'w' as u8, 'r' as u8, 'a' as u8, 'p' as u8, 'p' as u8, 'e' as u8, 'd' as u8,
    ];
    assert(v@ =~= wrapped_mint_tag_spec());
    v
}

/// Seed tag of the local escrow account that holds wrapped tokens.
pub open spec fn escrow_tag_spec() -> Seq<u8> {
    seq![
        'w' as u8, 'r' as u8, 'a' as u8, 'p' as u8, 'p' as u8, 'e' as u8, 'd' as u8, '-' as u8,
        't' as u8, 'o' as u8, 'k' as u8, 'e' as u8, 'n' as u8,
    ]
}

/// Seed tag of the local escrow account that holds wrapped tokens.
pub fn escrow_tag() -> (r: Vec<u8>)
    ensures
        r@ == escrow_tag_spec(),
{
    let v: Vec<u8> = vec![
        'w' as u8, 'r' as u8, 'a' as u8, 'p' as u8, 'p' as u8, 'e' as u8, 'd' as u8, '-' as u8,
        't' as u8, 'o' as u8, 'k' as u8, 'e' as u8, 'n' as u8,
    ];
    assert(v@ =~= escrow_tag_spec());
    v
}

/// Seed tag of the bridge's outbound signing authority, scoped to the bridge
/// program.
pub open spec fn bridge_sender_tag_spec() -> Seq<u8> {
    seq!['s' as u8, 'e' as u8, 'n' as u8, 'd' as u8, 'e' as u8, 'r' as u8]
}

/// Seed tag of the bridge's outbound signing authority.
pub fn bridge_sender_tag() -> (r: Vec<u8>)
    ensures
        r@ == bridge_sender_tag_spec(),
{
    let v: Vec<u8> = vec!['s' as u8, 'e' as u8, 'n' as u8, 'd' as u8, 'e' as u8, 'r' as u8];
    assert(v@ =~= bridge_sender_tag_spec());
    v
}

/// Seed tag of the bridge's inbound signing authority, scoped to the bridge
/// program.
pub open spec fn bridge_redeemer_tag_spec() -> Seq<u8> {
    seq![
        'r' as u8, 'e' as u8, 'd' as u8, 'e' as u8, 'e' as u8, 'm' as u8, 'e' as u8, 'r' as u8,
    ]
}

/// Seed tag of the bridge's inbound signing authority.
pub fn bridge_redeemer_tag() -> (r: Vec<u8>)
    ensures
        r@ == bridge_redeemer_tag_spec(),
{
    let v: Vec<u8> = vec![
        'r' as u8, 'e' as u8, 'd' as u8, 'e' as u8, 'e' as u8, 'm' as u8, 'e' as u8, 'r' as u8,
    ];
    assert(v@ =~= bridge_redeemer_tag_spec());
    v
}

/// Per-deployment configuration: the gateway program's own address, the
/// addresses of the two collaborating programs, and an optional hard ceiling
/// on the minting limit.
pub struct Config {
    /// Address of this gateway program; local accounts derive under it.
    pub gateway_program: Address,
    /// Address of the native token program that issues the canonical token.
    pub native_token_program: Address,
    /// Address of the cross-chain message bridge program.
    pub bridge_program: Address,
    /// Hard protocol ceiling on `minting_limit`, when one is configured.
    pub minting_ceiling: Option<u64>,
}

impl Config {
    /// A configuration is well formed when all three program addresses are.
    pub open spec fn wf(&self) -> bool {
        &&& self.gateway_program.wf()
        &&& self.native_token_program.wf()
        &&& self.bridge_program.wf()
    }

    /// Builds a configuration from three program addresses and an optional
    /// minting ceiling; rejects malformed addresses.
    pub fn new(
        gateway_program: Address,
        native_token_program: Address,
        bridge_program: Address,
        minting_ceiling: Option<u64>,
    ) -> (r: Option<Config>)
        ensures
            (gateway_program.wf() && native_token_program.wf() && bridge_program.wf()) ==> (
            r matches Some(c) && c.wf() && c.gateway_program@ == gateway_program@
                && c.native_token_program@ == native_token_program@ && c.bridge_program@
                == bridge_program@ && c.minting_ceiling == minting_ceiling),
            !(gateway_program.wf() && native_token_program.wf() && bridge_program.wf())
                ==> r is None,
    {
        if gateway_program.bytes.len() == crate::addr::ADDRESS_LEN
            && native_token_program.bytes.len() == crate::addr::ADDRESS_LEN
            && bridge_program.bytes.len() == crate::addr::ADDRESS_LEN {
            Some(
                Config {
                    gateway_program,
                    native_token_program,
                    bridge_program,
                    minting_ceiling,
                },
            )
        } else {
            None
        }
    }
}

} // verus!
