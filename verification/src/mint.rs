//! Recognizing an initialized token-issuance account from its stored bytes.
//!
//! The prerequisite check of initialization reads the native mint account's
//! data and asks whether the token-issuance system has bootstrapped it. The
//! stored layout is the token program's 82-byte mint record; this module
//! states exactly which byte strings parse as an initialized mint.

use solana_program::program_pack::Pack;
use vstd::prelude::*;

verus! {

/// The packed length of a mint record.
pub const MINT_DATA_LEN: usize = 82;

/// Whether `data` is the stored form of an initialized mint: 82 bytes, a
/// valid option tag at each authority slot, and the initialized flag set.
pub open spec fn mint_data_initialized(data: Seq<u8>) -> bool {
    &&& data.len() == MINT_DATA_LEN
    &&& (data.subrange(0, 4) == seq![0u8, 0, 0, 0] || data.subrange(0, 4) == seq![1u8, 0, 0, 0])
    &&& data[45] == 1
    &&& (data.subrange(46, 50) == seq![0u8, 0, 0, 0] || data.subrange(46, 50) == seq![
        1u8,
        0,
        0,
        0,
    ])
}

/// Relies on `Mint::unpack` of `spl-token`: it returns `Ok` exactly for an
/// 82-byte record whose two authority option tags are valid and whose
/// initialized flag is 1, and it never panics.
#[verifier::external_body]
pub(crate) fn mint_is_initialized(data: &Vec<u8>) -> (r: bool)
    ensures
        r == mint_data_initialized(data@),
{
    spl_token::state::Mint::unpack(data.as_slice()).is_ok()
}

} // verus!
