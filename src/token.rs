//! Token accounts of the value-transfer service, as the protocol reads them.
use crate::address::Address;
use crate::error::ProcessError;
use solana_program::program_pack::Pack;
use vstd::bytes::spec_u64_from_le_bytes;
use vstd::prelude::*;

verus! {

#[verifier::external_type_specification]
#[verifier::external_body]
pub struct ExProgramError(solana_program::program_error::ProgramError);

/// The fields of a token account that the protocol reads.
#[derive(Debug, Clone, Copy, PartialEq, Eq)]
pub struct TokenAccount {
    /// The currency or credential the account holds.
    pub mint: Address,
    /// The account's holder.
    pub owner: Address,
    /// The units it holds.
    pub amount: u64,
}

/// The size of a token account's data.
pub const TOKEN_ACCOUNT_LEN: usize = 165;

/// Whether four bytes are the tag of an optional field: absent or present.
pub open spec fn option_tag_ok(t: Seq<u8>) -> bool {
    t == seq![0u8, 0u8, 0u8, 0u8] || t == seq![1u8, 0u8, 0u8, 0u8]
}

/// Whether `d` has the layout of a token account: 165 bytes, whose optional
/// delegate, native-reserve and close-authority fields carry valid tags and
/// whose state byte is uninitialized, initialized or frozen.
pub open spec fn token_account_layout_ok(d: Seq<u8>) -> bool {
    &&& d.len() == TOKEN_ACCOUNT_LEN
    &&& option_tag_ok(d.subrange(72, 76))
    &&& d[108] <= 2
    &&& option_tag_ok(d.subrange(109, 113))
    &&& option_tag_ok(d.subrange(129, 133))
}

/// The currency bytes of a token account's data.
pub open spec fn token_mint_bytes(d: Seq<u8>) -> Seq<u8> {
    d.subrange(0, 32)
}

/// The holder bytes of a token account's data.
pub open spec fn token_owner_bytes(d: Seq<u8>) -> Seq<u8> {
    d.subrange(32, 64)
}

/// The balance of a token account's data.
pub open spec fn token_amount(d: Seq<u8>) -> u64 {
    spec_u64_from_le_bytes(d.subrange(64, 72))
}

/// Relies on `spl_token::state::Account::unpack_unchecked`: it refuses data
/// that is not 165 bytes or whose tags or state byte are invalid, and reads
/// the currency, holder and little-endian balance at offsets 0, 32 and 64.
#[verifier::external_body]
fn unpack_token_account_raw(data: &[u8]) -> (r: Result<TokenAccount, solana_program::program_error::ProgramError>)
    ensures
        r is Ok <==> token_account_layout_ok(data@),
        r matches Ok(t) ==> t.mint@ == token_mint_bytes(data@) && t.owner@ == token_owner_bytes(data@)
            && t.amount == token_amount(data@),
{
    spl_token::state::Account::unpack_unchecked(data).map(|a| TokenAccount {
        mint: Address { bytes: a.mint.to_bytes() },
        owner: Address { bytes: a.owner.to_bytes() },
        amount: a.amount,
    })
}

/// Reads a token account's data; `InvalidAccountData` where its layout is wrong.
pub fn unpack_token_account(data: &[u8]) -> (r: Result<TokenAccount, ProcessError>)
    ensures
        r is Ok <==> token_account_layout_ok(data@),
        r is Err ==> r == Err::<TokenAccount, ProcessError>(ProcessError::InvalidAccountData),
        r matches Ok(t) ==> t.mint@ == token_mint_bytes(data@) && t.owner@ == token_owner_bytes(data@)
            && t.amount == token_amount(data@),
{
    match unpack_token_account_raw(data) {
        Ok(t) => Ok(t),
        Err(_) => Err(ProcessError::InvalidAccountData),
    }
}

} // verus!
