//! The effects that an operation asks the ledger runtime to perform.
use crate::address::{
    counter_seeds, mint_seeds, registry_seeds, registry_seeds_spec, seeds_view, subscription_seeds, with_bump, counter_seeds_spec,
    mint_seeds_spec, subscription_seeds_spec, Address,
};
use crate::state::Subscription;
use vstd::prelude::*;

verus! {

/// A derived address that signs an effect: the runtime recomputes its
/// derivation from these values, which is the only authority it has.
#[derive(Debug, Clone, Copy, PartialEq, Eq)]
pub enum Signer {
    /// The counter of the plan `(payee, amount, duration)`.
    Counter { payee: Address, amount: u64, duration: i64, bump: u8 },
    /// The `count`-th subscription of the plan `(payee, amount, duration)`.
    Subscription { payee: Address, amount: u64, duration: i64, count: u64, bump: u8 },
    /// The credential mint of generation `generation` of `subscription`.
    Mint { subscription: Address, generation: u64, bump: u8 },
    /// The registry of plans.
    Registry { bump: u8 },
}

/// One effect on the ledger.
#[derive(Debug, Clone, Copy, PartialEq, Eq)]
pub enum Effect {
    /// Create the associated token account of `wallet` for `mint`, paid by `funder`.
    CreateTokenAccount { funder: Address, wallet: Address, mint: Address },
    /// Create an account of `space` bytes owned by `owner` at the address
    /// that `signer` derives, its storage deposit paid by `funder`.
    CreateAccount { funder: Address, account: Address, space: u64, owner: Address, signer: Signer },
    /// Store a subscription record in `account`.
    WriteSubscription { account: Address, record: Subscription },
    /// Store a counter record holding `count` in `account`.
    WriteCounter { account: Address, count: u64 },
    /// Move `amount` units from the token account `source` to `destination`
    /// on the authority of `authority`, which `signed_by` derives where given.
    Transfer { source: Address, destination: Address, authority: Address, amount: u64, signed_by: Option<Signer> },
    /// Create the credential mint `mint` at the address `signer` derives,
    /// with no decimals and `authority` as its mint authority, paid by `funder`.
    CreateCredentialMint { funder: Address, mint: Address, authority: Address, signer: Signer },
    /// Mint `amount` units of the credential `mint` to `destination`.
    MintCredential { mint: Address, destination: Address, authority: Address, amount: u64, signer: Signer },
    /// Remove the mint authority of `mint`: no further unit can ever be minted.
    FreezeCredentialSupply { mint: Address, authority: Address, signer: Signer },
    /// Close the empty token account `account`, its storage deposit going
    /// to `destination`.
    CloseTokenAccount { account: Address, destination: Address, authority: Address, signer: Signer },
    /// Zero the record in `account` and move its storage deposit to `destination`.
    CloseRecord { account: Address, destination: Address },
    /// Grow the program-owned `account` to `len` bytes, `funder` topping up
    /// its storage deposit.
    ResizeRecord { account: Address, funder: Address, len: u64 },
    /// Store the fingerprint of the plan `(payee, amount, duration)` at
    /// `offset` in the registry `account`.
    WriteRegistryEntry { account: Address, offset: u64, payee: Address, amount: u64, duration: i64 },
}

/// The seeds, bump seed included, that a signer derives its address from.
pub open spec fn signer_seeds_spec(s: Signer) -> Seq<Seq<u8>> {
    match s {
        Signer::Counter { payee, amount, duration, bump } => counter_seeds_spec(payee@, amount, duration).push(seq![bump]),
        Signer::Subscription { payee, amount, duration, count, bump } => subscription_seeds_spec(
            payee@,
            amount,
            duration,
            count,
        ).push(seq![bump]),
        Signer::Mint { subscription, generation, bump } => mint_seeds_spec(subscription@, generation).push(seq![bump]),
        Signer::Registry { bump } => registry_seeds_spec().push(seq![bump]),
    }
}

/// The seeds, bump seed included, that a signer derives its address from.
pub fn signer_seeds(s: &Signer) -> (r: Vec<Vec<u8>>)
    ensures
        seeds_view(r@) == signer_seeds_spec(*s),
{
    match s {
        Signer::Counter { payee, amount, duration, bump } => with_bump(&counter_seeds(payee, *amount, *duration), *bump),
        Signer::Subscription { payee, amount, duration, count, bump } => with_bump(
            &subscription_seeds(payee, *amount, *duration, *count),
            *bump,
        ),
        Signer::Mint { subscription, generation, bump } => with_bump(&mint_seeds(subscription, *generation), *bump),
        Signer::Registry { bump } => with_bump(&registry_seeds(), *bump),
    }
}

} // verus!
