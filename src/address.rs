//! Addresses and their deterministic derivation.
use vstd::bytes::{spec_u64_to_le_bytes, u64_to_le_bytes};
use crate::codec::{i64_le, i64_to_bits};
use vstd::prelude::*;

verus! {

/// A 32-byte account address.
#[derive(Clone, Copy, Debug, PartialEq, Eq)]
pub struct Address {
    pub bytes: [u8; 32],
}

impl View for Address {
    type V = Seq<u8>;

    open spec fn view(&self) -> Seq<u8> {
        self.bytes@
    }
}

impl Address {
    /// Whether two addresses are the same.
    pub fn same_as(&self, other: &Address) -> (r: bool)
        ensures
            r == (self@ == other@),
    {
        let mut i: usize = 0;
        while i < 32
            invariant
                i <= 32,
                self@.len() == 32,
                other@.len() == 32,
                forall|j: int| 0 <= j < i ==> self@[j] == other@[j],
            decreases 32 - i,
        {
            if self.bytes[i] != other.bytes[i] {
                return false;
            }
            i = i + 1;
        }
        assert(self@ =~= other@);
        true
    }
}

/// What a list of seeds is to the derivation: the bytes of each seed.
pub open spec fn seeds_view(seeds: Seq<Vec<u8>>) -> Seq<Seq<u8>> {
    seeds.map_values(|s: Vec<u8>| s@)
}

/// The address that the ledger runtime derives from `seeds` under the
/// program `program`, or `None` where the seeds admit no such address
/// (the hash lands on the curve, or the seeds are too many or too long).
pub uninterp spec fn program_address(seeds: Seq<Seq<u8>>, program: Seq<u8>) -> Option<Seq<u8>>;

/// The most seeds a derivation takes.
pub const MAX_SEEDS: usize = 16;

/// The longest seed a derivation takes.
pub const MAX_SEED_LEN: usize = 32;

/// Whether `seeds` are within the derivation's limits.
pub open spec fn seeds_within_limits(seeds: Seq<Seq<u8>>) -> bool {
    &&& seeds.len() <= MAX_SEEDS
    &&& forall|i: int| 0 <= i < seeds.len() ==> #[trigger] seeds[i].len() <= MAX_SEED_LEN
}

/// The canonical derivation searched from bump `bump` downwards: the first
/// bump (largest first, never 0) whose seed appended to `seeds` yields an
/// address, with that address.
pub open spec fn search_bump(seeds: Seq<Seq<u8>>, program: Seq<u8>, bump: nat) -> Option<(Seq<u8>, u8)>
    decreases bump,
{
    if bump == 0 {
        None
    } else {
        match program_address(seeds.push(seq![bump as u8]), program) {
            Some(a) => Some((a, bump as u8)),
            None => search_bump(seeds, program, (bump - 1) as nat),
        }
    }
}

/// The canonical derived address of `seeds` under `program` and its bump seed.
pub open spec fn canonical_address(seeds: Seq<Seq<u8>>, program: Seq<u8>) -> Option<(Seq<u8>, u8)> {
    search_bump(seeds, program, 255)
}

/// The view of a derived address and its bump.
pub open spec fn found_view(r: Option<(Address, u8)>) -> Option<(Seq<u8>, u8)> {
    match r {
        Some((a, b)) => Some((a@, b)),
        None => None,
    }
}

/// Relies on `Pubkey::create_program_address`: it refuses more than
/// `MAX_SEEDS` seeds or a seed longer than `MAX_SEED_LEN`, and otherwise
/// returns what the hash of the seeds and the program gives.
#[verifier::external_body]
fn create_program_address_raw(seeds: &Vec<Vec<u8>>, program_id: &Address) -> (r: Option<Address>)
    ensures
        r matches Some(a) ==> program_address(seeds_view(seeds@), program_id@) == Some(a@),
        r is None ==> program_address(seeds_view(seeds@), program_id@) is None,
        !seeds_within_limits(seeds_view(seeds@)) ==> r is None,
{
    let refs: Vec<&[u8]> = seeds.iter().map(|s| s.as_slice()).collect();
    let program = solana_program::pubkey::Pubkey::new_from_array(program_id.bytes);
    match solana_program::pubkey::Pubkey::create_program_address(&refs, &program) {
        Ok(k) => Some(Address { bytes: k.to_bytes() }),
        Err(_) => None,
    }
}

/// Relies on `Pubkey::try_find_program_address`: it tries the bump seeds
/// 255 down to 1, each appended to `seeds`, and returns the first that
/// `create_program_address` accepts, with its address.
#[verifier::external_body]
fn try_find_program_address_raw(seeds: &Vec<Vec<u8>>, program_id: &Address) -> (r: Option<(Address, u8)>)
    ensures
        found_view(r) == canonical_address(seeds_view(seeds@), program_id@),
{
    let refs: Vec<&[u8]> = seeds.iter().map(|s| s.as_slice()).collect();
    let program = solana_program::pubkey::Pubkey::new_from_array(program_id.bytes);
    solana_program::pubkey::Pubkey::try_find_program_address(&refs, &program)
        .map(|(k, bump)| (Address { bytes: k.to_bytes() }, bump))
}

/// Relies on `spl_associated_token_account::get_associated_token_address`:
/// the canonical derivation of (wallet, token program, mint) under the
/// associated-token program; it panics where no bump seed exists.
#[verifier::external_body]
fn associated_token_address_raw(wallet: &Address, mint: &Address) -> (r: Address)
    requires
        canonical_address(associated_seeds(wallet@, mint@), associated_token_program_bytes()) is Some,
    ensures
        r@ == canonical_address(associated_seeds(wallet@, mint@), associated_token_program_bytes()).unwrap().0,
{
    let w = solana_program::pubkey::Pubkey::new_from_array(wallet.bytes);
    let m = solana_program::pubkey::Pubkey::new_from_array(mint.bytes);
    Address { bytes: spl_associated_token_account::get_associated_token_address(&w, &m).to_bytes() }
}

/// The token program's address, `TokenkegQfeZyiNwAJbNbGKPFXCWuBvf9Ss623VQ5DA`.
pub open spec fn token_program_bytes() -> Seq<u8> {
    seq![
        6u8, 221, 246, 225, 215, 101, 161, 147, 217, 203, 225, 70, 206, 235, 121, 172,
        28, 180, 133, 237, 95, 91, 55, 145, 58, 140, 245, 133, 126, 255, 0, 169,
    ]
}

/// The associated-token program's address,
/// `ATokenGPvbdGVxr1b2hvZbsiqW5xWH25efTNsLJA8knL`.
pub open spec fn associated_token_program_bytes() -> Seq<u8> {
    seq![
        140u8, 151, 37, 143, 78, 36, 137, 241, 187, 61, 16, 41, 20, 142, 13, 131,
        11, 90, 19, 153, 218, 255, 16, 132, 4, 142, 123, 216, 219, 233, 248, 89,
    ]
}

/// The rent sysvar's address, `SysvarRent111111111111111111111111111111111`.
pub open spec fn rent_sysvar_bytes() -> Seq<u8> {
    seq![
        6u8, 167, 213, 23, 25, 44, 92, 81, 33, 140, 201, 76, 61, 74, 241, 127,
        88, 218, 238, 8, 155, 161, 253, 68, 227, 219, 217, 138, 0, 0, 0, 0,
    ]
}

/// The system program's address, `11111111111111111111111111111111`.
pub open spec fn system_program_bytes() -> Seq<u8> {
    Seq::new(32, |i: int| 0u8)
}

/// Relies on `spl_token::id`: the token program's well-known address.
#[verifier::external_body]
pub(crate) fn token_program_id() -> (r: Address)
    ensures
        r@ == token_program_bytes(),
{
    Address { bytes: spl_token::id().to_bytes() }
}

/// Relies on `spl_associated_token_account::id`: the associated-token
/// program's well-known address.
#[verifier::external_body]
pub(crate) fn associated_token_program_id() -> (r: Address)
    ensures
        r@ == associated_token_program_bytes(),
{
    Address { bytes: spl_associated_token_account::id().to_bytes() }
}

/// Relies on `solana_program::sysvar::rent::id`: the rent sysvar's address.
#[verifier::external_body]
pub(crate) fn rent_sysvar_id() -> (r: Address)
    ensures
        r@ == rent_sysvar_bytes(),
{
    Address { bytes: solana_program::sysvar::rent::id().to_bytes() }
}

/// Relies on `solana_program::system_program::id`: the system program's address.
#[verifier::external_body]
pub(crate) fn system_program_id() -> (r: Address)
    ensures
        r@ == system_program_bytes(),
{
    Address { bytes: solana_program::system_program::id().to_bytes() }
}

/// The seeds of an associated token account: wallet, token program, mint.
pub open spec fn associated_seeds(wallet: Seq<u8>, mint: Seq<u8>) -> Seq<Seq<u8>> {
    seq![wallet, token_program_bytes(), mint]
}

/// The bytes of `b"subscription_counter"`.
pub open spec fn counter_label() -> Seq<u8> {
    seq![115u8, 117, 98, 115, 99, 114, 105, 112, 116, 105, 111, 110, 95, 99, 111, 117, 110, 116, 101, 114]
}

/// The bytes of `b"subscription_metadata"`.
pub open spec fn metadata_label() -> Seq<u8> {
    seq![115u8, 117, 98, 115, 99, 114, 105, 112, 116, 105, 111, 110, 95, 109, 101, 116, 97, 100, 97, 116, 97]
}

/// The bytes of `b"subscription_mint"`.
pub open spec fn mint_label() -> Seq<u8> {
    seq![115u8, 117, 98, 115, 99, 114, 105, 112, 116, 105, 111, 110, 95, 109, 105, 110, 116]
}

/// The bytes of `b"subscription_registry"`.
pub open spec fn registry_label() -> Seq<u8> {
    seq![115u8, 117, 98, 115, 99, 114, 105, 112, 116, 105, 111, 110, 95, 114, 101, 103, 105, 115, 116, 114, 121]
}

/// Seeds of the registry of plans.
pub open spec fn registry_seeds_spec() -> Seq<Seq<u8>> {
    seq![registry_label()]
}

/// Seeds of the counter of the plan `(payee, amount, duration)`.
pub open spec fn counter_seeds_spec(payee: Seq<u8>, amount: u64, duration: i64) -> Seq<Seq<u8>> {
    seq![counter_label(), payee, spec_u64_to_le_bytes(amount), i64_le(duration)]
}

/// Seeds of the `count`-th subscription of the plan `(payee, amount, duration)`.
pub open spec fn subscription_seeds_spec(payee: Seq<u8>, amount: u64, duration: i64, count: u64) -> Seq<
    Seq<u8>,
> {
    seq![metadata_label(), payee, spec_u64_to_le_bytes(amount), i64_le(duration), spec_u64_to_le_bytes(count)]
}

/// Seeds of the credential mint of generation `generation` of a subscription.
pub open spec fn mint_seeds_spec(subscription: Seq<u8>, generation: u64) -> Seq<Seq<u8>> {
    seq![mint_label(), subscription, spec_u64_to_le_bytes(generation)]
}

fn label_counter() -> (r: Vec<u8>)
    ensures
        r@ == counter_label(),
{
    let r = vec![115u8, 117, 98, 115, 99, 114, 105, 112, 116, 105, 111, 110, 95, 99, 111, 117, 110, 116, 101, 114];
    assert(r@ =~= counter_label());
    r
}

fn label_metadata() -> (r: Vec<u8>)
    ensures
        r@ == metadata_label(),
{
    let r = vec![115u8, 117, 98, 115, 99, 114, 105, 112, 116, 105, 111, 110, 95, 109, 101, 116, 97, 100, 97, 116, 97];
    assert(r@ =~= metadata_label());
    r
}

fn label_mint() -> (r: Vec<u8>)
    ensures
        r@ == mint_label(),
{
    let r = vec![115u8, 117, 98, 115, 99, 114, 105, 112, 116, 105, 111, 110, 95, 109, 105, 110, 116];
    assert(r@ =~= mint_label());
    r
}

fn address_bytes(a: &Address) -> (r: Vec<u8>)
    ensures
        r@ == a@,
{
    let mut r: Vec<u8> = Vec::new();
    let mut i: usize = 0;
    while i < 32
        invariant
            i <= 32,
            a@.len() == 32,
            r@ == a@.subrange(0, i as int),
        decreases 32 - i,
    {
        r.push(a.bytes[i]);
        i = i + 1;
        assert(r@ =~= a@.subrange(0, i as int));
    }
    assert(a@.subrange(0, 32) =~= a@);
    r
}

/// Seeds of the registry of plans.
pub fn registry_seeds() -> (r: Vec<Vec<u8>>)
    ensures
        seeds_view(r@) == registry_seeds_spec(),
{
    let label = vec![115u8, 117, 98, 115, 99, 114, 105, 112, 116, 105, 111, 110, 95, 114, 101, 103, 105, 115, 116, 114, 121];
    assert(label@ =~= registry_label());
    let mut r: Vec<Vec<u8>> = Vec::new();
    r.push(label);
    assert(seeds_view(r@) =~= registry_seeds_spec());
    r
}

/// Seeds of the counter of the plan `(payee, amount, duration)`.
pub fn counter_seeds(payee: &Address, amount: u64, duration: i64) -> (r: Vec<Vec<u8>>)
    ensures
        seeds_view(r@) == counter_seeds_spec(payee@, amount, duration),
{
    let mut r: Vec<Vec<u8>> = Vec::new();
    r.push(label_counter());
    r.push(address_bytes(payee));
    r.push(u64_to_le_bytes(amount));
    r.push(u64_to_le_bytes(i64_to_bits(duration)));
    assert(seeds_view(r@) =~= counter_seeds_spec(payee@, amount, duration));
    r
}

/// Seeds of the `count`-th subscription of the plan `(payee, amount, duration)`.
pub fn subscription_seeds(payee: &Address, amount: u64, duration: i64, count: u64) -> (r: Vec<Vec<u8>>)
    ensures
        seeds_view(r@) == subscription_seeds_spec(payee@, amount, duration, count),
{
    let mut r: Vec<Vec<u8>> = Vec::new();
    r.push(label_metadata());
    r.push(address_bytes(payee));
    r.push(u64_to_le_bytes(amount));
    r.push(u64_to_le_bytes(i64_to_bits(duration)));
    r.push(u64_to_le_bytes(count));
    assert(seeds_view(r@) =~= subscription_seeds_spec(payee@, amount, duration, count));
    r
}

/// Seeds of the credential mint of generation `generation` of a subscription.
pub fn mint_seeds(subscription: &Address, generation: u64) -> (r: Vec<Vec<u8>>)
    ensures
        seeds_view(r@) == mint_seeds_spec(subscription@, generation),
{
    let mut r: Vec<Vec<u8>> = Vec::new();
    r.push(label_mint());
    r.push(address_bytes(subscription));
    r.push(u64_to_le_bytes(generation));
    assert(seeds_view(r@) =~= mint_seeds_spec(subscription@, generation));
    r
}

/// `seeds` with the bump seed `bump` appended.
pub fn with_bump(seeds: &Vec<Vec<u8>>, bump: u8) -> (r: Vec<Vec<u8>>)
    ensures
        seeds_view(r@) == seeds_view(seeds@).push(seq![bump]),
{
    let mut r: Vec<Vec<u8>> = Vec::new();
    let mut i: usize = 0;
    while i < seeds.len()
        invariant
            i <= seeds@.len(),
            r@.len() == i,
            forall|j: int| 0 <= j < i ==> #[trigger] r@[j]@ == seeds@[j]@,
        decreases seeds@.len() - i,
    {
        let c = seeds[i].clone();
        assert(c@ =~= seeds@[i as int]@);
        r.push(c);
        i = i + 1;
    }
    let b = vec![bump];
    assert(b@ =~= seq![bump]);
    let ghost before = r@;
    assert(seeds_view(before) =~= seeds_view(seeds@));
    r.push(b);
    assert(r@ == before.push(b));
    assert(seeds_view(r@) =~= seeds_view(seeds@).push(seq![bump]));
    r
}

/// The canonical address derived from `seeds` under `program_id`, with its
/// bump seed; `None` where no bump seed yields an address.
pub fn find_program_address(seeds: &Vec<Vec<u8>>, program_id: &Address) -> (r: Option<(Address, u8)>)
    ensures
        found_view(r) == canonical_address(seeds_view(seeds@), program_id@),
{
    try_find_program_address_raw(seeds, program_id)
}

/// The address derived from `seeds` (which carry their own bump seed)
/// under `program_id`; `None` where they yield none.
pub fn create_program_address(seeds: &Vec<Vec<u8>>, program_id: &Address) -> (r: Option<Address>)
    ensures
        r matches Some(a) ==> program_address(seeds_view(seeds@), program_id@) == Some(a@),
        r is None ==> program_address(seeds_view(seeds@), program_id@) is None,
{
    create_program_address_raw(seeds, program_id)
}

/// The address of the associated token account of `wallet` for `mint`:
/// the escrow vault of a subscription, or a party's holding of a currency
/// or a credential. `None` where the derivation admits no address.
pub fn associated_token_address(wallet: &Address, mint: &Address) -> (r: Option<Address>)
    ensures
        r matches Some(a) ==> canonical_address(associated_seeds(wallet@, mint@), associated_token_program_bytes())
            == Some((a@, canonical_address(associated_seeds(wallet@, mint@), associated_token_program_bytes()).unwrap().1)),
        r is None <==> canonical_address(associated_seeds(wallet@, mint@), associated_token_program_bytes()) is None,
{
    // The lookup below panics where no bump seed exists; the search tells
    // first whether one does.
    let mut seeds: Vec<Vec<u8>> = Vec::new();
    seeds.push(address_bytes(wallet));
    seeds.push(address_bytes(&token_program_id()));
    seeds.push(address_bytes(mint));
    assert(seeds_view(seeds@) =~= associated_seeds(wallet@, mint@));
    let program = associated_token_program_id();
    match find_program_address(&seeds, &program) {
        None => None,
        Some(_) => Some(associated_token_address_raw(wallet, mint)),
    }
}

} // verus!
