//! The protocol's stored records and their byte format.
use crate::address::Address;
use crate::codec::{
    all_zero32, append_address, append_bytes, append_u64, bits_to_i64, i64_le, i64_to_bits,
    lemma_i64_bits_injective, read_address, read_u64, zeros32,
};
use crate::error::SubscriptionError;
use vstd::bytes::{lemma_auto_spec_u64_to_from_le_bytes, spec_u64_to_le_bytes};
use vstd::prelude::*;

verus! {

/// One billing-plan instance.
#[derive(Debug, Clone, Copy, PartialEq, Eq)]
pub struct Subscription {
    /// Whether the vault backed the last renewal attempt.
    pub active: bool,
    /// The currently valid ownership credential, absent before the first renewal.
    pub mint: Option<Address>,
    /// The escrow account holding the deposited funds.
    pub deposit_vault: Address,
    /// The currency that the vault accepts.
    pub deposit_mint: Address,
    /// The recipient of renewal payouts.
    pub payee: Address,
    /// The account that created the subscription; it owns the subscription
    /// until a first credential exists.
    pub payer: Address,
    /// What each successful renewal pays.
    pub amount: u64,
    /// Seconds between renewals.
    pub duration: i64,
    /// The earliest time at which a renewal may succeed.
    pub next_renew_time: i64,
    /// The number of credential rotations so far, the next credential's generation.
    pub renewal_count: u64,
    /// The subscription's position among those of its plan, from which its
    /// address is derived.
    pub count: u64,
}

/// The number of subscriptions ever created for one `(payee, amount, duration)`.
#[derive(Debug, Clone, Copy, PartialEq, Eq)]
pub struct Counter {
    pub count: u64,
}

/// A counter record that also keeps its address's bump seed.
#[derive(Debug, Clone, Copy, PartialEq, Eq)]
pub struct Counter2 {
    pub bump: u8,
    pub count: u64,
}

/// A subscription record that also keeps its address's bump seed, and whose
/// credential mint is fixed at creation.
#[derive(Debug, Clone, Copy, PartialEq, Eq)]
pub struct Subscription2 {
    pub bump: u8,
    pub active: bool,
    pub mint: Address,
    pub deposit_vault: Address,
    pub deposit_mint: Address,
    pub payee: Address,
    pub amount: u64,
    pub duration: i64,
    pub next_renew_time: i64,
}

/// The version byte that starts every subscription record.
pub const RECORD_VERSION: u8 = 2;

/// The size of a subscription record in bytes.
pub const SUBSCRIPTION_LEN: usize = 203;

/// The size of a counter record in bytes.
pub const COUNTER_LEN: usize = 8;

/// The size of a `Counter2` record in bytes.
pub const COUNTER2_LEN: usize = 9;

pub open spec fn bool_byte(b: bool) -> u8 {
    if b {
        1
    } else {
        0
    }
}

/// An optional address as a tag byte and 32 bytes, zero when absent.
pub open spec fn optional_address_bytes(a: Option<Address>) -> Seq<u8> {
    match a {
        Some(k) => seq![1u8] + k@,
        None => seq![0u8] + zeros32(),
    }
}

/// The stored form of a subscription: version, active flag, credential,
/// vault, currency, payee, payer, amount, duration, next renewal time,
/// renewal count and position, integers little-endian.
pub open spec fn subscription_bytes(s: Subscription) -> Seq<u8> {
    seq![RECORD_VERSION, bool_byte(s.active)] + optional_address_bytes(s.mint) + s.deposit_vault@
        + s.deposit_mint@ + s.payee@ + s.payer@ + spec_u64_to_le_bytes(s.amount) + i64_le(s.duration) + i64_le(
        s.next_renew_time,
    ) + spec_u64_to_le_bytes(s.renewal_count) + spec_u64_to_le_bytes(s.count)
}

/// Whether `d` is the stored form of some subscription.
pub open spec fn subscription_record_ok(d: Seq<u8>) -> bool {
    &&& d.len() == SUBSCRIPTION_LEN
    &&& d[0] == RECORD_VERSION
    &&& d[1] <= 1
    &&& d[2] <= 1
    &&& d[2] == 0 ==> d.subrange(3, 35) == zeros32()
}

/// What loading a subscription account's data gives.
pub open spec fn load_subscription_spec(d: Seq<u8>) -> Result<Subscription, SubscriptionError> {
    if d.len() == 0 {
        Err(SubscriptionError::NotInitialized)
    } else if !subscription_record_ok(d) {
        Err(SubscriptionError::CorruptRecord)
    } else {
        Ok(choose|s: Subscription| subscription_bytes(s) == d)
    }
}

/// The stored form of a counter: its count, little-endian.
pub open spec fn counter_bytes(c: Counter) -> Seq<u8> {
    spec_u64_to_le_bytes(c.count)
}

/// The stored form of a `Counter2`: bump seed, then count.
pub open spec fn counter2_bytes(c: Counter2) -> Seq<u8> {
    seq![c.bump] + spec_u64_to_le_bytes(c.count)
}

/// The fields of a subscription's stored form, each at its offset.
proof fn lemma_subscription_fields(s: Subscription)
    ensures
        subscription_bytes(s).len() == SUBSCRIPTION_LEN,
        subscription_bytes(s)[0] == RECORD_VERSION,
        subscription_bytes(s)[1] == bool_byte(s.active),
        subscription_bytes(s).subrange(2, 35) == optional_address_bytes(s.mint),
        subscription_bytes(s).subrange(35, 67) == s.deposit_vault@,
        subscription_bytes(s).subrange(67, 99) == s.deposit_mint@,
        subscription_bytes(s).subrange(99, 131) == s.payee@,
        subscription_bytes(s).subrange(131, 163) == s.payer@,
        subscription_bytes(s).subrange(163, 171) == spec_u64_to_le_bytes(s.amount),
        subscription_bytes(s).subrange(171, 179) == i64_le(s.duration),
        subscription_bytes(s).subrange(179, 187) == i64_le(s.next_renew_time),
        subscription_bytes(s).subrange(187, 195) == spec_u64_to_le_bytes(s.renewal_count),
        subscription_bytes(s).subrange(195, 203) == spec_u64_to_le_bytes(s.count),
{
    lemma_auto_spec_u64_to_from_le_bytes();
    let d = subscription_bytes(s);
    let m = optional_address_bytes(s.mint);
    assert(m.len() == 33);
    assert(s.deposit_vault@.len() == 32);
    assert(s.deposit_mint@.len() == 32);
    assert(s.payee@.len() == 32);
    assert(s.payer@.len() == 32);
    assert(d.subrange(2, 35) =~= m);
    assert(d.subrange(35, 67) =~= s.deposit_vault@);
    assert(d.subrange(67, 99) =~= s.deposit_mint@);
    assert(d.subrange(99, 131) =~= s.payee@);
    assert(d.subrange(131, 163) =~= s.payer@);
    assert(d.subrange(163, 171) =~= spec_u64_to_le_bytes(s.amount));
    assert(d.subrange(171, 179) =~= i64_le(s.duration));
    assert(d.subrange(179, 187) =~= i64_le(s.next_renew_time));
    assert(d.subrange(187, 195) =~= spec_u64_to_le_bytes(s.renewal_count));
    assert(d.subrange(195, 203) =~= spec_u64_to_le_bytes(s.count));
}

/// Two subscriptions with the same stored form are the same.
pub proof fn lemma_subscription_bytes_injective(s: Subscription, t: Subscription)
    requires
        subscription_bytes(s) == subscription_bytes(t),
    ensures
        s == t,
{
    lemma_auto_spec_u64_to_from_le_bytes();
    lemma_subscription_fields(s);
    lemma_subscription_fields(t);
    let d = subscription_bytes(s);
    assert(s.deposit_vault.bytes =~= t.deposit_vault.bytes) by {
        assert(s.deposit_vault@ == t.deposit_vault@);
    }
    assert(s.deposit_mint.bytes =~= t.deposit_mint.bytes) by {
        assert(s.deposit_mint@ == t.deposit_mint@);
    }
    assert(s.payee.bytes =~= t.payee.bytes) by {
        assert(s.payee@ == t.payee@);
    }
    assert(s.payer.bytes =~= t.payer.bytes) by {
        assert(s.payer@ == t.payer@);
    }
    let ms = optional_address_bytes(s.mint);
    let mt = optional_address_bytes(t.mint);
    assert(ms == mt);
    assert(ms[0] == mt[0]);
    if let Some(a) = s.mint {
        if let Some(b) = t.mint {
            assert(a@ =~= ms.subrange(1, 33));
            assert(b@ =~= mt.subrange(1, 33));
            assert(a.bytes =~= b.bytes) by {
                assert(a@ == b@);
            }
        }
    }
    assert(s.amount == t.amount);
    assert(s.renewal_count == t.renewal_count);
    assert(s.count == t.count);
    lemma_i64_bits_injective(s.duration, t.duration);
    lemma_i64_bits_injective(s.next_renew_time, t.next_renew_time);
}

/// Every subscription's stored form is a well-formed record.
pub proof fn lemma_subscription_bytes_ok(s: Subscription)
    ensures
        subscription_record_ok(subscription_bytes(s)),
{
    lemma_subscription_fields(s);
    let d = subscription_bytes(s);
    assert(d[2] == optional_address_bytes(s.mint)[0]);
    let m = optional_address_bytes(s.mint);
    assert(d[2] == d.subrange(2, 35)[0]);
    if s.mint is None {
        assert(d.subrange(3, 35) =~= m.subrange(1, 33));
        assert(m.subrange(1, 33) =~= zeros32());
    } else {
        assert(m[0] == 1u8);
    }
}

/// Writes a subscription in its stored form.
pub fn encode_subscription(s: &Subscription) -> (r: Vec<u8>)
    ensures
        r@ == subscription_bytes(*s),
{
    let mut out: Vec<u8> = Vec::new();
    out.push(RECORD_VERSION);
    out.push(if s.active { 1u8 } else { 0u8 });
    match &s.mint {
        Some(k) => {
            out.push(1u8);
            append_address(&mut out, k);
        },
        None => {
            out.push(0u8);
            let z = [0u8; 32];
            assert(z@ =~= zeros32());
            append_bytes(&mut out, &z);
        },
    }
    append_address(&mut out, &s.deposit_vault);
    append_address(&mut out, &s.deposit_mint);
    append_address(&mut out, &s.payee);
    append_address(&mut out, &s.payer);
    append_u64(&mut out, s.amount);
    append_u64(&mut out, i64_to_bits(s.duration));
    append_u64(&mut out, i64_to_bits(s.next_renew_time));
    append_u64(&mut out, s.renewal_count);
    append_u64(&mut out, s.count);
    assert(out@ =~= subscription_bytes(*s));
    out
}

/// Reads a subscription account's data: `NotInitialized` where it is empty,
/// `CorruptRecord` where it is not the stored form of a subscription.
pub fn decode_subscription(data: &[u8]) -> (r: Result<Subscription, SubscriptionError>)
    ensures
        r == load_subscription_spec(data@),
        r matches Ok(s) ==> subscription_bytes(s) == data@,
{
    if data.len() == 0 {
        return Err(SubscriptionError::NotInitialized);
    }
    if data.len() != SUBSCRIPTION_LEN || data[0] != RECORD_VERSION || data[1] > 1 || data[2] > 1 {
        return Err(SubscriptionError::CorruptRecord);
    }
    let mint = if data[2] == 1 {
        Some(read_address(data, 3))
    } else {
        if !all_zero32(data, 3) {
            return Err(SubscriptionError::CorruptRecord);
        }
        None
    };
    let amount = read_u64(data, 163);
    let duration = read_u64(data, 171);
    let next_renew_time = read_u64(data, 179);
    let s = Subscription {
        active: data[1] == 1,
        mint,
        deposit_vault: read_address(data, 35),
        deposit_mint: read_address(data, 67),
        payee: read_address(data, 99),
        payer: read_address(data, 131),
        amount,
        duration: bits_to_i64(duration),
        next_renew_time: bits_to_i64(next_renew_time),
        renewal_count: read_u64(data, 187),
        count: read_u64(data, 195),
    };
    proof {
        let d = data@;
        if data[2] == 1 {
            assert(optional_address_bytes(s.mint) =~= d.subrange(2, 35));
        } else {
            assert(optional_address_bytes(s.mint) =~= d.subrange(2, 35));
        }
        assert(subscription_bytes(s) =~= d);
        assert(subscription_record_ok(d));
        let c = choose|t: Subscription| subscription_bytes(t) == d;
        lemma_subscription_bytes_injective(s, c);
    }
    Ok(s)
}

/// Writes a counter in its stored form.
pub fn encode_counter(c: &Counter) -> (r: Vec<u8>)
    ensures
        r@ == counter_bytes(*c),
{
    vstd::bytes::u64_to_le_bytes(c.count)
}

/// Reads a counter record: `None` where the data is not 8 bytes.
pub fn decode_counter(data: &[u8]) -> (r: Option<Counter>)
    ensures
        r is Some <==> data@.len() == COUNTER_LEN,
        r matches Some(c) ==> counter_bytes(c) == data@,
{
    if data.len() != COUNTER_LEN {
        return None;
    }
    let count = read_u64(data, 0);
    assert(data@.subrange(0, 8) =~= data@);
    Some(Counter { count })
}

/// Writes a `Counter2` in its stored form.
pub fn encode_counter2(c: &Counter2) -> (r: Vec<u8>)
    ensures
        r@ == counter2_bytes(*c),
{
    let mut out: Vec<u8> = Vec::new();
    out.push(c.bump);
    append_u64(&mut out, c.count);
    assert(out@ =~= counter2_bytes(*c));
    out
}

/// Reads a `Counter2` record: `None` where the data is not 9 bytes.
pub fn decode_counter2(data: &[u8]) -> (r: Option<Counter2>)
    ensures
        r is Some <==> data@.len() == COUNTER2_LEN,
        r matches Some(c) ==> counter2_bytes(c) == data@,
{
    if data.len() != COUNTER2_LEN {
        return None;
    }
    let count = read_u64(data, 1);
    let c = Counter2 { bump: data[0], count };
    assert(counter2_bytes(c) =~= data@);
    Some(c)
}

/// Decoding gives back every subscription that was encoded.
pub proof fn lemma_subscription_round_trip(s: Subscription)
    ensures
        load_subscription_spec(subscription_bytes(s)) == Ok::<Subscription, SubscriptionError>(s),
{
    lemma_subscription_bytes_ok(s);
    let d = subscription_bytes(s);
    let c = choose|t: Subscription| subscription_bytes(t) == d;
    assert(subscription_bytes(s) == d);
    lemma_subscription_bytes_injective(s, c);
}

} // verus!
