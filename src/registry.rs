//! The registry of plans: an append-only set of plan fingerprints, one
//! per distinct `(payee, amount, duration)`, stored end to end.
use crate::address::Address;
use crate::codec::{append_address, append_u64, i64_le, i64_to_bits};
use crate::error::{ProcessError, SubscriptionError};
use vstd::arithmetic::div_mod::lemma_fundamental_div_mod;
use vstd::bytes::{lemma_auto_spec_u64_to_from_le_bytes, spec_u64_to_le_bytes};
use vstd::prelude::*;

verus! {

/// The size of one fingerprint: payee, amount, duration.
pub const FINGERPRINT_LEN: usize = 48;

/// The fingerprint of the plan `(payee, amount, duration)`.
pub open spec fn fingerprint_spec(payee: Seq<u8>, amount: u64, duration: i64) -> Seq<u8> {
    payee + spec_u64_to_le_bytes(amount) + i64_le(duration)
}

/// The `i`-th fingerprint stored in registry data `d`.
pub open spec fn entry(d: Seq<u8>, i: int) -> Seq<u8> {
    d.subrange(i * 48, i * 48 + 48)
}

/// Whether registry data `d` holds the fingerprint `fp`.
pub open spec fn is_registered_spec(d: Seq<u8>, fp: Seq<u8>) -> bool {
    exists|i: int| 0 <= i < d.len() / 48 && #[trigger] entry(d, i) == fp
}

/// Adding the fingerprint `fp` to registry data `d`: refused where the data
/// is not whole fingerprints or already holds `fp`, appended otherwise.
pub open spec fn register_spec(d: Seq<u8>, fp: Seq<u8>) -> Result<Seq<u8>, ProcessError> {
    if d.len() % 48 != 0 {
        Err(ProcessError::Subscription(SubscriptionError::CorruptRecord))
    } else if is_registered_spec(d, fp) {
        Err(ProcessError::Subscription(SubscriptionError::DuplicateRegistration))
    } else {
        Ok(d + fp)
    }
}

/// The fingerprint of the plan `(payee, amount, duration)`.
pub fn fingerprint(payee: &Address, amount: u64, duration: i64) -> (r: Vec<u8>)
    ensures
        r@ == fingerprint_spec(payee@, amount, duration),
        r@.len() == FINGERPRINT_LEN,
{
    proof {
        lemma_auto_spec_u64_to_from_le_bytes();
    }
    let mut out: Vec<u8> = Vec::new();
    append_address(&mut out, payee);
    append_u64(&mut out, amount);
    append_u64(&mut out, i64_to_bits(duration));
    assert(out@ =~= fingerprint_spec(payee@, amount, duration));
    out
}

fn entry_matches(d: &[u8], off: usize, fp: &[u8]) -> (r: bool)
    requires
        off + 48 <= d@.len(),
        fp@.len() == 48,
    ensures
        r == (d@.subrange(off as int, off + 48) == fp@),
{
    let _n = d.len();
    let mut j: usize = 0;
    while j < 48
        invariant
            j <= 48,
            off + 48 <= d@.len() <= usize::MAX,
            fp@.len() == 48,
            forall|t: int| 0 <= t < j ==> #[trigger] d@[off + t] == fp@[t],
        decreases 48 - j,
    {
        if d[off + j] != fp[j] {
            assert(d@.subrange(off as int, off + 48)[j as int] != fp@[j as int]);
            return false;
        }
        j = j + 1;
    }
    assert forall|t: int| 0 <= t < 48 implies d@.subrange(off as int, off + 48)[t] == fp@[t] by {
        assert(d@[off + t] == fp@[t]);
    }
    assert(d@.subrange(off as int, off + 48) =~= fp@);
    true
}

/// Whether the registry data holds the fingerprint `fp`.
pub fn is_registered(d: &[u8], fp: &[u8]) -> (r: bool)
    requires
        d@.len() % 48 == 0,
        fp@.len() == 48,
    ensures
        r == is_registered_spec(d@, fp@),
{
    let n = d.len() / FINGERPRINT_LEN;
    proof {
        lemma_fundamental_div_mod(d@.len() as int, 48);
    }
    let _len = d.len();
    let mut i: usize = 0;
    let mut off: usize = 0;
    while i < n
        invariant
            i <= n,
            off == 48 * i,
            d@.len() <= usize::MAX,
            n == d@.len() / 48,
            d@.len() == 48 * n,
            fp@.len() == 48,
            forall|k: int| 0 <= k < i ==> #[trigger] entry(d@, k) != fp@,
        decreases n - i,
    {
        if entry_matches(d, off, fp) {
            assert(entry(d@, i as int) == fp@);
            return true;
        }
        i = i + 1;
        off = off + FINGERPRINT_LEN;
    }
    false
}

/// Adds the fingerprint of the plan `(payee, amount, duration)` to the
/// registry data: the new data, or the reason it is refused.
pub fn register(d: &[u8], payee: &Address, amount: u64, duration: i64) -> (r: Result<Vec<u8>, ProcessError>)
    ensures
        r matches Ok(v) ==> register_spec(d@, fingerprint_spec(payee@, amount, duration)) == Ok::<Seq<u8>, ProcessError>(v@),
        r matches Err(e) ==> register_spec(d@, fingerprint_spec(payee@, amount, duration)) == Err::<Seq<u8>, ProcessError>(e),
{
    if d.len() % FINGERPRINT_LEN != 0 {
        return Err(ProcessError::Subscription(SubscriptionError::CorruptRecord));
    }
    let fp = fingerprint(payee, amount, duration);
    if is_registered(d, fp.as_slice()) {
        return Err(ProcessError::Subscription(SubscriptionError::DuplicateRegistration));
    }
    let mut out = vstd::slice::slice_to_vec(d);
    crate::codec::append_bytes(&mut out, fp.as_slice());
    Ok(out)
}

/// Registering keeps every earlier fingerprint in place and adds the new
/// one; registering the same plan again is refused.
pub proof fn lemma_register_appends_once(d: Seq<u8>, fp: Seq<u8>)
    requires
        fp.len() == 48,
        register_spec(d, fp) is Ok,
    ensures
        register_spec(d, fp).unwrap().subrange(0, d.len() as int) == d,
        register_spec(d, fp).unwrap().len() == d.len() + 48,
        is_registered_spec(register_spec(d, fp).unwrap(), fp),
        register_spec(register_spec(d, fp).unwrap(), fp) == Err::<Seq<u8>, ProcessError>(
            ProcessError::Subscription(SubscriptionError::DuplicateRegistration),
        ),
{
    let d2 = d + fp;
    lemma_fundamental_div_mod(d.len() as int, 48);
    let n: int = (d.len() / 48) as int;
    assert(d.len() == 48 * n);
    assert(d2.len() == 48 * (n + 1));
    assert(d2.len() % 48 == 0) by {
        lemma_fundamental_div_mod(d2.len() as int, 48);
        vstd::arithmetic::div_mod::lemma_mod_multiples_basic(n + 1, 48);
        assert((n + 1) * 48 == 48 * (n + 1)) by (nonlinear_arith);
    }
    assert(d2.len() / 48 == n + 1) by {
        vstd::arithmetic::div_mod::lemma_div_multiples_vanish(n + 1, 48);
    }
    assert(entry(d2, n) =~= fp);
    assert(d2.subrange(0, d.len() as int) =~= d);
}

} // verus!
