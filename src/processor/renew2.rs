//! Renewal by the subscription account alone: the subscription's position
//! among those of its plan is read from its record.
use crate::address::Address;
use crate::effects::Effect;
use crate::error::ProcessError;
use crate::processor::renew::{process_renew, renew_spec, RENEW_ACCOUNTS};
use crate::processor::{load_record, load_record_spec};
use crate::renewal::RenewOutcome;
use crate::utils::AccountView;
use vstd::prelude::*;

verus! {

/// A renewal attempt at time `now` on the subscription whose record the
/// second account holds, named by the same accounts as a renewal by count.
pub open spec fn renew2_spec(program_id: Address, a: Seq<AccountView>, now: i64) -> Result<(RenewOutcome, Seq<Effect>), ProcessError> {
    if a.len() < RENEW_ACCOUNTS {
        Err(ProcessError::NotEnoughAccountKeys)
    } else {
        match load_record_spec(a[1].data@) {
            Err(e) => Err(e),
            Ok(sub) => renew_spec(program_id, a, sub.count, now),
        }
    }
}

/// Renews, or deactivates, the subscription in the second account at time
/// `now`, exactly as a renewal naming its position does.
pub fn process_renew2(program_id: &Address, accounts: &[AccountView], now: i64) -> (r: Result<(RenewOutcome, Vec<Effect>), ProcessError>)
    ensures
        r matches Ok((o, v)) ==> renew2_spec(*program_id, accounts@, now) == Ok::<(RenewOutcome, Seq<Effect>), ProcessError>((o, v@)),
        r matches Err(e) ==> renew2_spec(*program_id, accounts@, now) == Err::<(RenewOutcome, Seq<Effect>), ProcessError>(e),
{
    if accounts.len() < RENEW_ACCOUNTS {
        return Err(ProcessError::NotEnoughAccountKeys);
    }
    let sub = load_record(&accounts[1])?;
    process_renew(program_id, accounts, sub.count, now)
}

} // verus!
