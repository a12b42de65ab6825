//! Initialization of a subscription that is active from the start.
use crate::address::Address;
use crate::effects::Effect;
use crate::error::ProcessError;
use crate::utils::AccountView;
use vstd::prelude::*;

verus! {

/// Creating a subscription active from the start is not an operation of
/// the protocol: it is refused as invalid instruction data.
pub fn process_initialize2(
    _program_id: &Address,
    _accounts: &[AccountView],
    _payee: &Address,
    _amount: u64,
    _duration: i64,
    _start_amount: u64,
) -> (r: Result<Vec<Effect>, ProcessError>)
    ensures
        r == Err::<Vec<Effect>, ProcessError>(ProcessError::InvalidInstructionData),
{
    Err(ProcessError::InvalidInstructionData)
}

} // verus!
