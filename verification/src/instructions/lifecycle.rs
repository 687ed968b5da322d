//! Lifecycle opcodes: contract creation is an unimplemented placeholder;
//! self-destruct records a pending beneficiary on the execution state and
//! performs no transfer itself.

use vstd::prelude::*;

use crate::address::{fits_id, Address};
use crate::error::StatusCode;
use crate::exec_state::ExecutionState;
use crate::instructions::{pops_word, same_state};
use crate::system::System;

verus! {

/// Fails: contract creation mechanics are not implemented in this core.
pub fn create(_state: &mut ExecutionState, _platform: &System, _create2: bool) -> (r: Result<
    (),
    StatusCode,
>)
    requires
        old(_state).well_formed(),
    ensures
        final(_state).well_formed(),
        r == Err::<(), StatusCode>(StatusCode::NotImplemented),
        same_state(*old(_state), *final(_state)),
{
    Err(StatusCode::NotImplemented)
}

/// Pops a beneficiary address word and records its account identifier as
/// the pending self-destruct target. Only identifier-based beneficiaries
/// are supported: a byte-derived address fails with the explicit
/// unsupported-address error, never silently truncated or defaulted. The
/// balance transfer and account removal happen outside this core after
/// the call completes.
pub fn selfdestruct(state: &mut ExecutionState, _system: &mut System) -> (r: Result<
    (),
    StatusCode,
>)
    requires
        old(state).well_formed(),
    ensures
        final(state).well_formed(),
        *final(_system) == *old(_system),
        old(state).stack@.len() == 0 ==> r == Err::<(), StatusCode>(StatusCode::StackUnderflow)
            && same_state(*old(state), *final(state)),
        old(state).stack@.len() > 0 && fits_id(old(state).stack@.last()) ==> r is Ok
            && final(state).stack@ == old(state).stack@.drop_last()
            && final(state).selfdestroyed == Some(old(state).stack@.last().lo)
            && final(state).memory@ == old(state).memory@,
        old(state).stack@.len() > 0 && !fits_id(old(state).stack@.last()) ==> r == Err::<(), StatusCode>(StatusCode::UnsupportedAddressForm)
            && pops_word(*old(state), *final(state)),
{
    let beneficiary = match state.stack.pop() {
        Ok(w) => w,
        Err(e) => {
            return Err(e);
        },
    };
    let beneficiary_addr = match Address::try_from(beneficiary) {
        Ok(a) => a,
        Err(e) => {
            return Err(e);
        },
    };
    let id_addr = match beneficiary_addr.as_id_address() {
        Some(id) => id,
        None => {
            return Err(StatusCode::UnsupportedAddressForm);
        },
    };
    state.selfdestroyed = Some(id_addr);
    Ok(())
}

} // verus!
