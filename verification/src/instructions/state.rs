//! Account-state opcodes: the receiver's own balance is host context;
//! arbitrary balances need a syscall and stay unimplemented.

use vstd::prelude::*;

use crate::error::StatusCode;
use crate::exec_state::ExecutionState;
use crate::instructions::{pushes_word, same_state};
use crate::stack::STACK_LIMIT;
use crate::system::System;
use crate::word::U256;

verus! {

/// Fails: reading an arbitrary account's balance needs a syscall the host
/// does not offer yet.
pub fn balance(_state: &mut ExecutionState, _platform: &System) -> (r: Result<(), StatusCode>)
    requires
        old(_state).well_formed(),
    ensures
        final(_state).well_formed(),
        r == Err::<(), StatusCode>(StatusCode::NotImplemented),
        same_state(*old(_state), *final(_state)),
{
    Err(StatusCode::NotImplemented)
}

/// Pushes the receiver's own current balance. Value precision matches the
/// word's smallest unit, so no conversion is needed.
pub fn selfbalance(state: &mut ExecutionState, platform: &System) -> (r: Result<(), StatusCode>)
    requires
        old(state).well_formed(),
    ensures
        final(state).well_formed(),
        old(state).stack@.len() < STACK_LIMIT ==> r is Ok && pushes_word(
            *old(state),
            *final(state),
            U256::from_u128_spec(platform.context.current_balance),
        ),
        old(state).stack@.len() >= STACK_LIMIT ==> r == Err::<(), StatusCode>(
            StatusCode::StackOverflow,
        ) && same_state(*old(state), *final(state)),
{
    state.stack.push(U256::from_u128(platform.context.current_balance))
}

} // verus!
