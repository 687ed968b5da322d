//! Context readers: each pushes one value of the host-provided message or
//! chain context as a 256-bit word, plus the placeholders for context the
//! host cannot supply yet.

use vstd::prelude::*;

use crate::address::Address;
use crate::error::StatusCode;
use crate::exec_state::ExecutionState;
use crate::instructions::{pushes_word, same_state};
use crate::stack::STACK_LIMIT;
use crate::system::System;
use crate::word::U256;

verus! {

/// Fails: the hash of the inclusion tipset is not passed down by the
/// client yet.
pub fn blockhash(_state: &mut ExecutionState, _platform: &System) -> (r: Result<(), StatusCode>)
    requires
        old(_state).well_formed(),
    ensures
        final(_state).well_formed(),
        r == Err::<(), StatusCode>(StatusCode::NotImplemented),
        same_state(*old(_state), *final(_state)),
{
    Err(StatusCode::NotImplemented)
}

/// Pushes the caller's identifier-based address word.
pub fn caller(state: &mut ExecutionState, platform: &System) -> (r: Result<(), StatusCode>)
    requires
        old(state).well_formed(),
    ensures
        final(state).well_formed(),
        old(state).stack@.len() < STACK_LIMIT ==> r is Ok && pushes_word(
            *old(state),
            *final(state),
            Address::id_word(platform.context.caller),
        ),
        old(state).stack@.len() >= STACK_LIMIT ==> r == Err::<(), StatusCode>(
            StatusCode::StackOverflow,
        ) && same_state(*old(state), *final(state)),
{
    let id = platform.context.caller;
    state.stack.push(Address::from_id(id).as_evm_word())
}

/// Pushes the receiving contract's identifier-based address word.
pub fn address(state: &mut ExecutionState, platform: &System) -> (r: Result<(), StatusCode>)
    requires
        old(state).well_formed(),
    ensures
        final(state).well_formed(),
        old(state).stack@.len() < STACK_LIMIT ==> r is Ok && pushes_word(
            *old(state),
            *final(state),
            Address::id_word(platform.context.receiver),
        ),
        old(state).stack@.len() >= STACK_LIMIT ==> r == Err::<(), StatusCode>(
            StatusCode::StackOverflow,
        ) && same_state(*old(state), *final(state)),
{
    let id = platform.context.receiver;
    state.stack.push(Address::from_id(id).as_evm_word())
}

/// Pushes the call chain origin's identifier-based address word.
pub fn origin(state: &mut ExecutionState, platform: &System) -> (r: Result<(), StatusCode>)
    requires
        old(state).well_formed(),
    ensures
        final(state).well_formed(),
        old(state).stack@.len() < STACK_LIMIT ==> r is Ok && pushes_word(
            *old(state),
            *final(state),
            Address::id_word(platform.context.origin),
        ),
        old(state).stack@.len() >= STACK_LIMIT ==> r == Err::<(), StatusCode>(
            StatusCode::StackOverflow,
        ) && same_state(*old(state), *final(state)),
{
    let id = platform.context.origin;
    state.stack.push(Address::from_id(id).as_evm_word())
}

/// Pushes the value the message carries.
pub fn call_value(state: &mut ExecutionState, platform: &System) -> (r: Result<(), StatusCode>)
    requires
        old(state).well_formed(),
    ensures
        final(state).well_formed(),
        old(state).stack@.len() < STACK_LIMIT ==> r is Ok && pushes_word(
            *old(state),
            *final(state),
            U256::from_u128_spec(platform.context.value_received),
        ),
        old(state).stack@.len() >= STACK_LIMIT ==> r == Err::<(), StatusCode>(
            StatusCode::StackOverflow,
        ) && same_state(*old(state), *final(state)),
{
    state.stack.push(U256::from_u128(platform.context.value_received))
}

/// Pushes numeric zero: the chain has no block-reward recipient analogous
/// to a coinbase, a deliberate simplification to preserve.
pub fn coinbase(state: &mut ExecutionState, _platform: &System) -> (r: Result<(), StatusCode>)
    requires
        old(state).well_formed(),
    ensures
        final(state).well_formed(),
        old(state).stack@.len() < STACK_LIMIT ==> r is Ok && pushes_word(
            *old(state),
            *final(state),
            U256::zero_spec(),
        ),
        old(state).stack@.len() >= STACK_LIMIT ==> r == Err::<(), StatusCode>(
            StatusCode::StackOverflow,
        ) && same_state(*old(state), *final(state)),
{
    state.stack.push(U256::zero())
}

/// Fails: the priority fee needs a syscall the host does not offer yet.
pub fn gas_price(_state: &mut ExecutionState, _platform: &System) -> (r: Result<(), StatusCode>)
    requires
        old(_state).well_formed(),
    ensures
        final(_state).well_formed(),
        r == Err::<(), StatusCode>(StatusCode::NotImplemented),
        same_state(*old(_state), *final(_state)),
{
    Err(StatusCode::NotImplemented)
}

/// Fails: the block timestamp needs a syscall the host does not offer yet.
pub fn timestamp(_state: &mut ExecutionState, _platform: &System) -> (r: Result<(), StatusCode>)
    requires
        old(_state).well_formed(),
    ensures
        final(_state).well_formed(),
        r == Err::<(), StatusCode>(StatusCode::NotImplemented),
        same_state(*old(_state), *final(_state)),
{
    Err(StatusCode::NotImplemented)
}

/// Pushes the current chain epoch as the block number.
pub fn block_number(state: &mut ExecutionState, platform: &System) -> (r: Result<(), StatusCode>)
    requires
        old(state).well_formed(),
    ensures
        final(state).well_formed(),
        old(state).stack@.len() < STACK_LIMIT ==> r is Ok && pushes_word(
            *old(state),
            *final(state),
            U256::from_u64_spec(platform.context.curr_epoch as u64),
        ),
        old(state).stack@.len() >= STACK_LIMIT ==> r == Err::<(), StatusCode>(
            StatusCode::StackOverflow,
        ) && same_state(*old(state), *final(state)),
{
    let epoch = platform.context.curr_epoch;
    state.stack.push(U256::from_u64(#[verifier::truncate] (epoch as u64)))
}

/// Pushes numeric zero: the chain has no difficulty, a deliberate
/// simplification to preserve.
pub fn difficulty(state: &mut ExecutionState, _platform: &System) -> (r: Result<(), StatusCode>)
    requires
        old(state).well_formed(),
    ensures
        final(state).well_formed(),
        old(state).stack@.len() < STACK_LIMIT ==> r is Ok && pushes_word(
            *old(state),
            *final(state),
            U256::zero_spec(),
        ),
        old(state).stack@.len() >= STACK_LIMIT ==> r == Err::<(), StatusCode>(
            StatusCode::StackOverflow,
        ) && same_state(*old(state), *final(state)),
{
    state.stack.push(U256::zero())
}

/// Fails: the block gas limit needs a syscall the host does not offer yet.
pub fn gas_limit(_state: &mut ExecutionState, _platform: &System) -> (r: Result<(), StatusCode>)
    requires
        old(_state).well_formed(),
    ensures
        final(_state).well_formed(),
        r == Err::<(), StatusCode>(StatusCode::NotImplemented),
        same_state(*old(_state), *final(_state)),
{
    Err(StatusCode::NotImplemented)
}

/// Fails: no chain id is registered and configured in the client yet.
pub fn chain_id(_state: &mut ExecutionState, _platform: &System) -> (r: Result<(), StatusCode>)
    requires
        old(_state).well_formed(),
    ensures
        final(_state).well_formed(),
        r == Err::<(), StatusCode>(StatusCode::NotImplemented),
        same_state(*old(_state), *final(_state)),
{
    Err(StatusCode::NotImplemented)
}

/// Pushes the chain's current base fee.
pub fn base_fee(state: &mut ExecutionState, platform: &System) -> (r: Result<(), StatusCode>)
    requires
        old(state).well_formed(),
    ensures
        final(state).well_formed(),
        old(state).stack@.len() < STACK_LIMIT ==> r is Ok && pushes_word(
            *old(state),
            *final(state),
            U256::from_u128_spec(platform.context.base_fee),
        ),
        old(state).stack@.len() >= STACK_LIMIT ==> r == Err::<(), StatusCode>(
            StatusCode::StackOverflow,
        ) && same_state(*old(state), *final(state)),
{
    state.stack.push(U256::from_u128(platform.context.base_fee))
}

} // verus!
