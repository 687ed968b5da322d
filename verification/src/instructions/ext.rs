//! External-code opcodes: all pending a bytecode-lookup syscall, so each
//! fails with the explicit not-implemented signal rather than a default.

use vstd::prelude::*;

use crate::error::StatusCode;
use crate::exec_state::ExecutionState;
use crate::instructions::same_state;
use crate::system::System;

verus! {

/// Fails: reading another contract's code size needs a bytecode-lookup
/// syscall the host does not offer yet.
pub fn extcodesize(_state: &mut ExecutionState, _platform: &System) -> (r: Result<(), StatusCode>)
    requires
        old(_state).well_formed(),
    ensures
        final(_state).well_formed(),
        r == Err::<(), StatusCode>(StatusCode::NotImplemented),
        same_state(*old(_state), *final(_state)),
{
    Err(StatusCode::NotImplemented)
}

/// Fails: reading another contract's code hash needs a bytecode-lookup
/// syscall the host does not offer yet.
pub fn extcodehash(_state: &mut ExecutionState, _platform: &System) -> (r: Result<(), StatusCode>)
    requires
        old(_state).well_formed(),
    ensures
        final(_state).well_formed(),
        r == Err::<(), StatusCode>(StatusCode::NotImplemented),
        same_state(*old(_state), *final(_state)),
{
    Err(StatusCode::NotImplemented)
}

/// Fails: copying another contract's code needs a bytecode-lookup syscall
/// the host does not offer yet.
pub fn extcodecopy(_state: &mut ExecutionState, _platform: &System) -> (r: Result<(), StatusCode>)
    requires
        old(_state).well_formed(),
    ensures
        final(_state).well_formed(),
        r == Err::<(), StatusCode>(StatusCode::NotImplemented),
        same_state(*old(_state), *final(_state)),
{
    Err(StatusCode::NotImplemented)
}

} // verus!
