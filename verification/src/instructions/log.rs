//! The event-logging opcode: pending host event emission, so it fails with
//! the explicit not-implemented signal rather than dropping the event.

use vstd::prelude::*;

use crate::error::StatusCode;
use crate::exec_state::ExecutionState;
use crate::instructions::same_state;
use crate::system::System;

verus! {

/// Fails: event emission is not available from the host yet, and silently
/// dropping a log would be incorrect.
pub fn log(_state: &mut ExecutionState, _platform: &System, _num_topics: usize) -> (r: Result<
    (),
    StatusCode,
>)
    requires
        old(_state).well_formed(),
    ensures
        final(_state).well_formed(),
        r == Err::<(), StatusCode>(StatusCode::NotImplemented),
        same_state(*old(_state), *final(_state)),
{
    Err(StatusCode::NotImplemented)
}

} // verus!
