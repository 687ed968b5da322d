//! Per-call execution state of the interpreter: the operand stack, the byte
//! memory region, and any pending self-destruct. Owned exclusively by one
//! call's interpreter instance and destroyed when the call returns.

use vstd::prelude::*;

use crate::stack::Stack;

verus! {

/// Mutable state of the current call.
pub struct ExecutionState {
    /// The operand stack.
    pub stack: Stack,
    /// The call's byte memory region.
    pub memory: Vec<u8>,
    /// The account identifier recorded as the pending self-destruct
    /// beneficiary, if a self-destruct has been requested. The balance
    /// transfer and account removal themselves happen outside this core,
    /// after the call completes.
    pub selfdestroyed: Option<u64>,
}

impl ExecutionState {
    /// Execution state is well formed when its stack is.
    pub open spec fn well_formed(self) -> bool {
        self.stack.well_formed()
    }

    /// Creates the state a call starts in: empty stack, empty memory, no
    /// pending self-destruct.
    pub fn new() -> (r: ExecutionState)
        ensures
            r.stack@ == Seq::<crate::word::U256>::empty(),
            r.memory@ == Seq::<u8>::empty(),
            r.selfdestroyed == Option::<u64>::None,
            r.well_formed(),
    {
        ExecutionState { stack: Stack::new(), memory: Vec::new(), selfdestroyed: None }
    }
}

} // verus!
