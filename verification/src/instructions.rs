//! The opcode handlers: each an independent function of (execution state,
//! host system) that either mutates the state or fails, invoked by an
//! external dispatch loop keyed on the opcode byte.

pub mod context;
pub mod ext;
pub mod lifecycle;
pub mod log;
pub mod state;
pub mod storage;

use vstd::prelude::*;

use crate::exec_state::ExecutionState;
use crate::word::U256;

verus! {

/// Two execution states agree on everything observable.
pub open spec fn same_state(a: ExecutionState, b: ExecutionState) -> bool {
    a.stack@ == b.stack@ && a.memory@ == b.memory@ && a.selfdestroyed == b.selfdestroyed
}

/// `b` is `a` with exactly one word pushed; nothing else moved.
pub open spec fn pushes_word(a: ExecutionState, b: ExecutionState, w: U256) -> bool {
    b.stack@ == a.stack@.push(w) && b.memory@ == a.memory@ && b.selfdestroyed == a.selfdestroyed
}

/// `b` is `a` with the top word popped; nothing else moved.
pub open spec fn pops_word(a: ExecutionState, b: ExecutionState) -> bool {
    b.stack@ == a.stack@.drop_last() && b.memory@ == a.memory@ && b.selfdestroyed
        == a.selfdestroyed
}

/// `b` is `a` with the top word replaced by `w`; nothing else moved.
pub open spec fn replaces_top(a: ExecutionState, b: ExecutionState, w: U256) -> bool {
    b.stack@ == a.stack@.drop_last().push(w) && b.memory@ == a.memory@ && b.selfdestroyed
        == a.selfdestroyed
}

/// `b` is `a` with the two top words popped; nothing else moved.
pub open spec fn pops_two_words(a: ExecutionState, b: ExecutionState) -> bool {
    b.stack@ == a.stack@.drop_last().drop_last() && b.memory@ == a.memory@ && b.selfdestroyed
        == a.selfdestroyed
}

} // verus!
