use evm_state::error::StatusCode;
use evm_state::exec_state::ExecutionState;
use evm_state::instructions::context::{
    address, base_fee, block_number, blockhash, call_value, caller, chain_id, coinbase,
    difficulty, gas_limit, gas_price, origin, timestamp,
};
use evm_state::instructions::ext::{extcodecopy, extcodehash, extcodesize};
use evm_state::instructions::lifecycle::{create, selfdestruct};
use evm_state::instructions::log::log;
use evm_state::instructions::state::{balance, selfbalance};
use evm_state::system::{HostContext, System};
use evm_state::trie::BlockStore;
use evm_state::word::U256;

fn scenario_ctx() -> HostContext {
    HostContext {
        caller: 100,
        receiver: 200,
        origin: 100,
        value_received: 5_000_000_000_000_000_000,
        curr_epoch: 12345,
        base_fee: 100,
        current_balance: 31415,
    }
}

fn fresh() -> (ExecutionState, System) {
    let store = BlockStore::new();
    (ExecutionState::new(), System::new(&store, scenario_ctx()))
}

fn id_word(id: u64) -> U256 {
    U256::from_u64(id)
}

#[test]
fn context_scenario_pushes_expected_words() {
    let (mut st, sys) = fresh();
    caller(&mut st, &sys).unwrap();
    address(&mut st, &sys).unwrap();
    origin(&mut st, &sys).unwrap();
    call_value(&mut st, &sys).unwrap();
    block_number(&mut st, &sys).unwrap();
    base_fee(&mut st, &sys).unwrap();
    assert_eq!(st.stack.pop(), Ok(U256::from_u128(100)));
    assert_eq!(st.stack.pop(), Ok(U256::from_u64(12345)));
    assert_eq!(st.stack.pop(), Ok(U256::from_u128(5_000_000_000_000_000_000)));
    assert_eq!(st.stack.pop(), Ok(id_word(100)));
    assert_eq!(st.stack.pop(), Ok(id_word(200)));
    assert_eq!(st.stack.pop(), Ok(id_word(100)));
    assert_eq!(st.stack.len(), 0);
}

#[test]
fn coinbase_and_difficulty_push_zero() {
    let (mut st, sys) = fresh();
    coinbase(&mut st, &sys).unwrap();
    difficulty(&mut st, &sys).unwrap();
    assert_eq!(st.stack.pop(), Ok(U256::zero()));
    assert_eq!(st.stack.pop(), Ok(U256::zero()));
}

#[test]
fn selfbalance_pushes_current_balance() {
    let (mut st, sys) = fresh();
    selfbalance(&mut st, &sys).unwrap();
    assert_eq!(st.stack.pop(), Ok(U256::from_u128(31415)));
}

#[test]
fn selfdestruct_records_beneficiary_and_transfers_nothing() {
    let (mut st, mut sys) = fresh();
    st.stack.push(id_word(300)).unwrap();
    selfdestruct(&mut st, &mut sys).unwrap();
    assert_eq!(st.selfdestroyed, Some(300));
    assert_eq!(st.stack.len(), 0);
    // No balance moved: the host context still reports the same balance.
    assert_eq!(sys.context.current_balance, 31415);
}

#[test]
fn selfdestruct_rejects_byte_derived_address() {
    let (mut st, mut sys) = fresh();
    let byte_addr = U256 { hi: 0, mid_hi: 0, mid_lo: 1, lo: 0 };
    st.stack.push(byte_addr).unwrap();
    assert_eq!(selfdestruct(&mut st, &mut sys), Err(StatusCode::UnsupportedAddressForm));
    assert_eq!(st.selfdestroyed, None);
}

#[test]
fn selfdestruct_rejects_overwide_address() {
    let (mut st, mut sys) = fresh();
    let wide = U256 { hi: 1, mid_hi: 0, mid_lo: 0, lo: 0 };
    st.stack.push(wide).unwrap();
    assert_eq!(selfdestruct(&mut st, &mut sys), Err(StatusCode::UnsupportedAddressForm));
    assert_eq!(st.selfdestroyed, None);
}

#[test]
fn selfdestruct_on_empty_stack_underflows() {
    let (mut st, mut sys) = fresh();
    assert_eq!(selfdestruct(&mut st, &mut sys), Err(StatusCode::StackUnderflow));
}

#[test]
fn every_placeholder_opcode_fails_not_implemented() {
    let (mut st, mut sys) = fresh();
    assert_eq!(blockhash(&mut st, &sys), Err(StatusCode::NotImplemented));
    assert_eq!(gas_price(&mut st, &sys), Err(StatusCode::NotImplemented));
    assert_eq!(timestamp(&mut st, &sys), Err(StatusCode::NotImplemented));
    assert_eq!(gas_limit(&mut st, &sys), Err(StatusCode::NotImplemented));
    assert_eq!(chain_id(&mut st, &sys), Err(StatusCode::NotImplemented));
    assert_eq!(extcodesize(&mut st, &sys), Err(StatusCode::NotImplemented));
    assert_eq!(extcodehash(&mut st, &sys), Err(StatusCode::NotImplemented));
    assert_eq!(extcodecopy(&mut st, &sys), Err(StatusCode::NotImplemented));
    assert_eq!(log(&mut st, &sys, 3), Err(StatusCode::NotImplemented));
    assert_eq!(balance(&mut st, &sys), Err(StatusCode::NotImplemented));
    assert_eq!(create(&mut st, &sys, false), Err(StatusCode::NotImplemented));
    assert_eq!(create(&mut st, &sys, true), Err(StatusCode::NotImplemented));
    // None of them pushed a default value.
    assert_eq!(st.stack.len(), 0);
    let _ = &mut sys;
}
