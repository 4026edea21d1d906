use arbitrator::bytes::{Bytes20, Bytes32};
use arbitrator::evm::{evm_words, EvmApiStatus, UserOutcomeKind};
use arbitrator::langs::call::{call_result, reads_return_data, Call, Kind};
use arbitrator::langs::contract;
use arbitrator::langs::contract::creation_result;
use arbitrator::wasm::module::decimal_string;
use arbitrator::polyglot::execute::{
    compile_output, polyglot_output, start_outcome, str_contains, ExecOutcome, POLYGLOT_FAILURE, POLYGLOT_SUCCESS,
};
use arbitrator::polyglot::machine::{return_data, Escape, WasmEnv};
use arbitrator::prover::middlewares::meter::{MachineMeter, MeteredMachine};

#[test]
fn words() {
    assert_eq!(evm_words(0), 0);
    assert_eq!(evm_words(1), 1);
    assert_eq!(evm_words(32), 1);
    assert_eq!(evm_words(33), 2);
}

#[test]
fn evm_statuses() {
    assert_eq!(EvmApiStatus::from(0u8), EvmApiStatus::Success);
    assert_eq!(EvmApiStatus::from(7u8), EvmApiStatus::Failure);
    assert_eq!(UserOutcomeKind::from(EvmApiStatus::Failure), UserOutcomeKind::Revert);
}

#[test]
fn gas_conversion() {
    let mut env = WasmEnv::new(&[1, 2], 1000);
    env.set_gas(10_000);
    assert!(env.buy_evm_gas(100).is_ok());
    assert_eq!(env.gas_left(), MachineMeter::Ready(9_900));
    assert!(env.buy_evm_gas(10_000).is_err());
    assert_eq!(env.gas_left(), MachineMeter::Exhausted);
}

#[test]
fn returning_data_costs_words() {
    let mut env = WasmEnv::new(&[], 1000);
    env.set_gas(100);
    assert!(return_data(&mut env, 33, vec![9; 33]).is_ok());
    assert_eq!(env.gas_left(), MachineMeter::Ready(94));
    assert_eq!(env.outs, vec![9; 33]);
}

#[test]
fn call_preparation() {
    let mut call = Call::new_delegate();
    call.value(Bytes32::from(1u64));
    assert_eq!(call.prepare().unwrap_err(), b"unexpected value".to_vec());
    let mut call = Call::new();
    call.value(Bytes32::from(1u64)).gas(500).subset(2, 3);
    let request = call.prepare().unwrap();
    assert_eq!(request.kind, Kind::Basic);
    assert_eq!(request.gas, 500);
    assert_eq!(request.len, Some(3));
    assert_eq!(request.return_data_len(10), 3);
    let request = Call::new_static().prepare().unwrap();
    assert_eq!(request.gas, u64::MAX);
    assert_eq!(request.return_data_len(10), 10);
    assert_eq!(call_result(0, vec![1]), Ok(vec![1]));
    assert_eq!(call_result(1, vec![1]), Err(vec![1]));
}

#[test]
fn return_data_is_read_only_when_present() {
    let request = Call::new().prepare().unwrap();
    assert!(!reads_return_data(request.return_data_len(0)));
    assert!(reads_return_data(request.return_data_len(7)));
    let mut call = Call::new();
    call.skip_return_data();
    assert!(!reads_return_data(call.prepare().unwrap().return_data_len(7)));
    assert!(!contract::reads_return_data(0));
    assert!(contract::reads_return_data(32));
    assert_eq!(contract::call_result(0, vec![]), Ok(vec![]));
    assert_eq!(contract::call_result(2, vec![7, 8]), Err(vec![7, 8]));
}

#[test]
fn setting_gas_keeps_the_environment() {
    let mut env = WasmEnv::new(&[4, 5], 700);
    env.outs = vec![6];
    env.set_gas(42);
    assert_eq!(env.gas_left(), MachineMeter::Ready(42));
    assert_eq!(env.args, vec![4, 5]);
    assert_eq!(env.outs, vec![6]);
    assert_eq!(env.gas_price, 700);
}

#[test]
fn creations() {
    assert_eq!(creation_result(Bytes20::default(), vec![5]), Err(vec![5]));
    assert_eq!(creation_result(Bytes20::from(3u32), vec![5]), Ok(Bytes20::from(3u32)));
}

#[test]
fn outcomes() {
    assert_eq!(start_outcome(None, MachineMeter::Ready(1), 5), ExecOutcome::NoStart);
    assert_eq!(
        start_outcome(Some(Err("RuntimeError: call stack exhausted".to_string())), MachineMeter::Ready(1), 5),
        ExecOutcome::StackOverflow
    );
    assert_eq!(start_outcome(Some(Err("x".to_string())), MachineMeter::Exhausted, 5), ExecOutcome::OutOfGas);
    assert_eq!(start_outcome(Some(Err("x".to_string())), MachineMeter::Ready(1), 0), ExecOutcome::OutOfStack);
    assert_eq!(ExecOutcome::Revert(vec![0xab]).describe(), "revert ab");
    assert_eq!(polyglot_output(ExecOutcome::Success(vec![1])), (vec![1], POLYGLOT_SUCCESS));
    assert_eq!(polyglot_output(ExecOutcome::Revert(vec![2])), (vec![2], POLYGLOT_FAILURE));
    assert_eq!(polyglot_output(ExecOutcome::OutOfGas), (b"out of gas".to_vec(), POLYGLOT_FAILURE));
    assert_eq!(compile_output(Err("bad".to_string())), (b"bad".to_vec(), POLYGLOT_FAILURE));
}

#[test]
fn gas_price_is_in_thousandths_of_evm_gas() {
    // at 2000, a unit of gas is worth 2 EVM gas
    let mut env = WasmEnv::new(&[], 2000);
    env.set_gas(100);
    assert!(env.buy_evm_gas(50).is_ok());
    assert_eq!(env.gas_left(), MachineMeter::Ready(75));

    // at 500, 100 gas is worth 50 EVM gas
    let mut env = WasmEnv::new(&[], 500);
    env.set_gas(100);
    assert!(env.buy_evm_gas(51).is_err());
    assert_eq!(env.gas_left(), MachineMeter::Exhausted);

    // rounding never adds gas: 1000 gas at 3000 is 3000 EVM gas, and the
    // 2990 left buy back 996
    let mut env = WasmEnv::new(&[], 3000);
    env.set_gas(1000);
    assert!(env.buy_evm_gas(10).is_ok());
    assert_eq!(env.gas_left(), MachineMeter::Ready(996));
}

#[test]
fn escape_texts() {
    assert_eq!(Escape::Exit(7).describe(), "program exited with status code `7`");
    assert_eq!(Escape::HostIO("bad ptr".to_string()).describe(), "hostio failed with `bad ptr`");
    assert_eq!(Escape::Failure("x".to_string()).describe(), "runtime failed with `x`");
    assert_eq!(Escape::OutOfGas.describe(), "out of gas");
    assert!(matches!(Escape::exit(7), Err(Escape::Exit(7))));
}

#[test]
fn decimal_text() {
    assert_eq!(decimal_string(0), "0");
    assert_eq!(decimal_string(7), "7");
    assert_eq!(decimal_string(10), "10");
    assert_eq!(decimal_string(1234509), "1234509");
    assert_eq!(decimal_string(u64::MAX), u64::MAX.to_string());
}

#[test]
fn text_search() {
    assert!(str_contains("RuntimeError: call stack exhausted", "stack"));
    assert!(str_contains("abc", ""));
    assert!(str_contains("", ""));
    assert!(!str_contains("", "a"));
    assert!(str_contains("abc", "abc"));
    assert!(!str_contains("abc", "abcd"));
    assert!(str_contains("ééx", "éx"));
    assert!(!str_contains("aab", "abb"));
}
