use arbitrator::polyglot::execute::ExecOutcome;
use arbitrator::polyglot::fuzz::{fuzz_config, is_acceptable_machine_error, judge_run, FuzzCosts, Verdict, WasmConfig};
use arbitrator::prover::middlewares::meter::MachineMeter;
use arbitrator::wasm::costs::OperatorCosts;
use arbitrator::wasm::operator::Operator;

#[test]
fn fuzz_prices() {
    let table = Operator::BrTable { targets: vec![1, 2, 3], default: 0 };
    assert_eq!(FuzzCosts.cost(&table), 14);
    assert_eq!(FuzzCosts.cost(&Operator::LocalTee { local_index: 0 }), 2);
    assert_eq!(FuzzCosts.cost(&Operator::I32Add), 1);
}

#[test]
fn fuzz_configuration() {
    let (config, env) = fuzz_config();
    assert_eq!(config.start_gas, 128 * 1024);
    assert_eq!(config.max_depth, 64 * 1024);
    assert_eq!(env.gas_price, 1000);
    let shape = WasmConfig::new(1);
    assert_eq!(shape.min_funcs(), 1);
    assert_eq!(shape.max_funcs(), 100);
    assert_eq!(shape.max_memory_pages(false), 17);
    assert_eq!(shape.memory_offset_choices(), (95, 4, 1));
}

#[test]
fn machine_errors() {
    assert!(is_acceptable_machine_error("error: tables exceed memory limit"));
    assert!(is_acceptable_machine_error("module memory minimum 3 exceeds 2 limit"));
    assert!(!is_acceptable_machine_error("unreachable"));
}

#[test]
fn verdicts() {
    assert_eq!(judge_run(&ExecOutcome::Success(vec![]), MachineMeter::Ready(5)), Verdict::Pass);
    assert_eq!(judge_run(&ExecOutcome::Revert(vec![1]), MachineMeter::Ready(5)), Verdict::Warn);
    assert_eq!(judge_run(&ExecOutcome::StackOverflow, MachineMeter::Ready(5)), Verdict::Fail);
    assert_eq!(judge_run(&ExecOutcome::StackOverflow, MachineMeter::Exhausted), Verdict::Warn);
}
