use arbitrator::polyglot::middlewares::memory::MemoryChecker;
use arbitrator::prover::programs::config::PolyglotConfig;
use arbitrator::prover::programs::counter::Counter;
use arbitrator::polyglot::depth::{worst_case_depth, FunctionDepthChecker, FRAME_SIZE};
use arbitrator::prover::middlewares::meter::{build_header, FunctionMeter};
use arbitrator::wasm::costs::UniformCost;
use arbitrator::wasm::operator::{BlockType, Extension, Operator, ValType};

#[test]
fn depth_of_straight_line_code() {
    let code = vec![
        Operator::I32Const { value: 1 },
        Operator::I32Const { value: 2 },
        Operator::I32Add,
        Operator::LocalGet { local_index: 0 },
        Operator::End,
    ];
    assert_eq!(worst_case_depth(&code), Ok(2 + 4));
    assert_eq!(worst_case_depth(&[Operator::Drop, Operator::End]), Ok(4));
}

#[test]
fn depth_refuses_unsupported_proposals() {
    let splat = Operator::SimdOp { text: "I8x16Splat".to_string() };
    let code = vec![Operator::I32Const { value: 1 }, splat, Operator::Drop];
    let error = worst_case_depth(&code).unwrap_err();
    assert_eq!(error.position, 1);
    assert_eq!(error.extension, Extension::Simd);
    assert_eq!(error.operator, "I8x16Splat");
}

#[test]
fn depth_checker_reclaims_at_every_exit() {
    let mut checker = FunctionDepthChecker::new(9);
    let mut out = vec![];
    checker.feed(Operator::Nop, &mut out);
    assert!(out.is_empty());
    checker.feed(Operator::Return, &mut out);
    checker.feed(Operator::End, &mut out);
    let reclaim = vec![
        Operator::GlobalGet { global_index: 9 },
        Operator::I32Const { value: FRAME_SIZE },
        Operator::I32Add,
        Operator::GlobalSet { global_index: 9 },
    ];
    assert_eq!(out.len(), 12 + 1 + 4 + 1 + 1 + 4);
    assert_eq!(out[0], Operator::GlobalGet { global_index: 9 });
    assert_eq!(&out[12..13], &[Operator::Nop]);
    assert_eq!(&out[13..17], &reclaim[..]);
    assert_eq!(out[17], Operator::Return);
    assert_eq!(out[18], Operator::End);
    assert_eq!(&out[19..], &reclaim[..]);
}

#[test]
fn meter_charges_each_block_with_its_header() {
    let mut meter = FunctionMeter::new(1, 2, UniformCost { cost: 1 });
    let mut out = vec![];
    meter.feed(Operator::I32Const { value: 5 }, &mut out);
    meter.feed(Operator::Drop, &mut out);
    assert!(out.is_empty());
    meter.feed(Operator::End, &mut out);
    // three operators plus the twelve of the header, at 1 each
    let mut expected = build_header(1, 2, 15);
    expected.extend(vec![Operator::I32Const { value: 5 }, Operator::Drop, Operator::End]);
    assert_eq!(out, expected);
    assert_eq!(expected[1], Operator::I64Const { value: 15 });
    assert_eq!(expected[3], Operator::If { ty: BlockType::Empty });
}

#[test]
fn memory_limits_in_pages() {
    assert!(MemoryChecker::new(2 * 1024 * 1024).is_ok());
    assert!(MemoryChecker::new(usize::MAX).is_err());
    let config = PolyglotConfig::default();
    assert!(config.instrumentation().is_ok());
    let huge = PolyglotConfig { memory_limit: usize::MAX, ..PolyglotConfig::default() };
    assert!(huge.instrumentation().is_err());
}

#[test]
fn counter_global_names() {
    assert_eq!(Counter::global_name(3), "stylus_opcode3_count");
    assert_eq!(Counter::global_name(189), "stylus_opcode189_count");
}

#[test]
fn operator_counts_list_the_nonzero_counters() {
    use_counts();
}

fn use_counts() {
    let mut values = vec![0u64; 190];
    values[3] = 5;
    values[100] = 1;
    let mut globals = arbitrator::prover::programs::counter::CounterGlobals { values };
    assert_eq!(
        arbitrator::prover::programs::counter::CountingMachine::operator_counts(&mut globals),
        Ok(vec![(3, 5), (100, 1)])
    );
    let mut short = arbitrator::prover::programs::counter::CounterGlobals { values: vec![0; 10] };
    assert_eq!(
        arbitrator::prover::programs::counter::CountingMachine::operator_counts(&mut short),
        Err("no global".to_string())
    );
}

fn module_with_memories(memories: Vec<arbitrator::wasm::module::MemoryType>) -> arbitrator::wasm::module::ModuleInfo {
    arbitrator::wasm::module::ModuleInfo {
        exports: arbitrator::wasm::module::Exports { entries: vec![] },
        start_function: None,
        function_names: arbitrator::wasm::module::FunctionNames { entries: vec![] },
        globals: vec![],
        global_initializers: vec![],
        tables: vec![],
        memories,
        signatures: vec![],
        functions: vec![],
    }
}

#[test]
fn memory_limit_is_an_upper_bound() {
    use_memory_limit();
}

fn use_memory_limit() {
    let mem = |minimum, maximum| arbitrator::wasm::module::MemoryType { minimum, maximum };
    let mut module = module_with_memories(vec![mem(1, Some(10)), mem(2, None), mem(1, Some(3))]);
    assert!(module.limit_memory(5).is_ok());
    assert_eq!(module.memories, vec![mem(1, Some(5)), mem(2, Some(5)), mem(1, Some(3))]);

    let mut module = module_with_memories(vec![mem(6, Some(10))]);
    let error = module.limit_memory(5).unwrap_err();
    assert_eq!(error.describe(), "Memory Limiter: module memory minimum 6 exceeds 5 limit");
}

#[test]
fn depth_checker_error_text() {
    let text = "AtomicFence { flags: 0 }".to_string();
    let code = vec![Operator::AtomicOp { text }];
    let error = worst_case_depth(&code).unwrap_err().to_error();
    assert_eq!(
        error.describe(),
        "depth-checker failure: threads extension not supported AtomicFence { flags: 0 }"
    );
}

#[test]
fn depth_checker_names_each_refused_proposal() {
    let cases = vec![
        (Operator::ExceptionOp { text: "Throw { index: 0 }".to_string() }, "exception-handling"),
        (
            Operator::TypedSelect { ty: ValType::I64, text: "TypedSelect { ty: I64 }".to_string() },
            "reference-types",
        ),
        (Operator::BulkMemoryOp { text: "DataDrop { segment: 1 }".to_string() }, "bulk-memory-operations"),
        (Operator::SimdOp { text: "I8x16Splat".to_string() }, "SIMD"),
    ];
    for (op, name) in cases {
        let text = match &op {
            Operator::ExceptionOp { text }
            | Operator::TypedSelect { text, .. }
            | Operator::BulkMemoryOp { text }
            | Operator::SimdOp { text } => text.clone(),
            _ => unreachable!(),
        };
        let error = worst_case_depth(&[Operator::Nop, op]).unwrap_err().to_error();
        let expected = format!("depth-checker failure: {} extension not supported {}", name, text);
        assert_eq!(error.describe(), expected);
    }
}

#[test]
fn prover_memory_checker_caps_each_memory() {
    use_prover_memory_checker();
}

fn use_prover_memory_checker() {
    let mem = |minimum, maximum| arbitrator::wasm::module::MemoryType { minimum, maximum };
    let page = 64 * 1024;
    let checker = arbitrator::prover::middlewares::memory::MemoryChecker::new(4 * page).unwrap();
    let mut module = module_with_memories(vec![mem(1, Some(10)), mem(2, None), mem(0, Some(1))]);
    assert!(checker.update_module(&mut module).is_ok());
    assert_eq!(module.memories, vec![mem(1, Some(4)), mem(2, Some(4)), mem(0, Some(1))]);

    // eight bytes per table element come off the limit first
    let mut module = module_with_memories(vec![mem(4, None)]);
    module.tables = vec![arbitrator::wasm::module::TableType { minimum: 1, maximum: None }];
    let error = checker.update_module(&mut module).unwrap_err();
    assert_eq!(error.describe(), "Memory Limiter: module memory minimum 4 exceeds 3 limit");
    assert_eq!(module.memories, vec![mem(4, Some(3))]);

    let small = arbitrator::prover::middlewares::memory::MemoryChecker::new(4).unwrap();
    let mut module = module_with_memories(vec![mem(0, None)]);
    module.tables = vec![arbitrator::wasm::module::TableType { minimum: 1, maximum: None }];
    let error = small.update_module(&mut module).unwrap_err();
    assert_eq!(error.describe(), "Memory Checker: tables exceed memory limit");
    assert_eq!(module.memories, vec![mem(0, None)]);
}
