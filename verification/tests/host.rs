use arbitrator::prover::host::{
    add_internal_funcs, get_host_impl, ArbValueType, Function, FunctionType, Instruction, Opcode,
};
use arbitrator::prover::programs::PolyHostData;

#[test]
fn forwarding_host_function() {
    let (ty, body) = get_host_impl("env", "wavm_caller_store8").unwrap();
    assert_eq!(ty.inputs, vec![ArbValueType::I32, ArbValueType::I32]);
    assert_eq!(ty.outputs, vec![]);
    assert_eq!(
        body,
        vec![
            Instruction::with_data(Opcode::LocalGet, 0),
            Instruction::with_data(Opcode::LocalGet, 1),
            Instruction::with_data(Opcode::CallerModuleInternalCall, 2),
        ]
    );
}

#[test]
fn inbox_reads_name_their_inbox() {
    let (_, sequencer) = get_host_impl("env", "wavm_read_inbox_message").unwrap();
    let (_, delayed) = get_host_impl("env", "wavm_read_delayed_inbox_message").unwrap();
    assert_eq!(sequencer[3], Instruction::with_data(Opcode::ReadInboxMessage, 0));
    assert_eq!(delayed[3], Instruction::with_data(Opcode::ReadInboxMessage, 1));
}

#[test]
fn host_functions_without_arguments() {
    let (ty, body) = get_host_impl("env", "wavm_halt_and_set_finished").unwrap();
    assert!(ty.inputs.is_empty() && ty.outputs.is_empty());
    assert_eq!(body, vec![Instruction::simple(Opcode::HaltAndSetFinished)]);
    let (ty, body) = get_host_impl("env", "poly_wavm_gas_left").unwrap();
    assert_eq!(ty.outputs, vec![ArbValueType::I64]);
    assert_eq!(body, vec![Instruction::with_data(Opcode::CallerModuleInternalCall, 4)]);
}

#[test]
fn unsupported_imports() {
    let error = get_host_impl("env", "nope").unwrap_err();
    assert_eq!(error.describe(), "Unsupported import of \"env\" \"nope\"");
    let error = get_host_impl("other", "wavm_caller_load8").unwrap_err();
    assert_eq!(error.module, "other");
    assert_eq!(error.describe(), "Unsupported import of \"other\" \"wavm_caller_load8\"");
}

#[test]
fn internal_functions() {
    let mut funcs: Vec<Function> = vec![];
    let mut types: Vec<FunctionType> = vec![];
    add_internal_funcs(&mut funcs, &mut types, None);
    assert_eq!(funcs.len(), 4);
    assert_eq!(types.len(), 4);
    assert_eq!(
        funcs[1].code,
        vec![
            Instruction::simple(Opcode::InitFrame),
            Instruction::simple(Opcode::MemoryLoad { ty: ArbValueType::I32, bytes: 4, signed: false }),
            Instruction::simple(Opcode::Return),
        ]
    );

    let host = PolyHostData { gas_left: 7, gas_status: 8 };
    add_internal_funcs(&mut funcs, &mut types, Some(host));
    assert_eq!(funcs.len(), 11);
    assert_eq!(types.len(), 11);
    assert_eq!(
        funcs[10].code,
        vec![
            Instruction::simple(Opcode::InitFrame),
            Instruction::with_data(Opcode::GlobalSet, 8),
            Instruction::with_data(Opcode::GlobalSet, 7),
            Instruction::simple(Opcode::Return),
        ]
    );
    assert_eq!(types[10].inputs, vec![ArbValueType::I64, ArbValueType::I32]);
    assert_eq!(funcs[8].ty.outputs, vec![ArbValueType::I64]);
}
