use arbitrator::gas_pricer::{generate_wat, opcode_stack_req, Opcode, WatBuilder};
use rand_pcg::Pcg32;

const OPCODES: [Opcode; 7] = [
    Opcode::I32Add,
    Opcode::I32Mul,
    Opcode::Drop,
    Opcode::I32Const,
    Opcode::LocalSet,
    Opcode::LocalGet,
    Opcode::LocalTee,
];

#[test]
fn builder_writes_and_counts() {
    let mut builder = WatBuilder::new();
    builder.add_opcode(Opcode::I32Const, Some(-7));
    builder.add_opcode(Opcode::I32Add, None);
    builder.add_opcode(Opcode::I32Const, Some(12));
    assert!(builder.wat.ends_with("i32.const -7\ni32.add\ni32.const 12\n"));
    assert_eq!(builder.opcode_counts, vec![1, 0, 0, 2, 0, 0, 0]);
    builder.finish_wat();
    assert!(builder.wat.ends_with("(memory (export \"memory\") 0)\n        )  \n        "));
}

#[test]
fn stack_requirements() {
    assert_eq!(opcode_stack_req(Opcode::I32Add), (2, -1));
    assert_eq!(opcode_stack_req(Opcode::LocalTee), (1, 0));
    assert_eq!(opcode_stack_req(Opcode::I32Const), (0, 1));
    assert_eq!(Opcode::LocalSet.to_str(), "local.set");
}

#[test]
fn generated_programs_are_valid() {
    let mut rng = Pcg32::new(0xcafef00dd15ea5e5, 0xa02bdbf7bb3c0a7);
    for payloads in [0, 1, 10, 200] {
        let builder = generate_wat(&mut rng, payloads);
        let wat = builder.wat.clone();
        assert!(wat.starts_with("\n        (module\n          (func $main (export \"main\") (param i32) (result i32)\n        (local"));
        let body: Vec<&str> = wat.lines().map(|l| l.trim()).filter(|l| !l.is_empty()).collect();
        let locals = body[2].matches(" i32").count();
        assert!((3..=10).contains(&locals));
        let instructions: Vec<&str> = body[3..body.len() - 4].to_vec();

        // the counts are those of the instructions written
        for (k, op) in OPCODES.iter().enumerate() {
            let written = instructions.iter().filter(|l| l.split(' ').next() == Some(op.to_str())).count();
            assert_eq!(builder.opcode_counts[k] as usize, written);
        }

        // no instruction finds the stack too shallow, and locals exist
        let mut height: i32 = 0;
        for line in &instructions {
            let mut parts = line.split(' ');
            let name = parts.next().unwrap();
            let op = *OPCODES.iter().find(|op| op.to_str() == name).unwrap();
            let (req, change) = opcode_stack_req(op);
            assert!(height >= req);
            height += change;
            if matches!(op, Opcode::LocalGet | Opcode::LocalSet) {
                let index: usize = parts.next().unwrap().parse().unwrap();
                assert!(index <= locals);
            }
        }
        assert!(height == 2 || height == 3);

        // the middle holds exactly the payloads asked for
        let middle = &instructions[2 * locals + 1..instructions.len() - 2 * locals];
        let payload_count = middle
            .iter()
            .filter(|l| l.starts_with("local.set") || l.starts_with("i32.add") || l.starts_with("i32.mul"))
            .count();
        assert_eq!(payload_count, payloads as usize);
    }
}
