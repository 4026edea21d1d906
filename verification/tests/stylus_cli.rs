use arbitrator::brotli::decompress;
use arbitrator::seraphina::{add_debug_params, modify_wat, rewrite_memory_line, runner_config, uniform_cost_config};
use arbitrator::stylus_cli::{
    cargo_append_template, compressed_program, main_template, run_args, DebugParams, Pricing,
    PricingParams, ProjectConfig, Resources, StylusConfig,
};
use arbitrator::wasm::costs::UniformCost;

#[test]
fn project_defaults() {
    let config = ProjectConfig::default();
    assert_eq!(config.resources, Resources { start_gas: 1_000_000 });
    assert_eq!(config.pricing, Pricing { wasm_gas_price: 10_000, hostio_cost: 100 });
}

#[test]
fn project_config_to_stylus_config() {
    let project = ProjectConfig {
        resources: Resources { start_gas: 77 },
        pricing: Pricing { wasm_gas_price: 5, hostio_cost: 6 },
    };
    let config = StylusConfig::from(project);
    assert_eq!(config.start_gas, 77);
    assert_eq!(config.pricing, PricingParams { wasm_gas_price: 5, hostio_cost: 6 });
    assert_eq!(config.debug, DebugParams { debug_funcs: true, count_ops: true });
    assert_eq!(config.costs, UniformCost { cost: 1 });
}

#[test]
fn debug_and_uniform_configs() {
    let mut config = StylusConfig::default();
    assert_eq!(config.debug, DebugParams { debug_funcs: false, count_ops: false });
    add_debug_params(&mut config);
    assert_eq!(config.debug, DebugParams { debug_funcs: true, count_ops: true });
    let uniform = uniform_cost_config();
    assert_eq!(uniform.start_gas, 1_000_000);
    assert_eq!(uniform.pricing, PricingParams { wasm_gas_price: 10_000, hostio_cost: 100 });
    assert_eq!(uniform.costs, UniformCost { cost: 1 });
    let runner = runner_config(false, 200);
    assert_eq!(runner.start_gas, 200);
    assert_eq!(runner.pricing.wasm_gas_price, 1);
    assert!(!runner.debug.count_ops);
}

#[test]
fn templates() {
    assert!(cargo_append_template().contains("[profile.release]\ncodegen-units = 1\nstrip = true\nlto = true\npanic = \"abort\""));
    let main = main_template();
    assert!(main.starts_with("// Copyright 2022-2023, Offchain Labs, Inc."));
    assert!(main.contains("arbitrum_main!(user_main);"));
    assert!(main.ends_with("    };\n}"));
}

#[test]
fn compressed_program_layout() {
    let wasm = b"\0asm\x01\0\0\0 stylus stylus stylus stylus".to_vec();
    let code = compressed_program(&wasm).unwrap();
    assert_eq!(&code[..4], &[0xef, 0, 0, 0]);
    assert_eq!(decompress(&code[4..]).unwrap(), wasm);
}

#[test]
fn run_arguments() {
    assert_eq!(run_args(None), Some(vec![]));
    assert_eq!(run_args(Some("0a0B".to_string())), Some(vec![0x01, 0x0a, 0x0b]));
    assert_eq!(run_args(Some("0a0".to_string())), None);
}

#[test]
fn memory_export_is_renamed() {
    let line = "(memory (;0;) (export \"mem\") 1)".to_string();
    assert_eq!(rewrite_memory_line(line), Some("(memory (;0;) (export \"memory\") 1)".to_string()));
    let wat = "(module\n  (func (export \"f\"))\n  (memory (;0;) (export \"m\") 1)\n)".to_string();
    assert_eq!(
        modify_wat(wat),
        Some("(module\n(func (export \"f\"))\n(memory (;0;) (export \"memory\") 1)\n)".to_string())
    );
    assert_eq!(modify_wat("(memory 1)".to_string()), None);
}

#[test]
fn eof_prefix_of_a_compression_result() {
    use_prefix();
}

fn use_prefix() {
    assert_eq!(arbitrator::stylus_cli::eof_prefixed(Ok(vec![7, 8])), Ok(vec![0xef, 0, 0, 0, 7, 8]));
    assert_eq!(arbitrator::stylus_cli::eof_prefixed(Err("e".to_string())), Err("e".to_string()));
}

#[test]
fn modify_wat_without_memory() {
    assert_eq!(modify_wat("  (module)\n".to_string()), Some("(module)".to_string()));
}

#[test]
fn modify_wat_splits_lines_as_str_lines() {
    let wat = "(module\r\n\r\n  (func)\r\n)".to_string();
    assert_eq!(modify_wat(wat), Some("(module\n\n(func)\n)".to_string()));
    assert_eq!(modify_wat(String::new()), Some(String::new()));
    assert_eq!(modify_wat("\n".to_string()), Some(String::new()));
    assert_eq!(modify_wat("a\n\nb\n".to_string()), Some("a\n\nb".to_string()));
    assert_eq!(modify_wat("x\n(memory 1)\ny".to_string()), None);
}

#[test]
fn modify_wat_trims_unicode_whitespace() {
    let line = "\u{3000}\u{a0}\t(module)\u{2028}\u{85} ";
    assert_eq!(modify_wat(line.to_string()), Some(line.trim().to_string()));
    assert_eq!(modify_wat("\u{200b}(module)".to_string()), Some("\u{200b}(module)".to_string()));
    assert_eq!(modify_wat(" \t \n(func)".to_string()), Some("\n(func)".to_string()));
}
