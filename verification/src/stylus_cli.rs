//! The `stylus` command line tool's project configuration and the files it
//! writes: the configuration of the instrumentation a project asks for, the
//! templates of a new project, and the compressed program a build produces.

use vstd::prelude::*;
use crate::wasm::costs::UniformCost;
use crate::brotli::{brotli_encode, brotli_stream};
use crate::bytes::{hex_decode, hex_valid, hex_bytes};
use crate::cargo_stylus::eof_prefix;

verus! {

/// The gas a Stylus program is given.
#[derive(Clone, Copy, Debug, PartialEq, Eq)]
pub struct Resources {
    pub start_gas: u64,
}

impl Default for Resources {
    /// A million gas.
    fn default() -> (res: Self)
        ensures
            res.start_gas == 1_000_000,
    {
        Resources { start_gas: 1_000_000 }
    }
}

/// The prices a Stylus program is instrumented with.
#[derive(Clone, Copy, Debug, PartialEq, Eq)]
pub struct Pricing {
    pub wasm_gas_price: u64,
    pub hostio_cost: u64,
}

impl Default for Pricing {
    /// A WASM gas price of 10000 and a host I/O cost of 100.
    fn default() -> (res: Self)
        ensures
            res.wasm_gas_price == 100_00,
            res.hostio_cost == 100,
    {
        Pricing { wasm_gas_price: 100_00, hostio_cost: 100 }
    }
}

/// The configuration a Stylus project keeps in its TOML file.
#[derive(Clone, Copy, Debug, PartialEq, Eq)]
pub struct ProjectConfig {
    pub resources: Resources,
    pub pricing: Pricing,
}

impl Default for ProjectConfig {
    /// The default resources and pricing.
    fn default() -> (res: Self)
        ensures
            res.resources.start_gas == 1_000_000,
            res.pricing.wasm_gas_price == 100_00,
            res.pricing.hostio_cost == 100,
    {
        ProjectConfig { resources: Resources::default(), pricing: Pricing::default() }
    }
}

/// The prices the instrumentation charges.
#[derive(Clone, Copy, Debug, PartialEq, Eq)]
pub struct PricingParams {
    pub wasm_gas_price: u64,
    pub hostio_cost: u64,
}

/// The debugging aids the instrumentation adds.
#[derive(Clone, Copy, Debug, PartialEq, Eq)]
pub struct DebugParams {
    pub debug_funcs: bool,
    pub count_ops: bool,
}

/// The configuration of a Stylus program's instrumentation.
#[derive(Clone, Copy, Debug, PartialEq, Eq)]
pub struct StylusConfig {
    pub costs: UniformCost,
    pub start_gas: u64,
    pub pricing: PricingParams,
    pub debug: DebugParams,
}

impl Default for StylusConfig {
    /// Free operators, no gas, no prices and no debugging aids.
    fn default() -> (res: Self)
        ensures
            res.costs.cost == 0,
            res.start_gas == 0,
            res.pricing == (PricingParams { wasm_gas_price: 0, hostio_cost: 0 }),
            res.debug == (DebugParams { debug_funcs: false, count_ops: false }),
    {
        StylusConfig {
            costs: UniformCost { cost: 0 },
            start_gas: 0,
            pricing: PricingParams { wasm_gas_price: 0, hostio_cost: 0 },
            debug: DebugParams { debug_funcs: false, count_ops: false },
        }
    }
}

impl StylusConfig {
    /// Turns on the debug host functions and the operator counts.
    pub fn add_debug_params(&mut self)
        ensures
            final(self).debug == (DebugParams { debug_funcs: true, count_ops: true }),
            final(self).costs == old(self).costs,
            final(self).start_gas == old(self).start_gas,
            final(self).pricing == old(self).pricing,
    {
        self.debug.debug_funcs = true;
        self.debug.count_ops = true;
    }
}

/// The instrumentation a project's configuration asks for: its gas and
/// prices, every operator costing 1, with the debugging aids on.
pub open spec fn project_stylus_config(pcfg: ProjectConfig) -> StylusConfig {
    StylusConfig {
        costs: UniformCost { cost: 1 },
        start_gas: pcfg.resources.start_gas,
        pricing: PricingParams { wasm_gas_price: pcfg.pricing.wasm_gas_price, hostio_cost: pcfg.pricing.hostio_cost },
        debug: DebugParams { debug_funcs: true, count_ops: true },
    }
}

impl From<ProjectConfig> for StylusConfig {
    fn from(pcfg: ProjectConfig) -> (res: Self) {
        let mut config = StylusConfig::default();
        config.add_debug_params();
        config.start_gas = pcfg.resources.start_gas;
        config.pricing.wasm_gas_price = pcfg.pricing.wasm_gas_price;
        config.pricing.hostio_cost = pcfg.pricing.hostio_cost;
        config.costs = UniformCost { cost: 1 };
        config
    }
}

impl vstd::std_specs::convert::FromSpecImpl<ProjectConfig> for StylusConfig {
    open spec fn obeys_from_spec() -> bool {
        true
    }

    open spec fn from_spec(pcfg: ProjectConfig) -> StylusConfig {
        project_stylus_config(pcfg)
    }
}

/// The lines `stylus new` appends to a new project's `Cargo.toml`.
pub open spec fn cargo_append_text() -> Seq<char> {
    "\n[workspace]\n\n[profile.release]\ncodegen-units = 1\nstrip = true\nlto = true\npanic = \"abort\"\n    "@
}

/// The lines `stylus new` appends to a new project's `Cargo.toml`: its own
/// workspace, and a small, stripped release build that aborts on panic.
pub fn cargo_append_template() -> (res: String)
    ensures
        res@ == cargo_append_text(),
{
    String::from_str("\n[workspace]\n\n[profile.release]\ncodegen-units = 1\nstrip = true\nlto = true\npanic = \"abort\"\n    ")
}

/// The `main.rs` of a new project: an entry point that echoes its input,
/// over the `forward` host module's argument and return functions.
pub open spec fn main_text() -> Seq<char> {
    "// Copyright 2022-2023, Offchain Labs, Inc.\n// For license information, see https://github.com/OffchainLabs/nitro/blob/master/LICENSE\n\n#![no_main]\n\narbitrum_main!(user_main);\n\nfn user_main(input: Vec<u8>) -> Result<Vec<u8>, Vec<u8>> {\n    Ok(input)\n}\n\n#[link(wasm_import_module = \"forward\")]\nextern \"C\" {\n    pub fn read_args(dest: *mut u8);\n    pub fn return_data(data: *const u8, len: usize);\n}\n\npub fn args(len: usize) -> Vec<u8> {\n    let mut input = Vec::with_capacity(len);\n    unsafe {\n        read_args(input.as_mut_ptr());\n        input.set_len(len);\n    }\n    input\n}\n\npub fn output(data: Vec<u8>) {\n    unsafe {\n        return_data(data.as_ptr(), data.len());\n    }\n}\n\n#[macro_export]\nmacro_rules! arbitrum_main {\n    ($name:expr) => {\n        #[no_mangle]\n        pub extern \"C\" fn arbitrum_main(len: usize) -> usize {\n            let input = args(len);\n            let (data, status) = match $name(input) {\n                Ok(data) => (data, 0),\n                Err(data) => (data, 1),\n            };\n            output(data);\n            status\n        }\n    };\n}"@
}

/// The `main.rs` of a new project.
pub fn main_template() -> (res: String)
    ensures
        res@ == main_text(),
{
    String::from_str("// Copyright 2022-2023, Offchain Labs, Inc.\n// For license information, see https://github.com/OffchainLabs/nitro/blob/master/LICENSE\n\n#![no_main]\n\narbitrum_main!(user_main);\n\nfn user_main(input: Vec<u8>) -> Result<Vec<u8>, Vec<u8>> {\n    Ok(input)\n}\n\n#[link(wasm_import_module = \"forward\")]\nextern \"C\" {\n    pub fn read_args(dest: *mut u8);\n    pub fn return_data(data: *const u8, len: usize);\n}\n\npub fn args(len: usize) -> Vec<u8> {\n    let mut input = Vec::with_capacity(len);\n    unsafe {\n        read_args(input.as_mut_ptr());\n        input.set_len(len);\n    }\n    input\n}\n\npub fn output(data: Vec<u8>) {\n    unsafe {\n        return_data(data.as_ptr(), data.len());\n    }\n}\n\n#[macro_export]\nmacro_rules! arbitrum_main {\n    ($name:expr) => {\n        #[no_mangle]\n        pub extern \"C\" fn arbitrum_main(len: usize) -> usize {\n            let input = args(len);\n            let (data, status) = match $name(input) {\n                Ok(data) => (data, 0),\n                Err(data) => (data, 1),\n            };\n            output(data);\n            status\n        }\n    };\n}")
}

/// The Brotli level `stylus compile` compresses programs at.
pub const COMPILE_COMPRESSION_LEVEL: u32 = 9;

/// The code a compression result gives: the EOF prefix, then the compressed
/// bytes; a failed compression's error is passed on as it is.
pub fn eof_prefixed(compressed: Result<Vec<u8>, String>) -> (res: Result<Vec<u8>, String>)
    ensures
        match compressed {
            Ok(c) => res matches Ok(code) && code@ == eof_prefix() + c@,
            Err(e) => res == Err::<Vec<u8>, String>(e),
        },
{
    match compressed {
        Ok(compressed) => {
            let mut code: Vec<u8> = vec![0xEF, 0x00, 0x00, 0x00];
            let mut compressed = compressed;
            let ghost c = compressed@;
            code.append(&mut compressed);
            proof {
                assert(code@ =~= eof_prefix() + c);
            }
            Ok(code)
        },
        Err(e) => Err(e),
    }
}

/// The compressed program `stylus compile` writes: the EOF prefix, then the
/// program's Brotli stream at level 9.
pub fn compressed_program(wasm_file_bytes: &[u8]) -> (res: Result<Vec<u8>, String>)
    ensures
        res matches Ok(code) && code@ == eof_prefix() + brotli_stream(wasm_file_bytes@, COMPILE_COMPRESSION_LEVEL),
{
    eof_prefixed(brotli_encode(wasm_file_bytes, COMPILE_COMPRESSION_LEVEL))
}

/// The arguments `stylus run` hands a program: none without input, else a
/// 0x01 byte and the input's bytes; `None` where the input is not hex.
pub fn run_args(input_data_hex: Option<String>) -> (res: Option<Vec<u8>>)
    ensures
        match input_data_hex {
            None => (res matches Some(v) && v@.len() == 0),
            Some(data) => (res is Some <==> hex_valid(vstd::utf8::encode_utf8(data@)))
                && (res matches Some(v) ==> v@ == seq![0x01u8] + hex_bytes(vstd::utf8::encode_utf8(data@))),
        },
{
    match input_data_hex {
        Some(data) => {
            match hex_decode(data.as_str()) {
                Some(input_data) => {
                    let mut args: Vec<u8> = vec![0x01];
                    let mut input_data = input_data;
                    let ghost d = input_data@;
                    args.append(&mut input_data);
                    proof {
                        assert(args@ =~= seq![0x01u8] + d);
                    }
                    Some(args)
                },
                None => None,
            }
        },
        None => Some(Vec::new()),
    }
}

} // verus!
