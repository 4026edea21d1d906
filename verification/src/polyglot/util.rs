//! Helpers shared by the native middlewares.

use vstd::prelude::*;
use crate::wasm::module::{ModuleInfo, GlobalInit, GlobalType, ExportIndex};
use crate::wasm::operator::ValType;

verus! {

/// The name under which a middleware's global is exported: `polyglot_` then `name`.
pub open spec fn polyglot_name(name: Seq<char>) -> Seq<char> {
    "polyglot_"@ + name
}

/// Adds a mutable global, exported as `polyglot_` followed by `name`, and
/// returns its index.
pub fn add_global(module: &mut ModuleInfo, name: &str, ty: ValType, init: GlobalInit) -> (index: u32)
    requires
        old(module).globals@.len() < u32::MAX,
    ensures
        index == old(module).globals@.len(),
        final(module).globals@ == old(module).globals@.push(GlobalType { ty, mutable: true }),
        final(module).global_initializers@ == old(module).global_initializers@.push(init),
        final(module).exports.get(polyglot_name(name@)) == Some(ExportIndex::Global(index)),
        forall|n: Seq<char>| n != polyglot_name(name@) ==> final(module).exports.get(n) == old(module).exports.get(n),
        final(module).memories == old(module).memories,
        final(module).tables == old(module).tables,
        final(module).start_function == old(module).start_function,
{
    let mut full = String::from_str("polyglot_");
    full.append(name);
    module.add_global(full.as_str(), ty, init)
}

} // verus!
