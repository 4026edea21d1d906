//! Moves a module's start function to an export, so the host decides when it runs.

use vstd::prelude::*;
use crate::wasm::module::{ModuleInfo, ExportIndex};

verus! {

/// The middleware that moves the start function to the export `name`.
#[derive(Debug)]
pub struct StartMover {
    name: String,
}

impl StartMover {
    pub closed spec fn spec_name(self) -> Seq<char> {
        self.name@
    }

    pub fn new(name: &str) -> (res: Self)
        ensures
            res.spec_name() == name@,
    {
        StartMover { name: name.to_owned() }
    }

    /// Exports the start function under the mover's name, replacing any
    /// export of that name, and leaves the module without a start function.
    pub fn transform_module_info(&self, module: &mut ModuleInfo)
        ensures
            final(module).start_function is None,
            final(module).exports.get(self.spec_name()) == match old(module).start_function {
                Some(start) => Some(ExportIndex::Function(start)),
                None => None,
            },
            forall|n: Seq<char>| n != self.spec_name() ==> final(module).exports.get(n) == old(module).exports.get(n),
            match old(module).start_function {
                Some(start) => final(module).function_names.get(start) == Some(self.spec_name()),
                None => final(module).function_names == old(module).function_names,
            },
    {
        module.move_start_function(self.name.as_str());
    }
}

} // verus!
