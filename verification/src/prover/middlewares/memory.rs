//! Bounds the memory a module may use, net of what its tables take.

use vstd::prelude::*;
use crate::wasm::module::{
    ModuleInfo, MemoryType, TransformError, sat_u32, sum_table_minima, exceeds_limit, capped_maximum,
    memory_limit_message,
};
use crate::wasm::units::{pages_from_bytes, WASM_PAGE_SIZE};
use crate::prover::middlewares::DefaultFunctionMiddleware;

verus! {

/// The middleware that bounds a module's memory.
#[derive(Debug)]
pub struct MemoryChecker {
    /// Upper bound on the memory a module may use, in bytes.
    limit: usize,
}

/// The bytes a module's tables take, as `ModuleInfo::table_bytes` counts them.
pub open spec fn tables_bytes(module: ModuleInfo) -> usize {
    sat_u32((8 * sum_table_minima(module.tables@)) as int) as usize
}

impl MemoryChecker {
    pub closed spec fn spec_limit(self) -> usize {
        self.limit
    }

    /// A checker for the given limit in bytes, refused when the limit is more
    /// pages than a `u32` counts.
    pub fn new(limit: usize) -> (res: Result<Self, wasmer_types::PageCountOutOfRange>)
        ensures
            res is Ok <==> limit / WASM_PAGE_SIZE <= u32::MAX,
            res matches Ok(checker) ==> checker.spec_limit() == limit,
    {
        match pages_from_bytes(limit) {
            Ok(_) => Ok(MemoryChecker { limit }),
            Err(e) => Err(e),
        }
    }

    /// Refuses a module whose tables alone exceed the limit; otherwise holds
    /// its memories to the pages left once the tables are paid for: each
    /// memory's maximum is capped at those pages, as `limit_memory` does.
    pub fn update_module(&self, module: &mut ModuleInfo) -> (res: Result<(), TransformError>)
        requires
            self.spec_limit() / WASM_PAGE_SIZE <= u32::MAX,
        ensures
            tables_bytes(*old(module)) > self.spec_limit() ==> {
                &&& res matches Err(e) && e.name() == "Memory Checker"@ && e.message() == "tables exceed memory limit"@
                &&& *final(module) == *old(module)
            },
            tables_bytes(*old(module)) <= self.spec_limit() ==> {
                let pages = ((self.spec_limit() - tables_bytes(*old(module))) / WASM_PAGE_SIZE as int) as u32;
                &&& final(module).memories@.len() == old(module).memories@.len()
                &&& final(module).exports == old(module).exports
                &&& final(module).globals == old(module).globals
                &&& final(module).tables == old(module).tables
                &&& match res {
                    Ok(()) => {
                        &&& forall|i: int| 0 <= i < old(module).memories@.len() ==> !exceeds_limit(
                            #[trigger] old(module).memories@[i], pages)
                        &&& forall|i: int| 0 <= i < old(module).memories@.len() ==> final(module).memories@[i]
                            == (MemoryType { maximum: Some(capped_maximum(old(module).memories@[i], pages)),
                                ..old(module).memories@[i] })
                    },
                    Err(e) => exists|k: int| {
                        &&& 0 <= k < old(module).memories@.len()
                        &&& exceeds_limit(old(module).memories@[k], pages)
                        &&& forall|i: int| 0 <= i < k ==> !exceeds_limit(#[trigger] old(module).memories@[i], pages)
                        &&& forall|i: int| 0 <= i <= k ==> final(module).memories@[i]
                            == (MemoryType { maximum: Some(capped_maximum(old(module).memories@[i], pages)),
                                ..old(module).memories@[i] })
                        &&& forall|i: int| k < i < old(module).memories@.len()
                            ==> final(module).memories@[i] == old(module).memories@[i]
                        &&& e.name() == "Memory Limiter"@
                        &&& e.message() == memory_limit_message(old(module).memories@[k].minimum,
                            capped_maximum(old(module).memories@[k], pages))
                    },
                }
            },
    {
        let table_bytes = module.table_bytes();
        let limit = self.limit;
        if table_bytes > limit {
            return Err(TransformError::new("Memory Checker", String::from_str("tables exceed memory limit")));
        }
        let limit = limit - table_bytes;
        let checked = pages_from_bytes(limit);
        proof {
            vstd::arithmetic::div_mod::lemma_div_is_ordered(limit as int, self.limit as int, WASM_PAGE_SIZE as int);
        }
        let pages = match checked {
            Ok(pages) => pages,
            Err(_) => {
                assert(false);
                0
            },
        };
        let res = module.limit_memory(pages);
        proof {
            reveal_strlit("Memory Limiter");
        }
        res
    }

    /// Functions pass through unchanged.
    pub fn instrument(&self) -> DefaultFunctionMiddleware {
        DefaultFunctionMiddleware
    }
}

} // verus!
