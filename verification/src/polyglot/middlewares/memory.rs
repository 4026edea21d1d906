//! Bounds the memory a module may use.

use vstd::prelude::*;
use crate::wasm::module::{ModuleInfo, MemoryType, TableType, sum_table_minima, capped_maximum};
use crate::wasm::units::{pages_from_bytes, WASM_PAGE_SIZE};

verus! {

/// The middleware that bounds a module's memory.
#[derive(Debug)]
pub struct MemoryChecker {
    /// Upper bound on the memory a module may use, in bytes.
    limit: usize,
}

impl MemoryChecker {
    pub closed spec fn spec_limit(self) -> usize {
        self.limit
    }

    /// A checker for the given limit in bytes, refused when the limit is more
    /// pages than a `u32` counts.
    pub fn new(limit: usize) -> (res: Result<Self, wasmer_types::PageCountOutOfRange>)
        ensures
            res is Ok <==> limit / WASM_PAGE_SIZE <= u32::MAX,
            res matches Ok(checker) ==> checker.spec_limit() == limit,
    {
        match pages_from_bytes(limit) {
            Ok(_) => Ok(MemoryChecker { limit }),
            Err(e) => Err(e),
        }
    }

    /// Holds every memory to the pages left of the limit once eight bytes
    /// per table element are reserved: its maximum, capped there, or that
    /// count where it has none.
    pub fn transform_module_info(&self, module: &mut ModuleInfo)
        requires
            self.spec_limit() / WASM_PAGE_SIZE <= u32::MAX,
            8 * sum_table_minima(old(module).tables@) <= u32::MAX,
        ensures
            final(module).memories@.len() == old(module).memories@.len(),
            forall|i: int| 0 <= i < old(module).memories@.len() ==> #[trigger] final(module).memories@[i]
                == (MemoryType {
                    maximum: Some(capped_maximum(
                        old(module).memories@[i],
                        ((if self.spec_limit() >= 8 * sum_table_minima(old(module).tables@) {
                            self.spec_limit() - 8 * sum_table_minima(old(module).tables@)
                        } else { 0 }) / WASM_PAGE_SIZE as int) as u32,
                    )),
                    ..old(module).memories@[i]
                }),
            final(module).tables == old(module).tables,
            final(module).globals == old(module).globals,
            final(module).exports == old(module).exports,
    {
        let mut reserved: u32 = 0;
        let mut t: usize = 0;
        while t < module.tables.len()
            invariant
                t <= module.tables@.len(),
                8 * sum_table_minima(module.tables@) <= u32::MAX,
                reserved == 8 * sum_table_minima(module.tables@.take(t as int)),
            decreases module.tables@.len() - t,
        {
            proof {
                assert(module.tables@.take(t + 1).drop_last() =~= module.tables@.take(t as int));
                lemma_sum_prefix(module.tables@, t + 1);
            }
            reserved = reserved + 8 * module.tables[t].minimum;
            t = t + 1;
        }
        proof {
            assert(module.tables@.take(module.tables@.len() as int) =~= module.tables@);
        }
        // a zero limit will induce an error
        let limit = self.limit.saturating_sub(reserved as usize);
        let checked = pages_from_bytes(limit);
        proof {
            vstd::arithmetic::div_mod::lemma_div_is_ordered(limit as int, self.limit as int, WASM_PAGE_SIZE as int);
        }
        let pages = match checked {
            Ok(pages) => pages,
            Err(_) => {
                assert(false);
                0
            },
        };
        let n = module.memories.len();
        let mut i: usize = 0;
        while i < n
            invariant
                n == old(module).memories@.len(),
                module.memories@.len() == n,
                module.tables == old(module).tables,
                module.globals == old(module).globals,
                module.exports == old(module).exports,
                i <= n,
                forall|j: int| 0 <= j < i ==> #[trigger] module.memories@[j]
                    == (MemoryType { maximum: Some(capped_maximum(old(module).memories@[j], pages)), ..old(module).memories@[j] }),
                forall|j: int| i <= j < n ==> module.memories@[j] == old(module).memories@[j],
            decreases n - i,
        {
            let memory = module.memories[i];
            let held = match memory.maximum {
                Some(m) => if m < pages { m } else { pages },
                None => pages,
            };
            module.memories.set(i, MemoryType { maximum: Some(held), ..memory });
            i = i + 1;
        }
    }
}

proof fn lemma_sum_prefix(tables: Seq<TableType>, k: int)
    requires
        0 <= k <= tables.len(),
    ensures
        sum_table_minima(tables.take(k)) <= sum_table_minima(tables),
    decreases tables.len(),
{
    if k < tables.len() {
        assert(tables.drop_last().take(k) =~= tables.take(k));
        lemma_sum_prefix(tables.drop_last(), k);
    } else {
        assert(tables.take(k) =~= tables);
    }
}

} // verus!
