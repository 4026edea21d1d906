//! The library's model of the parts of a WebAssembly module's metadata that
//! the instrumentation passes read and change.

use vstd::prelude::*;
use crate::wasm::operator::ValType;

verus! {

/// What an export refers to.
#[derive(Clone, Copy, Debug, PartialEq, Eq)]
pub enum ExportIndex {
    Function(u32),
    Table(u32),
    Memory(u32),
    Global(u32),
}

/// A global's initializer.
#[derive(Clone, Copy, Debug, PartialEq, Eq)]
pub enum GlobalInit {
    I32Const(i32),
    I64Const(i64),
    /// A 32-bit float, by its bits.
    F32Const(u32),
    /// A 64-bit float, by its bits.
    F64Const(u64),
    GetGlobal(u32),
}

/// A global's type: its value type and whether it is mutable.
#[derive(Clone, Copy, Debug, PartialEq, Eq)]
pub struct GlobalType {
    pub ty: ValType,
    pub mutable: bool,
}

/// A table's limits, in elements.
#[derive(Clone, Copy, Debug, PartialEq, Eq)]
pub struct TableType {
    pub minimum: u32,
    pub maximum: Option<u32>,
}

/// A linear memory's limits, in 64 KiB pages.
#[derive(Clone, Copy, Debug, PartialEq, Eq)]
pub struct MemoryType {
    pub minimum: u32,
    pub maximum: Option<u32>,
}

/// An export table: a list of names with what each refers to, where a later
/// entry for a name wins.
#[derive(Clone, Debug)]
pub struct Exports {
    pub entries: Vec<(String, ExportIndex)>,
}

/// The export a name refers to in a list of entries: the last entry with that name.
pub open spec fn lookup_export(entries: Seq<(String, ExportIndex)>, name: Seq<char>) -> Option<ExportIndex>
    decreases entries.len(),
{
    if entries.len() == 0 {
        None
    } else if entries.last().0@ == name {
        Some(entries.last().1)
    } else {
        lookup_export(entries.drop_last(), name)
    }
}

impl Exports {
    pub open spec fn get(self, name: Seq<char>) -> Option<ExportIndex> {
        lookup_export(self.entries@, name)
    }

    pub fn new() -> (res: Self)
        ensures
            forall|n: Seq<char>| res.get(n) is None,
    {
        Exports { entries: Vec::new() }
    }

    /// Removes every entry for `name`.
    pub fn remove(&mut self, name: &str)
        ensures
            final(self).get(name@) is None,
            forall|n: Seq<char>| n != name@ ==> final(self).get(n) == old(self).get(n),
    {
        let target: String = name.to_owned();
        let mut kept: Vec<(String, ExportIndex)> = Vec::new();
        let ghost all = self.entries@;
        let n = self.entries.len();
        let mut i: usize = 0;
        while i < n
            invariant
                n == self.entries@.len(),
                all == self.entries@,
                i <= n,
                target@ == name@,
                lookup_export(kept@, name@) is None,
                forall|m: Seq<char>| m != name@ ==> lookup_export(kept@, m) == lookup_export(all.take(i as int), m),
            decreases n - i,
        {
            let entry_name = self.entries[i].0.clone();
            let index = self.entries[i].1;
            let same = entry_name == target;
            proof {
                assert(all.take(i + 1).drop_last() =~= all.take(i as int));
                assert(all.take(i + 1).last() == all[i as int]);
                assert(entry_name@ == all[i as int].0@);
            }
            let ghost before = kept@;
            if !same {
                kept.push((entry_name, index));
                proof {
                    assert(kept@.drop_last() =~= before);
                }
            }
            proof {
                assert forall|m: Seq<char>| m != name@ implies lookup_export(kept@, m)
                    == lookup_export(all.take(i + 1), m) by {
                    let t = all.take(i + 1);
                    assert(t.len() > 0);
                    assert(lookup_export(t, m) == (if t.last().0@ == m { Some(t.last().1) } else {
                        lookup_export(t.drop_last(), m) }));
                    assert(lookup_export(t, m) == lookup_export(all.take(i as int), m) || !same);
                    if !same {
                        assert(kept@.last().0@ == all[i as int].0@);
                        assert(kept@.last().1 == all[i as int].1);
                        assert(lookup_export(kept@, m) == (if kept@.last().0@ == m { Some(kept@.last().1) } else {
                            lookup_export(kept@.drop_last(), m) }));
                    }
                }
            }
            i = i + 1;
        }
        proof {
            assert(all.take(n as int) =~= all);
        }
        self.entries = kept;
    }

    /// Makes `name` refer to `index`.
    pub fn insert(&mut self, name: String, index: ExportIndex)
        ensures
            final(self).get(name@) == Some(index),
            forall|n: Seq<char>| n != name@ ==> final(self).get(n) == old(self).get(n),
    {
        self.entries.push((name, index));
        proof {
            assert(self.entries@.drop_last() =~= old(self).entries@);
        }
    }
}

/// Names given to functions, where a later entry for an index wins.
#[derive(Clone, Debug)]
pub struct FunctionNames {
    pub entries: Vec<(u32, String)>,
}

/// The name a list of entries gives a function: the last entry for its index.
pub open spec fn lookup_name(entries: Seq<(u32, String)>, func: u32) -> Option<Seq<char>>
    decreases entries.len(),
{
    if entries.len() == 0 {
        None
    } else if entries.last().0 == func {
        Some(entries.last().1@)
    } else {
        lookup_name(entries.drop_last(), func)
    }
}

impl FunctionNames {
    pub open spec fn get(self, func: u32) -> Option<Seq<char>> {
        lookup_name(self.entries@, func)
    }

    /// Names `func` by `name`.
    pub fn insert(&mut self, func: u32, name: String)
        ensures
            final(self).get(func) == Some(name@),
            forall|f: u32| f != func ==> final(self).get(f) == old(self).get(f),
    {
        self.entries.push((func, name));
        proof {
            assert(self.entries@.drop_last() =~= old(self).entries@);
        }
    }

    /// The name of `func`, if it has one.
    pub fn find(&self, func: u32) -> (res: Option<&String>)
        ensures
            match res {
                Some(name) => self.get(func) == Some(name@),
                None => self.get(func) is None,
            },
    {
        let mut i = self.entries.len();
        proof {
            assert(self.entries@.take(i as int) =~= self.entries@);
        }
        while i > 0
            invariant
                i <= self.entries@.len(),
                forall|j: int| i <= j < self.entries@.len() ==> self.entries@[j].0 != func,
                lookup_name(self.entries@, func) == lookup_name(self.entries@.take(i as int), func),
            decreases i,
        {
            let ghost t = self.entries@.take(i as int);
            proof {
                assert(t.drop_last() =~= self.entries@.take(i - 1));
                assert(t.last() == self.entries@[i - 1]);
            }
            if self.entries[i - 1].0 == func {
                return Some(&self.entries[i - 1].1);
            }
            i = i - 1;
        }
        None
    }
}

/// A function's signature.
#[derive(Clone, Debug, PartialEq, Eq)]
pub struct FunctionType {
    pub inputs: Vec<ValType>,
    pub outputs: Vec<ValType>,
}

/// The metadata of a module that the instrumentation passes work on.
#[derive(Clone, Debug)]
pub struct ModuleInfo {
    pub exports: Exports,
    pub start_function: Option<u32>,
    pub function_names: FunctionNames,
    pub globals: Vec<GlobalType>,
    pub global_initializers: Vec<GlobalInit>,
    pub tables: Vec<TableType>,
    pub memories: Vec<MemoryType>,
    pub signatures: Vec<FunctionType>,
    /// The signature index of each function.
    pub functions: Vec<u32>,
}

/// An error raised while transforming a module.
#[derive(Clone, Debug)]
pub struct TransformError {
    name: String,
    message: String,
}

impl TransformError {
    pub closed spec fn name(self) -> Seq<char> {
        self.name@
    }

    pub closed spec fn message(self) -> Seq<char> {
        self.message@
    }

    pub fn new(name: &str, message: String) -> (res: Self)
        ensures
            res.name() == name@,
            res.message() == message@,
    {
        TransformError { name: name.to_owned(), message }
    }

    /// The error as text: its name, a colon, and its message.
    pub fn describe(&self) -> (res: String)
        ensures
            res@ == self.name() + ": "@ + self.message(),
    {
        let mut res = self.name.clone();
        res.append(": ");
        res.append(self.message.as_str());
        proof {
            reveal_strlit(": ");
        }
        res
    }
}

/// The decimal digit for a value below ten.
pub open spec fn digit_char(d: int) -> char {
    if d == 0 {
        '0'
    } else if d == 1 {
        '1'
    } else if d == 2 {
        '2'
    } else if d == 3 {
        '3'
    } else if d == 4 {
        '4'
    } else if d == 5 {
        '5'
    } else if d == 6 {
        '6'
    } else if d == 7 {
        '7'
    } else if d == 8 {
        '8'
    } else {
        '9'
    }
}

/// The decimal rendering of an unsigned integer, most significant digit
/// first, with no leading zeros ("0" for zero).
pub open spec fn decimal(n: u64) -> Seq<char>
    decreases n,
{
    if n < 10 {
        seq![digit_char(n as int)]
    } else {
        decimal(n / 10).push(digit_char((n % 10) as int))
    }
}

/// The text of one decimal digit.
fn digit_text(d: u64) -> (res: &'static str)
    requires
        d < 10,
    ensures
        res@ == seq![digit_char(d as int)],
{
    proof {
        reveal_strlit("0");
        reveal_strlit("1");
        reveal_strlit("2");
        reveal_strlit("3");
        reveal_strlit("4");
        reveal_strlit("5");
        reveal_strlit("6");
        reveal_strlit("7");
        reveal_strlit("8");
        reveal_strlit("9");
    }
    match d {
        0 => "0",
        1 => "1",
        2 => "2",
        3 => "3",
        4 => "4",
        5 => "5",
        6 => "6",
        7 => "7",
        8 => "8",
        _ => "9",
    }
}

/// The number in decimal, as `u64`'s `Display` writes it.
pub fn decimal_string(n: u64) -> (res: String)
    ensures
        res@ == decimal(n),
    decreases n,
{
    if n < 10 {
        String::from_str(digit_text(n))
    } else {
        let mut text = decimal_string(n / 10);
        text.append(digit_text(n % 10));
        text
    }
}

/// Saturating `u32` arithmetic, as a spec.
pub open spec fn sat_u32(x: int) -> u32 {
    if x > u32::MAX { u32::MAX } else { x as u32 }
}

/// The sum of the tables' minimum sizes.
pub open spec fn sum_table_minima(tables: Seq<TableType>) -> nat
    decreases tables.len(),
{
    if tables.len() == 0 {
        0
    } else {
        sum_table_minima(tables.drop_last()) + tables.last().minimum as nat
    }
}

/// The limit a memory is held to: its own maximum, or the given limit where
/// it has none, never above the given limit.
pub open spec fn capped_maximum(memory: MemoryType, limit: u32) -> u32 {
    match memory.maximum {
        Some(m) => if m < limit { m } else { limit },
        None => limit,
    }
}

/// The message of a memory whose minimum exceeds the limit it is held to.
pub open spec fn memory_limit_message(minimum: u32, held: u32) -> Seq<char> {
    "module memory minimum "@ + decimal(minimum as u64) + " exceeds "@ + decimal(held as u64) + " limit"@
}

/// Whether a memory's minimum exceeds the limit it is held to.
pub open spec fn exceeds_limit(memory: MemoryType, limit: u32) -> bool {
    memory.minimum > capped_maximum(memory, limit)
}

impl ModuleInfo {
    /// Exports the start function under `name` and removes it as the start
    /// function; any previous export under `name` is dropped.
    pub fn move_start_function(&mut self, name: &str)
        ensures
            final(self).start_function is None,
            final(self).exports.get(name@) == match old(self).start_function {
                Some(start) => Some(ExportIndex::Function(start)),
                None => None,
            },
            forall|n: Seq<char>| n != name@ ==> final(self).exports.get(n) == old(self).exports.get(n),
            match old(self).start_function {
                Some(start) => {
                    &&& final(self).function_names.get(start) == Some(name@)
                    &&& forall|f: u32| f != start ==> final(self).function_names.get(f)
                        == old(self).function_names.get(f)
                },
                None => final(self).function_names == old(self).function_names,
            },
            final(self).globals == old(self).globals,
            final(self).global_initializers == old(self).global_initializers,
            final(self).tables == old(self).tables,
            final(self).memories == old(self).memories,
    {
        self.exports.remove(name);
        if let Some(start) = self.start_function.take() {
            self.exports.insert(name.to_owned(), ExportIndex::Function(start));
            self.function_names.insert(start, name.to_owned());
        }
    }

    /// The bytes the tables take: eight per element of their minimum sizes,
    /// saturating at `u32::MAX`.
    pub fn table_bytes(&self) -> (res: usize)
        ensures
            res == sat_u32((8 * sum_table_minima(self.tables@)) as int),
    {
        let mut total: u32 = 0;
        let mut i: usize = 0;
        while i < self.tables.len()
            invariant
                i <= self.tables@.len(),
                total == sat_u32((8 * sum_table_minima(self.tables@.take(i as int))) as int),
            decreases self.tables@.len() - i,
        {
            let minimum = self.tables[i].minimum;
            proof {
                assert(self.tables@.take(i + 1).drop_last() =~= self.tables@.take(i as int));
            }
            let element_bytes: u32 = if minimum <= u32::MAX / 8 { minimum * 8 } else { u32::MAX };
            total = total.saturating_add(element_bytes);
            i = i + 1;
        }
        proof {
            assert(self.tables@.take(self.tables@.len() as int) =~= self.tables@);
        }
        total as usize
    }

    /// Holds every memory to at most `limit` pages: its maximum becomes its
    /// own maximum capped at `limit` (or `limit` where it has none), in order,
    /// stopping with an error at the first memory whose minimum exceeds the
    /// maximum it is then held to.
    pub fn limit_memory(&mut self, limit: u32) -> (res: Result<(), TransformError>)
        ensures
            final(self).memories@.len() == old(self).memories@.len(),
            final(self).exports == old(self).exports,
            final(self).globals == old(self).globals,
            final(self).tables == old(self).tables,
            match res {
                Ok(()) => {
                    &&& forall|i: int| 0 <= i < old(self).memories@.len() ==> !exceeds_limit(
                        #[trigger] old(self).memories@[i], limit)
                    &&& forall|i: int| 0 <= i < old(self).memories@.len() ==> final(self).memories@[i]
                        == (MemoryType { maximum: Some(capped_maximum(old(self).memories@[i], limit)), ..old(self).memories@[i] })
                },
                Err(e) => exists|k: int| {
                    &&& 0 <= k < old(self).memories@.len()
                    &&& exceeds_limit(old(self).memories@[k], limit)
                    &&& forall|i: int| 0 <= i < k ==> !exceeds_limit(#[trigger] old(self).memories@[i], limit)
                    &&& forall|i: int| 0 <= i <= k ==> final(self).memories@[i]
                        == (MemoryType { maximum: Some(capped_maximum(old(self).memories@[i], limit)), ..old(self).memories@[i] })
                    &&& forall|i: int| k < i < old(self).memories@.len() ==> final(self).memories@[i] == old(self).memories@[i]
                    &&& e.name() == "Memory Limiter"@
                    &&& e.message() == memory_limit_message(old(self).memories@[k].minimum,
                        capped_maximum(old(self).memories@[k], limit))
                },
            },
    {
        let n = self.memories.len();
        let mut i: usize = 0;
        while i < n
            invariant
                n == old(self).memories@.len(),
                self.memories@.len() == n,
                i <= n,
                self.exports == old(self).exports,
                self.globals == old(self).globals,
                self.tables == old(self).tables,
                forall|j: int| 0 <= j < i ==> !exceeds_limit(#[trigger] old(self).memories@[j], limit),
                forall|j: int| 0 <= j < i ==> self.memories@[j]
                    == (MemoryType { maximum: Some(capped_maximum(old(self).memories@[j], limit)), ..old(self).memories@[j] }),
                forall|j: int| i <= j < n ==> self.memories@[j] == old(self).memories@[j],
            decreases n - i,
        {
            let memory = self.memories[i];
            let held = match memory.maximum {
                Some(m) => if m < limit { m } else { limit },
                None => limit,
            };
            self.memories.set(i, MemoryType { maximum: Some(held), ..memory });
            if memory.minimum > held {
                let mut message = String::from_str("module memory minimum ");
                let minimum_text = decimal_string(memory.minimum as u64);
                message.append(minimum_text.as_str());
                message.append(" exceeds ");
                let held_text = decimal_string(held as u64);
                message.append(held_text.as_str());
                message.append(" limit");
                let e = TransformError::new("Memory Limiter", message);
                proof {
                    reveal_strlit("Memory Limiter");
                    reveal_strlit("module memory minimum ");
                    reveal_strlit(" exceeds ");
                    reveal_strlit(" limit");
                    assert(e.message() == memory_limit_message(memory.minimum, held));
                }
                return Err(e);
            }
            i = i + 1;
        }
        Ok(())
    }

    /// Adds a mutable global initialized by `init`, exported as `name`, and
    /// returns its index.
    pub fn add_global(&mut self, name: &str, ty: ValType, init: GlobalInit) -> (index: u32)
        requires
            old(self).globals@.len() < u32::MAX,
        ensures
            index == old(self).globals@.len(),
            final(self).globals@ == old(self).globals@.push(GlobalType { ty, mutable: true }),
            final(self).global_initializers@ == old(self).global_initializers@.push(init),
            final(self).exports.get(name@) == Some(ExportIndex::Global(index)),
            forall|n: Seq<char>| n != name@ ==> final(self).exports.get(n) == old(self).exports.get(n),
            final(self).memories == old(self).memories,
            final(self).tables == old(self).tables,
            final(self).start_function == old(self).start_function,
    {
        let index = self.globals.len() as u32;
        self.globals.push(GlobalType { ty, mutable: true });
        self.exports.insert(name.to_owned(), ExportIndex::Global(index));
        self.global_initializers.push(init);
        index
    }
}

} // verus!
