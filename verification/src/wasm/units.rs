//! Sizes of linear memory, by way of `wasmer_types`.

use vstd::prelude::*;

verus! {

/// The size of a WebAssembly page, in bytes.
pub const WASM_PAGE_SIZE: usize = 0x10000;

#[verifier::external_type_specification]
#[verifier::external_body]
pub struct ExPageCountOutOfRange(wasmer_types::PageCountOutOfRange);

/// `wasmer_types::Pages::try_from(Bytes(bytes))`: the whole pages in `bytes`
/// bytes, refused when that count does not fit in a `u32`.
#[verifier::external_body]
pub fn pages_from_bytes(bytes: usize) -> (res: Result<u32, wasmer_types::PageCountOutOfRange>)
    ensures
        res is Ok <==> bytes / WASM_PAGE_SIZE <= u32::MAX,
        res matches Ok(pages) ==> pages == bytes / WASM_PAGE_SIZE,
{
    wasmer_types::Pages::try_from(wasmer_types::Bytes(bytes)).map(|pages| pages.0)
}

} // verus!
