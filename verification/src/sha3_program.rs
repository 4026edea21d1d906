//! The sample Stylus program that hashes its input with Keccak-256, and the
//! entry point's mapping of a program's result to its output and status.

use vstd::prelude::*;
use crate::prover::merkle::{keccak, keccak256};

verus! {

/// The program: the Keccak-256 hash of the preimage.
pub fn user_main(preimage: Vec<u8>) -> (res: Result<Vec<u8>, Vec<u8>>)
    ensures
        res matches Ok(hash) && hash@ == keccak256(preimage@)@,
{
    let hash = keccak(preimage.as_slice());
    let mut out: Vec<u8> = Vec::new();
    let mut i: usize = 0;
    while i < 32
        invariant
            i <= 32,
            hash@.len() == 32,
            out@ == hash@.take(i as int),
        decreases 32 - i,
    {
        out.push(hash[i]);
        proof {
            assert(out@ =~= hash@.take(i + 1));
        }
        i = i + 1;
    }
    proof {
        assert(hash@.take(32) =~= hash@);
    }
    Ok(out)
}

/// What the entry point hands back for a program's result: its data, with
/// status 0 for success and 1 for a revert.
pub fn entry_output(result: Result<Vec<u8>, Vec<u8>>) -> (res: (Vec<u8>, usize))
    ensures
        match result {
            Ok(data) => res.0 == data && res.1 == 0,
            Err(data) => res.0 == data && res.1 == 1,
        },
{
    match result {
        Ok(data) => (data, 0),
        Err(data) => (data, 1),
    }
}

} // verus!
