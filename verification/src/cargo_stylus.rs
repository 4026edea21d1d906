//! The byte layouts and decisions of the `cargo stylus` deploy and check
//! commands: deployment and activation calldata, multicall batches, program
//! size and version checks, and which transactions to send.

use vstd::prelude::*;
use bytesize::ByteSize;
use crate::brotli::{brotli_encode, brotli_stream};
use crate::polyglot::execute::{contains_text, str_contains};
use crate::bytes::{Bytes20, Bytes32, be_bytes, padded_be, word32_from, hex_encode, hex_lower, lemma_be_bytes_len};
use crate::color::{colored, red, red_code};

verus! {

/// The EOF prefix of a Stylus program's compressed code on chain.
pub open spec fn eof_prefix() -> Seq<u8> {
    seq![0xEFu8, 0x00, 0x00, 0x00]
}

/// The maximum Brotli compression level, used for Stylus programs.
pub const BROTLI_COMPRESSION_LEVEL: u32 = 11;

/// The largest program allowed on chain, in bytes (24 kB).
pub const MAX_PROGRAM_SIZE: u64 = 24_000;

/// The selector of ArbWasm's program-activation method.
pub open spec fn activate_method_selector() -> Seq<u8> {
    seq![0x2eu8, 0x50, 0xf3, 0x2b]
}

/// The address of the ArbWasm precompile: 0x...71.
pub open spec fn arb_wasm_address_bytes() -> Seq<u8> {
    Seq::new(19, |i: int| 0u8).push(0x71u8)
}

/// The address of the ArbWasm precompile.
pub fn arb_wasm_address() -> (res: Bytes20)
    ensures
        res.0@ == arb_wasm_address_bytes(),
{
    let mut bytes = [0u8; 20];
    bytes[19] = 0x71;
    proof {
        assert(bytes@ =~= arb_wasm_address_bytes());
    }
    Bytes20(bytes)
}

/// The calldata that activates the program at `program_addr`: the method
/// selector, then the address left-padded to 32 bytes.
pub fn activation_calldata(program_addr: &Bytes20) -> (res: Vec<u8>)
    ensures
        res@ == activate_method_selector() + Seq::new(12, |i: int| 0u8) + program_addr.0@,
{
    let mut calldata: Vec<u8> = vec![0x2e, 0x50, 0xf3, 0x2b];
    let padding = [0u8; 12];
    calldata.extend_from_slice(padding.as_slice());
    calldata.extend_from_slice(program_addr.0.as_slice());
    proof {
        assert(padding@ =~= Seq::new(12, |i: int| 0u8));
        assert(calldata@ =~= activate_method_selector() + Seq::new(12, |i: int| 0u8) + program_addr.0@);
    }
    calldata
}

/// The EVM prelude that deploys `code_len` bytes of code placed right after it:
/// PUSH32 len, DUP1, PUSH1 42, PUSH1 0, CODECOPY, PUSH1 0, RETURN.
pub open spec fn deployment_prelude(code_len: nat) -> Seq<u8> {
    seq![0x7fu8] + padded_be(code_len, 32, 8)
        + seq![0x80u8, 0x60, 0x2a, 0x60, 0x00, 0x39, 0x60, 0x00, 0xf3]
}

/// The calldata of a transaction that deploys `code`: the prelude, then the code.
pub fn program_deployment_calldata(code: &[u8]) -> (res: Vec<u8>)
    requires
        code@.len() <= u64::MAX,
    ensures
        res@ == deployment_prelude(code@.len()) + code@,
        res@.len() == 42 + code@.len(),
{
    proof {
        lemma_be_bytes_len(code@.len(), 8);
    }
    let code_len = word32_from(code.len() as u64, 8);
    let mut deploy: Vec<u8> = Vec::new();
    deploy.push(0x7f); // PUSH32
    deploy.extend_from_slice(code_len.0.as_slice());
    deploy.push(0x80); // DUP1
    deploy.push(0x60); // PUSH1
    deploy.push(0x2a); // 42, the prelude's length
    deploy.push(0x60); // PUSH1
    deploy.push(0x00);
    deploy.push(0x39); // CODECOPY
    deploy.push(0x60); // PUSH1
    deploy.push(0x00);
    deploy.push(0xf3); // RETURN
    deploy.extend_from_slice(code);
    proof {
        assert(deploy@ =~= deployment_prelude(code@.len()) + code@);
    }
    deploy
}

/// The kind of a call in a multicall batch.
#[derive(Clone, Copy, Debug, PartialEq, Eq, Structural)]
pub enum MulticallArg {
    Call,
    DelegateCall,
    StaticCall,
}

/// The byte that encodes a multicall argument.
pub open spec fn multicall_byte(arg: MulticallArg) -> u8 {
    match arg {
        MulticallArg::Call => 0x00,
        MulticallArg::DelegateCall => 0x01,
        MulticallArg::StaticCall => 0x02,
    }
}

impl From<MulticallArg> for u8 {
    fn from(value: MulticallArg) -> (res: u8) {
        match value {
            MulticallArg::Call => 0x00,
            MulticallArg::DelegateCall => 0x01,
            MulticallArg::StaticCall => 0x02,
        }
    }
}

impl vstd::std_specs::convert::FromSpecImpl<MulticallArg> for u8 {
    open spec fn obeys_from_spec() -> bool {
        true
    }

    open spec fn from_spec(value: MulticallArg) -> u8 {
        multicall_byte(value)
    }
}

/// One call of a multicall batch: its length (the kind, the value for a basic
/// call, the address and the calldata) as a big-endian `u32`, the kind, the
/// value (zero when none is given), the address, then the calldata.
pub open spec fn multicall_entry(opcode: MulticallArg, address: Bytes20, value: Option<Bytes32>, calldata: Seq<u8>) -> Seq<u8> {
    let length = 21 + calldata.len() + if opcode == MulticallArg::Call { 32int } else { 0int };
    be_bytes(length as nat, 4) + seq![multicall_byte(opcode)]
        + (if opcode == MulticallArg::Call {
            match value { Some(v) => v.0@, None => Seq::new(32, |i: int| 0u8) }
        } else {
            Seq::empty()
        })
        + address.0@ + calldata
}

/// A multicall batch of one call: a call count of 1, then the call.
pub fn args_for_multicall(opcode: MulticallArg, address: Bytes20, value: Option<Bytes32>, calldata: Vec<u8>) -> (res: Vec<u8>)
    requires
        calldata@.len() + 53 <= u32::MAX,
    ensures
        res@ == seq![0x01u8] + multicall_entry(opcode, address, value, calldata@),
{
    let mut args: Vec<u8> = vec![0x01];
    let mut length: u32 = 21 + calldata.len() as u32;
    if opcode == MulticallArg::Call {
        length = length + 32;
    }
    let tail = crate::bytes::be_u32_bytes(length);
    args.extend_from_slice(tail.as_slice());
    args.push(opcode.into());
    if opcode == MulticallArg::Call {
        let v = match value {
            Some(v) => v,
            None => Bytes32::zero(),
        };
        args.extend_from_slice(v.0.as_slice());
    }
    args.extend_from_slice(address.0.as_slice());
    let mut calldata = calldata;
    let ghost cd = calldata@;
    args.append(&mut calldata);
    proof {
        lemma_be_bytes_len(length as nat, 4);
        assert(args@ =~= seq![0x01u8] + multicall_entry(opcode, address, value, cd));
    }
    args
}

/// Adds a call to a multicall batch: bumps the call count and appends the call.
pub fn multicall_append(calls: &mut Vec<u8>, opcode: MulticallArg, address: Bytes20, value: Option<Bytes32>, inner: Vec<u8>)
    requires
        old(calls)@.len() > 0,
        old(calls)@[0] < u8::MAX,
        inner@.len() + 53 <= u32::MAX,
    ensures
        final(calls)@ == old(calls)@.update(0, (old(calls)@[0] + 1) as u8) + multicall_entry(opcode, address, value, inner@),
{
    let count = calls[0];
    calls.set(0, count + 1);
    let args = args_for_multicall(opcode, address, value, inner);
    let mut i: usize = 1;
    let ghost base = calls@;
    while i < args.len()
        invariant
            1 <= i <= args@.len(),
            calls@ == base + args@.subrange(1, i as int),
        decreases args@.len() - i,
    {
        calls.push(args[i]);
        proof {
            assert(calls@ =~= base + args@.subrange(1, i + 1));
        }
        i = i + 1;
    }
    proof {
        assert(args@.subrange(1, args@.len() as int) =~= multicall_entry(opcode, address, value, inner@));
    }
}

/// A multicall batch that deploys the compressed program and then activates
/// it at the address it is expected to get.
pub fn check_deploy_compile_succeeds(compressed_wasm: &[u8], expected_address: &Bytes20) -> (res: Vec<u8>)
    requires
        compressed_wasm@.len() + 42 + 53 <= u32::MAX,
    ensures
        res@ == seq![0x02u8]
            + multicall_entry(MulticallArg::Call, Bytes20(choose|a: [u8; 20]| a@ == Seq::new(20, |i: int| 0u8)), None,
                deployment_prelude(compressed_wasm@.len()) + compressed_wasm@)
            + multicall_entry(MulticallArg::Call, Bytes20(choose|a: [u8; 20]| a@ == arb_wasm_address_bytes()), None,
                activate_method_selector() + Seq::new(12, |i: int| 0u8) + expected_address.0@),
{
    let deployment_calldata = program_deployment_calldata(compressed_wasm);
    let zero = [0u8; 20];
    let mut multicall_args = args_for_multicall(MulticallArg::Call, Bytes20(zero), None, deployment_calldata);
    let activate_calldata = activation_calldata(expected_address);
    let arbwasm_address = arb_wasm_address();
    multicall_append(&mut multicall_args, MulticallArg::Call, arbwasm_address, None, activate_calldata);
    proof {
        broadcast use vstd::array::axiom_array_ext_equal;
        assert(zero@ =~= Seq::new(20, |i: int| 0u8));
        let z = choose|a: [u8; 20]| a@ == Seq::new(20, |i: int| 0u8);
        assert(z =~= zero);
        let w = choose|a: [u8; 20]| a@ == arb_wasm_address_bytes();
        assert(w =~= arbwasm_address.0);
        assert(multicall_args@ =~= seq![0x02u8]
            + multicall_entry(MulticallArg::Call, Bytes20(z), None,
                deployment_prelude(compressed_wasm@.len()) + compressed_wasm@)
            + multicall_entry(MulticallArg::Call, Bytes20(w), None,
                activate_method_selector() + Seq::new(12, |i: int| 0u8) + expected_address.0@));
    }
    multicall_args
}

/// How the deploy command splits its work.
#[derive(Clone, Copy, Debug, PartialEq, Eq, Structural)]
pub enum DeployMode {
    /// Only send the transaction that deploys the program.
    DeployOnly,
    /// Only send the transaction that activates an already deployed program.
    ActivateOnly,
}

/// The transactions the deploy command sends: whether it deploys the
/// program, and the address it activates, if it activates one.
#[derive(Clone, Copy, Debug, PartialEq, Eq)]
pub struct DeployPlan {
    pub deploy: bool,
    pub activate: Option<Bytes20>,
}

/// Whether the deploy command deploys and whether it activates: by default
/// both, except that a gas estimate with no program to activate given only
/// deploys, since nothing would be there to activate.
pub open spec fn deploy_steps(mode: Option<DeployMode>, estimate_gas_only: bool, activate_given: bool) -> (bool, bool) {
    match mode {
        Some(DeployMode::DeployOnly) => (true, false),
        Some(DeployMode::ActivateOnly) => (false, true),
        None => if estimate_gas_only && !activate_given { (true, false) } else { (true, true) },
    }
}

/// Decides the deploy command's transactions: which ones it sends, and that
/// the activation targets the given program address or else the address the
/// deployment is expected to create.
pub fn deploy_plan(
    mode: Option<DeployMode>,
    estimate_gas_only: bool,
    activate_program_address: Option<Bytes20>,
    expected_program_addr: Bytes20,
) -> (res: DeployPlan)
    ensures
        res.deploy == deploy_steps(mode, estimate_gas_only, activate_program_address is Some).0,
        deploy_steps(mode, estimate_gas_only, activate_program_address is Some).1
            ==> res.activate == Some(match activate_program_address { Some(a) => a, None => expected_program_addr }),
        !deploy_steps(mode, estimate_gas_only, activate_program_address is Some).1 ==> res.activate is None,
{
    let (deploy, activate) = match mode {
        Some(DeployMode::DeployOnly) => (true, false),
        Some(DeployMode::ActivateOnly) => (false, true),
        None => {
            if estimate_gas_only && activate_program_address.is_none() {
                (true, false)
            } else {
                (true, true)
            }
        },
    };
    let target = if activate {
        match activate_program_address {
            Some(a) => Some(a),
            None => Some(expected_program_addr),
        }
    } else {
        None
    };
    DeployPlan { deploy, activate: target }
}

/// Where a wallet comes from: a private key file, or a keystore unlocked by a
/// password file.
#[derive(Clone, Debug)]
pub struct KeystoreOpts {
    pub keystore_path: Option<String>,
    pub keystore_password_path: Option<String>,
}

/// The wallet source the options name.
#[derive(Debug)]
pub enum WalletSource {
    /// A file holding the private key.
    PrivateKey(String),
    /// A keystore's password file, and the keystore, if one was given.
    Keystore { password_path: String, keystore_path: Option<String> },
}

/// The wallet source that the options ask for, refused where both a private
/// key and a full keystore are given, or neither a private key nor a
/// keystore password. (A keystore without a path is refused only once the
/// password has been read: see `keystore_file`.)
pub fn wallet_source(private_key_path: Option<String>, keystore_opts: KeystoreOpts) -> (res: Result<WalletSource, String>)
    ensures
        private_key_path is Some && keystore_opts.keystore_password_path is Some && keystore_opts.keystore_path is Some
            ==> (res matches Err(e) && e@ == "must provide either --private-key-path or (--keystore-path and --keystore-password-path)"@),
        !(keystore_opts.keystore_password_path is Some && keystore_opts.keystore_path is Some) && private_key_path is Some
            ==> (res matches Ok(WalletSource::PrivateKey(p)) && p@ == private_key_path->0@),
        private_key_path is None && keystore_opts.keystore_password_path is None
            ==> (res matches Err(e) && e@ == "no keystore password path provided"@),
        private_key_path is None && keystore_opts.keystore_password_path is Some
            ==> (res matches Ok(WalletSource::Keystore { password_path, keystore_path })
                && password_path@ == keystore_opts.keystore_password_path->0@
                && (keystore_path is Some <==> keystore_opts.keystore_path is Some)
                && (keystore_path matches Some(k) ==> k@ == keystore_opts.keystore_path->0@)),
{
    if private_key_path.is_some() && (keystore_opts.keystore_password_path.is_some() && keystore_opts.keystore_path.is_some()) {
        return Err(String::from_str("must provide either --private-key-path or (--keystore-path and --keystore-password-path)"));
    }
    match private_key_path {
        Some(path) => Ok(WalletSource::PrivateKey(path)),
        None => match keystore_opts.keystore_password_path {
            None => Err(String::from_str("no keystore password path provided")),
            Some(password_path) => Ok(WalletSource::Keystore { password_path, keystore_path: keystore_opts.keystore_path }),
        },
    }
}

/// The keystore to decrypt, once its password has been read; refused where
/// none was given.
pub fn keystore_file(keystore_path: Option<String>) -> (res: Result<String, String>)
    ensures
        match keystore_path {
            Some(p) => res matches Ok(k) && k@ == p@,
            None => res matches Err(e) && e@ == "no keystore path provided"@,
        },
{
    match keystore_path {
        Some(p) => Ok(p),
        None => Err(String::from_str("no keystore path provided")),
    }
}

/// The Stylus version an activation check answered with: the response's last
/// two bytes, big-endian. A shorter response is refused, and shown in hex.
pub fn stylus_version(response: &[u8]) -> (res: Result<u16, String>)
    ensures
        response@.len() >= 2 ==> res == Ok::<u16, String>(
            (response@[response@.len() - 2] as int * 256 + response@[response@.len() - 1] as int) as u16),
        response@.len() < 2 ==> (res matches Err(e)
            && e@ == "Stylus version bytes response too short, expected at least 2 bytes but got: "@ + hex_lower(response@)),
{
    let n = response.len();
    if n < 2 {
        let mut message = String::from_str("Stylus version bytes response too short, expected at least 2 bytes but got: ");
        let shown = hex_encode(response);
        message.append(shown.as_str());
        proof {
            reveal_strlit("Stylus version bytes response too short, expected at least 2 bytes but got: ");
        }
        return Err(message);
    }
    let high = response[n - 2] as u16;
    let low = response[n - 1] as u16;
    Ok(high * 256 + low)
}

/// The text `bytesize` renders a byte count as (such as "24.0 KB").
pub uninterp spec fn byte_size_text(bytes: u64) -> Seq<char>;

/// `Display` of `bytesize::ByteSize`: a byte count in decimal units.
#[verifier::external_body]
fn byte_size_string(bytes: u64) -> (res: String)
    ensures
        res@ == byte_size_text(bytes),
{
    ByteSize::b(bytes).to_string()
}

/// Refuses a compressed program larger than the program size limit, with its
/// size in red.
pub fn check_program_size(compressed_len: u64) -> (res: Result<(), String>)
    ensures
        compressed_len <= MAX_PROGRAM_SIZE ==> res is Ok,
        compressed_len > MAX_PROGRAM_SIZE ==> (res matches Err(e)
            && e@ == "brotli-compressed WASM size "@ + colored(red_code(), byte_size_text(compressed_len))
                + " is bigger than program size limit: "@ + byte_size_text(MAX_PROGRAM_SIZE)),
{
    if compressed_len > MAX_PROGRAM_SIZE {
        let mut message = String::from_str("brotli-compressed WASM size ");
        let size = byte_size_string(compressed_len);
        let size = red(size.as_str());
        message.append(size.as_str());
        message.append(" is bigger than program size limit: ");
        let limit = byte_size_string(MAX_PROGRAM_SIZE);
        message.append(limit.as_str());
        proof {
            reveal_strlit("brotli-compressed WASM size ");
            reveal_strlit(" is bigger than program size limit: ");
        }
        return Err(message);
    }
    Ok(())
}

/// The code a program is deployed with: the EOF prefix, then its Brotli
/// stream at the maximum level.
pub fn get_compressed_wasm_bytes(wasm_file_bytes: &[u8]) -> (res: Result<Vec<u8>, String>)
    ensures
        res matches Ok(code) && code@ == eof_prefix() + brotli_stream(wasm_file_bytes@, BROTLI_COMPRESSION_LEVEL),
{
    match brotli_encode(wasm_file_bytes, BROTLI_COMPRESSION_LEVEL) {
        Ok(compressed) => {
            let mut code: Vec<u8> = vec![0xEF, 0x00, 0x00, 0x00];
            let mut compressed = compressed;
            let ghost c = compressed@;
            code.append(&mut compressed);
            proof {
                assert(code@ =~= eof_prefix() + c);
            }
            Ok(code)
        },
        Err(e) => {
            let mut message = String::from_str("could not Brotli compress WASM bytes ");
            message.append(e.as_str());
            proof {
                reveal_strlit("could not Brotli compress WASM bytes ");
                assert(message@.take(37) =~= "could not Brotli compress WASM bytes "@);
            }
            Err(message)
        },
    }
}

/// The first of a release directory's file names that names a WASM file
/// (holds ".wasm"); refused where none does.
pub fn find_wasm_file(file_names: &Vec<String>) -> (res: Result<usize, String>)
    ensures
        match res {
            Ok(i) => i < file_names@.len() && contains_text(file_names@[i as int]@, ".wasm"@)
                && forall|j: int| 0 <= j < i ==> !contains_text(#[trigger] file_names@[j]@, ".wasm"@),
            Err(e) => e@ == "could not find WASM file in release dir"@
                && forall|j: int| 0 <= j < file_names@.len() ==> !contains_text(#[trigger] file_names@[j]@, ".wasm"@),
        },
{
    let mut i: usize = 0;
    while i < file_names.len()
        invariant
            i <= file_names@.len(),
            forall|j: int| 0 <= j < i ==> !contains_text(#[trigger] file_names@[j]@, ".wasm"@),
        decreases file_names@.len() - i,
    {
        if str_contains(file_names[i].as_str(), ".wasm") {
            return Ok(i);
        }
        i = i + 1;
    }
    Err(String::from_str("could not find WASM file in release dir"))
}

/// The end of a sent transaction: success where its receipt has a status,
/// else an error naming the transaction's hash as reverted.
pub fn receipt_result(status: Option<u64>, transaction_hash: &str) -> (res: Result<(), String>)
    ensures
        status is Some ==> res is Ok,
        status is None ==> (res matches Err(e) && e@ == "Tx with hash "@ + transaction_hash@ + " reverted"@),
{
    match status {
        Some(_) => Ok(()),
        None => {
            let mut message = String::from_str("Tx with hash ");
            message.append(transaction_hash);
            message.append(" reverted");
            proof {
                reveal_strlit("Tx with hash ");
                reveal_strlit(" reverted");
            }
            Err(message)
        },
    }
}

/// The deployment prelude copies the code from just past itself: the offset
/// its `PUSH1` hands `CODECOPY` is the prelude's own length, 42 bytes.
pub proof fn lemma_prelude_copies_code(code_len: nat)
    requires
        code_len <= u64::MAX,
    ensures
        deployment_prelude(code_len).len() == 42,
        deployment_prelude(code_len)[35] == 42,
        deployment_prelude(code_len)[34] == 0x60,
        deployment_prelude(code_len)[38] == 0x39,
{
    lemma_be_bytes_len(code_len, 8);
    reveal_with_fuel(be_bytes, 2);
}

/// A multicall entry's length field counts exactly the bytes that follow it.
pub proof fn lemma_multicall_length_field(opcode: MulticallArg, address: Bytes20, value: Option<Bytes32>, calldata: Seq<u8>)
    requires
        calldata.len() + 53 <= u32::MAX,
    ensures
        multicall_entry(opcode, address, value, calldata).take(4)
            == be_bytes((multicall_entry(opcode, address, value, calldata).len() - 4) as nat, 4),
{
    let entry = multicall_entry(opcode, address, value, calldata);
    let length = 21 + calldata.len() + if opcode == MulticallArg::Call { 32int } else { 0int };
    lemma_be_bytes_len(length as nat, 4);
    assert(address.0@.len() == 20) by {
        broadcast use vstd::array::array_len_matches_n;
    }
    match value {
        Some(v) => {
            assert(v.0@.len() == 32) by {
                broadcast use vstd::array::array_len_matches_n;
            }
        },
        None => {},
    }
    assert(entry.len() == 4 + length);
    assert(entry.take(4) =~= be_bytes(length as nat, 4));
}

} // verus!
