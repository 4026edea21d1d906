use arbitrator::color::{mint, red, yellow};
use arbitrator::brotli::decompress;
use arbitrator::bytes::{Bytes20, Bytes32};
use arbitrator::cargo_stylus::{
    activation_calldata, arb_wasm_address, args_for_multicall, check_deploy_compile_succeeds,
    check_program_size, deploy_plan, find_wasm_file, get_compressed_wasm_bytes, keystore_file,
    multicall_append, program_deployment_calldata, receipt_result, stylus_version, wallet_source,
    DeployMode, KeystoreOpts, MulticallArg, WalletSource,
};

fn prelude(len: u8) -> Vec<u8> {
    let mut expected = vec![0x7f];
    expected.extend_from_slice(&[0u8; 31]);
    expected.push(len);
    expected.extend_from_slice(&[0x80, 0x60, 0x2a, 0x60, 0x00, 0x39, 0x60, 0x00, 0xf3]);
    expected
}

#[test]
fn deployment_calldata_layout() {
    let calldata = program_deployment_calldata(&[0xaa, 0xbb]);
    let mut expected = prelude(2);
    assert_eq!(expected.len(), 42);
    expected.extend_from_slice(&[0xaa, 0xbb]);
    assert_eq!(calldata, expected);
    // the prelude's PUSH1 offset is its own length
    assert_eq!(calldata[35] as usize, 42);
}

#[test]
fn activation_calldata_layout() {
    let address = Bytes20::from(0xdeadbeefu32);
    let calldata = activation_calldata(&address);
    let mut expected = vec![0x2e, 0x50, 0xf3, 0x2b];
    expected.extend_from_slice(&[0u8; 12]);
    expected.extend_from_slice(&address.0);
    assert_eq!(calldata, expected);
    assert_eq!(arb_wasm_address().to_hex(), "0000000000000000000000000000000000000071");
}

#[test]
fn multicall_of_one_call() {
    let address = Bytes20::from(7u32);
    let args = args_for_multicall(MulticallArg::Call, address, None, vec![1, 2, 3]);
    let mut expected = vec![0x01, 0, 0, 0, 56, 0x00];
    expected.extend_from_slice(&[0u8; 32]);
    expected.extend_from_slice(&address.0);
    expected.extend_from_slice(&[1, 2, 3]);
    assert_eq!(args, expected);

    let value = Bytes32::from(5u64);
    let args = args_for_multicall(MulticallArg::Call, address, Some(value), vec![]);
    assert_eq!(&args[6..38], &value.0);

    let args = args_for_multicall(MulticallArg::DelegateCall, address, Some(value), vec![9]);
    let mut expected = vec![0x01, 0, 0, 0, 22, 0x01];
    expected.extend_from_slice(&address.0);
    expected.push(9);
    assert_eq!(args, expected);
    assert_eq!(u8::from(MulticallArg::StaticCall), 0x02);
}

#[test]
fn multicall_append_bumps_the_count() {
    let address = Bytes20::from(7u32);
    let mut calls = args_for_multicall(MulticallArg::StaticCall, address, None, vec![1]);
    let first = calls.clone();
    multicall_append(&mut calls, MulticallArg::StaticCall, address, None, vec![2]);
    assert_eq!(calls[0], 2);
    assert_eq!(&calls[1..first.len()], &first[1..]);
    let second = args_for_multicall(MulticallArg::StaticCall, address, None, vec![2]);
    assert_eq!(&calls[first.len()..], &second[1..]);
}

#[test]
fn deploy_and_activate_batch() {
    let expected_address = Bytes20::from(0x1234u32);
    let batch = check_deploy_compile_succeeds(&[0xaa], &expected_address);
    assert_eq!(batch[0], 2);
    assert_eq!(batch.len(), 1 + 100 + 93);
    // the first call deploys the program
    assert_eq!(&batch[1..5], &[0, 0, 0, 96]);
    let mut deployment = prelude(1);
    deployment.push(0xaa);
    assert_eq!(&batch[58..101], &deployment[..]);
    // the second activates it at ArbWasm
    assert_eq!(&batch[101..105], &[0, 0, 0, 89]);
    assert_eq!(&batch[138..158], &arb_wasm_address().0);
    assert_eq!(&batch[158..], &activation_calldata(&expected_address)[..]);
}

#[test]
fn stylus_version_from_response() {
    assert_eq!(stylus_version(&[0x12, 0x00, 0x03]), Ok(3));
    assert_eq!(stylus_version(&[0x01, 0x02]), Ok(0x0102));
    assert_eq!(
        stylus_version(&[0x01]),
        Err("Stylus version bytes response too short, expected at least 2 bytes but got: 01".to_string())
    );
}

#[test]
fn program_size_limit() {
    assert_eq!(check_program_size(24_000), Ok(()));
    assert_eq!(
        check_program_size(24_001),
        Err("brotli-compressed WASM size \x1b[31;1m24.0 KB\x1b[0;0m is bigger than program size limit: 24.0 KB".to_string())
    );
    assert_eq!(
        check_program_size(100_000),
        Err("brotli-compressed WASM size \x1b[31;1m100.0 KB\x1b[0;0m is bigger than program size limit: 24.0 KB".to_string())
    );
}

#[test]
fn terminal_colours() {
    assert_eq!(red("x"), "\x1b[31;1mx\x1b[0;0m");
    assert_eq!(red(""), "\x1b[31;1m\x1b[0;0m");
    assert_eq!(yellow("5 KB"), "\x1b[33;1m5 KB\x1b[0;0m");
    assert_eq!(mint("2 KB"), "\x1b[38;5;48;1m2 KB\x1b[0;0m");
}

#[test]
fn deploy_plans() {
    let expected = Bytes20::from(1u32);
    let given = Bytes20::from(2u32);
    let plan = deploy_plan(None, false, None, expected);
    assert!(plan.deploy);
    assert_eq!(plan.activate, Some(expected));
    let plan = deploy_plan(None, true, None, expected);
    assert!(plan.deploy);
    assert_eq!(plan.activate, None);
    let plan = deploy_plan(None, true, Some(given), expected);
    assert!(plan.deploy);
    assert_eq!(plan.activate, Some(given));
    let plan = deploy_plan(Some(DeployMode::DeployOnly), false, Some(given), expected);
    assert!(plan.deploy);
    assert_eq!(plan.activate, None);
    let plan = deploy_plan(Some(DeployMode::ActivateOnly), false, None, expected);
    assert!(!plan.deploy);
    assert_eq!(plan.activate, Some(expected));
}

fn opts(keystore: Option<&str>, password: Option<&str>) -> KeystoreOpts {
    KeystoreOpts {
        keystore_path: keystore.map(|s| s.to_string()),
        keystore_password_path: password.map(|s| s.to_string()),
    }
}

#[test]
fn wallet_sources() {
    assert_eq!(
        wallet_source(Some("key".to_string()), opts(Some("ks"), Some("pw"))).unwrap_err(),
        "must provide either --private-key-path or (--keystore-path and --keystore-password-path)"
    );
    match wallet_source(Some("key".to_string()), opts(None, Some("pw"))).unwrap() {
        WalletSource::PrivateKey(path) => assert_eq!(path, "key"),
        other => panic!("unexpected {:?}", other),
    }
    assert_eq!(
        wallet_source(None, opts(Some("ks"), None)).unwrap_err(),
        "no keystore password path provided"
    );
    match wallet_source(None, opts(None, Some("pw"))).unwrap() {
        WalletSource::Keystore { password_path, keystore_path } => {
            assert_eq!(password_path, "pw");
            assert_eq!(keystore_file(keystore_path), Err("no keystore path provided".to_string()));
        }
        other => panic!("unexpected {:?}", other),
    }
    assert_eq!(keystore_file(Some("ks".to_string())), Ok("ks".to_string()));
}

#[test]
fn wasm_file_search() {
    let names = vec!["libfoo.d".to_string(), "foo.wasm".to_string(), "bar.wasm".to_string()];
    assert_eq!(find_wasm_file(&names), Ok(1));
    assert_eq!(
        find_wasm_file(&vec!["a".to_string()]),
        Err("could not find WASM file in release dir".to_string())
    );
}

#[test]
fn receipts() {
    assert_eq!(receipt_result(Some(1), "0xab"), Ok(()));
    assert_eq!(receipt_result(None, "0xab"), Err("Tx with hash 0xab reverted".to_string()));
}

#[test]
fn compressed_wasm_has_eof_prefix() {
    let wasm = b"\0asm\x01\0\0\0 some program bytes, some program bytes".to_vec();
    let code = get_compressed_wasm_bytes(&wasm).unwrap();
    assert_eq!(&code[..4], &[0xef, 0x00, 0x00, 0x00]);
    assert_ne!(&code[4..], &wasm[..]);
    assert_eq!(decompress(&code[4..]).unwrap(), wasm);
}
