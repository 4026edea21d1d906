use arbitrator::brotli::{compress, decompress};

#[test]
fn compression_round_trip() {
    let data = b"stylus stylus stylus stylus stylus stylus stylus".to_vec();
    let compressed = compress(&data, 11, 22).unwrap();
    assert_ne!(compressed, data);
    assert!(compressed.len() < data.len());
    assert_eq!(decompress(&compressed).unwrap(), data);
}

#[test]
fn empty_input_round_trip() {
    let compressed = compress(&[], 11, 22).unwrap();
    assert_eq!(decompress(&compressed).unwrap(), Vec::<u8>::new());
}

#[test]
fn garbage_does_not_decompress() {
    assert_eq!(decompress(&[0xff; 16]), Err("failed to decompress data 0".to_string()));
}
