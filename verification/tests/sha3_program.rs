use arbitrator::sha3_program::{entry_output, user_main};

#[test]
fn hashes_its_input() {
    let hash = user_main(b"abc".to_vec()).unwrap();
    assert_eq!(hex::encode(hash), "4e03657aea45a94fc7d47ba826c8d667c0d1e6e33a64a036ec44f58fa12d6c45");
}

#[test]
fn entry_status() {
    assert_eq!(entry_output(Ok(vec![1, 2])), (vec![1, 2], 0));
    assert_eq!(entry_output(Err(vec![3])), (vec![3], 1));
}
