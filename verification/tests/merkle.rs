use arbitrator::bytes::Bytes32;
use arbitrator::prover::merkle::{hash_node, keccak, Merkle, MerkleType};

#[test]
fn keccak_known_hashes() {
    assert_eq!(
        hex::encode(keccak(b"")),
        "c5d2460186f7233c927e7db2dcc703c0e500b653ca82273b7bfad8045d85a470"
    );
    assert_eq!(
        hex::encode(keccak(b"abc")),
        "4e03657aea45a94fc7d47ba826c8d667c0d1e6e33a64a036ec44f58fa12d6c45"
    );
}

#[test]
fn node_hash_prefixes_the_children() {
    let a = Bytes32::from(1u64);
    let b = Bytes32::from(2u64);
    let mut data = b"Value merkle tree:".to_vec();
    data.extend_from_slice(&a.0);
    data.extend_from_slice(&b.0);
    assert_eq!(hash_node(MerkleType::Value, a, b).0, keccak(&data));
    assert_eq!(MerkleType::Memory.get_prefix(), "Memory merkle tree:");
}

fn leaves(n: u64) -> Vec<Bytes32> {
    (1..=n).map(Bytes32::from).collect()
}

#[test]
fn root_of_small_trees() {
    let empty = Merkle::new(MerkleType::Value, vec![]);
    assert_eq!(empty.root(), Bytes32::default());

    let one = Merkle::new(MerkleType::Value, leaves(1));
    assert_eq!(one.root(), Bytes32::from(1u64));

    let two = Merkle::new(MerkleType::Value, leaves(2));
    let expected = hash_node(MerkleType::Value, Bytes32::from(1u64), Bytes32::from(2u64));
    assert_eq!(two.root(), expected);

    let three = Merkle::new(MerkleType::Value, leaves(3));
    let left = hash_node(MerkleType::Value, Bytes32::from(1u64), Bytes32::from(2u64));
    let right = hash_node(MerkleType::Value, Bytes32::from(3u64), Merkle::get_empty(MerkleType::Value, 0));
    assert_eq!(three.root(), hash_node(MerkleType::Value, left, right));
    assert_eq!(three.leaves(), &leaves(3)[..]);
}

#[test]
fn proof_reaches_root() {
    let tree = Merkle::new(MerkleType::Function, leaves(4));
    let proof = tree.prove(2).unwrap();
    assert_eq!(proof[0], 2);
    assert_eq!(proof.len(), 1 + 2 * 32);
    let sibling = Bytes32(proof[1..33].try_into().unwrap());
    let uncle = Bytes32(proof[33..65].try_into().unwrap());
    assert_eq!(sibling, Bytes32::from(4u64));
    let parent = hash_node(MerkleType::Function, Bytes32::from(3u64), sibling);
    assert_eq!(hash_node(MerkleType::Function, uncle, parent), tree.root());
    assert_eq!(tree.prove(4), None);
}

#[test]
fn set_matches_rebuild() {
    let mut tree = Merkle::new(MerkleType::Value, leaves(5));
    tree.set(3, Bytes32::from(99u64));
    let mut updated = leaves(5);
    updated[3] = Bytes32::from(99u64);
    let rebuilt = Merkle::new(MerkleType::Value, updated);
    assert_eq!(tree.root(), rebuilt.root());
    assert_eq!(tree, rebuilt);
}

#[test]
fn push_and_pop_leaves() {
    let mut tree = Merkle::new(MerkleType::Value, leaves(2));
    tree.push_leaf(Bytes32::from(3u64));
    assert_eq!(tree.root(), Merkle::new(MerkleType::Value, leaves(3)).root());
    tree.pop_leaf();
    assert_eq!(tree.root(), Merkle::new(MerkleType::Value, leaves(2)).root());
}

#[test]
fn memory_trees_have_full_depth() {
    let tree = Merkle::new(MerkleType::Memory, leaves(1));
    let proof = tree.prove(0).unwrap();
    assert_eq!(proof[0] as usize, arbitrator::prover::merkle::MEMORY_LAYERS - 1);
}
