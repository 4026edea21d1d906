//! Merkle trees over Keccak-256 whose nodes are domain-separated by a prefix
//! naming the kind of tree.

use vstd::prelude::*;
use crate::bytes::{Bytes32, zero_word};
use vstd::string::StringSliceAdditionalSpecFns;
use sha3::Digest;

verus! {

/// The Keccak-256 digest of a byte string.
pub uninterp spec fn keccak256(data: Seq<u8>) -> [u8; 32];

/// `sha3::Keccak256::digest`: the Keccak-256 digest of `data`.
#[verifier::external_body]
pub fn keccak(data: &[u8]) -> (res: [u8; 32])
    ensures
        res == keccak256(data@),
{
    sha3::Keccak256::digest(data).into()
}

/// The kind of data a Merkle tree commits to.
#[derive(Clone, Copy, Debug, PartialEq, Eq, Hash, Structural)]
pub enum MerkleType {
    Empty,
    Value,
    Function,
    FunctionType,
    Opcode,
    ArgumentData,
    Memory,
    Table,
    TableElement,
    Module,
}

impl Default for MerkleType {
    fn default() -> (res: Self)
        ensures
            res == MerkleType::Empty,
    {
        MerkleType::Empty
    }
}

/// The text that prefixes every node hash of a tree of the given kind.
pub open spec fn prefix_text(ty: MerkleType) -> &'static str {
    match ty {
        MerkleType::Empty => "",
        MerkleType::Value => "Value merkle tree:",
        MerkleType::Function => "Function merkle tree:",
        MerkleType::FunctionType => "Function type merkle tree:",
        MerkleType::Opcode => "Opcode merkle tree:",
        MerkleType::ArgumentData => "Argument data merkle tree:",
        MerkleType::Memory => "Memory merkle tree:",
        MerkleType::Table => "Table merkle tree:",
        MerkleType::TableElement => "Table element merkle tree:",
        MerkleType::Module => "Module merkle tree:",
    }
}

/// The name of the data a tree holds, as its node prefix spells it.
pub open spec fn kind_name(ty: MerkleType) -> Seq<char> {
    match ty {
        MerkleType::Empty => Seq::empty(),
        MerkleType::Value => "Value"@,
        MerkleType::Function => "Function"@,
        MerkleType::FunctionType => "Function type"@,
        MerkleType::Opcode => "Opcode"@,
        MerkleType::ArgumentData => "Argument data"@,
        MerkleType::Memory => "Memory"@,
        MerkleType::Table => "Table"@,
        MerkleType::TableElement => "Table element"@,
        MerkleType::Module => "Module"@,
    }
}

/// Node hashes of different kinds of tree are kept apart: every kind but
/// `Empty` prefixes its nodes with its own name followed by " merkle tree:",
/// `Empty` with nothing, and no two kinds share a prefix.
pub proof fn lemma_prefixes_are_distinct(a: MerkleType, b: MerkleType)
    ensures
        a != MerkleType::Empty ==> prefix_text(a)@ == kind_name(a) + " merkle tree:"@,
        a == MerkleType::Empty ==> prefix_text(a)@.len() == 0,
        a != b ==> prefix_text(a)@ != prefix_text(b)@,
{
    reveal_strlit("");
    reveal_strlit(" merkle tree:");
    reveal_strlit("Value merkle tree:");
    reveal_strlit("Function merkle tree:");
    reveal_strlit("Function type merkle tree:");
    reveal_strlit("Opcode merkle tree:");
    reveal_strlit("Argument data merkle tree:");
    reveal_strlit("Memory merkle tree:");
    reveal_strlit("Table merkle tree:");
    reveal_strlit("Table element merkle tree:");
    reveal_strlit("Module merkle tree:");
    reveal_strlit("Value");
    reveal_strlit("Function");
    reveal_strlit("Function type");
    reveal_strlit("Opcode");
    reveal_strlit("Argument data");
    reveal_strlit("Memory");
    reveal_strlit("Table");
    reveal_strlit("Table element");
    reveal_strlit("Module");
    if a != b && prefix_text(a)@ == prefix_text(b)@ {
        assert(prefix_text(a)@.len() == prefix_text(b)@.len());
        assert(prefix_text(a)@[0] == prefix_text(b)@[0]);
        assert(prefix_text(a)@[1] == prefix_text(b)@[1]);
    }
}

impl MerkleType {
    /// The prefix of the tree's node hashes.
    pub fn get_prefix(self) -> (res: &'static str)
        requires
            self != MerkleType::Empty,
        ensures
            res == prefix_text(self),
    {
        match self {
            MerkleType::Empty => "",
            MerkleType::Value => "Value merkle tree:",
            MerkleType::Function => "Function merkle tree:",
            MerkleType::FunctionType => "Function type merkle tree:",
            MerkleType::Opcode => "Opcode merkle tree:",
            MerkleType::ArgumentData => "Argument data merkle tree:",
            MerkleType::Memory => "Memory merkle tree:",
            MerkleType::Table => "Table merkle tree:",
            MerkleType::TableElement => "Table element merkle tree:",
            MerkleType::Module => "Module merkle tree:",
        }
    }
}

/// The hash of an inner node: Keccak-256 of the prefix, then the left child, then the right.
pub open spec fn hash_node_spec(ty: MerkleType, a: Bytes32, b: Bytes32) -> Bytes32 {
    Bytes32(keccak256(prefix_text(ty).spec_bytes() + a.0@ + b.0@))
}

pub fn hash_node(ty: MerkleType, a: Bytes32, b: Bytes32) -> (res: Bytes32)
    requires
        ty != MerkleType::Empty,
    ensures
        res == hash_node_spec(ty, a, b),
{
    let prefix = ty.get_prefix();
    let mut data: Vec<u8> = Vec::new();
    data.extend_from_slice(prefix.as_bytes());
    data.extend_from_slice(a.0.as_slice());
    data.extend_from_slice(b.0.as_slice());
    proof {
        assert(data@ =~= prefix_text(ty).spec_bytes() + a.0@ + b.0@);
    }
    Bytes32(keccak(data.as_slice()))
}

/// The number of layers of a memory tree.
pub const MEMORY_LAYERS: usize = 28;

/// The text that prefixes the hash of a memory leaf.
pub open spec fn memory_leaf_prefix() -> &'static str {
    "Memory leaf:"
}

/// The hash of an all-zero memory leaf.
pub open spec fn empty_memory_leaf() -> Bytes32 {
    Bytes32(keccak256(memory_leaf_prefix().spec_bytes() + Seq::new(32, |i: int| 0u8)))
}

/// The value of an empty node at the given layer of a tree.
pub open spec fn empty_hash(ty: MerkleType, layer: nat) -> Bytes32
    decreases layer,
{
    if layer == 0 {
        if ty == MerkleType::Memory {
            empty_memory_leaf()
        } else {
            zero_word()
        }
    } else {
        let below = empty_hash(ty, (layer - 1) as nat);
        hash_node_spec(ty, below, below)
    }
}

fn empty_memory_leaf_exec() -> (res: Bytes32)
    ensures
        res == empty_memory_leaf(),
{
    let prefix = "Memory leaf:";
    let mut data: Vec<u8> = Vec::new();
    data.extend_from_slice(prefix.as_bytes());
    let zeros = [0u8; 32];
    data.extend_from_slice(zeros.as_slice());
    proof {
        assert(zeros@ =~= Seq::new(32, |i: int| 0u8));
        assert(data@ =~= memory_leaf_prefix().spec_bytes() + Seq::new(32, |i: int| 0u8));
    }
    Bytes32(keccak(data.as_slice()))
}

/// The minimum number of layers of a tree of the given kind.
pub open spec fn min_depth_of(ty: MerkleType) -> nat {
    match ty {
        MerkleType::Memory => MEMORY_LAYERS as nat,
        MerkleType::Opcode => 2,
        MerkleType::ArgumentData => 2,
        _ => 0,
    }
}

/// The node above a pair: the hash of the left node and the right one,
/// where a missing right node is the empty node of the layer.
pub open spec fn parent_at(ty: MerkleType, layer: Seq<Bytes32>, level: nat, i: int) -> Bytes32 {
    let left = layer[2 * i];
    let right = if 2 * i + 1 < layer.len() { layer[2 * i + 1] } else { empty_hash(ty, level) };
    hash_node_spec(ty, left, right)
}

/// The layer above `layer`, which sits at height `level`.
pub open spec fn next_layer(ty: MerkleType, layer: Seq<Bytes32>, level: nat) -> Seq<Bytes32> {
    Seq::new(((layer.len() + 1) / 2) as nat, |i: int| parent_at(ty, layer, level, i))
}

/// The layers built on top of `layers`: pairs are hashed until a single node
/// remains and at least `min_depth` layers stand.
pub open spec fn build_layers(ty: MerkleType, layers: Seq<Seq<Bytes32>>, min_depth: nat) -> Seq<Seq<Bytes32>>
    decreases layers.last().len() + (if min_depth > layers.len() { min_depth - layers.len() } else { 0 }),
        when layers.len() > 0 && layers.last().len() > 0
{
    if layers.last().len() > 1 || layers.len() < min_depth {
        build_layers(ty, layers.push(next_layer(ty, layers.last(), (layers.len() - 1) as nat)), min_depth)
    } else {
        layers
    }
}

/// A Merkle tree, with every layer kept.
#[derive(Clone, Debug, PartialEq, Eq)]
pub struct Merkle {
    pub ty: MerkleType,
    pub layers: Vec<Vec<Bytes32>>,
    pub min_depth: usize,
}

impl Merkle {
    pub open spec fn layers_view(self) -> Seq<Seq<Bytes32>> {
        Seq::new(self.layers@.len(), |i: int| self.layers@[i]@)
    }

    /// The tree `Merkle::new` builds over the given leaves.
    pub open spec fn spec_new(ty: MerkleType, hashes: Seq<Bytes32>) -> (Seq<Seq<Bytes32>>, nat) {
        if hashes.len() == 0 {
            (Seq::empty(), 0)
        } else {
            (build_layers(ty, seq![hashes], min_depth_of(ty)), min_depth_of(ty))
        }
    }

    /// Whether this tree is the one `Merkle::new` builds over its leaves.
    pub open spec fn well_formed(self) -> bool {
        &&& self.layers@.len() > 0 ==> self.ty != MerkleType::Empty
        &&& (self.layers_view(), self.min_depth as nat) == Self::spec_new(self.ty, self.leaves_view())
    }

    /// The leaves.
    pub open spec fn leaves_view(self) -> Seq<Bytes32> {
        if self.layers@.len() == 0 { Seq::empty() } else { self.layers@[0]@ }
    }
}

} // verus!

verus! {

impl Merkle {
    /// The value of an empty node at the given layer.
    pub fn get_empty(ty: MerkleType, layer: usize) -> (res: Bytes32)
        requires
            ty != MerkleType::Empty,
        ensures
            res == empty_hash(ty, layer as nat),
    {
        let mut value = if ty == MerkleType::Memory { empty_memory_leaf_exec() } else { Bytes32::zero() };
        let mut level: usize = 0;
        while level < layer
            invariant
                ty != MerkleType::Empty,
                level <= layer,
                value == empty_hash(ty, level as nat),
            decreases layer - level,
        {
            value = hash_node(ty, value, value);
            level = level + 1;
        }
        value
    }

    fn build_next_layer(ty: MerkleType, layer: &Vec<Bytes32>, level: usize) -> (res: Vec<Bytes32>)
        requires
            ty != MerkleType::Empty,
            level < usize::MAX,
        ensures
            res@ == next_layer(ty, layer@, level as nat),
    {
        let empty_layer = Self::get_empty(ty, level);
        let next_empty_layer = Self::get_empty(ty, level + 1);
        let n = layer.len();
        let count = n / 2 + n % 2;
        let mut res: Vec<Bytes32> = Vec::new();
        let mut i: usize = 0;
        while i < count
            invariant
                ty != MerkleType::Empty,
                n == layer@.len(),
                count == (n + 1) / 2,
                i <= count,
                empty_layer == empty_hash(ty, level as nat),
                next_empty_layer == empty_hash(ty, (level + 1) as nat),
                res@ == Seq::new(i as nat, |j: int| parent_at(ty, layer@, level as nat, j)),
            decreases count - i,
        {
            let left = layer[2 * i];
            let right = if 2 * i + 1 < n { layer[2 * i + 1] } else { empty_layer };
            let node = if left == empty_layer && right == empty_layer {
                next_empty_layer
            } else {
                hash_node(ty, left, right)
            };
            proof {
                assert(node == parent_at(ty, layer@, level as nat, i as int));
            }
            res.push(node);
            proof {
                assert(res@ =~= Seq::new((i + 1) as nat, |j: int| parent_at(ty, layer@, level as nat, j)));
            }
            i = i + 1;
        }
        proof {
            assert(res@ =~= next_layer(ty, layer@, level as nat));
        }
        res
    }

    /// Builds the tree over the given leaves; no leaves give the empty tree.
    pub fn new(ty: MerkleType, hashes: Vec<Bytes32>) -> (res: Merkle)
        requires
            hashes@.len() > 0 ==> ty != MerkleType::Empty,
        ensures
            res.well_formed(),
            res.leaves_view() == hashes@,
            hashes@.len() > 0 ==> res.ty == ty,
    {
        if hashes.len() == 0 {
            let res = Merkle { ty: MerkleType::Empty, layers: Vec::new(), min_depth: 0 };
            proof {
                assert(res.layers_view() =~= Seq::<Seq<Bytes32>>::empty());
            }
            return res;
        }
        let min_depth: usize = match ty {
            MerkleType::Memory => MEMORY_LAYERS,
            MerkleType::Opcode => 2,
            MerkleType::ArgumentData => 2,
            _ => 0,
        };
        let ghost leaves = hashes@;
        let mut layers: Vec<Vec<Bytes32>> = Vec::new();
        layers.push(hashes);
        let ghost view = Seq::new(layers@.len(), |i: int| layers@[i]@);
        proof {
            assert(view =~= seq![leaves]);
        }
        while layers[layers.len() - 1].len() > 1 || layers.len() < min_depth
            invariant
                ty != MerkleType::Empty,
                min_depth == min_depth_of(ty),
                layers@.len() > 0,
                layers@[layers@.len() - 1]@.len() > 0,
                layers@[0]@ == leaves,
                build_layers(ty, Seq::new(layers@.len(), |i: int| layers@[i]@), min_depth as nat)
                    == build_layers(ty, seq![leaves], min_depth as nat),
            decreases layers@[layers@.len() - 1]@.len() + (if min_depth > layers@.len() { min_depth - layers@.len() } else { 0 }),
        {
            let level = layers.len() - 1;
            let next = Self::build_next_layer(ty, &layers[level], level);
            let ghost before = Seq::new(layers@.len(), |i: int| layers@[i]@);
            layers.push(next);
            proof {
                let after = Seq::new(layers@.len(), |i: int| layers@[i]@);
                assert(after =~= before.push(next_layer(ty, before.last(), level as nat)));
            }
        }
        let res = Merkle { ty, layers, min_depth };
        proof {
            let v = Seq::new(res.layers@.len(), |i: int| res.layers@[i]@);
            assert(build_layers(ty, v, min_depth as nat) == v);
            assert(res.layers_view() == v);
        }
        res
    }

    /// The root: the single node of the top layer, or zero for the empty tree.
    pub fn root(&self) -> (res: Bytes32)
        requires
            self.well_formed(),
        ensures
            res == if self.layers@.len() == 0 { zero_word() } else { self.layers_view().last()[0] },
    {
        if self.layers.len() > 0 {
            proof {
                lemma_build_layers_top(self.ty, seq![self.leaves_view()], self.min_depth as nat);
            }
            let layer = &self.layers[self.layers.len() - 1];
            layer[0]
        } else {
            Bytes32::zero()
        }
    }

    /// The leaves.
    pub fn leaves(&self) -> (res: &[Bytes32])
        ensures
            res@ == self.leaves_view(),
    {
        if self.layers.len() == 0 {
            &[]
        } else {
            self.layers[0].as_slice()
        }
    }
}

/// The layers built on top of `layers` keep them as their bottom, and the top
/// layer holds exactly one node.
pub proof fn lemma_build_layers_top(ty: MerkleType, layers: Seq<Seq<Bytes32>>, min_depth: nat)
    requires
        layers.len() > 0,
        layers.last().len() > 0,
        forall|i: int| 0 <= i < layers.len() ==> #[trigger] layers[i].len() > 0,
    ensures
        build_layers(ty, layers, min_depth).len() >= layers.len(),
        build_layers(ty, layers, min_depth).len() >= min_depth,
        build_layers(ty, layers, min_depth).last().len() == 1,
        forall|i: int| 0 <= i < layers.len() ==> build_layers(ty, layers, min_depth)[i] == layers[i],
        forall|i: int| 0 <= i < build_layers(ty, layers, min_depth).len() ==>
            #[trigger] build_layers(ty, layers, min_depth)[i].len() > 0,
    decreases layers.last().len() + (if min_depth > layers.len() { min_depth - layers.len() } else { 0 }),
{
    if layers.last().len() > 1 || layers.len() < min_depth {
        let next = layers.push(next_layer(ty, layers.last(), (layers.len() - 1) as nat));
        assert(next.last().len() > 0);
        assert forall|i: int| 0 <= i < next.len() implies #[trigger] next[i].len() > 0 by {
            if i < layers.len() {
                assert(next[i] == layers[i]);
            }
        }
        lemma_build_layers_top(ty, next, min_depth);
        assert forall|i: int| 0 <= i < layers.len() implies build_layers(ty, layers, min_depth)[i] == layers[i] by {
            assert(next[i] == layers[i]);
        }
    }
}

} // verus!

verus! {

pub open spec fn pow2(k: nat) -> nat
    decreases k,
{
    if k == 0 { 1 } else { 2 * pow2((k - 1) as nat) }
}

/// The node at height `k` and position `j` of the complete tree over `leaves`,
/// where positions past the leaves hold empty nodes.
pub open spec fn tree_node(ty: MerkleType, leaves: Seq<Bytes32>, k: nat, j: int) -> Bytes32
    decreases k,
{
    if k == 0 {
        if 0 <= j < leaves.len() { leaves[j] } else { empty_hash(ty, 0) }
    } else {
        hash_node_spec(
            ty,
            tree_node(ty, leaves, (k - 1) as nat, 2 * j),
            tree_node(ty, leaves, (k - 1) as nat, 2 * j + 1),
        )
    }
}

/// A layer at height `k` holds the nodes of the complete tree at that height,
/// and every node to its right is empty.
pub open spec fn layer_matches(ty: MerkleType, leaves: Seq<Bytes32>, k: nat, layer: Seq<Bytes32>) -> bool {
    &&& forall|j: int| 0 <= j < layer.len() ==> #[trigger] layer[j] == tree_node(ty, leaves, k, j)
    &&& forall|j: int| j >= layer.len() ==> #[trigger] tree_node(ty, leaves, k, j) == empty_hash(ty, k)
}

/// Every layer holds the nodes of the complete tree at its height.
pub open spec fn layers_match(ty: MerkleType, leaves: Seq<Bytes32>, layers: Seq<Seq<Bytes32>>) -> bool {
    forall|k: int| 0 <= k < layers.len() ==> layer_matches(ty, leaves, k as nat, #[trigger] layers[k])
}

proof fn lemma_next_layer_matches(ty: MerkleType, leaves: Seq<Bytes32>, k: nat, layer: Seq<Bytes32>)
    requires
        layer_matches(ty, leaves, k, layer),
    ensures
        layer_matches(ty, leaves, k + 1, next_layer(ty, layer, k)),
{
    let next = next_layer(ty, layer, k);
    assert forall|j: int| 0 <= j < next.len() implies #[trigger] next[j] == tree_node(ty, leaves, k + 1, j) by {
        assert(layer[2 * j] == tree_node(ty, leaves, k, 2 * j));
        if 2 * j + 1 < layer.len() {
            assert(layer[2 * j + 1] == tree_node(ty, leaves, k, 2 * j + 1));
        } else {
            assert(tree_node(ty, leaves, k, 2 * j + 1) == empty_hash(ty, k));
        }
    }
    assert forall|j: int| j >= next.len() implies #[trigger] tree_node(ty, leaves, k + 1, j) == empty_hash(ty, k + 1) by {
        assert(tree_node(ty, leaves, k, 2 * j) == empty_hash(ty, k));
        assert(tree_node(ty, leaves, k, 2 * j + 1) == empty_hash(ty, k));
    }
}

proof fn lemma_build_layers_match(ty: MerkleType, leaves: Seq<Bytes32>, layers: Seq<Seq<Bytes32>>, min_depth: nat)
    requires
        layers.len() > 0,
        layers.last().len() > 0,
        layers_match(ty, leaves, layers),
    ensures
        layers_match(ty, leaves, build_layers(ty, layers, min_depth)),
    decreases layers.last().len() + (if min_depth > layers.len() { min_depth - layers.len() } else { 0 }),
{
    if layers.last().len() > 1 || layers.len() < min_depth {
        let k = (layers.len() - 1) as nat;
        let next = layers.push(next_layer(ty, layers.last(), k));
        assert(layer_matches(ty, leaves, k, layers[k as int]));
        lemma_next_layer_matches(ty, leaves, k, layers.last());
        assert forall|i: int| 0 <= i < next.len() implies layer_matches(ty, leaves, i as nat, #[trigger] next[i]) by {
            if i < layers.len() {
                assert(next[i] == layers[i]);
            }
        }
        lemma_build_layers_match(ty, leaves, next, min_depth);
    }
}

/// The layers of a well-formed tree hold the nodes of the complete tree over
/// its leaves, and its root is the node at the top.
pub proof fn lemma_well_formed_layers(m: Merkle)
    requires
        m.well_formed(),
        m.layers@.len() > 0,
    ensures
        layers_match(m.ty, m.leaves_view(), m.layers_view()),
        m.layers_view().last().len() == 1,
        m.layers_view().len() >= m.min_depth,
        m.layers_view()[0] == m.leaves_view(),
        forall|k: int| 0 <= k < m.layers_view().len() ==> #[trigger] m.layers_view()[k].len() > 0,
{
    let leaves = m.leaves_view();
    let base = seq![leaves];
    assert(leaves.len() > 0) by {
        if leaves.len() == 0 {
            assert(Merkle::spec_new(m.ty, leaves).0.len() == 0);
        }
    }
    assert forall|k: int| 0 <= k < base.len() implies layer_matches(m.ty, leaves, k as nat, #[trigger] base[k]) by {
        assert(k == 0);
        assert forall|j: int| j >= leaves.len() implies #[trigger] tree_node(m.ty, leaves, 0, j) == empty_hash(m.ty, 0) by {}
    }
    lemma_build_layers_match(m.ty, leaves, base, min_depth_of(m.ty));
    lemma_build_layers_top(m.ty, base, min_depth_of(m.ty));
}

} // verus!

verus! {

/// The position paired with `i` in its layer.
pub open spec fn sibling(i: int) -> int {
    if i % 2 == 0 { i + 1 } else { i - 1 }
}

/// The node of `layer` at `i`, or the empty node of height `k` past its end.
pub open spec fn node_or_empty(ty: MerkleType, layer: Seq<Bytes32>, k: nat, i: int) -> Bytes32 {
    if 0 <= i < layer.len() { layer[i] } else { empty_hash(ty, k) }
}

/// The siblings along the path from leaf `idx` up to (not including) the top layer.
pub open spec fn proof_siblings(m: Merkle, idx: nat) -> Seq<Bytes32> {
    Seq::new((m.layers@.len() - 1) as nat, |k: int|
        node_or_empty(m.ty, m.layers_view()[k], k as nat, sibling((idx / pow2(k as nat)) as int)))
}

/// The bytes of a sequence of words, one after the other.
pub open spec fn flatten_words(words: Seq<Bytes32>) -> Seq<u8>
    decreases words.len(),
{
    if words.len() == 0 { Seq::empty() } else { flatten_words(words.drop_last()) + words.last().0@ }
}

/// The hash reached by climbing from `h` at position `i` with the given
/// siblings, one per layer: the current node goes left when its position is even.
pub open spec fn climb(ty: MerkleType, h: Bytes32, i: nat, siblings: Seq<Bytes32>) -> Bytes32
    decreases siblings.len(),
{
    if siblings.len() == 0 {
        h
    } else {
        let parent = if i % 2 == 0 { hash_node_spec(ty, h, siblings[0]) } else { hash_node_spec(ty, siblings[0], h) };
        climb(ty, parent, i / 2, siblings.drop_first())
    }
}

proof fn lemma_pow2_step(k: nat)
    ensures
        pow2(k + 1) == 2 * pow2(k),
        pow2(k) > 0,
    decreases k,
{
    if k > 0 {
        lemma_pow2_step((k - 1) as nat);
    }
}

proof fn lemma_div_pow2_step(idx: nat, k: nat)
    ensures
        idx / pow2(k) / 2 == idx / pow2(k + 1),
{
    lemma_pow2_step(k);
    vstd::arithmetic::div_mod::lemma_div_denominator(idx as int, pow2(k) as int, 2);
    assert(pow2(k) * 2 == pow2(k + 1));
}

proof fn lemma_climb(ty: MerkleType, leaves: Seq<Bytes32>, k: nat, i: nat, siblings: Seq<Bytes32>)
    requires
        forall|j: int| 0 <= j < siblings.len() ==> #[trigger] siblings[j]
            == tree_node(ty, leaves, k + j as nat, sibling((i / pow2(j as nat)) as int)),
    ensures
        climb(ty, tree_node(ty, leaves, k, i as int), i, siblings)
            == tree_node(ty, leaves, k + siblings.len(), (i / pow2(siblings.len())) as int),
    decreases siblings.len(),
{
    if siblings.len() > 0 {
        let h = tree_node(ty, leaves, k, i as int);
        assert(pow2(0) == 1);
        assert(i / 1 == i);
        assert(siblings[0] == tree_node(ty, leaves, k + 0 as nat, sibling((i / pow2(0 as nat)) as int)));
        assert(siblings[0] == tree_node(ty, leaves, k, sibling(i as int)));
        let parent = if i % 2 == 0 { hash_node_spec(ty, h, siblings[0]) } else { hash_node_spec(ty, siblings[0], h) };
        assert(parent == tree_node(ty, leaves, k + 1, (i / 2) as int));
        let rest = siblings.drop_first();
        assert forall|j: int| 0 <= j < rest.len() implies #[trigger] rest[j]
            == tree_node(ty, leaves, (k + 1) + j as nat, sibling(((i / 2) / pow2(j as nat)) as int)) by {
            assert(rest[j] == siblings[j + 1]);
            lemma_pow2_step(j as nat);
            vstd::arithmetic::div_mod::lemma_div_denominator(i as int, 2, pow2(j as nat) as int);
            assert(i / 2 / pow2(j as nat) == i / pow2((j + 1) as nat));
        }
        lemma_climb(ty, leaves, k + 1, i / 2, rest);
        lemma_pow2_step((siblings.len() - 1) as nat);
        vstd::arithmetic::div_mod::lemma_div_denominator(i as int, 2, pow2((siblings.len() - 1) as nat) as int);
    } else {
        assert(pow2(0) == 1);
    }
}

/// A proof for any position under the tree's width verifies: climbing from the
/// node at that position with the proof's siblings reaches the root.
pub proof fn lemma_proof_reaches_root(m: Merkle, idx: nat)
    requires
        m.well_formed(),
        m.layers@.len() > 0,
        idx < pow2((m.layers@.len() - 1) as nat),
    ensures
        climb(m.ty, tree_node(m.ty, m.leaves_view(), 0, idx as int), idx, proof_siblings(m, idx))
            == m.layers_view().last()[0],
{
    lemma_well_formed_layers(m);
    let sibs = proof_siblings(m, idx);
    let leaves = m.leaves_view();
    assert forall|j: int| 0 <= j < sibs.len() implies #[trigger] sibs[j]
        == tree_node(m.ty, leaves, 0 + j as nat, sibling((idx / pow2(j as nat)) as int)) by {
        let layer = m.layers_view()[j];
        assert(layer_matches(m.ty, leaves, j as nat, layer));
        lemma_pow2_step(j as nat);
        let s = sibling((idx / pow2(j as nat)) as int);
        assert(s >= 0);
        if s < layer.len() {
            assert(layer[s] == tree_node(m.ty, leaves, j as nat, s));
        } else {
            assert(tree_node(m.ty, leaves, j as nat, s) == empty_hash(m.ty, j as nat));
        }
        assert(0 + j as nat == j as nat);
    }
    lemma_climb(m.ty, leaves, 0, idx, sibs);
    let d = (m.layers@.len() - 1) as nat;
    lemma_pow2_step(d);
    assert(idx / pow2(d) == 0) by {
        vstd::arithmetic::div_mod::lemma_basic_div(idx as int, pow2(d) as int);
    }
    assert(layer_matches(m.ty, leaves, d, m.layers_view()[d as int]));
}

impl Merkle {
    /// A proof for the leaf at `idx`, whether or not it holds a value: the
    /// number of layers above the leaves, then the sibling of each node on the
    /// path to the root, bottom first.
    pub fn prove_any(&self, idx: usize) -> (res: Vec<u8>)
        requires
            self.well_formed(),
            self.layers@.len() > 0,
            self.layers@.len() - 1 <= u8::MAX,
        ensures
            res@ == seq![(self.layers@.len() - 1) as u8] + flatten_words(proof_siblings(*self, idx as nat)),
    {
        let depth = self.layers.len() - 1;
        let mut proof: Vec<u8> = Vec::new();
        proof.push(depth as u8);
        let ghost sibs = proof_siblings(*self, idx as nat);
        let mut i = idx;
        let mut k: usize = 0;
        proof {
            assert(pow2(0) == 1);
            assert(sibs.take(0) =~= Seq::<Bytes32>::empty());
        }
        while k < depth
            invariant
                self.well_formed(),
                depth == self.layers@.len() - 1,
                k <= depth,
                i == idx as nat / pow2(k as nat),
                sibs == proof_siblings(*self, idx as nat),
                proof@ == seq![depth as u8] + flatten_words(sibs.take(k as int)),
            decreases depth - k,
        {
            let layer = &self.layers[k];
            let counterpart = if i % 2 == 0 { i + 1 } else { i - 1 };
            let value = if counterpart < layer.len() { layer[counterpart] } else { Self::get_empty(self.ty, k) };
            proof {
                assert(self.ty != MerkleType::Empty);
                assert(value == sibs[k as int]);
                assert(sibs.take(k + 1).drop_last() =~= sibs.take(k as int));
            }
            proof.extend_from_slice(value.0.as_slice());
            proof {
                lemma_div_pow2_step(idx as nat, k as nat);
                assert(proof@ =~= seq![depth as u8] + flatten_words(sibs.take(k + 1)));
            }
            i = i / 2;
            k = k + 1;
        }
        proof {
            assert(sibs.take(depth as int) =~= sibs);
        }
        proof
    }

    /// A proof for the leaf at `idx`, if there is such a leaf.
    pub fn prove(&self, idx: usize) -> (res: Option<Vec<u8>>)
        requires
            self.well_formed(),
            self.layers@.len() - 1 <= u8::MAX,
        ensures
            idx >= self.leaves_view().len() ==> res is None,
            idx < self.leaves_view().len() ==> (res matches Some(p) && p@ == seq![(self.layers@.len() - 1) as u8]
                + flatten_words(proof_siblings(*self, idx as nat))),
    {
        if idx >= self.leaves().len() {
            return None;
        }
        Some(self.prove_any(idx))
    }
}

} // verus!

verus! {

/// Two stacks of layers with the same number of layers and the same layer
/// lengths grow into stacks of the same shape.
proof fn lemma_build_shape(ty: MerkleType, a: Seq<Seq<Bytes32>>, b: Seq<Seq<Bytes32>>, min_depth: nat)
    requires
        a.len() > 0,
        a.last().len() > 0,
        a.len() == b.len(),
        forall|k: int| 0 <= k < a.len() ==> #[trigger] a[k].len() == b[k].len(),
    ensures
        build_layers(ty, a, min_depth).len() == build_layers(ty, b, min_depth).len(),
        forall|k: int| 0 <= k < build_layers(ty, a, min_depth).len() ==>
            #[trigger] build_layers(ty, a, min_depth)[k].len() == build_layers(ty, b, min_depth)[k].len(),
    decreases a.last().len() + (if min_depth > a.len() { min_depth - a.len() } else { 0 }),
{
    assert(a.last().len() == b.last().len());
    if a.last().len() > 1 || a.len() < min_depth {
        let na = a.push(next_layer(ty, a.last(), (a.len() - 1) as nat));
        let nb = b.push(next_layer(ty, b.last(), (b.len() - 1) as nat));
        assert forall|k: int| 0 <= k < na.len() implies #[trigger] na[k].len() == nb[k].len() by {
            if k < a.len() {
                assert(na[k] == a[k] && nb[k] == b[k]);
            }
        }
        lemma_build_shape(ty, na, nb, min_depth);
    }
}

/// Each layer the build adds is the `next_layer` of the one below it.
proof fn lemma_build_chain(ty: MerkleType, a: Seq<Seq<Bytes32>>, min_depth: nat)
    requires
        a.len() > 0,
        a.last().len() > 0,
        forall|k: int| 0 <= k < a.len() - 1 ==> #[trigger] a[k + 1] == next_layer(ty, a[k], k as nat),
    ensures
        forall|k: int| 0 <= k < build_layers(ty, a, min_depth).len() - 1 ==>
            #[trigger] build_layers(ty, a, min_depth)[k + 1] == next_layer(ty, build_layers(ty, a, min_depth)[k], k as nat),
    decreases a.last().len() + (if min_depth > a.len() { min_depth - a.len() } else { 0 }),
{
    if a.last().len() > 1 || a.len() < min_depth {
        let na = a.push(next_layer(ty, a.last(), (a.len() - 1) as nat));
        assert forall|k: int| 0 <= k < na.len() - 1 implies #[trigger] na[k + 1] == next_layer(ty, na[k], k as nat) by {
            if k + 1 < a.len() {
                assert(na[k + 1] == a[k + 1] && na[k] == a[k]);
            } else {
                assert(na[k] == a.last());
            }
        }
        lemma_build_chain(ty, na, min_depth);
        assert(build_layers(ty, a, min_depth) == build_layers(ty, na, min_depth));
    } else {
        assert(build_layers(ty, a, min_depth) == a);
    }
}

/// Changing the leaf at `idx` changes only the nodes on its path.
proof fn lemma_tree_node_update(ty: MerkleType, leaves: Seq<Bytes32>, idx: nat, h: Bytes32, k: nat, j: int)
    requires
        idx < leaves.len(),
        j != idx / pow2(k),
    ensures
        tree_node(ty, leaves.update(idx as int, h), k, j) == tree_node(ty, leaves, k, j),
    decreases k,
{
    if k > 0 {
        lemma_div_pow2_step(idx, (k - 1) as nat);
        lemma_pow2_step((k - 1) as nat);
        let p = idx / pow2((k - 1) as nat);
        assert(p / 2 == idx / pow2(k));
        assert(p != 2 * j && p != 2 * j + 1);
        lemma_tree_node_update(ty, leaves, idx, h, (k - 1) as nat, 2 * j);
        lemma_tree_node_update(ty, leaves, idx, h, (k - 1) as nat, 2 * j + 1);
    } else {
        assert(pow2(0) == 1);
        assert(idx / 1 == idx);
    }
}

/// The chain and shape facts of a well-formed tree.
proof fn lemma_well_formed_chain(m: Merkle)
    requires
        m.well_formed(),
        m.layers@.len() > 0,
    ensures
        forall|k: int| 0 <= k < m.layers_view().len() - 1 ==>
            #[trigger] m.layers_view()[k + 1] == next_layer(m.ty, m.layers_view()[k], k as nat),
{
    lemma_well_formed_layers(m);
    lemma_build_chain(m.ty, seq![m.leaves_view()], min_depth_of(m.ty));
}

impl Merkle {
    /// Replaces the leaf at `idx` and updates the nodes on its path.
    pub fn set(&mut self, idx: usize, hash: Bytes32)
        requires
            old(self).well_formed(),
            idx < old(self).leaves_view().len(),
        ensures
            final(self).well_formed(),
            final(self).ty == old(self).ty,
            final(self).min_depth == old(self).min_depth,
            final(self).leaves_view() == old(self).leaves_view().update(idx as int, hash),
    {
        if self.layers[0][idx] == hash {
            proof {
                assert(self.leaves_view().update(idx as int, hash) =~= self.leaves_view());
            }
            return;
        }
        let ghost ty = self.ty;
        let ghost leaves = self.leaves_view();
        let ghost new_leaves = leaves.update(idx as int, hash);
        let ghost old_view = self.layers_view();
        let ghost new_view = build_layers(ty, seq![new_leaves], min_depth_of(ty));
        proof {
            lemma_well_formed_layers(*self);
            lemma_well_formed_chain(*self);
            lemma_build_shape(ty, seq![new_leaves], seq![leaves], min_depth_of(ty));
            assert(seq![new_leaves].last().len() > 0);
            lemma_build_layers_top(ty, seq![new_leaves], min_depth_of(ty));
            assert forall|k: int| 0 <= k < 1 implies layer_matches(ty, new_leaves, k as nat, #[trigger] seq![new_leaves][k]) by {
                assert forall|j: int| j >= new_leaves.len() implies #[trigger] tree_node(ty, new_leaves, 0, j) == empty_hash(ty, 0) by {}
            }
            lemma_build_layers_match(ty, new_leaves, seq![new_leaves], min_depth_of(ty));
            assert(pow2(0) == 1);
        }
        let layers_len = self.layers.len();
        let mut old_layers: Vec<Vec<Bytes32>> = Vec::new();
        std::mem::swap(&mut old_layers, &mut self.layers);
        let mut next_hash = hash;
        let mut i = idx;
        let mut k: usize = 0;
        for layer in it: old_layers
            invariant
                k == it.index(),
                ty == self.ty,
                self.min_depth == old(self).min_depth,
                self.min_depth == min_depth_of(ty),
                ty != MerkleType::Empty,
                it.seq().len() == layers_len,
                forall|k: int| 0 <= k < layers_len ==> #[trigger] it.seq()[k]@ == old_view[k],
                old_view.len() == layers_len,
                new_view.len() == layers_len,
                layers_match(ty, leaves, old_view),
                layers_match(ty, new_leaves, new_view),
                forall|k: int| 0 <= k < layers_len ==> #[trigger] new_view[k].len() == old_view[k].len(),
                forall|k: int| 0 <= k < layers_len - 1 ==> #[trigger] old_view[k + 1] == next_layer(ty, old_view[k], k as nat),
                old_view[0] == leaves,
                idx < leaves.len(),
                new_leaves == leaves.update(idx as int, hash),
                self.layers@.len() == it.index(),
                forall|k: int| 0 <= k < it.index() ==> #[trigger] self.layers@[k]@ == new_view[k],
                it.index() < layers_len ==> i == idx as nat / pow2(it.index() as nat),
                it.index() < layers_len ==> i < old_view[it.index() as int].len(),
                it.index() < layers_len ==> next_hash == tree_node(ty, new_leaves, it.index() as nat, i as int),
        {
            let mut layer = layer;
            proof {
                assert(layer@ == old_view[k as int]);
            }
            layer.set(i, next_hash);
            proof {
                assert(layer_matches(ty, leaves, k as nat, old_view[k as int]));
                assert(layer_matches(ty, new_leaves, k as nat, new_view[k as int]));
                assert forall|j: int| 0 <= j < layer@.len() implies layer@[j] == new_view[k as int][j] by {
                    if j != i {
                        lemma_tree_node_update(ty, leaves, idx as nat, hash, k as nat, j);
                    }
                }
                assert(layer@ =~= new_view[k as int]);
            }
            if k + 1 < layers_len {
                let counterpart_index = if i % 2 == 0 { i + 1 } else { i - 1 };
                let counterpart = if counterpart_index < layer.len() {
                    layer[counterpart_index]
                } else {
                    Self::get_empty(self.ty, k)
                };
                proof {
                    assert(counterpart == tree_node(ty, new_leaves, k as nat, sibling(i as int)));
                }
                next_hash = if i % 2 == 0 {
                    hash_node(self.ty, next_hash, counterpart)
                } else {
                    hash_node(self.ty, counterpart, next_hash)
                };
                proof {
                    assert(next_hash == tree_node(ty, new_leaves, (k + 1) as nat, (i / 2) as int));
                    lemma_div_pow2_step(idx as nat, k as nat);
                    assert(old_view[k + 1] == next_layer(ty, old_view[k as int], k as nat));
                }
                i = i / 2;
            }
            self.layers.push(layer);
            k = k + 1;
        }
        proof {
            assert(self.layers_view() =~= new_view);
            assert(self.leaves_view() == new_leaves);
        }
    }

    /// Appends a leaf and rebuilds the tree.
    pub fn push_leaf(&mut self, leaf: Bytes32)
        requires
            old(self).well_formed(),
            old(self).layers@.len() > 0,
        ensures
            final(self).well_formed(),
            final(self).ty == old(self).ty,
            final(self).leaves_view() == old(self).leaves_view().push(leaf),
    {
        proof {
            lemma_well_formed_layers(*self);
        }
        let mut leaves = self.layers.swap_remove(0);
        leaves.push(leaf);
        *self = Self::new(self.ty, leaves);
    }

    /// Removes the rightmost leaf and rebuilds the tree.
    pub fn pop_leaf(&mut self)
        requires
            old(self).well_formed(),
            old(self).layers@.len() > 0,
        ensures
            final(self).well_formed(),
            final(self).leaves_view() == old(self).leaves_view().drop_last(),
            final(self).leaves_view().len() > 0 ==> final(self).ty == old(self).ty,
    {
        proof {
            lemma_well_formed_layers(*self);
        }
        let mut leaves = self.layers.swap_remove(0);
        leaves.pop();
        *self = Self::new(self.ty, leaves);
    }
}

/// Updating a leaf in place gives the tree that building afresh over the
/// updated leaves gives: every layer and the root agree.
pub proof fn lemma_set_matches_rebuild(before: Merkle, after: Merkle, rebuilt: Merkle, idx: nat, hash: Bytes32)
    requires
        before.well_formed(),
        idx < before.leaves_view().len(),
        after.well_formed(),
        after.ty == before.ty,
        after.leaves_view() == before.leaves_view().update(idx as int, hash),
        rebuilt.well_formed(),
        rebuilt.ty == before.ty,
        rebuilt.leaves_view() == before.leaves_view().update(idx as int, hash),
    ensures
        after.layers_view() == rebuilt.layers_view(),
        after.min_depth == rebuilt.min_depth,
{
}

} // verus!
