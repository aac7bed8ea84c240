//! Binary Merkle trees over an ordered list of byte strings, with an
//! inclusion proof for every leaf.

use crate::error::VerificationError;
use crate::hash_util::{append_bytes, hex_of, sha256, sha256_of, to_hex, TAG_LEAF, TAG_NODE};
use vstd::arithmetic::power2::{lemma_pow2_pos, lemma_pow2_unfold, pow2};
use vstd::prelude::*;
use vstd::utf8::encode_utf8;

verus! {

/// The digest of a leaf: `hash(0x00 ∥ leaf)`.
pub open spec fn leaf_hash(leaf: Seq<u8>) -> Seq<u8> {
    sha256_of(seq![TAG_LEAF] + leaf)
}

/// The digest of an inner node: `hash(0x01 ∥ left ∥ right)`.
pub open spec fn node_hash(left: Seq<u8>, right: Seq<u8>) -> Seq<u8> {
    sha256_of(seq![TAG_NODE] + left + right)
}

/// The right partner of the node at even index `j`: the next node, or the node
/// itself when it is the last one of an odd level.
pub open spec fn right_partner(level: Seq<Seq<u8>>, j: int) -> Seq<u8> {
    if j + 1 < level.len() {
        level[j + 1]
    } else {
        level[j]
    }
}

/// The level above `level`: adjacent nodes hashed in pairs.
pub open spec fn parent_level(level: Seq<Seq<u8>>) -> Seq<Seq<u8>> {
    Seq::new(
        ((level.len() + 1) / 2) as nat,
        |j: int| node_hash(level[2 * j], right_partner(level, 2 * j)),
    )
}

/// The root above a non-empty level.
pub open spec fn root_of(level: Seq<Seq<u8>>) -> Seq<u8>
    decreases level.len(),
{
    if level.len() <= 1 {
        level[0]
    } else {
        root_of(parent_level(level))
    }
}

/// The number of levels consumed on the way from `level` to the root.
pub open spec fn depth_of(level: Seq<Seq<u8>>) -> nat
    decreases level.len(),
{
    if level.len() <= 1 {
        0
    } else {
        1 + depth_of(parent_level(level))
    }
}

/// The views of a list of byte strings.
pub open spec fn digests(v: Seq<Vec<u8>>) -> Seq<Seq<u8>> {
    v.map_values(|x: Vec<u8>| x@)
}

/// The digests of the leaves, in order.
pub open spec fn leaf_level(leaves: Seq<Seq<u8>>) -> Seq<Seq<u8>> {
    leaves.map_values(|l: Seq<u8>| leaf_hash(l))
}

/// One step of an inclusion proof: the sibling digest and whether it stands
/// to the left of the running hash.
#[derive(Clone, Debug, PartialEq, Eq)]
pub struct ProofStep {
    pub sibling_hash: Vec<u8>,
    pub sibling_on_left: bool,
}

impl View for ProofStep {
    type V = (Seq<u8>, bool);

    open spec fn view(&self) -> (Seq<u8>, bool) {
        (self.sibling_hash@, self.sibling_on_left)
    }
}

/// The views of the steps of a path.
pub open spec fn path_view(path: Seq<ProofStep>) -> Seq<(Seq<u8>, bool)> {
    path.map_values(|s: ProofStep| s@)
}

/// The proof step of the node at index `i` of `level`.
pub open spec fn step_at(level: Seq<Seq<u8>>, i: int) -> (Seq<u8>, bool) {
    if i % 2 == 0 {
        (right_partner(level, i), false)
    } else {
        (level[i - 1], true)
    }
}

/// The inclusion proof of the node at index `i` of `level`, bottom up.
pub open spec fn path_of(level: Seq<Seq<u8>>, i: int) -> Seq<(Seq<u8>, bool)>
    decreases level.len(),
{
    if level.len() <= 1 {
        Seq::empty()
    } else {
        seq![step_at(level, i)] + path_of(parent_level(level), i / 2)
    }
}

/// A running hash combined with one proof step.
pub open spec fn combine(h: Seq<u8>, step: (Seq<u8>, bool)) -> Seq<u8> {
    if step.1 {
        node_hash(step.0, h)
    } else {
        node_hash(h, step.0)
    }
}

/// The hash reached from `h` by climbing `path`.
pub open spec fn climb(h: Seq<u8>, path: Seq<(Seq<u8>, bool)>) -> Seq<u8>
    decreases path.len(),
{
    if path.len() == 0 {
        h
    } else {
        climb(combine(h, path[0]), path.drop_first())
    }
}

/// Whether `path` leads from `leaf` to `root`.
pub open spec fn proof_verifies(leaf: Seq<u8>, path: Seq<(Seq<u8>, bool)>, root: Seq<u8>) -> bool {
    climb(leaf_hash(leaf), path) == root
}

/// A Merkle tree with its leaf digests and one inclusion proof per leaf.
#[derive(Clone, Debug, PartialEq, Eq)]
pub struct MerkleTree {
    pub root_hash: Vec<u8>,
    pub leaf_count: u32,
    pub tree_depth: u32,
    pub leaf_hashes: Vec<Vec<u8>>,
    pub proof_paths: Vec<Vec<ProofStep>>,
    pub verification_status: bool,
}

impl MerkleTree {
    /// The proof path of leaf `i`, as a sequence of step views.
    pub open spec fn path(&self, i: int) -> Seq<(Seq<u8>, bool)> {
        path_view(self.proof_paths@[i]@)
    }

    /// This tree is the one built over `leaves`.
    pub open spec fn built_from(&self, leaves: Seq<Seq<u8>>) -> bool {
        let level = leaf_level(leaves);
        &&& leaves.len() > 0
        &&& self.root_hash@ == root_of(level)
        &&& self.leaf_count == leaves.len()
        &&& self.tree_depth == depth_of(level)
        &&& digests(self.leaf_hashes@) == level
        &&& self.proof_paths@.len() == leaves.len()
        &&& forall|i: int| 0 <= i < leaves.len() ==> #[trigger] self.path(i) == path_of(level, i)
        &&& self.verification_status
    }
}


/// Climbing the proof of any node of a level reaches the root of that level.
pub proof fn lemma_path_reaches_root(level: Seq<Seq<u8>>, i: int)
    requires
        0 <= i < level.len(),
    ensures
        climb(level[i], path_of(level, i)) == root_of(level),
        path_of(level, i).len() == depth_of(level),
    decreases level.len(),
{
    if level.len() > 1 {
        let parent = parent_level(level);
        let p = path_of(level, i);
        assert(p[0] == step_at(level, i));
        assert(p.drop_first() =~= path_of(parent, i / 2));
        assert(combine(level[i], step_at(level, i)) == parent[i / 2]);
        lemma_path_reaches_root(parent, i / 2);
    }
}

/// The depth of a level of `n` nodes is the least `d` with `n <= 2^d`,
/// that is, the ceiling of `log2(n)`.
pub proof fn lemma_depth_is_ceil_log2(level: Seq<Seq<u8>>)
    requires
        level.len() >= 1,
    ensures
        level.len() <= pow2(depth_of(level)),
        depth_of(level) > 0 ==> pow2((depth_of(level) - 1) as nat) < level.len(),
    decreases level.len(),
{
    let d = depth_of(level);
    if level.len() <= 1 {
        assert(pow2(0) == 1) by {
            lemma_pow2_pos(0);
            vstd::arithmetic::power2::lemma_pow2(0);
            vstd::arithmetic::power::lemma_pow0(2);
        }
    } else {
        let parent = parent_level(level);
        lemma_depth_is_ceil_log2(parent);
        let e = depth_of(parent);
        assert(d == e + 1);
        lemma_pow2_unfold(d);
        assert((d - 1) as nat == e);
        if e > 0 {
            lemma_pow2_unfold(e);
        } else {
            assert(pow2(0) == 1) by {
                vstd::arithmetic::power2::lemma_pow2(0);
                vstd::arithmetic::power::lemma_pow0(2);
            }
        }
    }
}

/// The depth of a built tree is the ceiling of `log2` of its leaf count.
pub proof fn lemma_tree_depth(leaves: Seq<Seq<u8>>, tree: MerkleTree)
    requires
        tree.built_from(leaves),
    ensures
        tree.leaf_count <= pow2(tree.tree_depth as nat),
        tree.tree_depth > 0 ==> pow2((tree.tree_depth - 1) as nat) < tree.leaf_count,
{
    lemma_depth_is_ceil_log2(leaf_level(leaves));
}

/// A copy of a byte string.
pub fn copy_bytes(b: &[u8]) -> (r: Vec<u8>)
    ensures
        r@ == b@,
{
    let mut r: Vec<u8> = Vec::new();
    append_bytes(&mut r, b);
    assert(r@ =~= b@);
    r
}

/// Compares two byte strings.
pub fn bytes_equal(a: &[u8], b: &[u8]) -> (r: bool)
    ensures
        r == (a@ == b@),
{
    if a.len() != b.len() {
        return false;
    }
    let mut i: usize = 0;
    while i < a.len()
        invariant
            a@.len() == b@.len(),
            i <= a@.len(),
            forall|j: int| 0 <= j < i ==> a@[j] == b@[j],
        decreases a.len() - i,
    {
        if a[i] != b[i] {
            return false;
        }
        i = i + 1;
    }
    assert(a@ =~= b@);
    true
}

/// The digest of one leaf.
pub fn leaf_digest(leaf: &[u8]) -> (r: Vec<u8>)
    ensures
        r@ == leaf_hash(leaf@),
{
    let mut pre: Vec<u8> = Vec::new();
    pre.push(TAG_LEAF);
    append_bytes(&mut pre, leaf);
    assert(pre@ =~= seq![TAG_LEAF] + leaf@);
    sha256(pre.as_slice())
}

/// The digest of an inner node over its two children.
pub fn node_digest(left: &[u8], right: &[u8]) -> (r: Vec<u8>)
    ensures
        r@ == node_hash(left@, right@),
{
    let mut pre: Vec<u8> = Vec::new();
    pre.push(TAG_NODE);
    append_bytes(&mut pre, left);
    append_bytes(&mut pre, right);
    assert(pre@ =~= seq![TAG_NODE] + left@ + right@);
    sha256(pre.as_slice())
}

fn parent_of(level: &Vec<Vec<u8>>) -> (r: Vec<Vec<u8>>)
    ensures
        digests(r@) == parent_level(digests(level@)),
{
    let ghost lv = digests(level@);
    let n = level.len();
    let half = n / 2 + n % 2;
    let mut r: Vec<Vec<u8>> = Vec::new();
    let mut j: usize = 0;
    while j < half
        invariant
            lv == digests(level@),
            n == level.len(),
            half == (n + 1) / 2,
            j <= half,
            r.len() == j,
            forall|k: int|
                0 <= k < j ==> #[trigger] r@[k]@ == node_hash(lv[2 * k], right_partner(lv, 2 * k)),
        decreases half - j,
    {
        let left = &level[2 * j];
        let right = if 2 * j + 1 < n {
            &level[2 * j + 1]
        } else {
            &level[2 * j]
        };
        let d = node_digest(left.as_slice(), right.as_slice());
        r.push(d);
        j = j + 1;
    }
    assert(digests(r@) =~= parent_level(lv));
    r
}

/// Level `j + 1` of `levels` lies above level `j`, which holds two nodes or more.
pub open spec fn links(levels: Seq<Vec<Vec<u8>>>, j: int) -> bool {
    &&& levels[j].len() > 1
    &&& digests(levels[j + 1]@) == parent_level(digests(levels[j]@))
}

/// `levels` runs from `base` up to a level of one node.
pub open spec fn tower(levels: Seq<Vec<Vec<u8>>>, base: Seq<Seq<u8>>) -> bool {
    &&& levels.len() >= 1
    &&& digests(levels[0]@) == base
    &&& forall|j: int| 0 <= j < levels.len() - 1 ==> #[trigger] links(levels, j)
    &&& levels.last().len() == 1
}

fn build_levels(base: Vec<Vec<u8>>) -> (levels: Vec<Vec<Vec<u8>>>)
    requires
        base.len() >= 1,
        base.len() <= u32::MAX,
    ensures
        tower(levels@, digests(base@)),
        root_of(digests(base@)) == digests(levels@.last()@)[0],
        depth_of(digests(base@)) == levels.len() - 1,
        levels.len() <= base.len(),
{
    let ghost b = digests(base@);
    let ghost n = base.len();
    let mut levels: Vec<Vec<Vec<u8>>> = Vec::new();
    levels.push(base);
    let mut k: usize = 0;
    while levels[k].len() > 1
        invariant
            levels.len() == k + 1,
            digests(levels@[0]@) == b,
            forall|j: int| 0 <= j < k ==> #[trigger] links(levels@, j),
            levels@[k as int].len() >= 1,
            root_of(b) == root_of(digests(levels@[k as int]@)),
            depth_of(b) == k + depth_of(digests(levels@[k as int]@)),
            k + levels@[k as int].len() <= n,
        decreases levels@[k as int].len(),
    {
        let p = parent_of(&levels[k]);
        assert(digests(p@).len() == p@.len());
        let ghost before = levels@;
        levels.push(p);
        assert(links(levels@, k as int));
        assert forall|j: int| 0 <= j < k + 1 implies #[trigger] links(levels@, j) by {
            if j < k {
                assert(links(before, j));
            }
        }
        k = k + 1;
    }
    levels
}

fn path_for(levels: &Vec<Vec<Vec<u8>>>, i: usize) -> (path: Vec<ProofStep>)
    requires
        tower(levels@, digests(levels@[0]@)),
        i < levels@[0].len(),
    ensures
        path_view(path@) == path_of(digests(levels@[0]@), i as int),
{
    let ghost base = digests(levels@[0]@);
    let top = levels.len() - 1;
    let mut path: Vec<ProofStep> = Vec::new();
    let mut idx: usize = i;
    let mut k: usize = 0;
    while k < top
        invariant
            tower(levels@, base),
            top == levels.len() - 1,
            k <= top,
            idx < levels@[k as int].len(),
            path_of(base, i as int) == path_view(path@) + path_of(
                digests(levels@[k as int]@),
                idx as int,
            ),
        decreases top - k,
    {
        let level = &levels[k];
        assert(links(levels@, k as int));
        let ghost lv = digests(level@);
        let s: usize = if idx % 2 == 0 {
            if idx + 1 < level.len() {
                idx + 1
            } else {
                idx
            }
        } else {
            idx - 1
        };
        let step = ProofStep { sibling_hash: copy_bytes(level[s].as_slice()), sibling_on_left: idx % 2 == 1 };
        assert(step@ == step_at(lv, idx as int));
        let ghost old_path = path@;
        path.push(step);
        assert(path_view(path@) =~= path_view(old_path) + seq![step_at(lv, idx as int)]);
        assert(path_of(lv, idx as int) == seq![step_at(lv, idx as int)] + path_of(parent_level(lv), idx as int / 2));
        assert(path_view(path@) + path_of(digests(levels@[k + 1]@), idx as int / 2) =~= path_view(old_path) + path_of(lv, idx as int));
        idx = idx / 2;
        k = k + 1;
    }
    assert(path_view(path@) + path_of(digests(levels@[k as int]@), idx as int) =~= path_view(path@));
    path
}

/// Builds the Merkle tree over `leaves`: each leaf is hashed as
/// `hash(0x00 ∥ leaf)`, each pair of adjacent nodes as
/// `hash(0x01 ∥ left ∥ right)`, and the last node of an odd level is paired
/// with itself. Fails with `EmptyInput` when there are no leaves.
pub fn build(leaves: &Vec<Vec<u8>>) -> (r: Result<MerkleTree, VerificationError>)
    requires
        leaves.len() <= u32::MAX,
    ensures
        leaves.len() == 0 ==> r matches Err(VerificationError::EmptyInput),
        leaves.len() > 0 ==> (r matches Ok(t) && t.built_from(digests(leaves@))),
{
    if leaves.len() == 0 {
        return Err(VerificationError::EmptyInput);
    }
    let ghost level = leaf_level(digests(leaves@));
    let mut base: Vec<Vec<u8>> = Vec::new();
    let mut i: usize = 0;
    while i < leaves.len()
        invariant
            i <= leaves.len(),
            level == leaf_level(digests(leaves@)),
            base.len() == i,
            forall|j: int| 0 <= j < i ==> #[trigger] base@[j]@ == level[j],
        decreases leaves.len() - i,
    {
        base.push(leaf_digest(leaves[i].as_slice()));
        i = i + 1;
    }
    assert(digests(base@) =~= level);
    let n = base.len();
    let mut levels = build_levels(base);
    let top = levels.len() - 1;
    let root_hash = copy_bytes(levels[top][0].as_slice());
    let mut proof_paths: Vec<Vec<ProofStep>> = Vec::new();
    let mut i: usize = 0;
    while i < n
        invariant
            tower(levels@, level),
            n == level.len(),
            i <= n,
            proof_paths.len() == i,
            forall|j: int| 0 <= j < i ==> #[trigger] path_view(proof_paths@[j]@) == path_of(level, j),
        decreases n - i,
    {
        proof_paths.push(path_for(&levels, i));
        i = i + 1;
    }
    let leaf_hashes = levels.remove(0);
    let tree = MerkleTree {
        root_hash,
        leaf_count: n as u32,
        tree_depth: top as u32,
        leaf_hashes,
        proof_paths,
        verification_status: true,
    };
    assert forall|j: int| 0 <= j < leaves.len() implies #[trigger] tree.path(j) == path_of(level, j) by {
        assert(path_view(proof_paths@[j]@) == path_of(level, j));
    }
    Ok(tree)
}

/// Recomputes the hash from `leaf` along `proof_path` and tells whether it
/// arrives at `root`.
pub fn verify(leaf: &[u8], proof_path: &Vec<ProofStep>, root: &[u8]) -> (r: bool)
    ensures
        r == proof_verifies(leaf@, path_view(proof_path@), root@),
{
    let ghost full = path_view(proof_path@);
    let mut h = leaf_digest(leaf);
    let mut i: usize = 0;
    assert(full.skip(0) =~= full);
    while i < proof_path.len()
        invariant
            full == path_view(proof_path@),
            i <= proof_path.len(),
            climb(leaf_hash(leaf@), full) == climb(h@, full.skip(i as int)),
        decreases proof_path.len() - i,
    {
        let step = &proof_path[i];
        let next = if step.sibling_on_left {
            node_digest(step.sibling_hash.as_slice(), h.as_slice())
        } else {
            node_digest(h.as_slice(), step.sibling_hash.as_slice())
        };
        assert(full.skip(i as int)[0] == step@);
        assert(full.skip(i as int).drop_first() =~= full.skip(i + 1));
        h = next;
        i = i + 1;
    }
    assert(full.skip(i as int).len() == 0);
    bytes_equal(h.as_slice(), root)
}

/// Every proof path that `build` records leads from its leaf to the root.
pub proof fn lemma_proof_soundness(leaves: Seq<Seq<u8>>, tree: MerkleTree, i: int)
    requires
        tree.built_from(leaves),
        0 <= i < leaves.len(),
    ensures
        proof_verifies(leaves[i], tree.path(i), tree.root_hash@),
{
    let level = leaf_level(leaves);
    lemma_path_reaches_root(level, i);
    assert(tree.path(i) == path_of(level, i));
}

/// Two trees built over the same leaves have the same root and proofs.
pub proof fn lemma_build_deterministic(leaves: Seq<Seq<u8>>, t1: MerkleTree, t2: MerkleTree)
    requires
        t1.built_from(leaves),
        t2.built_from(leaves),
    ensures
        t1.root_hash@ == t2.root_hash@,
        digests(t1.leaf_hashes@) == digests(t2.leaf_hashes@),
        t1.tree_depth == t2.tree_depth,
        forall|i: int| 0 <= i < leaves.len() ==> #[trigger] t1.path(i) == t2.path(i),
{
}


/// The UTF-8 bytes of each text, in order.
pub open spec fn text_leaves(texts: Seq<String>) -> Seq<Seq<u8>> {
    texts.map_values(|t: String| encode_utf8(t@))
}

fn leaves_of_texts(texts: &[String]) -> (r: Vec<Vec<u8>>)
    ensures
        digests(r@) == text_leaves(texts@),
{
    let mut r: Vec<Vec<u8>> = Vec::new();
    let mut i: usize = 0;
    while i < texts.len()
        invariant
            i <= texts@.len(),
            r.len() == i,
            forall|j: int| 0 <= j < i ==> #[trigger] r@[j]@ == encode_utf8(texts@[j]@),
        decreases texts.len() - i,
    {
        r.push(copy_bytes(texts[i].as_str().as_bytes()));
        i = i + 1;
    }
    assert(digests(r@) =~= text_leaves(texts@));
    r
}

/// The hex text of the Merkle root over the UTF-8 bytes of `leaf_hashes`;
/// `EmptyInput` when there are none.
pub fn generate_merkle_root(leaf_hashes: &[String]) -> (r: Result<String, VerificationError>)
    requires
        leaf_hashes.len() <= u32::MAX,
    ensures
        leaf_hashes.len() == 0 ==> r matches Err(VerificationError::EmptyInput),
        leaf_hashes.len() > 0 ==> (r matches Ok(h) && h@ == hex_of(
            root_of(leaf_level(text_leaves(leaf_hashes@))),
        )),
{
    let leaves = leaves_of_texts(leaf_hashes);
    assert(digests(leaves@).len() == leaves@.len());
    match build(&leaves) {
        Ok(tree) => Ok(to_hex(tree.root_hash.as_slice())),
        Err(e) => Err(e),
    }
}

/// One inclusion proof per text of `leaf_hashes`, for the Merkle tree over
/// their UTF-8 bytes; none when there are no texts.
pub fn generate_proof_paths(leaf_hashes: &[String]) -> (r: Vec<Vec<ProofStep>>)
    requires
        leaf_hashes.len() <= u32::MAX,
    ensures
        r@.len() == leaf_hashes@.len(),
        forall|i: int|
            0 <= i < r@.len() ==> #[trigger] path_view(r@[i]@) == path_of(
                leaf_level(text_leaves(leaf_hashes@)),
                i,
            ),
{
    let leaves = leaves_of_texts(leaf_hashes);
    assert(digests(leaves@).len() == leaves@.len());
    match build(&leaves) {
        Ok(tree) => {
            let r = tree.proof_paths;
            assert forall|i: int| 0 <= i < r@.len() implies #[trigger] path_view(r@[i]@) == path_of(
                leaf_level(text_leaves(leaf_hashes@)),
                i,
            ) by {
                assert(tree.path(i) == path_of(leaf_level(digests(leaves@)), i));
            }
            r
        },
        Err(_) => Vec::new(),
    }
}

} // verus!
