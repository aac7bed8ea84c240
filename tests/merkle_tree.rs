use blockchain_verifier::error::VerificationError;
use blockchain_verifier::merkle::{build, generate_merkle_root, generate_proof_paths, verify};
use sha2::{Digest, Sha256};

fn h(parts: &[&[u8]]) -> Vec<u8> {
    let mut hasher = Sha256::new();
    for p in parts {
        hasher.update(p);
    }
    hasher.finalize().to_vec()
}

fn leaf(b: &[u8]) -> Vec<u8> {
    h(&[&[0u8], b])
}

fn node(l: &[u8], r: &[u8]) -> Vec<u8> {
    h(&[&[1u8], l, r])
}

fn hex(b: &[u8]) -> String {
    b.iter().map(|x| format!("{:02x}", x)).collect()
}

fn leaves(n: usize) -> Vec<Vec<u8>> {
    (0..n).map(|i| format!("leaf{}", i).into_bytes()).collect()
}

#[test]
fn test_merkle_root_generation() {
    let leaves = vec!["leaf1".to_string(), "leaf2".to_string()];
    let root = generate_merkle_root(&leaves).unwrap();
    let expected = node(&leaf(b"leaf1"), &leaf(b"leaf2"));
    assert_eq!(root, hex(&expected));
    assert_eq!(root.len(), 64);
    // The root commits to each of the two leaves.
    let other_first = generate_merkle_root(&["leafX".to_string(), "leaf2".to_string()]).unwrap();
    let other_second = generate_merkle_root(&["leaf1".to_string(), "leafX".to_string()]).unwrap();
    assert_ne!(root, other_first);
    assert_ne!(root, other_second);
}

#[test]
fn merkle_root_of_no_leaves_is_an_error() {
    let none: Vec<String> = Vec::new();
    assert_eq!(generate_merkle_root(&none), Err(VerificationError::EmptyInput));
    assert_eq!(build(&Vec::new()), Err(VerificationError::EmptyInput));
    assert!(generate_proof_paths(&none).is_empty());
}

#[test]
fn single_leaf_tree() {
    let tree = build(&vec![b"x".to_vec()]).unwrap();
    assert_eq!(tree.tree_depth, 0);
    assert_eq!(tree.leaf_count, 1);
    assert_eq!(tree.proof_paths.len(), 1);
    assert!(tree.proof_paths[0].is_empty());
    assert_eq!(tree.root_hash, leaf(b"x"));
    assert_eq!(tree.leaf_hashes, vec![leaf(b"x")]);
    assert!(tree.verification_status);
    assert!(verify(b"x", &tree.proof_paths[0], &tree.root_hash));
}

#[test]
fn odd_level_pairs_last_node_with_itself() {
    let tree = build(&leaves(3)).unwrap();
    let l: Vec<Vec<u8>> = leaves(3).iter().map(|b| leaf(b)).collect();
    let expected = node(&node(&l[0], &l[1]), &node(&l[2], &l[2]));
    assert_eq!(tree.root_hash, expected);
    assert_eq!(tree.tree_depth, 2);
    assert_eq!(tree.leaf_count, 3);
    let path = &tree.proof_paths[2];
    assert_eq!(path.len(), 2);
    assert_eq!(path[0].sibling_hash, l[2]);
    assert!(!path[0].sibling_on_left);
    assert_eq!(path[1].sibling_hash, node(&l[0], &l[1]));
    assert!(path[1].sibling_on_left);
}

#[test]
fn build_is_deterministic() {
    for n in 1..=9 {
        let a = build(&leaves(n)).unwrap();
        let b = build(&leaves(n)).unwrap();
        assert_eq!(a.root_hash, b.root_hash);
        assert_eq!(a, b);
    }
}

#[test]
fn every_proof_path_verifies() {
    for n in 1..=17 {
        let ls = leaves(n);
        let tree = build(&ls).unwrap();
        assert_eq!(tree.proof_paths.len(), tree.leaf_hashes.len());
        let depth = (n as f64).log2().ceil() as u32;
        assert_eq!(tree.tree_depth, depth);
        for (i, l) in ls.iter().enumerate() {
            assert_eq!(tree.proof_paths[i].len() as u32, depth);
            assert!(verify(l, &tree.proof_paths[i], &tree.root_hash));
        }
    }
}

#[test]
fn tampered_leaf_or_path_fails_to_verify() {
    let ls = leaves(5);
    let tree = build(&ls).unwrap();
    for i in 0..ls.len() {
        let mut bad_leaf = ls[i].clone();
        bad_leaf[0] ^= 1;
        assert!(!verify(&bad_leaf, &tree.proof_paths[i], &tree.root_hash));
        for s in 0..tree.proof_paths[i].len() {
            let mut bad_path = tree.proof_paths[i].clone();
            bad_path[s].sibling_hash[7] ^= 0x80;
            assert!(!verify(&ls[i], &bad_path, &tree.root_hash));
        }
    }
    assert!(!verify(&ls[0], &tree.proof_paths[1], &tree.root_hash));
    // In a full tree no sibling equals the running hash, so swapping sides
    // always changes the result.
    let ls = leaves(4);
    let tree = build(&ls).unwrap();
    for i in 0..ls.len() {
        for s in 0..tree.proof_paths[i].len() {
            let mut flipped = tree.proof_paths[i].clone();
            flipped[s].sibling_on_left = !flipped[s].sibling_on_left;
            assert!(!verify(&ls[i], &flipped, &tree.root_hash));
        }
    }
}

#[test]
fn proof_paths_match_the_tree() {
    let texts: Vec<String> = vec!["a".into(), "b".into(), "c".into(), "d".into()];
    let paths = generate_proof_paths(&texts);
    let tree = build(&texts.iter().map(|t| t.as_bytes().to_vec()).collect()).unwrap();
    assert_eq!(paths, tree.proof_paths);
    assert_eq!(paths[0][0].sibling_hash, leaf(b"b"));
    assert_eq!(paths[0][1].sibling_hash, node(&leaf(b"c"), &leaf(b"d")));
}
