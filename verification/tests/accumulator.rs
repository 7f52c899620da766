use manta_pay::{NullifierSet, Shards};

fn leaf(shard: u8, tag: u8) -> [u8; 32] {
    let mut cm = [tag; 32];
    cm[0] = shard;
    cm
}

#[test]
fn new_accumulator_has_256_empty_shards_with_zero_roots() {
    let shards = Shards::new();
    for index in 0..=255u8 {
        assert!(shards.leaves(index).is_empty());
        assert_eq!(shards.root(index), [0u8; 32]);
        assert!(shards.check_root(index, &[0u8; 32]));
    }
}

#[test]
fn a_commitment_goes_to_the_shard_of_its_leading_byte() {
    let mut shards = Shards::new();
    let cm = leaf(37, 1);
    shards.update(&cm, [9u8; 32]);
    for index in 0..=255u8 {
        if index == 37 {
            assert_eq!(shards.leaves(index), &vec![cm]);
            assert_eq!(shards.root(index), [9u8; 32]);
        } else {
            assert!(shards.leaves(index).is_empty());
            assert_eq!(shards.root(index), [0u8; 32]);
        }
    }
}

#[test]
fn exist_finds_what_was_appended_and_nothing_else() {
    let mut shards = Shards::new();
    let cm = leaf(0, 1);
    assert!(!shards.exist(&cm));
    shards.update(&cm, [9u8; 32]);
    assert!(shards.exist(&cm));
    assert!(!shards.exist(&leaf(0, 2)));
    assert!(!shards.exist(&leaf(1, 1)));
}

#[test]
fn leaves_keep_the_order_of_their_appends() {
    let mut shards = Shards::new();
    shards.update(&leaf(255, 3), [1u8; 32]);
    shards.update(&leaf(255, 1), [2u8; 32]);
    shards.update(&leaf(255, 2), [3u8; 32]);
    assert_eq!(shards.leaves(255), &vec![leaf(255, 3), leaf(255, 1), leaf(255, 2)]);
    assert_eq!(shards.root(255), [3u8; 32]);
}

#[test]
fn only_the_current_root_of_a_shard_is_accepted() {
    let mut shards = Shards::new();
    shards.update(&leaf(5, 1), [1u8; 32]);
    assert!(shards.check_root(5, &[1u8; 32]));
    assert!(shards.root_exist(&[1u8; 32]));
    shards.update(&leaf(5, 2), [2u8; 32]);
    assert!(!shards.check_root(5, &[1u8; 32]));
    assert!(!shards.root_exist(&[1u8; 32]));
    assert!(shards.check_root(5, &[2u8; 32]));
    assert!(shards.root_exist(&[2u8; 32]));
    assert!(!shards.check_root(6, &[2u8; 32]));
}

#[test]
fn a_root_is_current_if_any_shard_has_it() {
    let mut shards = Shards::new();
    assert!(shards.root_exist(&[0u8; 32]));
    assert!(!shards.root_exist(&[7u8; 32]));
    shards.update(&leaf(200, 1), [7u8; 32]);
    assert!(shards.root_exist(&[7u8; 32]));
    assert!(shards.root_exist(&[0u8; 32]));
}

#[test]
fn leaves_with_is_the_shard_with_the_new_leaf_last() {
    let mut shards = Shards::new();
    assert_eq!(shards.leaves_with(&leaf(9, 1)), vec![leaf(9, 1)]);
    shards.update(&leaf(9, 1), [1u8; 32]);
    assert_eq!(shards.leaves_with(&leaf(9, 2)), vec![leaf(9, 1), leaf(9, 2)]);
    assert_eq!(shards.leaves_with(&leaf(8, 2)), vec![leaf(8, 2)]);
    assert_eq!(shards.leaves(9), &vec![leaf(9, 1)]);
}

#[test]
fn nullifier_set_starts_empty_and_only_grows() {
    let mut set = NullifierSet::new();
    assert_eq!(set.len(), 0);
    assert!(!set.contains(&[1u8; 32]));
    assert!(set.record([1u8; 32]));
    assert!(set.contains(&[1u8; 32]));
    assert!(!set.contains(&[2u8; 32]));
    assert!(set.record([2u8; 32]));
    assert!(set.contains(&[1u8; 32]));
    assert!(set.contains(&[2u8; 32]));
    assert_eq!(set.len(), 2);
    assert_eq!(set.to_vec(), vec![[1u8; 32], [2u8; 32]]);
}

#[test]
fn a_nullifier_is_not_recorded_twice() {
    let mut set = NullifierSet::new();
    assert!(set.record([1u8; 32]));
    assert!(!set.record([1u8; 32]));
    assert_eq!(set.len(), 1);
    assert_eq!(set.to_vec(), vec![[1u8; 32]]);
}

#[test]
fn nullifiers_that_differ_in_one_byte_are_different() {
    let mut set = NullifierSet::new();
    let mut sn = [0u8; 32];
    assert!(set.record(sn));
    sn[31] = 1;
    assert!(!set.contains(&sn));
}
