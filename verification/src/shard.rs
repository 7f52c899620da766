//! The accumulator of commitments: 256 append-only shards, each with the
//! Merkle root of its leaves.
//!
//! A commitment lives in the shard that its leading byte names. The ledger
//! appends and compares; hashing leaves into a root is the host's work, so an
//! append takes the root that the host computed over the leaves as they are
//! after it.

use vstd::prelude::*;
use crate::bytes::{bytes_eq, zeros32};

verus! {

/// The number of shards.
pub const SHARD_COUNT: usize = 256;

/// One shard as a value: its leaves in the order they were appended, and its
/// current root.
#[verifier::ext_equal]
pub struct ShardView {
    pub list: Seq<[u8; 32]>,
    pub root: [u8; 32],
}

/// The shard that holds `cm`: its leading byte.
pub open spec fn shard_of(cm: [u8; 32]) -> int {
    cm[0] as int
}

/// The root that a shard has while it is empty: 32 zero bytes.
pub open spec fn empty_root() -> [u8; 32] {
    zeros32()
}

/// The accumulator with no commitment in it.
pub open spec fn acc_empty() -> Seq<ShardView> {
    Seq::new(SHARD_COUNT as nat, |i: int| ShardView { list: Seq::empty(), root: empty_root() })
}

/// There are 256 shards, every leaf lies in the shard of its leading byte, and
/// no shard holds a leaf twice.
pub open spec fn acc_wf(acc: Seq<ShardView>) -> bool {
    &&& acc.len() == SHARD_COUNT
    &&& forall|i: int, j: int|
        0 <= i < acc.len() && 0 <= j < acc[i].list.len() ==> shard_of(#[trigger] acc[i].list[j])
            == i
    &&& forall|i: int| 0 <= i < acc.len() ==> (#[trigger] acc[i]).list.no_duplicates()
}

/// Whether `cm` is a leaf of the accumulator.
pub open spec fn acc_contains(acc: Seq<ShardView>, cm: [u8; 32]) -> bool {
    acc[shard_of(cm)].list.contains(cm)
}

/// The accumulator after `cm` is appended to its shard and `root` becomes that
/// shard's root.
pub open spec fn acc_insert(acc: Seq<ShardView>, cm: [u8; 32], root: [u8; 32]) -> Seq<ShardView> {
    acc.update(shard_of(cm), ShardView { list: acc[shard_of(cm)].list.push(cm), root })
}

/// Whether `root` is the current root of shard `index`.
pub open spec fn acc_check_root(acc: Seq<ShardView>, index: int, root: [u8; 32]) -> bool {
    acc[index].root == root
}

/// Whether `root` is the current root of some shard.
pub open spec fn acc_root_is_current(acc: Seq<ShardView>, root: [u8; 32]) -> bool {
    exists|i: int| 0 <= i < acc.len() && #[trigger] acc_check_root(acc, i, root)
}

/// A commitment is a leaf after an append if it is the one appended or was a
/// leaf before.
pub proof fn lemma_insert_contains(
    acc: Seq<ShardView>,
    cm: [u8; 32],
    root: [u8; 32],
    other: [u8; 32],
)
    requires
        acc.len() == SHARD_COUNT,
    ensures
        acc_contains(acc_insert(acc, cm, root), other) <==> (other == cm || acc_contains(
            acc,
            other,
        )),
{
    let list = acc[shard_of(cm)].list;
    let after = acc_insert(acc, cm, root);
    if shard_of(other) == shard_of(cm) {
        assert(after[shard_of(other)].list == list.push(cm));
        if list.push(cm).contains(other) {
            let i = choose|i: int| 0 <= i < list.push(cm).len() && list.push(cm)[i] == other;
            if i < list.len() {
                assert(list[i] == other);
            }
        }
        if other == cm {
            assert(list.push(cm)[list.len() as int] == cm);
        }
        if list.contains(other) {
            let i = choose|i: int| 0 <= i < list.len() && list[i] == other;
            assert(list.push(cm)[i] == other);
        }
    } else {
        assert(other != cm);
    }
}

/// Appending a commitment that is not yet a leaf keeps the accumulator well
/// formed.
pub proof fn lemma_insert_wf(acc: Seq<ShardView>, cm: [u8; 32], root: [u8; 32])
    requires
        acc_wf(acc),
        !acc_contains(acc, cm),
    ensures
        acc_wf(acc_insert(acc, cm, root)),
{
    let after = acc_insert(acc, cm, root);
    let list = acc[shard_of(cm)].list;
    assert forall|i: int, j: int| 0 <= i < after.len() && 0 <= j < after[i].list.len() implies
        shard_of(#[trigger] after[i].list[j]) == i by {
        if i == shard_of(cm) {
            if j < list.len() {
                assert(after[i].list[j] == acc[i].list[j]);
            }
        } else {
            assert(after[i].list[j] == acc[i].list[j]);
        }
    }
    assert forall|i: int| 0 <= i < after.len() implies (#[trigger] after[i]).list.no_duplicates() by {
        if i == shard_of(cm) {
            assert(acc[i].list.no_duplicates());
            crate::nullifier::lemma_push_fresh(list, cm);
        } else {
            assert(acc[i].list.no_duplicates());
        }
    }
}

/// In a well-formed accumulator a commitment occurs at most once.
pub proof fn lemma_commitment_unique(acc: Seq<ShardView>, i: int, j: int, k: int, l: int)
    requires
        acc_wf(acc),
        0 <= i < acc.len(),
        0 <= j < acc[i].list.len(),
        0 <= k < acc.len(),
        0 <= l < acc[k].list.len(),
        acc[i].list[j] == acc[k].list[l],
    ensures
        i == k,
        j == l,
{
    assert(shard_of(acc[i].list[j]) == i);
    assert(shard_of(acc[k].list[l]) == k);
    assert(acc[i].list.no_duplicates());
}

/// A root stops being current the moment its shard takes a new leaf: once a
/// commitment is appended under a different root, the old root of that shard
/// is the root of no shard, unless another shard had the same root.
pub proof fn lemma_insert_retires_root(
    acc: Seq<ShardView>,
    cm: [u8; 32],
    root: [u8; 32],
    stale: [u8; 32],
)
    requires
        acc.len() == SHARD_COUNT,
        stale != root,
        forall|i: int| 0 <= i < acc.len() && i != shard_of(cm) ==> (#[trigger] acc[i]).root != stale,
    ensures
        !acc_root_is_current(acc_insert(acc, cm, root), stale),
{
    let after = acc_insert(acc, cm, root);
    assert forall|i: int| 0 <= i < after.len() implies !#[trigger] acc_check_root(
        after,
        i,
        stale,
    ) by {
        if i != shard_of(cm) {
            assert(after[i] == acc[i]);
        }
    }
}

/// One shard: its leaves and its current root.
#[derive(Clone, Debug, PartialEq, Eq)]
pub struct Shard {
    list: Vec<[u8; 32]>,
    root: [u8; 32],
}

impl View for Shard {
    type V = ShardView;

    closed spec fn view(&self) -> ShardView {
        ShardView { list: self.list@, root: self.root }
    }
}

/// The accumulator: shard `i` holds the commitments whose leading byte is `i`.
#[derive(Clone, Debug, PartialEq, Eq)]
pub struct Shards {
    shard: Vec<Shard>,
}

impl View for Shards {
    type V = Seq<ShardView>;

    closed spec fn view(&self) -> Seq<ShardView> {
        Seq::new(self.shard@.len(), |i: int| self.shard@[i]@)
    }
}

impl Shards {
    /// There are 256 shards. This holds of every accumulator that `new` made,
    /// whatever was appended since.
    pub open spec fn wf(&self) -> bool {
        self@.len() == SHARD_COUNT
    }

    /// The accumulator with no commitment in it.
    pub fn new() -> (shards: Shards)
        ensures
            shards.wf(),
            shards@ == acc_empty(),
            acc_wf(shards@),
    {
        let mut shard: Vec<Shard> = Vec::new();
        let mut i: usize = 0;
        while i < SHARD_COUNT
            invariant
                i <= SHARD_COUNT,
                shard@.len() == i,
                forall|j: int| 0 <= j < i ==> (#[trigger] shard@[j])@ == acc_empty()[j],
            decreases SHARD_COUNT - i,
        {
            let root = [0u8; 32];
            assert(root =~= empty_root());
            shard.push(Shard { list: Vec::new(), root });
            i += 1;
        }
        let shards = Shards { shard };
        assert(shards@ =~= acc_empty());
        shards
    }

    /// Whether `target` is a leaf of the accumulator. Only the shard of its
    /// leading byte is searched.
    pub fn exist(&self, target: &[u8; 32]) -> (found: bool)
        requires
            self.wf(),
        ensures
            found == acc_contains(self@, *target),
    {
        let list = &self.shard[target[0] as usize].list;
        assert(self@[shard_of(*target)].list == list@);
        let mut i: usize = 0;
        while i < list.len()
            invariant
                i <= list@.len(),
                self@[shard_of(*target)].list == list@,
                forall|j: int| 0 <= j < i ==> list@[j] != *target,
            decreases list@.len() - i,
        {
            if bytes_eq(&list[i], target) {
                assert(list@[i as int] == *target);
                return true;
            }
            i += 1;
        }
        false
    }

    /// Appends `target` to its shard and makes `root` that shard's root.
    pub fn update(&mut self, target: &[u8; 32], root: [u8; 32])
        requires
            old(self).wf(),
        ensures
            final(self).wf(),
            final(self)@ == acc_insert(old(self)@, *target, root),
    {
        let index: usize = target[0] as usize;
        self.shard[index].list.push(*target);
        self.shard[index].root = root;
        assert(self@ =~= acc_insert(old(self)@, *target, root));
    }

    /// The leaves of shard `index`, oldest first.
    pub fn leaves(&self, index: u8) -> (list: &Vec<[u8; 32]>)
        requires
            self.wf(),
        ensures
            list@ == self@[index as int].list,
    {
        &self.shard[index as usize].list
    }

    /// The current root of shard `index`.
    pub fn root(&self, index: u8) -> (root: [u8; 32])
        requires
            self.wf(),
        ensures
            root == self@[index as int].root,
    {
        self.shard[index as usize].root
    }

    /// The leaves that the shard of `target` holds once `target` is appended:
    /// what the root handed to `update` is to be computed over.
    pub fn leaves_with(&self, target: &[u8; 32]) -> (list: Vec<[u8; 32]>)
        requires
            self.wf(),
        ensures
            list@ == self@[shard_of(*target)].list.push(*target),
    {
        let present = &self.shard[target[0] as usize].list;
        let mut list: Vec<[u8; 32]> = Vec::new();
        let mut i: usize = 0;
        while i < present.len()
            invariant
                i <= present@.len(),
                list@ == present@.take(i as int),
            decreases present@.len() - i,
        {
            list.push(present[i]);
            assert(present@.take(i + 1) =~= present@.take(i as int).push(present@[i as int]));
            i += 1;
        }
        assert(present@.take(present@.len() as int) =~= present@);
        list.push(*target);
        list
    }

    /// Whether `target` is the current root of shard `index`. No earlier root
    /// of the shard is accepted.
    pub fn check_root(&self, index: u8, target: &[u8; 32]) -> (current: bool)
        requires
            self.wf(),
        ensures
            current == acc_check_root(self@, index as int, *target),
    {
        bytes_eq(&self.shard[index as usize].root, target)
    }

    /// Whether `target` is the current root of some shard.
    pub fn root_exist(&self, target: &[u8; 32]) -> (current: bool)
        requires
            self.wf(),
        ensures
            current == acc_root_is_current(self@, *target),
    {
        let mut i: usize = 0;
        while i < SHARD_COUNT
            invariant
                i <= SHARD_COUNT,
                self@.len() == SHARD_COUNT,
                forall|j: int| 0 <= j < i ==> !acc_check_root(self@, j, *target),
            decreases SHARD_COUNT - i,
        {
            if bytes_eq(&self.shard[i].root, target) {
                assert(acc_check_root(self@, i as int, *target));
                return true;
            }
            i += 1;
        }
        false
    }
}

} // verus!
