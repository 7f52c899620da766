//! The set of revealed nullifiers. It only grows: a nullifier that is in it
//! stays in it, and blocks every later spend of its coin.

use vstd::prelude::*;
use crate::bytes::bytes_eq;

verus! {

/// The revealed nullifiers, in the order in which they were revealed.
#[derive(Clone, Debug, PartialEq, Eq)]
pub struct NullifierSet {
    list: Vec<[u8; 32]>,
}

impl View for NullifierSet {
    type V = Seq<[u8; 32]>;

    closed spec fn view(&self) -> Seq<[u8; 32]> {
        self.list@
    }
}

impl NullifierSet {
    /// The set with no nullifier in it.
    pub fn new() -> (set: NullifierSet)
        ensures
            set@ == Seq::<[u8; 32]>::empty(),
    {
        NullifierSet { list: Vec::new() }
    }

    /// Whether `sn` has been revealed.
    pub fn contains(&self, sn: &[u8; 32]) -> (found: bool)
        ensures
            found == self@.contains(*sn),
    {
        let mut i: usize = 0;
        while i < self.list.len()
            invariant
                i <= self.list@.len(),
                forall|j: int| 0 <= j < i ==> self.list@[j] != *sn,
            decreases self.list@.len() - i,
        {
            if bytes_eq(&self.list[i], sn) {
                assert(self.list@[i as int] == *sn);
                return true;
            }
            i += 1;
        }
        false
    }

    /// Records `sn` as revealed, unless it is already: a nullifier is never
    /// recorded twice. Says whether it was new.
    pub fn record(&mut self, sn: [u8; 32]) -> (fresh: bool)
        ensures
            fresh == !old(self)@.contains(sn),
            final(self)@ == if fresh {
                old(self)@.push(sn)
            } else {
                old(self)@
            },
            old(self)@.no_duplicates() ==> final(self)@.no_duplicates(),
    {
        if self.contains(&sn) {
            return false;
        }
        proof {
            if self@.no_duplicates() {
                lemma_push_fresh(self@, sn);
            }
        }
        self.list.push(sn);
        true
    }

    /// How many nullifiers have been revealed.
    pub fn len(&self) -> (n: usize)
        ensures
            n == self@.len(),
    {
        self.list.len()
    }

    /// The nullifiers, oldest first.
    pub fn to_vec(&self) -> (list: Vec<[u8; 32]>)
        ensures
            list@ == self@,
    {
        let mut list: Vec<[u8; 32]> = Vec::new();
        let mut i: usize = 0;
        while i < self.list.len()
            invariant
                i <= self.list@.len(),
                list@ == self.list@.take(i as int),
            decreases self.list@.len() - i,
        {
            list.push(self.list[i]);
            assert(self.list@.take(i + 1) =~= self.list@.take(i as int).push(self.list@[i as int]));
            i += 1;
        }
        assert(self.list@.take(self.list@.len() as int) =~= self.list@);
        list
    }
}

/// Appending a value that a duplicate-free sequence lacks keeps it free of
/// duplicates.
pub proof fn lemma_push_fresh<A>(s: Seq<A>, a: A)
    requires
        s.no_duplicates(),
        !s.contains(a),
    ensures
        s.push(a).no_duplicates(),
        forall|b: A| s.push(a).contains(b) <==> (b == a || s.contains(b)),
{
    assert forall|i: int, j: int| 0 <= i < j < s.push(a).len() implies s.push(a)[i] != s.push(
        a,
    )[j] by {
        if j == s.len() {
            assert(s[i] == s.push(a)[i]);
        }
    }
    assert forall|b: A| s.push(a).contains(b) <==> (b == a || s.contains(b)) by {
        if s.push(a).contains(b) {
            let i = choose|i: int| 0 <= i < s.push(a).len() && s.push(a)[i] == b;
            if i < s.len() {
                assert(s[i] == b);
            }
        }
        if b == a {
            assert(s.push(a)[s.len() as int] == a);
        }
        if s.contains(b) {
            let i = choose|i: int| 0 <= i < s.len() && s[i] == b;
            assert(s.push(a)[i] == b);
        }
    }
}

} // verus!
