//! The relation that a proof of a private transfer attests to, for one coin
//! that is spent and the coin that takes its value.
//!
//! The relation says five things:
//!
//! 1. both coins are well formed: `k` commits to `pk || rho` under `r`, and
//!    `cm` commits to `value || k` under `s`;
//! 2. the sender's public key is what its spending key derives from 32 zero
//!    bytes;
//! 3. the sender's nullifier is what its spending key derives from its tag;
//! 4. the sender's commitment is a leaf of the list its membership is proved
//!    against;
//! 5. the receiver's commitment is over the sender's value.
//!
//! The last is not stated apart: the receiver's commitment is recomputed from
//! the sender's value, and from no other.
//!
//! The commitment scheme belongs to the host. A circuit says what is to be
//! committed to, and is judged on what the scheme gave for it.

use vstd::prelude::*;
use crate::bytes::{bytes_eq, zeros32};
use crate::coin::{
    cm_preimage, commitment_payload, inner_commitment_payload, k_preimage, MantaCoin,
    MantaCoinPrivInfo, MantaCoinPubInfo, ReceiverData, SenderData,
};
use crate::crypto::{prf, prf_output};
use crate::zkp::{inputs_of, pair_inputs, pair_public_inputs};

verus! {

/// A commitment scheme as a function from what is committed to and the
/// opening to the commitment, where there is one.
pub type CommitFn = spec_fn(Seq<u8>, [u8; 32]) -> Option<[u8; 32]>;

/// Something for the commitment scheme to commit to, and the opening to do it
/// under.
#[derive(Clone, Debug, PartialEq, Eq)]
pub struct CommitRequest {
    pub input: Vec<u8>,
    pub opening: [u8; 32],
}

/// What the commitment scheme gave for the two commitments of a coin: for the
/// inner commitment `k` and for the commitment `cm`. `None` stands for an
/// opening that the scheme does not take.
#[derive(Clone, Copy, Debug, PartialEq, Eq)]
pub struct CoinCommitments {
    pub k: Option<[u8; 32]>,
    pub cm: Option<[u8; 32]>,
}

/// What `commit` gives for the two commitments of a coin of `value` with the
/// openings of `pub_info`.
pub open spec fn commitments_under(commit: CommitFn, pub_info: MantaCoinPubInfo, value: u64) -> CoinCommitments {
    CoinCommitments {
        k: commit(k_preimage(pub_info.pk, pub_info.rho), pub_info.r),
        cm: commit(cm_preimage(value, pub_info.k), pub_info.s),
    }
}

/// Whether a coin is well formed, given what the scheme gave for its two
/// commitments: they are the coin's.
pub open spec fn well_formed(
    coin: MantaCoin,
    pub_info: MantaCoinPubInfo,
    committed: CoinCommitments,
) -> bool {
    committed.k == Some(pub_info.k) && committed.cm == Some(coin.cm_bytes)
}

/// The two things to commit to for a coin of `value`: first for its inner
/// commitment, then for its commitment.
pub fn commit_requests(pub_info: &MantaCoinPubInfo, value: u64) -> (requests: (
    CommitRequest,
    CommitRequest,
))
    ensures
        requests.0.input@ == k_preimage(pub_info.pk, pub_info.rho),
        requests.0.opening == pub_info.r,
        requests.1.input@ == cm_preimage(value, pub_info.k),
        requests.1.opening == pub_info.s,
{
    (
        CommitRequest {
            input: inner_commitment_payload(&pub_info.pk, &pub_info.rho),
            opening: pub_info.r,
        },
        CommitRequest { input: commitment_payload(value, &pub_info.k), opening: pub_info.s },
    )
}

/// Whether a coin is well formed, given what the scheme gave for its two
/// commitments.
pub fn token_well_formed(
    coin: &MantaCoin,
    pub_info: &MantaCoinPubInfo,
    committed: &CoinCommitments,
) -> (holds: bool)
    ensures
        holds == well_formed(*coin, *pub_info, *committed),
{
    let k_holds = match &committed.k {
        Some(k) => bytes_eq(k, &pub_info.k),
        None => false,
    };
    let cm_holds = match &committed.cm {
        Some(cm) => bytes_eq(cm, &coin.cm_bytes),
        None => false,
    };
    k_holds && cm_holds
}

/// Whether `output` is what the pseudorandom function evaluated to.
pub fn prf_matches(evaluated: &Option<[u8; 32]>, output: &[u8; 32]) -> (holds: bool)
    ensures
        holds == (*evaluated == Some(*output)),
{
    match evaluated {
        Some(out) => bytes_eq(out, output),
        None => false,
    }
}

/// Whether `output` is what the pseudorandom function derives from `input`
/// under `seed`.
pub fn prf_well_formed(seed: &[u8; 32], input: &[u8; 32], output: &[u8; 32]) -> (holds: bool)
    ensures
        holds == (prf_output(*seed, *input) == Some(*output)),
{
    let evaluated = prf(seed, input);
    prf_matches(&evaluated, output)
}

/// Where `cm` first occurs in `list`, if it does.
pub fn merkle_membership(cm: &[u8; 32], list: &Vec<[u8; 32]>) -> (index: Option<usize>)
    ensures
        match index {
            Some(i) => i < list@.len() && list@[i as int] == *cm && forall|j: int|
                0 <= j < i ==> list@[j] != *cm,
            None => !list@.contains(*cm),
        },
{
    let mut i: usize = 0;
    while i < list.len()
        invariant
            i <= list@.len(),
            forall|j: int| 0 <= j < i ==> list@[j] != *cm,
        decreases list@.len() - i,
    {
        if bytes_eq(&list[i], cm) {
            return Some(i);
        }
        i += 1;
    }
    None
}

/// The witness of the relation: a coin that is spent, with all that its owner
/// knows of it, the coin that takes its value, and the leaves among which the
/// spent coin is shown to be.
#[derive(Clone, Debug, PartialEq, Eq)]
pub struct TransferCircuit {
    pub commit_param: Vec<u8>,
    pub hash_param: Vec<u8>,
    pub sender_coin: MantaCoin,
    pub sender_pub_info: MantaCoinPubInfo,
    pub sender_priv_info: MantaCoinPrivInfo,
    pub receiver_coin: MantaCoin,
    pub receiver_pub_info: MantaCoinPubInfo,
    pub list: Vec<[u8; 32]>,
}

impl TransferCircuit {
    /// The relation, given what the commitment scheme gave for the sender's
    /// and the receiver's commitments and what the pseudorandom function gave
    /// for the public key and the nullifier.
    pub open spec fn relation_given(
        self,
        sender: CoinCommitments,
        receiver: CoinCommitments,
        pk: Option<[u8; 32]>,
        sn: Option<[u8; 32]>,
    ) -> bool {
        &&& well_formed(self.sender_coin, self.sender_pub_info, sender)
        &&& well_formed(self.receiver_coin, self.receiver_pub_info, receiver)
        &&& pk == Some(self.sender_pub_info.pk)
        &&& sn == Some(self.sender_priv_info.sn)
        &&& self.list@.contains(self.sender_coin.cm_bytes)
    }

    /// What the pseudorandom function is to give for the sender's public key.
    pub open spec fn derived_pk(self) -> Option<[u8; 32]> {
        prf_output(self.sender_priv_info.sk, zeros32())
    }

    /// What the pseudorandom function is to give for the sender's nullifier.
    pub open spec fn derived_sn(self) -> Option<[u8; 32]> {
        prf_output(self.sender_priv_info.sk, self.sender_pub_info.rho)
    }

    /// The relation under the commitment scheme `commit`. Both coins are
    /// committed to with the sender's value.
    pub open spec fn relation(self, commit: CommitFn) -> bool {
        self.relation_given(
            commitments_under(commit, self.sender_pub_info, self.sender_priv_info.value),
            commitments_under(commit, self.receiver_pub_info, self.sender_priv_info.value),
            self.derived_pk(),
            self.derived_sn(),
        )
    }

    /// The two things to commit to for the sender's coin.
    pub fn sender_requests(&self) -> (requests: (CommitRequest, CommitRequest))
        ensures
            requests.0.input@ == k_preimage(self.sender_pub_info.pk, self.sender_pub_info.rho),
            requests.0.opening == self.sender_pub_info.r,
            requests.1.input@ == cm_preimage(self.sender_priv_info.value, self.sender_pub_info.k),
            requests.1.opening == self.sender_pub_info.s,
    {
        commit_requests(&self.sender_pub_info, self.sender_priv_info.value)
    }

    /// The two things to commit to for the receiver's coin. The value is the
    /// sender's.
    pub fn receiver_requests(&self) -> (requests: (CommitRequest, CommitRequest))
        ensures
            requests.0.input@ == k_preimage(self.receiver_pub_info.pk, self.receiver_pub_info.rho),
            requests.0.opening == self.receiver_pub_info.r,
            requests.1.input@ == cm_preimage(
                self.sender_priv_info.value,
                self.receiver_pub_info.k,
            ),
            requests.1.opening == self.receiver_pub_info.s,
    {
        commit_requests(&self.receiver_pub_info, self.sender_priv_info.value)
    }

    /// Whether the relation holds, given what the commitment scheme and the
    /// pseudorandom function gave.
    pub fn satisfied_with(
        &self,
        sender: &CoinCommitments,
        receiver: &CoinCommitments,
        pk: &Option<[u8; 32]>,
        sn: &Option<[u8; 32]>,
    ) -> (holds: bool)
        ensures
            holds == self.relation_given(*sender, *receiver, *pk, *sn),
    {
        token_well_formed(&self.sender_coin, &self.sender_pub_info, sender) && token_well_formed(
            &self.receiver_coin,
            &self.receiver_pub_info,
            receiver,
        ) && prf_matches(pk, &self.sender_pub_info.pk) && prf_matches(
            sn,
            &self.sender_priv_info.sn,
        ) && merkle_membership(&self.sender_coin.cm_bytes, &self.list).is_some()
    }

    /// Whether the relation holds, given what the commitment scheme gave for
    /// `sender_requests` and for `receiver_requests`.
    pub fn satisfied(&self, sender: &CoinCommitments, receiver: &CoinCommitments) -> (holds: bool)
        ensures
            holds == self.relation_given(*sender, *receiver, self.derived_pk(), self.derived_sn()),
    {
        let zero = [0u8; 32];
        assert(zero =~= zeros32());
        let pk = prf(&self.sender_priv_info.sk, &zero);
        let sn = prf(&self.sender_priv_info.sk, &self.sender_pub_info.rho);
        self.satisfied_with(sender, receiver, &pk, &sn)
    }

    /// The sender leg that goes on the wire, with the root that membership is
    /// proved against.
    pub fn sender_data(&self, root: [u8; 32]) -> (leg: SenderData)
        ensures
            leg.k == self.sender_pub_info.k,
            leg.sn == self.sender_priv_info.sn,
            leg.root == root,
    {
        SenderData { k: self.sender_pub_info.k, sn: self.sender_priv_info.sn, root }
    }

    /// The receiver leg that goes on the wire.
    pub fn receiver_data(&self) -> (leg: ReceiverData)
        ensures
            leg.k == self.receiver_pub_info.k,
            leg.cm == self.receiver_coin.cm_bytes,
            leg.cipher == self.receiver_coin.cipher,
    {
        ReceiverData {
            k: self.receiver_pub_info.k,
            cm: self.receiver_coin.cm_bytes,
            cipher: self.receiver_coin.cipher,
        }
    }

    /// What the relation makes public, in the order of the statement: the
    /// sender's inner commitment, the receiver's inner commitment and
    /// commitment, the sender's nullifier, and `root`. The sender's commitment
    /// and public key stay hidden.
    pub fn public_inputs(&self, root: [u8; 32]) -> (inputs: Option<Vec<[u8; 32]>>)
        ensures
            inputs_of(inputs) == pair_inputs(
                SenderData { k: self.sender_pub_info.k, sn: self.sender_priv_info.sn, root },
                ReceiverData {
                    k: self.receiver_pub_info.k,
                    cm: self.receiver_coin.cm_bytes,
                    cipher: self.receiver_coin.cipher,
                },
            ),
    {
        let sender = self.sender_data(root);
        let receiver = self.receiver_data();
        pair_public_inputs(&sender, &receiver)
    }
}

/// A commitment scheme is binding where no two inputs have the same
/// commitment under one opening.
pub open spec fn binding(commit: CommitFn) -> bool {
    forall|a: Seq<u8>, b: Seq<u8>, opening: [u8; 32]|
        (#[trigger] commit(a, opening)) is Some && commit(a, opening) == #[trigger] commit(
            b,
            opening,
        ) ==> a == b
}

/// Two values with the same commitment preimage are the same value.
pub proof fn lemma_cm_preimage_injective(value: u64, other: u64, k: [u8; 32])
    requires
        cm_preimage(value, k) == cm_preimage(other, k),
    ensures
        value == other,
{
    vstd::bytes::lemma_auto_spec_u64_to_from_le_bytes();
    let a = vstd::bytes::spec_u64_to_le_bytes(value);
    let b = vstd::bytes::spec_u64_to_le_bytes(other);
    assert(a.len() == 8 && b.len() == 8);
    assert(a =~= cm_preimage(value, k).take(8));
    assert(b =~= cm_preimage(other, k).take(8));
    assert(vstd::bytes::spec_u64_from_le_bytes(a) == value);
    assert(vstd::bytes::spec_u64_from_le_bytes(b) == other);
}

/// Value is conserved: under a binding commitment scheme, where the relation
/// holds, the receiver's commitment opens to the sender's value and to no
/// other.
pub proof fn lemma_value_conserved(circuit: TransferCircuit, commit: CommitFn, value: u64)
    requires
        binding(commit),
        circuit.relation(commit),
    ensures
        commit(
            cm_preimage(value, circuit.receiver_pub_info.k),
            circuit.receiver_pub_info.s,
        ) == Some(circuit.receiver_coin.cm_bytes) <==> value == circuit.sender_priv_info.value,
{
    let honest = cm_preimage(circuit.sender_priv_info.value, circuit.receiver_pub_info.k);
    let claimed = cm_preimage(value, circuit.receiver_pub_info.k);
    assert(commit(honest, circuit.receiver_pub_info.s) == Some(circuit.receiver_coin.cm_bytes));
    if commit(claimed, circuit.receiver_pub_info.s) == Some(circuit.receiver_coin.cm_bytes) {
        assert(honest == claimed);
        lemma_cm_preimage_injective(
            circuit.sender_priv_info.value,
            value,
            circuit.receiver_pub_info.k,
        );
    }
}

/// A receiver's coin that commits to another value than the sender's does not
/// satisfy the relation, under a binding commitment scheme that commits to
/// that other value.
pub proof fn lemma_forged_value_refused(circuit: TransferCircuit, commit: CommitFn, forged: u64)
    requires
        binding(commit),
        forged != circuit.sender_priv_info.value,
        commit(
            cm_preimage(forged, circuit.receiver_pub_info.k),
            circuit.receiver_pub_info.s,
        ) == Some(circuit.receiver_coin.cm_bytes),
    ensures
        !circuit.relation(commit),
{
    if circuit.relation(commit) {
        lemma_value_conserved(circuit, commit, forged);
    }
}

} // verus!
