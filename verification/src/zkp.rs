//! What a proof of a private transfer or of a reclaim is verified against.
//!
//! A statement is fixed by its verification key; what varies is the list of
//! public inputs, which is assembled here from the legs of the operation. A
//! sender leg makes its inner commitment, its nullifier and its root public; a
//! receiver leg its inner commitment and its commitment. Commitments and roots
//! are curve points and enter as their two coordinates; a nullifier is a byte
//! string and enters packed into field elements.

use vstd::prelude::*;
use crate::coin::{ReceiverData, SenderData};
use crate::crypto::{
    decode_point, encode_scalar, groth16_accepts, groth16_verify, pack_bytes, packed_field_elements,
    point_coordinates, scalar_field_element,
};

verus! {

/// A list of field elements, if all of them could be had.
pub type Inputs = Option<Seq<[u8; 32]>>;

/// The list that an executable value stands for.
pub open spec fn inputs_of(list: Option<Vec<[u8; 32]>>) -> Inputs {
    match list {
        Some(list) => Some(list@),
        None => None,
    }
}

/// One list after the other, if both could be had.
pub open spec fn join(first: Inputs, second: Inputs) -> Inputs {
    match (first, second) {
        (Some(first), Some(second)) => Some(first + second),
        _ => None,
    }
}

/// The public inputs of a sender leg paired with the receiver leg that takes
/// its value, given what their parts decode to: the sender's inner commitment,
/// the receiver's inner commitment, the receiver's commitment, the sender's
/// nullifier, the sender's root.
pub open spec fn pair_inputs_of(
    sender_k: Option<([u8; 32], [u8; 32])>,
    receiver_k: Option<([u8; 32], [u8; 32])>,
    receiver_cm: Option<([u8; 32], [u8; 32])>,
    sender_sn: Inputs,
    sender_root: Option<([u8; 32], [u8; 32])>,
) -> Inputs {
    match (sender_k, receiver_k, receiver_cm, sender_sn, sender_root) {
        (Some(sk), Some(rk), Some(rc), Some(sn), Some(rt)) => Some(
            seq![sk.0, sk.1, rk.0, rk.1, rc.0, rc.1] + sn + seq![rt.0, rt.1],
        ),
        _ => None,
    }
}

/// The public inputs of a sender leg whose value is reclaimed in the open,
/// given what its parts decode to: the inner commitment, the amount, the
/// nullifier, the root.
pub open spec fn reclaimed_inputs_of(
    sender_k: Option<([u8; 32], [u8; 32])>,
    amount: Option<[u8; 32]>,
    sender_sn: Inputs,
    sender_root: Option<([u8; 32], [u8; 32])>,
) -> Inputs {
    match (sender_k, amount, sender_sn, sender_root) {
        (Some(sk), Some(amount), Some(sn), Some(rt)) => Some(
            seq![sk.0, sk.1, amount] + sn + seq![rt.0, rt.1],
        ),
        _ => None,
    }
}

/// The public inputs of a sender leg paired with a receiver leg.
pub open spec fn pair_inputs(sender: SenderData, receiver: ReceiverData) -> Inputs {
    pair_inputs_of(
        point_coordinates(sender.k),
        point_coordinates(receiver.k),
        point_coordinates(receiver.cm),
        packed_field_elements(sender.sn),
        point_coordinates(sender.root),
    )
}

/// The public inputs of a sender leg whose value, `amount`, is reclaimed.
pub open spec fn reclaimed_inputs(sender: SenderData, amount: u64) -> Inputs {
    reclaimed_inputs_of(
        point_coordinates(sender.k),
        scalar_field_element(amount),
        packed_field_elements(sender.sn),
        point_coordinates(sender.root),
    )
}

/// The public inputs of a private transfer: the first pair, then the second.
pub open spec fn transfer_inputs(
    sender_1: SenderData,
    sender_2: SenderData,
    receiver_1: ReceiverData,
    receiver_2: ReceiverData,
) -> Inputs {
    join(pair_inputs(sender_1, receiver_1), pair_inputs(sender_2, receiver_2))
}

/// The public inputs of a reclaim: the first sender with the receiver, then
/// the second sender with the amount.
pub open spec fn reclaim_inputs(
    amount: u64,
    sender_1: SenderData,
    sender_2: SenderData,
    receiver: ReceiverData,
) -> Inputs {
    join(pair_inputs(sender_1, receiver), reclaimed_inputs(sender_2, amount))
}

/// Whether `proof` proves the transfer statement of `vk` for these legs. A leg
/// with a part that decodes to nothing has no proof.
pub open spec fn transfer_proof_valid(
    vk: Seq<u8>,
    proof: [u8; 192],
    sender_1: SenderData,
    sender_2: SenderData,
    receiver_1: ReceiverData,
    receiver_2: ReceiverData,
) -> bool {
    match transfer_inputs(sender_1, sender_2, receiver_1, receiver_2) {
        Some(inputs) => groth16_accepts(vk, proof, inputs),
        None => false,
    }
}

/// Whether `proof` proves the reclaim statement of `vk` for these legs and
/// this amount.
pub open spec fn reclaim_proof_valid(
    vk: Seq<u8>,
    amount: u64,
    proof: [u8; 192],
    sender_1: SenderData,
    sender_2: SenderData,
    receiver: ReceiverData,
) -> bool {
    match reclaim_inputs(amount, sender_1, sender_2, receiver) {
        Some(inputs) => groth16_accepts(vk, proof, inputs),
        None => false,
    }
}

/// Appends every element of `more` to `list`.
fn extend(list: &mut Vec<[u8; 32]>, more: &Vec<[u8; 32]>)
    ensures
        final(list)@ == old(list)@ + more@,
{
    let mut i: usize = 0;
    while i < more.len()
        invariant
            i <= more@.len(),
            list@ == old(list)@ + more@.take(i as int),
        decreases more@.len() - i,
    {
        list.push(more[i]);
        assert(more@.take(i + 1) =~= more@.take(i as int).push(more@[i as int]));
        i += 1;
    }
    assert(more@.take(more@.len() as int) =~= more@);
}

/// One list after the other, if both could be had.
pub fn join_inputs(first: Option<Vec<[u8; 32]>>, second: Option<Vec<[u8; 32]>>) -> (out: Option<
    Vec<[u8; 32]>,
>)
    ensures
        inputs_of(out) == join(inputs_of(first), inputs_of(second)),
{
    match (first, second) {
        (Some(first), Some(second)) => {
            let mut list = first;
            extend(&mut list, &second);
            Some(list)
        },
        _ => None,
    }
}

/// Assembles the public inputs of a sender leg paired with a receiver leg from
/// what their parts decoded to.
pub fn assemble_pair(
    sender_k: &Option<([u8; 32], [u8; 32])>,
    receiver_k: &Option<([u8; 32], [u8; 32])>,
    receiver_cm: &Option<([u8; 32], [u8; 32])>,
    sender_sn: &Option<Vec<[u8; 32]>>,
    sender_root: &Option<([u8; 32], [u8; 32])>,
) -> (out: Option<Vec<[u8; 32]>>)
    ensures
        inputs_of(out) == pair_inputs_of(
            *sender_k,
            *receiver_k,
            *receiver_cm,
            inputs_of(*sender_sn),
            *sender_root,
        ),
{
    match (sender_k, receiver_k, receiver_cm, sender_sn, sender_root) {
        (Some(sk), Some(rk), Some(rc), Some(sn), Some(rt)) => {
            let mut list: Vec<[u8; 32]> = Vec::new();
            list.push(sk.0);
            list.push(sk.1);
            list.push(rk.0);
            list.push(rk.1);
            list.push(rc.0);
            list.push(rc.1);
            extend(&mut list, sn);
            list.push(rt.0);
            list.push(rt.1);
            assert(list@ =~= seq![sk.0, sk.1, rk.0, rk.1, rc.0, rc.1] + sn@ + seq![rt.0, rt.1]);
            Some(list)
        },
        _ => None,
    }
}

/// Assembles the public inputs of a sender leg whose value is reclaimed from
/// what its parts decoded to.
pub fn assemble_reclaimed(
    sender_k: &Option<([u8; 32], [u8; 32])>,
    amount: &Option<[u8; 32]>,
    sender_sn: &Option<Vec<[u8; 32]>>,
    sender_root: &Option<([u8; 32], [u8; 32])>,
) -> (out: Option<Vec<[u8; 32]>>)
    ensures
        inputs_of(out) == reclaimed_inputs_of(
            *sender_k,
            *amount,
            inputs_of(*sender_sn),
            *sender_root,
        ),
{
    match (sender_k, amount, sender_sn, sender_root) {
        (Some(sk), Some(amount), Some(sn), Some(rt)) => {
            let mut list: Vec<[u8; 32]> = Vec::new();
            list.push(sk.0);
            list.push(sk.1);
            list.push(*amount);
            extend(&mut list, sn);
            list.push(rt.0);
            list.push(rt.1);
            assert(list@ =~= seq![sk.0, sk.1, *amount] + sn@ + seq![rt.0, rt.1]);
            Some(list)
        },
        _ => None,
    }
}

/// The public inputs of a sender leg paired with a receiver leg.
pub fn pair_public_inputs(sender: &SenderData, receiver: &ReceiverData) -> (out: Option<
    Vec<[u8; 32]>,
>)
    ensures
        inputs_of(out) == pair_inputs(*sender, *receiver),
{
    let sender_k = decode_point(&sender.k);
    let receiver_k = decode_point(&receiver.k);
    let receiver_cm = decode_point(&receiver.cm);
    let sender_sn = pack_bytes(&sender.sn);
    let sender_root = decode_point(&sender.root);
    assemble_pair(&sender_k, &receiver_k, &receiver_cm, &sender_sn, &sender_root)
}

/// The public inputs of a sender leg whose value, `amount`, is reclaimed.
pub fn reclaimed_public_inputs(sender: &SenderData, amount: u64) -> (out: Option<Vec<[u8; 32]>>)
    ensures
        inputs_of(out) == reclaimed_inputs(*sender, amount),
{
    let sender_k = decode_point(&sender.k);
    let element = encode_scalar(amount);
    let sender_sn = pack_bytes(&sender.sn);
    let sender_root = decode_point(&sender.root);
    assemble_reclaimed(&sender_k, &element, &sender_sn, &sender_root)
}

/// Verifies the proof of a private transfer against its four legs.
pub fn manta_verify_transfer_zkp(
    transfer_key_bytes: &Vec<u8>,
    proof: &[u8; 192],
    sender_data_1: &SenderData,
    sender_data_2: &SenderData,
    receiver_data_1: &ReceiverData,
    receiver_data_2: &ReceiverData,
) -> (valid: bool)
    ensures
        valid == transfer_proof_valid(
            transfer_key_bytes@,
            *proof,
            *sender_data_1,
            *sender_data_2,
            *receiver_data_1,
            *receiver_data_2,
        ),
{
    let inputs = join_inputs(
        pair_public_inputs(sender_data_1, receiver_data_1),
        pair_public_inputs(sender_data_2, receiver_data_2),
    );
    match inputs {
        Some(inputs) => groth16_verify(transfer_key_bytes, proof, &inputs),
        None => false,
    }
}

/// Verifies the proof of a reclaim against its three legs and the amount.
pub fn manta_verify_reclaim_zkp(
    reclaim_key_bytes: &Vec<u8>,
    amount: u64,
    proof: &[u8; 192],
    sender_data_1: &SenderData,
    sender_data_2: &SenderData,
    receiver_data: &ReceiverData,
) -> (valid: bool)
    ensures
        valid == reclaim_proof_valid(
            reclaim_key_bytes@,
            amount,
            *proof,
            *sender_data_1,
            *sender_data_2,
            *receiver_data,
        ),
{
    let inputs = join_inputs(
        pair_public_inputs(sender_data_1, receiver_data),
        reclaimed_public_inputs(sender_data_2, amount),
    );
    match inputs {
        Some(inputs) => groth16_verify(reclaim_key_bytes, proof, &inputs),
        None => false,
    }
}

} // verus!
