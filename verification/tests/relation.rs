use ark_crypto_primitives::commitment::pedersen::{Commitment, Parameters, Randomness};
use ark_crypto_primitives::crh::pedersen::Window;
use ark_crypto_primitives::CommitmentScheme;
use ark_ed_on_bls12_381::{EdwardsProjective, Fr};
use ark_serialize::{CanonicalDeserialize, CanonicalSerialize};
use manta_pay::transfer::{commit_requests, merkle_membership, token_well_formed};
use manta_pay::{
    get_checksum, CoinCommitments, CommitRequest, MantaCoin, MantaCoinPrivInfo, MantaCoinPubInfo,
    TransferCircuit,
};
use rand_chacha::rand_core::SeedableRng;
use rand_chacha::ChaCha20Rng;

#[derive(Clone)]
struct Window4x256;

impl Window for Window4x256 {
    const WINDOW_SIZE: usize = 4;
    const NUM_WINDOWS: usize = 256;
}

type Scheme = Commitment<EdwardsProjective, Window4x256>;

fn scheme() -> Parameters<EdwardsProjective> {
    Scheme::setup(&mut ChaCha20Rng::from_seed([2u8; 32])).unwrap()
}

fn opening(n: u64) -> [u8; 32] {
    let mut out = [0u8; 32];
    Fr::from(n).serialize(&mut out[..]).unwrap();
    out
}

fn commit(params: &Parameters<EdwardsProjective>, request: &CommitRequest) -> Option<[u8; 32]> {
    let scalar = Fr::deserialize(&request.opening[..]).ok()?;
    let commitment = Scheme::commit(params, &request.input, &Randomness(scalar)).ok()?;
    let mut out = [0u8; 32];
    commitment.serialize(&mut out[..]).ok()?;
    Some(out)
}

fn commit_both(
    params: &Parameters<EdwardsProjective>,
    requests: &(CommitRequest, CommitRequest),
) -> CoinCommitments {
    CoinCommitments { k: commit(params, &requests.0), cm: commit(params, &requests.1) }
}

fn prf(seed: &[u8; 32], input: &[u8; 32]) -> [u8; 32] {
    let mut both = seed.to_vec();
    both.extend_from_slice(input);
    get_checksum(&both)
}

/// A coin of `value` for the spending key `sk`, honestly made.
fn coin(
    params: &Parameters<EdwardsProjective>,
    sk: [u8; 32],
    rho: [u8; 32],
    value: u64,
) -> (MantaCoin, MantaCoinPubInfo, MantaCoinPrivInfo) {
    let mut info = MantaCoinPubInfo {
        pk: prf(&sk, &[0u8; 32]),
        rho,
        s: opening(11),
        r: opening(12),
        k: [0u8; 32],
    };
    info.k = commit(params, &commit_requests(&info, value).0).unwrap();
    let cm = commit(params, &commit_requests(&info, value).1).unwrap();
    (
        MantaCoin { cm_bytes: cm, cipher: [0xcc; 16] },
        info,
        MantaCoinPrivInfo { value, sk, sn: prf(&sk, &rho) },
    )
}

/// An honest circuit: a coin of 50 is spent for a coin of 50.
fn honest(params: &Parameters<EdwardsProjective>) -> TransferCircuit {
    let (sender_coin, sender_pub_info, sender_priv_info) = coin(params, [1u8; 32], [2u8; 32], 50);
    let (receiver_coin, receiver_pub_info, _) = coin(params, [3u8; 32], [4u8; 32], 50);
    TransferCircuit {
        commit_param: Vec::new(),
        hash_param: Vec::new(),
        list: vec![[9u8; 32], sender_coin.cm_bytes, [8u8; 32]],
        sender_coin,
        sender_pub_info,
        sender_priv_info,
        receiver_coin,
        receiver_pub_info,
    }
}

fn satisfied(params: &Parameters<EdwardsProjective>, circuit: &TransferCircuit) -> bool {
    circuit.satisfied(
        &commit_both(params, &circuit.sender_requests()),
        &commit_both(params, &circuit.receiver_requests()),
    )
}

#[test]
fn requests_are_over_the_openings_of_the_coin() {
    let info = MantaCoinPubInfo {
        pk: [1u8; 32],
        rho: [2u8; 32],
        s: [3u8; 32],
        r: [4u8; 32],
        k: [5u8; 32],
    };
    let (for_k, for_cm) = commit_requests(&info, 0x0102);
    let mut pk_then_rho = vec![1u8; 32];
    pk_then_rho.extend_from_slice(&[2u8; 32]);
    assert_eq!(for_k, CommitRequest { input: pk_then_rho, opening: [4u8; 32] });
    let mut value_then_k = vec![2u8, 1, 0, 0, 0, 0, 0, 0];
    value_then_k.extend_from_slice(&[5u8; 32]);
    assert_eq!(for_cm, CommitRequest { input: value_then_k, opening: [3u8; 32] });
}

#[test]
fn receiver_requests_carry_the_sender_value() {
    let params = scheme();
    let mut circuit = honest(&params);
    circuit.sender_priv_info.value = 77;
    let (_, for_cm) = circuit.receiver_requests();
    assert_eq!(&for_cm.input[..8], &77u64.to_le_bytes()[..]);
    assert_eq!(&for_cm.input[8..], &circuit.receiver_pub_info.k[..]);
    let (_, for_cm) = circuit.sender_requests();
    assert_eq!(&for_cm.input[..8], &77u64.to_le_bytes()[..]);
    assert_eq!(&for_cm.input[8..], &circuit.sender_pub_info.k[..]);
}

#[test]
fn a_coin_is_well_formed_if_both_commitments_are_its_own() {
    let coin = MantaCoin { cm_bytes: [1u8; 32], cipher: [0u8; 16] };
    let info = MantaCoinPubInfo {
        pk: [0u8; 32],
        rho: [0u8; 32],
        s: [0u8; 32],
        r: [0u8; 32],
        k: [2u8; 32],
    };
    let both = |k, cm| CoinCommitments { k, cm };
    assert!(token_well_formed(&coin, &info, &both(Some([2u8; 32]), Some([1u8; 32]))));
    assert!(!token_well_formed(&coin, &info, &both(Some([1u8; 32]), Some([2u8; 32]))));
    assert!(!token_well_formed(&coin, &info, &both(Some([2u8; 32]), Some([2u8; 32]))));
    assert!(!token_well_formed(&coin, &info, &both(Some([1u8; 32]), Some([1u8; 32]))));
    assert!(!token_well_formed(&coin, &info, &both(None, Some([1u8; 32]))));
    assert!(!token_well_formed(&coin, &info, &both(Some([2u8; 32]), None)));
}

#[test]
fn membership_is_the_first_place_of_the_commitment() {
    let list = vec![[1u8; 32], [2u8; 32], [3u8; 32], [2u8; 32]];
    assert_eq!(merkle_membership(&[1u8; 32], &list), Some(0));
    assert_eq!(merkle_membership(&[2u8; 32], &list), Some(1));
    assert_eq!(merkle_membership(&[3u8; 32], &list), Some(2));
    assert_eq!(merkle_membership(&[4u8; 32], &list), None);
    assert_eq!(merkle_membership(&[1u8; 32], &Vec::new()), None);
}

#[test]
fn an_honest_transfer_satisfies_the_relation() {
    let params = scheme();
    assert!(satisfied(&params, &honest(&params)));
}

#[test]
fn a_receiver_coin_of_another_value_does_not_satisfy_the_relation() {
    let params = scheme();
    let mut circuit = honest(&params);
    // The receiver's coin commits to 51 where the sender's coin holds 50.
    let (forged_coin, forged_info, _) = coin(&params, [3u8; 32], [4u8; 32], 51);
    circuit.receiver_coin = forged_coin;
    circuit.receiver_pub_info = forged_info;
    assert!(!satisfied(&params, &circuit));
    // With 51 as the sender's value the receiver's coin is in order and the
    // sender's no longer is.
    circuit.sender_priv_info.value = 51;
    assert!(!satisfied(&params, &circuit));
    let receiver = commit_both(&params, &circuit.receiver_requests());
    assert!(token_well_formed(&circuit.receiver_coin, &circuit.receiver_pub_info, &receiver));
}

#[test]
fn a_wrong_key_tag_or_nullifier_does_not_satisfy_the_relation() {
    let params = scheme();
    let mut circuit = honest(&params);
    circuit.sender_priv_info.sk = [5u8; 32];
    assert!(!satisfied(&params, &circuit));
    let mut circuit = honest(&params);
    circuit.sender_priv_info.sn[3] ^= 1;
    assert!(!satisfied(&params, &circuit));
    let mut circuit = honest(&params);
    circuit.sender_pub_info.pk[3] ^= 1;
    assert!(!satisfied(&params, &circuit));
    let mut circuit = honest(&params);
    circuit.sender_pub_info.rho[3] ^= 1;
    assert!(!satisfied(&params, &circuit));
}

#[test]
fn a_sender_coin_outside_the_list_does_not_satisfy_the_relation() {
    let params = scheme();
    let mut circuit = honest(&params);
    circuit.list = vec![[9u8; 32], [8u8; 32]];
    assert!(!satisfied(&params, &circuit));
    circuit.list = Vec::new();
    assert!(!satisfied(&params, &circuit));
}

#[test]
fn an_opening_that_is_no_scalar_does_not_satisfy_the_relation() {
    let params = scheme();
    let mut circuit = honest(&params);
    circuit.receiver_pub_info.s = [0xff; 32];
    assert_eq!(commit(&params, &circuit.receiver_requests().1), None);
    assert!(!satisfied(&params, &circuit));
}

#[test]
fn satisfied_with_judges_on_what_it_is_given() {
    let params = scheme();
    let circuit = honest(&params);
    let sender = commit_both(&params, &circuit.sender_requests());
    let receiver = commit_both(&params, &circuit.receiver_requests());
    let pk = Some(circuit.sender_pub_info.pk);
    let sn = Some(circuit.sender_priv_info.sn);
    assert!(circuit.satisfied_with(&sender, &receiver, &pk, &sn));
    assert!(!circuit.satisfied_with(&receiver, &sender, &pk, &sn));
    assert!(!circuit.satisfied_with(&sender, &receiver, &sn, &pk));
    assert!(!circuit.satisfied_with(&sender, &receiver, &None, &sn));
    assert!(!circuit.satisfied_with(&sender, &receiver, &pk, &None));
}

#[test]
fn the_legs_on_the_wire_are_taken_from_the_circuit() {
    let params = scheme();
    let circuit = honest(&params);
    let sender = circuit.sender_data([7u8; 32]);
    assert_eq!(sender.k, circuit.sender_pub_info.k);
    assert_eq!(sender.sn, circuit.sender_priv_info.sn);
    assert_eq!(sender.root, [7u8; 32]);
    let receiver = circuit.receiver_data();
    assert_eq!(receiver.k, circuit.receiver_pub_info.k);
    assert_eq!(receiver.cm, circuit.receiver_coin.cm_bytes);
    assert_eq!(receiver.cipher, circuit.receiver_coin.cipher);
    let root = circuit.sender_pub_info.k;
    assert_eq!(
        circuit.public_inputs(root),
        manta_pay::zkp::pair_public_inputs(&circuit.sender_data(root), &receiver)
    );
    assert_eq!(circuit.public_inputs(root).unwrap().len(), 10);
    assert_eq!(circuit.public_inputs([0xff; 32]), None);
}
