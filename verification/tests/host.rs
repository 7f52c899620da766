use ark_bls12_381::Bls12_381;
use ark_crypto_primitives::commitment::pedersen::{Commitment, Parameters, Randomness};
use ark_crypto_primitives::crh::pedersen::{Parameters as HashParameters, Window, CRH};
use ark_crypto_primitives::merkle_tree::{Config, MerkleTree};
use ark_crypto_primitives::{CommitmentScheme, FixedLengthCRH};
use ark_ed_on_bls12_381::{EdwardsProjective, Fq, Fr};
use ark_groth16::{create_random_proof, generate_random_parameters, ProvingKey};
use ark_relations::r1cs::{
    ConstraintSynthesizer, ConstraintSystemRef, LinearCombination, SynthesisError,
};
use ark_serialize::{CanonicalDeserialize, CanonicalSerialize};
use manta_pay::zkp::{join_inputs, pair_public_inputs, reclaimed_public_inputs};
use manta_pay::{Call, Error, Event, MintData, Module, ReceiverData, SenderData};
use rand_chacha::rand_core::SeedableRng;
use rand_chacha::ChaCha20Rng;

const ALICE: u64 = 1;
const BOB: u64 = 2;

#[derive(Clone)]
struct Window4x256;

impl Window for Window4x256 {
    const WINDOW_SIZE: usize = 4;
    const NUM_WINDOWS: usize = 256;
}

type Scheme = Commitment<EdwardsProjective, Window4x256>;
type Hash = CRH<EdwardsProjective, Window4x256>;

struct Tree;

impl Config for Tree {
    const HEIGHT: usize = 20;
    type H = Hash;
}

/// A statement that makes `inputs` public and says of each that a witness is
/// its square.
struct Squares {
    inputs: Vec<Fq>,
}

impl ConstraintSynthesizer<Fq> for Squares {
    fn generate_constraints(self, cs: ConstraintSystemRef<Fq>) -> Result<(), SynthesisError> {
        for value in self.inputs {
            let input = cs.new_input_variable(|| Ok(value))?;
            let square = cs.new_witness_variable(|| Ok(value * value))?;
            cs.enforce_constraint(
                LinearCombination::from(input),
                LinearCombination::from(input),
                LinearCombination::from(square),
            )?;
        }
        Ok(())
    }
}

/// What the ledger's host has: the parameters, and the keys of both
/// statements.
struct Host {
    commit_params: Parameters<EdwardsProjective>,
    hash_params: HashParameters<EdwardsProjective>,
    commit_blob: Vec<u8>,
    hash_blob: Vec<u8>,
    transfer_pk: ProvingKey<Bls12_381>,
    reclaim_pk: ProvingKey<Bls12_381>,
    rng: ChaCha20Rng,
}

fn blob(generators: &[Vec<EdwardsProjective>]) -> Vec<u8> {
    let mut bytes = Vec::new();
    for row in generators {
        for generator in row {
            generator.serialize(&mut bytes).unwrap();
        }
    }
    bytes
}

fn key_bytes(pk: &ProvingKey<Bls12_381>) -> Vec<u8> {
    let mut bytes = Vec::new();
    pk.vk.serialize(&mut bytes).unwrap();
    bytes
}

impl Host {
    fn new() -> Host {
        let hash_params = Hash::setup(&mut ChaCha20Rng::from_seed([1u8; 32])).unwrap();
        let commit_params = Scheme::setup(&mut ChaCha20Rng::from_seed([2u8; 32])).unwrap();
        let mut rng = ChaCha20Rng::from_seed([3u8; 32]);
        let transfer_pk =
            generate_random_parameters(Squares { inputs: vec![Fq::from(0u64); 20] }, &mut rng)
                .unwrap();
        let reclaim_pk =
            generate_random_parameters(Squares { inputs: vec![Fq::from(0u64); 17] }, &mut rng)
                .unwrap();
        Host {
            commit_blob: blob(&commit_params.generators),
            hash_blob: blob(&hash_params.generators),
            commit_params,
            hash_params,
            transfer_pk,
            reclaim_pk,
            rng,
        }
    }

    fn commit(&self, input: &[u8], opening: &[u8; 32]) -> Option<[u8; 32]> {
        let scalar = Fr::deserialize(&opening[..]).ok()?;
        let commitment = Scheme::commit(&self.commit_params, input, &Randomness(scalar)).ok()?;
        let mut out = [0u8; 32];
        commitment.serialize(&mut out[..]).ok()?;
        Some(out)
    }

    fn root(&self, leaves: &[[u8; 32]]) -> [u8; 32] {
        let tree = MerkleTree::<Tree>::new(self.hash_params.clone(), leaves).unwrap();
        let mut out = [0u8; 32];
        tree.root().serialize(&mut out[..]).unwrap();
        out
    }

    fn prove(&mut self, pk_of_transfer: bool, inputs: &[[u8; 32]]) -> [u8; 192] {
        let inputs = inputs.iter().map(|bytes| Fq::deserialize(&bytes[..]).unwrap()).collect();
        let pk = if pk_of_transfer { &self.transfer_pk } else { &self.reclaim_pk };
        let proof = create_random_proof(Squares { inputs }, pk, &mut self.rng).unwrap();
        let mut out = [0u8; 192];
        proof.serialize(&mut out[..]).unwrap();
        out
    }

    fn ledger(&self) -> Module {
        let mut ledger = Module::new();
        let issued = ledger.init(
            ALICE,
            1000,
            &self.hash_blob,
            &self.commit_blob,
            key_bytes(&self.transfer_pk),
            key_bytes(&self.reclaim_pk),
        );
        assert_eq!(issued, Ok(Event::Issued(ALICE, 1000)));
        ledger
    }

    /// A minting record for a coin of `value`, honestly made.
    fn record(&self, tag: u8, value: u64) -> MintData {
        let mut opening = [0u8; 32];
        Fr::from(tag as u64).serialize(&mut opening[..]).unwrap();
        let k = self.commit(&[tag; 64], &opening).unwrap();
        let mut record = MintData { cm: [0u8; 32], k, s: opening };
        record.cm = self.commit(&record.payload(value), &opening).unwrap();
        record
    }

    fn mint(&self, ledger: &mut Module, tag: u8, value: u64) -> (MintData, Result<Event, Error>) {
        let record = self.record(tag, value);
        let recommitted = self.commit(&record.payload(value), &record.s);
        let root = self.root(&ledger.coin_shards().leaves_with(&record.cm));
        let result = ledger.mint(
            ALICE,
            value,
            &record.serialize(),
            &self.hash_blob,
            &self.commit_blob,
            recommitted,
            root,
        );
        (record, result)
    }

    fn receiver(&self, tag: u8, value: u64) -> ReceiverData {
        let record = self.record(tag, value);
        ReceiverData { k: record.k, cm: record.cm, cipher: [tag; 16] }
    }
}

fn sender_of(ledger: &Module, coin: &MintData, sn: u8) -> SenderData {
    SenderData { k: coin.k, sn: [sn; 32], root: ledger.coin_shards().root(coin.cm[0]) }
}

#[test]
fn init_registers_the_checksums_of_the_blobs() {
    let host = Host::new();
    let ledger = host.ledger();
    assert_eq!(ledger.hash_param_checksum(), manta_pay::get_checksum(&host.hash_blob));
    assert_eq!(ledger.commit_param_checksum(), manta_pay::get_checksum(&host.commit_blob));
    assert_eq!(ledger.transfer_zkp_vk(), &key_bytes(&host.transfer_pk));
    assert_eq!(ledger.reclaim_zkp_vk(), &key_bytes(&host.reclaim_pk));
    assert_eq!(ledger.balance(ALICE), 1000);
    let mut ledger = ledger;
    let before = ledger.clone();
    assert_eq!(
        ledger.init(BOB, 1, &host.hash_blob, &host.commit_blob, Vec::new(), Vec::new()),
        Err(Error::AlreadyInitialized)
    );
    assert_eq!(ledger, before);
}

#[test]
fn mint_from_the_wire_with_a_real_commitment() {
    let host = Host::new();
    let mut ledger = host.ledger();
    let (record, result) = host.mint(&mut ledger, 1, 100);
    assert_eq!(result, Ok(Event::Minted(ALICE, 100)));
    assert_eq!(ledger.pool_balance(), 100);
    assert_eq!(ledger.balance(ALICE), 900);
    assert_eq!(ledger.coin_shards().leaves(record.cm[0]), &vec![record.cm]);
    assert_eq!(ledger.coin_shards().root(record.cm[0]), host.root(&[record.cm]));
    // The same record again.
    let (_, again) = host.mint(&mut ledger, 1, 100);
    assert_eq!(again, Err(Error::MantaCoinExist));
}

#[test]
fn mint_of_another_amount_than_committed_to_is_refused() {
    let host = Host::new();
    let mut ledger = host.ledger();
    let record = host.record(1, 100);
    let before = ledger.clone();
    // The record commits to 100; 99 is claimed.
    let recommitted = host.commit(&record.payload(99), &record.s);
    let root = host.root(&ledger.coin_shards().leaves_with(&record.cm));
    let result = ledger.mint(
        ALICE,
        99,
        &record.serialize(),
        &host.hash_blob,
        &host.commit_blob,
        recommitted,
        root,
    );
    assert_eq!(result, Err(Error::MintFail));
    assert_eq!(ledger, before);
}

#[test]
fn mint_under_other_parameters_is_refused() {
    let host = Host::new();
    let mut ledger = host.ledger();
    let record = host.record(1, 100);
    let before = ledger.clone();
    let mut other = host.hash_blob.clone();
    other[0] ^= 1;
    let result = ledger.mint(
        ALICE,
        100,
        &record.serialize(),
        &other,
        &host.commit_blob,
        Some(record.cm),
        [0u8; 32],
    );
    assert_eq!(result, Err(Error::ParamFail));
    let result = ledger.mint(
        ALICE,
        100,
        &record.serialize(),
        &host.hash_blob,
        &host.hash_blob,
        Some(record.cm),
        [0u8; 32],
    );
    assert_eq!(result, Err(Error::ParamFail));
    assert_eq!(ledger, before);
}

#[test]
fn private_transfer_from_the_wire_with_a_real_proof() {
    let mut host = Host::new();
    let mut ledger = host.ledger();
    let (first, minted) = host.mint(&mut ledger, 1, 50);
    assert_eq!(minted, Ok(Event::Minted(ALICE, 50)));
    let (second, minted) = host.mint(&mut ledger, 2, 50);
    assert_eq!(minted, Ok(Event::Minted(ALICE, 50)));

    let (s1, s2) = (sender_of(&ledger, &first, 0x51), sender_of(&ledger, &second, 0x52));
    let (r1, r2) = (host.receiver(3, 50), host.receiver(4, 50));
    let inputs =
        join_inputs(pair_public_inputs(&s1, &r1), pair_public_inputs(&s2, &r2)).unwrap();
    assert_eq!(inputs.len(), 20);
    let proof = host.prove(true, &inputs);
    let root_1 = host.root(&ledger.coin_shards().leaves_with(&r1.cm));
    let root_2 = if r2.cm[0] == r1.cm[0] {
        let mut leaves = ledger.coin_shards().leaves_with(&r1.cm);
        leaves.push(r2.cm);
        host.root(&leaves)
    } else {
        host.root(&ledger.coin_shards().leaves_with(&r2.cm))
    };

    // A proof that is not one is refused, and nothing changes.
    let before = ledger.clone();
    let refused = ledger.manta_transfer(
        BOB,
        &s1.serialize(),
        &s2.serialize(),
        &r1.serialize(),
        &r2.serialize(),
        &[0x5a; 192],
        &host.hash_blob,
        root_1,
        root_2,
    );
    assert_eq!(refused, Err(Error::ZkpFail));
    // A proof of this statement for other legs is refused too.
    let refused = ledger.manta_transfer(
        BOB,
        &s2.serialize(),
        &s1.serialize(),
        &r1.serialize(),
        &r2.serialize(),
        &proof,
        &host.hash_blob,
        root_1,
        root_2,
    );
    assert_eq!(refused, Err(Error::ZkpFail));
    assert_eq!(ledger, before);

    let accepted = ledger.manta_transfer(
        BOB,
        &s1.serialize(),
        &s2.serialize(),
        &r1.serialize(),
        &r2.serialize(),
        &proof,
        &host.hash_blob,
        root_1,
        root_2,
    );
    assert_eq!(accepted, Ok(Event::PrivateTransferred(BOB)));
    assert_eq!(ledger.vn_list().to_vec(), vec![[0x51; 32], [0x52; 32]]);
    assert!(ledger.coin_shards().exist(&r1.cm));
    assert!(ledger.coin_shards().exist(&r2.cm));
    assert_eq!(ledger.enc_value_list(), &vec![[3u8; 16], [4u8; 16]]);
    assert_eq!(ledger.balance(ALICE), 900);
    assert_eq!(ledger.balance(BOB), 0);
    assert_eq!(ledger.pool_balance(), 100);

    // The same transfer again: its nullifiers are revealed.
    let before = ledger.clone();
    let again = ledger.manta_transfer(
        BOB,
        &s1.serialize(),
        &s2.serialize(),
        &r1.serialize(),
        &r2.serialize(),
        &proof,
        &host.hash_blob,
        root_1,
        root_2,
    );
    assert_eq!(again, Err(Error::MantaCoinSpent));
    assert_eq!(ledger, before);
}

#[test]
fn a_valid_proof_against_a_stale_root_is_refused() {
    let mut host = Host::new();
    let mut ledger = host.ledger();
    let (first, _) = host.mint(&mut ledger, 1, 50);
    let (second, _) = host.mint(&mut ledger, 2, 50);
    let (s1, s2) = (sender_of(&ledger, &first, 0x51), sender_of(&ledger, &second, 0x52));
    let (r1, r2) = (host.receiver(3, 50), host.receiver(4, 50));
    let inputs =
        join_inputs(pair_public_inputs(&s1, &r1), pair_public_inputs(&s2, &r2)).unwrap();
    let proof = host.prove(true, &inputs);
    assert!(manta_pay::manta_verify_transfer_zkp(ledger.transfer_zkp_vk(), &proof, &s1, &s2, &r1, &r2));

    // Another coin lands in the shard of the first sender's coin.
    let mut tag = 5u8;
    let unrelated = loop {
        let record = host.record(tag, 1);
        if record.cm[0] == first.cm[0] {
            break record;
        }
        tag += 1;
        if tag == 255 {
            // No coin at hand falls into that shard: write to it directly.
            let mut cm = record.cm;
            cm[0] = first.cm[0];
            break MintData { cm, ..record };
        }
    };
    let root = host.root(&ledger.coin_shards().leaves_with(&unrelated.cm));
    let minted = ledger.mint_checked(
        ALICE,
        1,
        &unrelated,
        &ledger.hash_param_checksum(),
        &ledger.commit_param_checksum(),
        Some(unrelated.cm),
        root,
    );
    assert_eq!(minted, Ok(Event::Minted(ALICE, 1)));
    assert_ne!(root, s1.root);

    let before = ledger.clone();
    let refused = ledger.manta_transfer(
        BOB,
        &s1.serialize(),
        &s2.serialize(),
        &r1.serialize(),
        &r2.serialize(),
        &proof,
        &host.hash_blob,
        [1u8; 32],
        [2u8; 32],
    );
    assert_eq!(refused, Err(Error::InvalidLedgerState));
    assert_eq!(ledger, before);
}

#[test]
fn reclaim_from_the_wire_with_a_real_proof() {
    let mut host = Host::new();
    let mut ledger = host.ledger();
    let (first, _) = host.mint(&mut ledger, 1, 40);
    let (second, _) = host.mint(&mut ledger, 2, 60);
    assert_eq!(ledger.pool_balance(), 100);
    assert_eq!(ledger.balance(ALICE), 900);

    let (s1, s2) = (sender_of(&ledger, &first, 0x51), sender_of(&ledger, &second, 0x52));
    let r = host.receiver(3, 40);
    let inputs =
        join_inputs(pair_public_inputs(&s1, &r), reclaimed_public_inputs(&s2, 60)).unwrap();
    assert_eq!(inputs.len(), 17);
    let proof = host.prove(false, &inputs);
    let root = host.root(&ledger.coin_shards().leaves_with(&r.cm));

    // The proof is for 60: for 61 it is none.
    let before = ledger.clone();
    let refused = ledger.reclaim(
        BOB,
        61,
        &s1.serialize(),
        &s2.serialize(),
        &r.serialize(),
        &proof,
        &host.hash_blob,
        root,
    );
    assert_eq!(refused, Err(Error::ZkpFail));
    // More than the pool holds is refused before the proof is looked at.
    let refused = ledger.reclaim(
        BOB,
        101,
        &s1.serialize(),
        &s2.serialize(),
        &r.serialize(),
        &proof,
        &host.hash_blob,
        root,
    );
    assert_eq!(refused, Err(Error::PoolOverdrawn));
    assert_eq!(ledger, before);

    let accepted = ledger.reclaim(
        BOB,
        60,
        &s1.serialize(),
        &s2.serialize(),
        &r.serialize(),
        &proof,
        &host.hash_blob,
        root,
    );
    assert_eq!(accepted, Ok(Event::PrivateReclaimed(BOB)));
    assert_eq!(ledger.pool_balance(), 40);
    assert_eq!(ledger.balance(BOB), 60);
    assert_eq!(ledger.balance(ALICE), 900);
    assert_eq!(ledger.vn_list().to_vec(), vec![[0x51; 32], [0x52; 32]]);
    assert_eq!(ledger.enc_value_list(), &vec![[3u8; 16]]);
    assert_eq!(ledger.coin_shards().root(r.cm[0]), root);

    let again = ledger.reclaim(
        BOB,
        10,
        &s1.serialize(),
        &s2.serialize(),
        &r.serialize(),
        &proof,
        &host.hash_blob,
        root,
    );
    assert_eq!(again, Err(Error::MantaCoinSpent));
}

#[test]
fn apply_carries_out_each_call() {
    let mut host = Host::new();
    let mut ledger = Module::new();
    let init = Call::Init {
        total: 1000,
        hash_param: host.hash_blob.clone(),
        commit_param: host.commit_blob.clone(),
        transfer_vk: key_bytes(&host.transfer_pk),
        reclaim_vk: key_bytes(&host.reclaim_pk),
    };
    assert_eq!(
        ledger.apply(ALICE, Call::Transfer { target: BOB, amount: 1 }),
        Err(Error::NotInitialized)
    );
    assert_eq!(ledger.apply(ALICE, init), Ok(Event::Issued(ALICE, 1000)));
    assert_eq!(ledger, host.ledger());
    assert_eq!(
        ledger.apply(ALICE, Call::Transfer { target: BOB, amount: 100 }),
        Ok(Event::Transferred(ALICE, BOB, 100))
    );
    assert_eq!(ledger.balance(BOB), 100);

    let mut coins = Vec::new();
    for (tag, value) in [(1u8, 40u64), (2, 60), (3, 50), (4, 50)] {
        let record = host.record(tag, value);
        let call = Call::Mint {
            amount: value,
            input_data: record.serialize(),
            hash_param: host.hash_blob.clone(),
            commit_param: host.commit_blob.clone(),
            recommitted: host.commit(&record.payload(value), &record.s),
            root: host.root(&ledger.coin_shards().leaves_with(&record.cm)),
        };
        assert_eq!(ledger.apply(ALICE, call), Ok(Event::Minted(ALICE, value)));
        coins.push(record);
    }
    assert_eq!(ledger.pool_balance(), 200);
    assert_eq!(ledger.balance(ALICE), 700);

    let (s1, s2) = (sender_of(&ledger, &coins[0], 0x51), sender_of(&ledger, &coins[1], 0x52));
    let r = host.receiver(5, 40);
    let inputs =
        join_inputs(pair_public_inputs(&s1, &r), reclaimed_public_inputs(&s2, 60)).unwrap();
    let call = Call::Reclaim {
        amount: 60,
        sender_data_1: s1.serialize(),
        sender_data_2: s2.serialize(),
        receiver_data: r.serialize(),
        proof: host.prove(false, &inputs),
        hash_param: host.hash_blob.clone(),
        root: host.root(&ledger.coin_shards().leaves_with(&r.cm)),
    };
    assert_eq!(ledger.apply(BOB, call), Ok(Event::PrivateReclaimed(BOB)));
    assert_eq!(ledger.pool_balance(), 140);
    assert_eq!(ledger.balance(BOB), 160);

    let (s1, s2) = (sender_of(&ledger, &coins[2], 0x53), sender_of(&ledger, &coins[3], 0x54));
    let (r1, r2) = (host.receiver(6, 50), host.receiver(7, 50));
    let inputs =
        join_inputs(pair_public_inputs(&s1, &r1), pair_public_inputs(&s2, &r2)).unwrap();
    let root_1 = host.root(&ledger.coin_shards().leaves_with(&r1.cm));
    let root_2 = if r2.cm[0] == r1.cm[0] {
        let mut leaves = ledger.coin_shards().leaves_with(&r1.cm);
        leaves.push(r2.cm);
        host.root(&leaves)
    } else {
        host.root(&ledger.coin_shards().leaves_with(&r2.cm))
    };
    let call = Call::MantaTransfer {
        sender_data_1: s1.serialize(),
        sender_data_2: s2.serialize(),
        receiver_data_1: r1.serialize(),
        receiver_data_2: r2.serialize(),
        proof: host.prove(true, &inputs),
        hash_param: host.hash_blob.clone(),
        root_1,
        root_2,
    };
    assert_eq!(ledger.apply(ALICE, call), Ok(Event::PrivateTransferred(ALICE)));
    assert_eq!(ledger.vn_list().len(), 4);
    assert_eq!(ledger.enc_value_list().len(), 3);
    assert_eq!(ledger.pool_balance(), 140);
    assert_eq!(ledger.balance(ALICE) + ledger.balance(BOB) + ledger.pool_balance(), 1000);
}
