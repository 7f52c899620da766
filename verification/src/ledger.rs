//! The ledger: its state and the five operations on it.
//!
//! Each operation exists twice. The one named after the operation takes what
//! arrives on the wire, has the parameters checksummed and the proof verified,
//! and hands over to the other, whose name ends in `_checked`: that one takes
//! the checksums and the verdict as plain values and is the state machine
//! proper. Neither changes anything unless every check has passed.
//!
//! Committing and hashing are the host's work. Where an operation depends on
//! them it takes the host's results: the commitment recomputed from a minting
//! record, and the root of each shard that takes a new leaf.

use vstd::prelude::*;
use std::collections::HashMap;
use crate::bytes::{bytes_eq, zeros32};
use crate::coin::{MintData, ReceiverData, SenderData};
use crate::crypto::blake2s_digest;
use crate::error::{AccountId, Error, Event};
use crate::model::{
    lemma_init_inv, lemma_manta_transfer_inv, lemma_mint_inv, lemma_reclaim_inv,
    lemma_transfer_inv, LedgerView, Operation, Outcome,
};
use crate::nullifier::NullifierSet;
use crate::param::{get_checksum, ParamRegistry};
use crate::shard::Shards;
use crate::zkp::{
    manta_verify_reclaim_zkp, manta_verify_transfer_zkp, reclaim_proof_valid, transfer_proof_valid,
};

verus! {

/// The ledger.
#[derive(Clone, Debug, PartialEq, Eq)]
pub struct Module {
    init: bool,
    balances: HashMap<AccountId, u64>,
    total_supply: u64,
    pool_balance: u64,
    vn_list: NullifierSet,
    coin_shards: Shards,
    enc_value_list: Vec<[u8; 16]>,
    params: ParamRegistry,
    transfer_zkp_vk: Vec<u8>,
    reclaim_zkp_vk: Vec<u8>,
}

impl View for Module {
    type V = LedgerView;

    closed spec fn view(&self) -> LedgerView {
        LedgerView {
            init: self.init,
            balances: self.balances@,
            total_supply: self.total_supply,
            pool_balance: self.pool_balance,
            vn_list: self.vn_list@,
            coin_shards: self.coin_shards@,
            enc_value_list: self.enc_value_list@,
            hash_param_checksum: self.params.hash_param_checksum,
            commit_param_checksum: self.params.commit_param_checksum,
            transfer_zkp_vk: self.transfer_zkp_vk@,
            reclaim_zkp_vk: self.reclaim_zkp_vk@,
        }
    }
}

/// Whether a ledger that was `before` and is `after`, with `result` returned,
/// went through an operation with this outcome: on success the ledger is the
/// next one and the event is reported, on refusal the ledger is unchanged and
/// the refusal is reported.
pub open spec fn applied(
    before: LedgerView,
    after: LedgerView,
    result: Result<Event, Error>,
    outcome: Outcome,
) -> bool {
    match outcome {
        Ok((next, event)) => after == next && result == Ok::<Event, Error>(event),
        Err(refusal) => after == before && result == Err::<Event, Error>(refusal),
    }
}

impl Module {
    /// A ledger that has not been initialized.
    pub fn new() -> (ledger: Module)
        ensures
            ledger@.uninitialized(),
            ledger@.inv(),
    {
        let ledger = Module {
            init: false,
            balances: HashMap::new(),
            total_supply: 0,
            pool_balance: 0,
            vn_list: NullifierSet::new(),
            coin_shards: Shards::new(),
            enc_value_list: Vec::new(),
            params: ParamRegistry { hash_param_checksum: [0u8; 32], commit_param_checksum: [0u8; 32] },
            transfer_zkp_vk: Vec::new(),
            reclaim_zkp_vk: Vec::new(),
        };
        assert(ledger@.balances =~= Map::<AccountId, u64>::empty());
        assert(ledger@.hash_param_checksum =~= zeros32());
        assert(ledger@.commit_param_checksum =~= zeros32());
        ledger
    }

    /// The public balance of `who`.
    pub fn balance(&self, who: AccountId) -> (amount: u64)
        ensures
            amount == self@.balance(who),
    {
        match self.balances.get(&who) {
            Some(amount) => *amount,
            None => 0,
        }
    }

    /// The supply issued at initialization.
    pub fn total_supply(&self) -> (total: u64)
        ensures
            total == self@.total_supply,
    {
        self.total_supply
    }

    /// Whether the ledger has been initialized.
    pub fn is_init(&self) -> (init: bool)
        ensures
            init == self@.init,
    {
        self.init
    }

    /// The value locked in private coins.
    pub fn pool_balance(&self) -> (pool: u64)
        ensures
            pool == self@.pool_balance,
    {
        self.pool_balance
    }

    /// The revealed nullifiers.
    pub fn vn_list(&self) -> (set: &NullifierSet)
        ensures
            set@ == self@.vn_list,
    {
        &self.vn_list
    }

    /// The accumulator of commitments.
    pub fn coin_shards(&self) -> (shards: &Shards)
        ensures
            shards@ == self@.coin_shards,
    {
        &self.coin_shards
    }

    /// The encrypted values of the coins that transfers created.
    pub fn enc_value_list(&self) -> (list: &Vec<[u8; 16]>)
        ensures
            list@ == self@.enc_value_list,
    {
        &self.enc_value_list
    }

    /// The registered checksum of the hash parameters.
    pub fn hash_param_checksum(&self) -> (checksum: [u8; 32])
        ensures
            checksum == self@.hash_param_checksum,
    {
        self.params.hash_param_checksum
    }

    /// The registered checksum of the commitment parameters.
    pub fn commit_param_checksum(&self) -> (checksum: [u8; 32])
        ensures
            checksum == self@.commit_param_checksum,
    {
        self.params.commit_param_checksum
    }

    /// The verification key of the transfer statement.
    pub fn transfer_zkp_vk(&self) -> (vk: &Vec<u8>)
        ensures
            vk@ == self@.transfer_zkp_vk,
    {
        &self.transfer_zkp_vk
    }

    /// The verification key of the reclaim statement.
    pub fn reclaim_zkp_vk(&self) -> (vk: &Vec<u8>)
        ensures
            vk@ == self@.reclaim_zkp_vk,
    {
        &self.reclaim_zkp_vk
    }

    /// Initializes the ledger with parameters of the given checksums.
    pub fn init_checked(
        &mut self,
        origin: AccountId,
        total: u64,
        hash_checksum: [u8; 32],
        commit_checksum: [u8; 32],
        transfer_vk: Vec<u8>,
        reclaim_vk: Vec<u8>,
    ) -> (result: Result<Event, Error>)
        requires
            old(self)@.inv(),
        ensures
            final(self)@.inv(),
            applied(
                old(self)@,
                final(self)@,
                result,
                old(self)@.init(
                    origin,
                    total,
                    hash_checksum,
                    commit_checksum,
                    transfer_vk@,
                    reclaim_vk@,
                ),
            ),
    {
        proof {
            lemma_init_inv(self@, origin, total, hash_checksum, commit_checksum, transfer_vk@, reclaim_vk@);
        }
        if self.init {
            return Err(Error::AlreadyInitialized);
        }
        self.transfer_zkp_vk = transfer_vk;
        self.reclaim_zkp_vk = reclaim_vk;
        self.coin_shards = Shards::new();
        self.pool_balance = 0;
        self.vn_list = NullifierSet::new();
        self.enc_value_list = Vec::new();
        self.balances.insert(origin, total);
        self.total_supply = total;
        self.init = true;
        self.params = ParamRegistry {
            hash_param_checksum: hash_checksum,
            commit_param_checksum: commit_checksum,
        };
        assert(self@ =~= old(self)@.init(
            origin,
            total,
            hash_checksum,
            commit_checksum,
            transfer_vk@,
            reclaim_vk@,
        )->Ok_0.0);
        Ok(Event::Issued(origin, total))
    }

    /// Moves `amount` of public tokens from `origin` to `target`.
    pub fn transfer(&mut self, origin: AccountId, target: AccountId, amount: u64) -> (result:
        Result<Event, Error>)
        requires
            old(self)@.inv(),
        ensures
            final(self)@.inv(),
            applied(old(self)@, final(self)@, result, old(self)@.transfer(origin, target, amount)),
    {
        proof {
            lemma_transfer_inv(self@, origin, target, amount);
        }
        if !self.init {
            return Err(Error::NotInitialized);
        }
        let origin_balance: u64 = self.balance(origin);
        if amount == 0 {
            return Err(Error::AmountZero);
        }
        if origin_balance < amount {
            return Err(Error::BalanceLow);
        }
        self.balances.insert(origin, origin_balance - amount);
        let target_balance: u64 = self.balance(target);
        self.balances.insert(target, target_balance + amount);
        assert(self@ =~= old(self)@.transfer(origin, target, amount)->Ok_0.0);
        Ok(Event::Transferred(origin, target, amount))
    }

    /// The first check that two sender legs fail, if any.
    fn check_senders(&self, sender_1: &SenderData, sender_2: &SenderData) -> (refusal: Option<
        Error,
    >)
        requires
            self@.inv(),
        ensures
            refusal == self@.senders_refused(*sender_1, *sender_2),
    {
        if self.vn_list.contains(&sender_1.sn) {
            return Some(Error::MantaCoinSpent);
        }
        if self.vn_list.contains(&sender_2.sn) || bytes_eq(&sender_2.sn, &sender_1.sn) {
            return Some(Error::MantaCoinSpent);
        }
        if !self.coin_shards.root_exist(&sender_1.root) {
            return Some(Error::InvalidLedgerState);
        }
        if !self.coin_shards.root_exist(&sender_2.root) {
            return Some(Error::InvalidLedgerState);
        }
        None
    }

    /// The first check that a private transfer fails before its proof is
    /// looked at, if any.
    fn transfer_refused(
        &self,
        sender_1: &SenderData,
        sender_2: &SenderData,
        receiver_1: &ReceiverData,
        receiver_2: &ReceiverData,
        hash_checksum: &[u8; 32],
    ) -> (refusal: Option<Error>)
        requires
            self@.inv(),
        ensures
            refusal == self@.transfer_refused(
                *sender_1,
                *sender_2,
                *receiver_1,
                *receiver_2,
                *hash_checksum,
            ),
    {
        if !self.init {
            return Some(Error::NotInitialized);
        }
        if !bytes_eq(hash_checksum, &self.params.hash_param_checksum) {
            return Some(Error::ParamFail);
        }
        if let Some(refusal) = self.check_senders(sender_1, sender_2) {
            return Some(refusal);
        }
        if self.coin_shards.exist(&receiver_1.cm) {
            return Some(Error::MantaCoinExist);
        }
        if self.coin_shards.exist(&receiver_2.cm) || bytes_eq(&receiver_2.cm, &receiver_1.cm) {
            return Some(Error::MantaCoinExist);
        }
        None
    }

    /// The first check that a reclaim fails before its proof is looked at, if
    /// any.
    fn reclaim_refused(
        &self,
        amount: u64,
        sender_1: &SenderData,
        sender_2: &SenderData,
        receiver: &ReceiverData,
        hash_checksum: &[u8; 32],
    ) -> (refusal: Option<Error>)
        requires
            self@.inv(),
        ensures
            refusal == self@.reclaim_refused(
                amount,
                *sender_1,
                *sender_2,
                *receiver,
                *hash_checksum,
            ),
    {
        if !self.init {
            return Some(Error::NotInitialized);
        }
        if !bytes_eq(hash_checksum, &self.params.hash_param_checksum) {
            return Some(Error::ParamFail);
        }
        if self.pool_balance < amount {
            return Some(Error::PoolOverdrawn);
        }
        if let Some(refusal) = self.check_senders(sender_1, sender_2) {
            return Some(refusal);
        }
        if self.coin_shards.exist(&receiver.cm) {
            return Some(Error::MantaCoinExist);
        }
        None
    }

    /// Mints a coin, given the checksums of the parameters in use, the
    /// commitment recomputed from the record and the root of the coin's shard
    /// with the coin in it.
    pub fn mint_checked(
        &mut self,
        origin: AccountId,
        amount: u64,
        data: &MintData,
        hash_checksum: &[u8; 32],
        commit_checksum: &[u8; 32],
        recommitted: Option<[u8; 32]>,
        root: [u8; 32],
    ) -> (result: Result<Event, Error>)
        requires
            old(self)@.inv(),
        ensures
            final(self)@.inv(),
            applied(
                old(self)@,
                final(self)@,
                result,
                old(self)@.mint(
                    origin,
                    amount,
                    *data,
                    *hash_checksum,
                    *commit_checksum,
                    recommitted,
                    root,
                ),
            ),
    {
        proof {
            lemma_mint_inv(
                self@,
                origin,
                amount,
                *data,
                *hash_checksum,
                *commit_checksum,
                recommitted,
                root,
            );
        }
        if !self.init {
            return Err(Error::NotInitialized);
        }
        if amount == 0 {
            return Err(Error::AmountZero);
        }
        let origin_balance: u64 = self.balance(origin);
        if origin_balance < amount {
            return Err(Error::BalanceLow);
        }
        if !self.params.verify_checksums(hash_checksum, commit_checksum) {
            return Err(Error::ParamFail);
        }
        if !data.sanity_check(&recommitted) {
            return Err(Error::MintFail);
        }
        if self.coin_shards.exist(&data.cm) {
            return Err(Error::MantaCoinExist);
        }
        self.coin_shards.update(&data.cm, root);
        self.pool_balance = self.pool_balance + amount;
        self.balances.insert(origin, origin_balance - amount);
        assert(self@ =~= old(self)@.mint(
            origin,
            amount,
            *data,
            *hash_checksum,
            *commit_checksum,
            recommitted,
            root,
        )->Ok_0.0);
        Ok(Event::Minted(origin, amount))
    }

    /// Transfers private value, given the checksum of the hash parameters in
    /// use, the roots of the shards that take the new coins, and the verdict on
    /// the proof.
    pub fn manta_transfer_checked(
        &mut self,
        origin: AccountId,
        sender_1: &SenderData,
        sender_2: &SenderData,
        receiver_1: &ReceiverData,
        receiver_2: &ReceiverData,
        hash_checksum: &[u8; 32],
        root_1: [u8; 32],
        root_2: [u8; 32],
        proof_accepted: bool,
    ) -> (result: Result<Event, Error>)
        requires
            old(self)@.inv(),
        ensures
            final(self)@.inv(),
            applied(
                old(self)@,
                final(self)@,
                result,
                old(self)@.manta_transfer(
                    origin,
                    *sender_1,
                    *sender_2,
                    *receiver_1,
                    *receiver_2,
                    *hash_checksum,
                    root_1,
                    root_2,
                    proof_accepted,
                ),
            ),
    {
        proof {
            lemma_manta_transfer_inv(
                self@,
                origin,
                *sender_1,
                *sender_2,
                *receiver_1,
                *receiver_2,
                *hash_checksum,
                root_1,
                root_2,
                proof_accepted,
            );
        }
        if let Some(refusal) = self.transfer_refused(
            sender_1,
            sender_2,
            receiver_1,
            receiver_2,
            hash_checksum,
        ) {
            return Err(refusal);
        }
        if !proof_accepted {
            return Err(Error::ZkpFail);
        }
        self.vn_list.record(sender_1.sn);
        self.vn_list.record(sender_2.sn);
        self.coin_shards.update(&receiver_1.cm, root_1);
        self.coin_shards.update(&receiver_2.cm, root_2);
        self.enc_value_list.push(receiver_1.cipher);
        self.enc_value_list.push(receiver_2.cipher);
        assert(self@ =~= old(self)@.manta_transfer(
            origin,
            *sender_1,
            *sender_2,
            *receiver_1,
            *receiver_2,
            *hash_checksum,
            root_1,
            root_2,
            proof_accepted,
        )->Ok_0.0);
        Ok(Event::PrivateTransferred(origin))
    }

    /// Reclaims private value, given the checksum of the hash parameters in
    /// use, the root of the shard that takes the new coin, and the verdict on
    /// the proof.
    pub fn reclaim_checked(
        &mut self,
        origin: AccountId,
        amount: u64,
        sender_1: &SenderData,
        sender_2: &SenderData,
        receiver: &ReceiverData,
        hash_checksum: &[u8; 32],
        root: [u8; 32],
        proof_accepted: bool,
    ) -> (result: Result<Event, Error>)
        requires
            old(self)@.inv(),
        ensures
            final(self)@.inv(),
            applied(
                old(self)@,
                final(self)@,
                result,
                old(self)@.reclaim(
                    origin,
                    amount,
                    *sender_1,
                    *sender_2,
                    *receiver,
                    *hash_checksum,
                    root,
                    proof_accepted,
                ),
            ),
    {
        proof {
            lemma_reclaim_inv(
                self@,
                origin,
                amount,
                *sender_1,
                *sender_2,
                *receiver,
                *hash_checksum,
                root,
                proof_accepted,
            );
        }
        let origin_balance: u64 = self.balance(origin);
        if let Some(refusal) = self.reclaim_refused(
            amount,
            sender_1,
            sender_2,
            receiver,
            hash_checksum,
        ) {
            return Err(refusal);
        }
        if !proof_accepted {
            return Err(Error::ZkpFail);
        }
        self.enc_value_list.push(receiver.cipher);
        self.coin_shards.update(&receiver.cm, root);
        self.vn_list.record(sender_1.sn);
        self.vn_list.record(sender_2.sn);
        self.pool_balance = self.pool_balance - amount;
        self.balances.insert(origin, origin_balance + amount);
        assert(self@ =~= old(self)@.reclaim(
            origin,
            amount,
            *sender_1,
            *sender_2,
            *receiver,
            *hash_checksum,
            root,
            proof_accepted,
        )->Ok_0.0);
        Ok(Event::PrivateReclaimed(origin))
    }

    /// Initializes the ledger: registers the checksums of both parameter
    /// blobs and both verification keys, and issues `total` to `origin`.
    pub fn init(
        &mut self,
        origin: AccountId,
        total: u64,
        hash_param: &Vec<u8>,
        commit_param: &Vec<u8>,
        transfer_vk: Vec<u8>,
        reclaim_vk: Vec<u8>,
    ) -> (result: Result<Event, Error>)
        requires
            old(self)@.inv(),
        ensures
            final(self)@.inv(),
            applied(
                old(self)@,
                final(self)@,
                result,
                old(self)@.init(
                    origin,
                    total,
                    blake2s_digest(hash_param@),
                    blake2s_digest(commit_param@),
                    transfer_vk@,
                    reclaim_vk@,
                ),
            ),
    {
        if self.init {
            return Err(Error::AlreadyInitialized);
        }
        let registry = ParamRegistry::register(hash_param, commit_param);
        self.init_checked(
            origin,
            total,
            registry.hash_param_checksum,
            registry.commit_param_checksum,
            transfer_vk,
            reclaim_vk,
        )
    }

    /// Mints the coin of a minting record as it arrives on the wire.
    ///
    /// `recommitted` is what the commitment scheme gave for the record's
    /// payload for `amount` under the record's opening; `root` is the root of
    /// the leaves that `coin_shards().leaves_with` gives for the record's
    /// commitment.
    pub fn mint(
        &mut self,
        origin: AccountId,
        amount: u64,
        input_data: &[u8; 96],
        hash_param: &Vec<u8>,
        commit_param: &Vec<u8>,
        recommitted: Option<[u8; 32]>,
        root: [u8; 32],
    ) -> (result: Result<Event, Error>)
        requires
            old(self)@.inv(),
        ensures
            final(self)@.inv(),
            applied(
                old(self)@,
                final(self)@,
                result,
                old(self)@.mint(
                    origin,
                    amount,
                    MintData::from_wire(input_data@),
                    blake2s_digest(hash_param@),
                    blake2s_digest(commit_param@),
                    recommitted,
                    root,
                ),
            ),
    {
        let data = MintData::deserialize(input_data);
        if !self.init {
            return Err(Error::NotInitialized);
        }
        if amount == 0 {
            return Err(Error::AmountZero);
        }
        if self.balance(origin) < amount {
            return Err(Error::BalanceLow);
        }
        let hash_checksum = get_checksum(hash_param);
        let commit_checksum = get_checksum(commit_param);
        self.mint_checked(
            origin,
            amount,
            &data,
            &hash_checksum,
            &commit_checksum,
            recommitted,
            root,
        )
    }

    /// Transfers private value between the legs as they arrive on the wire.
    /// The proof is verified only if every other check has passed.
    ///
    /// `root_1` is the root of the first new commitment's shard with that
    /// commitment in it, `root_2` the root of the second's shard with both in
    /// the accumulator.
    pub fn manta_transfer(
        &mut self,
        origin: AccountId,
        sender_data_1: &[u8; 96],
        sender_data_2: &[u8; 96],
        receiver_data_1: &[u8; 80],
        receiver_data_2: &[u8; 80],
        proof: &[u8; 192],
        hash_param: &Vec<u8>,
        root_1: [u8; 32],
        root_2: [u8; 32],
    ) -> (result: Result<Event, Error>)
        requires
            old(self)@.inv(),
        ensures
            final(self)@.inv(),
            applied(
                old(self)@,
                final(self)@,
                result,
                old(self)@.manta_transfer(
                    origin,
                    SenderData::from_wire(sender_data_1@),
                    SenderData::from_wire(sender_data_2@),
                    ReceiverData::from_wire(receiver_data_1@),
                    ReceiverData::from_wire(receiver_data_2@),
                    blake2s_digest(hash_param@),
                    root_1,
                    root_2,
                    transfer_proof_valid(
                        old(self)@.transfer_zkp_vk,
                        *proof,
                        SenderData::from_wire(sender_data_1@),
                        SenderData::from_wire(sender_data_2@),
                        ReceiverData::from_wire(receiver_data_1@),
                        ReceiverData::from_wire(receiver_data_2@),
                    ),
                ),
            ),
    {
        let sender_1 = SenderData::deserialize(sender_data_1);
        let sender_2 = SenderData::deserialize(sender_data_2);
        let receiver_1 = ReceiverData::deserialize(receiver_data_1);
        let receiver_2 = ReceiverData::deserialize(receiver_data_2);
        if !self.init {
            return Err(Error::NotInitialized);
        }
        let hash_checksum = get_checksum(hash_param);
        if let Some(refusal) = self.transfer_refused(
            &sender_1,
            &sender_2,
            &receiver_1,
            &receiver_2,
            &hash_checksum,
        ) {
            return Err(refusal);
        }
        let valid = manta_verify_transfer_zkp(
            &self.transfer_zkp_vk,
            proof,
            &sender_1,
            &sender_2,
            &receiver_1,
            &receiver_2,
        );
        self.manta_transfer_checked(
            origin,
            &sender_1,
            &sender_2,
            &receiver_1,
            &receiver_2,
            &hash_checksum,
            root_1,
            root_2,
            valid,
        )
    }

    /// Reclaims `amount` of private value for `origin`, with the legs as they
    /// arrive on the wire. The proof is verified only if every other check has
    /// passed.
    ///
    /// `root` is the root of the new commitment's shard with that commitment
    /// in it.
    pub fn reclaim(
        &mut self,
        origin: AccountId,
        amount: u64,
        sender_data_1: &[u8; 96],
        sender_data_2: &[u8; 96],
        receiver_data: &[u8; 80],
        proof: &[u8; 192],
        hash_param: &Vec<u8>,
        root: [u8; 32],
    ) -> (result: Result<Event, Error>)
        requires
            old(self)@.inv(),
        ensures
            final(self)@.inv(),
            applied(
                old(self)@,
                final(self)@,
                result,
                old(self)@.reclaim(
                    origin,
                    amount,
                    SenderData::from_wire(sender_data_1@),
                    SenderData::from_wire(sender_data_2@),
                    ReceiverData::from_wire(receiver_data@),
                    blake2s_digest(hash_param@),
                    root,
                    reclaim_proof_valid(
                        old(self)@.reclaim_zkp_vk,
                        amount,
                        *proof,
                        SenderData::from_wire(sender_data_1@),
                        SenderData::from_wire(sender_data_2@),
                        ReceiverData::from_wire(receiver_data@),
                    ),
                ),
            ),
    {
        let sender_1 = SenderData::deserialize(sender_data_1);
        let sender_2 = SenderData::deserialize(sender_data_2);
        let receiver = ReceiverData::deserialize(receiver_data);
        if !self.init {
            return Err(Error::NotInitialized);
        }
        let hash_checksum = get_checksum(hash_param);
        if let Some(refusal) = self.reclaim_refused(
            amount,
            &sender_1,
            &sender_2,
            &receiver,
            &hash_checksum,
        ) {
            return Err(refusal);
        }
        let valid = manta_verify_reclaim_zkp(
            &self.reclaim_zkp_vk,
            amount,
            proof,
            &sender_1,
            &sender_2,
            &receiver,
        );
        self.reclaim_checked(
            origin,
            amount,
            &sender_1,
            &sender_2,
            &receiver,
            &hash_checksum,
            root,
            valid,
        )
    }

    /// Carries out `call` for `origin`.
    pub fn apply(&mut self, origin: AccountId, call: Call) -> (result: Result<Event, Error>)
        requires
            old(self)@.inv(),
        ensures
            final(self)@.inv(),
            applied(
                old(self)@,
                final(self)@,
                result,
                old(self)@.step(origin, call.operation(old(self)@)),
            ),
    {
        match call {
            Call::Init { total, hash_param, commit_param, transfer_vk, reclaim_vk } => self.init(
                origin,
                total,
                &hash_param,
                &commit_param,
                transfer_vk,
                reclaim_vk,
            ),
            Call::Transfer { target, amount } => self.transfer(origin, target, amount),
            Call::Mint { amount, input_data, hash_param, commit_param, recommitted, root } => self.mint(
                origin,
                amount,
                &input_data,
                &hash_param,
                &commit_param,
                recommitted,
                root,
            ),
            Call::MantaTransfer {
                sender_data_1,
                sender_data_2,
                receiver_data_1,
                receiver_data_2,
                proof,
                hash_param,
                root_1,
                root_2,
            } => self.manta_transfer(
                origin,
                &sender_data_1,
                &sender_data_2,
                &receiver_data_1,
                &receiver_data_2,
                &proof,
                &hash_param,
                root_1,
                root_2,
            ),
            Call::Reclaim {
                amount,
                sender_data_1,
                sender_data_2,
                receiver_data,
                proof,
                hash_param,
                root,
            } => self.reclaim(
                origin,
                amount,
                &sender_data_1,
                &sender_data_2,
                &receiver_data,
                &proof,
                &hash_param,
                root,
            ),
        }
    }
}

/// An operation as it is submitted: records and proof as they arrive on the
/// wire, the parameter blobs in use, and what the host computed for it.
pub enum Call {
    Init {
        total: u64,
        hash_param: Vec<u8>,
        commit_param: Vec<u8>,
        transfer_vk: Vec<u8>,
        reclaim_vk: Vec<u8>,
    },
    Transfer { target: AccountId, amount: u64 },
    Mint {
        amount: u64,
        input_data: [u8; 96],
        hash_param: Vec<u8>,
        commit_param: Vec<u8>,
        recommitted: Option<[u8; 32]>,
        root: [u8; 32],
    },
    MantaTransfer {
        sender_data_1: [u8; 96],
        sender_data_2: [u8; 96],
        receiver_data_1: [u8; 80],
        receiver_data_2: [u8; 80],
        proof: [u8; 192],
        hash_param: Vec<u8>,
        root_1: [u8; 32],
        root_2: [u8; 32],
    },
    Reclaim {
        amount: u64,
        sender_data_1: [u8; 96],
        sender_data_2: [u8; 96],
        receiver_data: [u8; 80],
        proof: [u8; 192],
        hash_param: Vec<u8>,
        root: [u8; 32],
    },
}

impl Call {
    /// The operation that this call is on `ledger`: the records decoded, the
    /// parameter blobs checksummed, and the proof judged against the
    /// verification key that the ledger holds.
    pub open spec fn operation(self, ledger: LedgerView) -> Operation {
        match self {
            Call::Init {
                total,
                hash_param,
                commit_param,
                transfer_vk,
                reclaim_vk,
            } => Operation::Init {
                total,
                hash_checksum: blake2s_digest(hash_param@),
                commit_checksum: blake2s_digest(commit_param@),
                transfer_vk: transfer_vk@,
                reclaim_vk: reclaim_vk@,
            },
            Call::Transfer { target, amount } => Operation::Transfer { target, amount },
            Call::Mint {
                amount,
                input_data,
                hash_param,
                commit_param,
                recommitted,
                root,
            } => Operation::Mint {
                amount,
                data: MintData::from_wire(input_data@),
                hash_checksum: blake2s_digest(hash_param@),
                commit_checksum: blake2s_digest(commit_param@),
                recommitted,
                root,
            },
            Call::MantaTransfer {
                sender_data_1,
                sender_data_2,
                receiver_data_1,
                receiver_data_2,
                proof,
                hash_param,
                root_1,
                root_2,
            } => Operation::MantaTransfer {
                sender_1: SenderData::from_wire(sender_data_1@),
                sender_2: SenderData::from_wire(sender_data_2@),
                receiver_1: ReceiverData::from_wire(receiver_data_1@),
                receiver_2: ReceiverData::from_wire(receiver_data_2@),
                hash_checksum: blake2s_digest(hash_param@),
                root_1,
                root_2,
                proof_accepted: transfer_proof_valid(
                    ledger.transfer_zkp_vk,
                    proof,
                    SenderData::from_wire(sender_data_1@),
                    SenderData::from_wire(sender_data_2@),
                    ReceiverData::from_wire(receiver_data_1@),
                    ReceiverData::from_wire(receiver_data_2@),
                ),
            },
            Call::Reclaim {
                amount,
                sender_data_1,
                sender_data_2,
                receiver_data,
                proof,
                hash_param,
                root,
            } => Operation::Reclaim {
                amount,
                sender_1: SenderData::from_wire(sender_data_1@),
                sender_2: SenderData::from_wire(sender_data_2@),
                receiver: ReceiverData::from_wire(receiver_data@),
                hash_checksum: blake2s_digest(hash_param@),
                root,
                proof_accepted: reclaim_proof_valid(
                    ledger.reclaim_zkp_vk,
                    amount,
                    proof,
                    SenderData::from_wire(sender_data_1@),
                    SenderData::from_wire(sender_data_2@),
                    ReceiverData::from_wire(receiver_data@),
                ),
            },
        }
    }
}

} // verus!
