//! The ledger as a mathematical value, and each operation as a function from
//! one such value to the next.
//!
//! An operation checks everything before it changes anything: it yields either
//! the next ledger with the event to report, or the first check that failed.

use vstd::prelude::*;
use crate::bytes::zeros32;
use crate::coin::{MintData, ReceiverData, SenderData};
use crate::error::{AccountId, Error, Event};
use crate::nullifier::lemma_push_fresh;
use crate::shard::{
    acc_contains, acc_empty, acc_insert, acc_root_is_current, acc_wf, lemma_insert_contains,
    lemma_insert_wf, ShardView,
};

verus! {

/// Everything the ledger holds.
#[verifier::ext_equal]
pub struct LedgerView {
    /// Whether the one initialization has happened.
    pub init: bool,
    /// The public balances; an account without an entry holds nothing.
    pub balances: Map<AccountId, u64>,
    /// The supply issued at initialization.
    pub total_supply: u64,
    /// The value locked in private coins.
    pub pool_balance: u64,
    /// The nullifiers revealed so far, oldest first.
    pub vn_list: Seq<[u8; 32]>,
    /// The accumulator of commitments.
    pub coin_shards: Seq<ShardView>,
    /// The encrypted values of the coins that transfers created, oldest first.
    pub enc_value_list: Seq<[u8; 16]>,
    /// The checksum of the hash parameters the ledger was initialized with.
    pub hash_param_checksum: [u8; 32],
    /// The checksum of the commitment parameters the ledger was initialized with.
    pub commit_param_checksum: [u8; 32],
    /// The verification key of the transfer statement.
    pub transfer_zkp_vk: Seq<u8>,
    /// The verification key of the reclaim statement.
    pub reclaim_zkp_vk: Seq<u8>,
}

/// The outcome of an operation: the next ledger and the event, or the refusal.
pub type Outcome = Result<(LedgerView, Event), Error>;

/// What `who` holds in `balances`.
pub open spec fn balance_of(balances: Map<AccountId, u64>, who: AccountId) -> u64 {
    if balances.dom().contains(who) {
        balances[who]
    } else {
        0
    }
}

/// The sum of all balances of a finite map.
pub open spec fn sum_balances(balances: Map<AccountId, u64>) -> nat
    decreases balances.dom().len(),
    when balances.dom().finite()
{
    if balances.dom().is_empty() {
        0
    } else {
        let who = balances.dom().choose();
        balances[who] as nat + sum_balances(balances.remove(who))
    }
}

/// `balances` after `amount` moved from `origin` to `target`.
pub open spec fn move_balance(
    balances: Map<AccountId, u64>,
    origin: AccountId,
    target: AccountId,
    amount: u64,
) -> Map<AccountId, u64> {
    let debited = balances.insert(origin, (balance_of(balances, origin) - amount) as u64);
    debited.insert(target, (balance_of(debited, target) + amount) as u64)
}

impl LedgerView {
    /// The ledger before its initialization: nothing issued, nothing recorded.
    pub open spec fn uninitialized(self) -> bool {
        &&& !self.init
        &&& self.balances == Map::<AccountId, u64>::empty()
        &&& self.total_supply == 0
        &&& self.pool_balance == 0
        &&& self.vn_list == Seq::<[u8; 32]>::empty()
        &&& self.coin_shards == acc_empty()
        &&& self.enc_value_list == Seq::<[u8; 16]>::empty()
        &&& self.hash_param_checksum == zeros32()
        &&& self.commit_param_checksum == zeros32()
        &&& self.transfer_zkp_vk == Seq::<u8>::empty()
        &&& self.reclaim_zkp_vk == Seq::<u8>::empty()
    }

    /// What holds of every ledger that the operations can reach: public
    /// balances and pool add up to the supply, the accumulator is well formed,
    /// no nullifier is recorded twice, and nothing is held before initialization.
    pub open spec fn inv(self) -> bool {
        &&& self.balances.dom().finite()
        &&& sum_balances(self.balances) + self.pool_balance == self.total_supply
        &&& acc_wf(self.coin_shards)
        &&& self.vn_list.no_duplicates()
        &&& !self.init ==> self.balances == Map::<AccountId, u64>::empty() && self.pool_balance == 0
    }

    /// The public balance of `who`.
    pub open spec fn balance(self, who: AccountId) -> u64 {
        balance_of(self.balances, who)
    }

    /// Whether the parameters with these checksums are the registered ones.
    pub open spec fn params_match(self, hash_checksum: [u8; 32], commit_checksum: [u8; 32]) -> bool {
        hash_checksum == self.hash_param_checksum && commit_checksum == self.commit_param_checksum
    }

    /// The ledger after both nullifiers are revealed.
    pub open spec fn spend(self, first: [u8; 32], second: [u8; 32]) -> LedgerView {
        LedgerView { vn_list: self.vn_list.push(first).push(second), ..self }
    }

    /// The ledger after the coin of a receiver leg is logged: its commitment in
    /// the accumulator under the shard's new root, its ciphertext in the log.
    pub open spec fn log_coin(self, receiver: ReceiverData, root: [u8; 32]) -> LedgerView {
        LedgerView {
            coin_shards: acc_insert(self.coin_shards, receiver.cm, root),
            enc_value_list: self.enc_value_list.push(receiver.cipher),
            ..self
        }
    }

    /// The first check that two sender legs fail, if any: a nullifier that was
    /// revealed before, or twice in this operation, or a root that is not
    /// current.
    pub open spec fn senders_refused(self, sender_1: SenderData, sender_2: SenderData) -> Option<
        Error,
    > {
        if self.vn_list.contains(sender_1.sn) {
            Some(Error::MantaCoinSpent)
        } else if self.vn_list.contains(sender_2.sn) || sender_2.sn == sender_1.sn {
            Some(Error::MantaCoinSpent)
        } else if !acc_root_is_current(self.coin_shards, sender_1.root) {
            Some(Error::InvalidLedgerState)
        } else if !acc_root_is_current(self.coin_shards, sender_2.root) {
            Some(Error::InvalidLedgerState)
        } else {
            None
        }
    }

    /// Initialization: the supply goes to `origin`, the checksums and the keys
    /// are registered, and everything else starts empty.
    pub open spec fn init(
        self,
        origin: AccountId,
        total: u64,
        hash_checksum: [u8; 32],
        commit_checksum: [u8; 32],
        transfer_vk: Seq<u8>,
        reclaim_vk: Seq<u8>,
    ) -> Outcome {
        if self.init {
            Err(Error::AlreadyInitialized)
        } else {
            Ok(
                (
                    LedgerView {
                        init: true,
                        balances: self.balances.insert(origin, total),
                        total_supply: total,
                        pool_balance: 0,
                        vn_list: Seq::empty(),
                        coin_shards: acc_empty(),
                        enc_value_list: Seq::empty(),
                        hash_param_checksum: hash_checksum,
                        commit_param_checksum: commit_checksum,
                        transfer_zkp_vk: transfer_vk,
                        reclaim_zkp_vk: reclaim_vk,
                    },
                    Event::Issued(origin, total),
                ),
            )
        }
    }

    /// A public transfer of `amount` from `origin` to `target`.
    pub open spec fn transfer(self, origin: AccountId, target: AccountId, amount: u64) -> Outcome {
        if !self.init {
            Err(Error::NotInitialized)
        } else if amount == 0 {
            Err(Error::AmountZero)
        } else if self.balance(origin) < amount {
            Err(Error::BalanceLow)
        } else {
            Ok(
                (
                    LedgerView {
                        balances: move_balance(self.balances, origin, target, amount),
                        ..self
                    },
                    Event::Transferred(origin, target, amount),
                ),
            )
        }
    }

    /// Minting: `amount` leaves the public balance of `origin` for the pool,
    /// and the commitment of the record enters the accumulator.
    ///
    /// `recommitted` is the commitment that the commitment scheme gives for
    /// `amount` and the openings of the record, `None` where it gives none;
    /// `root` is the root of the commitment's shard with the commitment in it.
    pub open spec fn mint(
        self,
        origin: AccountId,
        amount: u64,
        data: MintData,
        hash_checksum: [u8; 32],
        commit_checksum: [u8; 32],
        recommitted: Option<[u8; 32]>,
        root: [u8; 32],
    ) -> Outcome {
        if !self.init {
            Err(Error::NotInitialized)
        } else if amount == 0 {
            Err(Error::AmountZero)
        } else if self.balance(origin) < amount {
            Err(Error::BalanceLow)
        } else if !self.params_match(hash_checksum, commit_checksum) {
            Err(Error::ParamFail)
        } else if recommitted != Some(data.cm) {
            Err(Error::MintFail)
        } else if acc_contains(self.coin_shards, data.cm) {
            Err(Error::MantaCoinExist)
        } else {
            Ok(
                (
                    LedgerView {
                        balances: self.balances.insert(
                            origin,
                            (self.balance(origin) - amount) as u64,
                        ),
                        pool_balance: (self.pool_balance + amount) as u64,
                        coin_shards: acc_insert(self.coin_shards, data.cm, root),
                        ..self
                    },
                    Event::Minted(origin, amount),
                ),
            )
        }
    }

    /// The first check that a private transfer fails before its proof is
    /// looked at, if any.
    pub open spec fn transfer_refused(
        self,
        sender_1: SenderData,
        sender_2: SenderData,
        receiver_1: ReceiverData,
        receiver_2: ReceiverData,
        hash_checksum: [u8; 32],
    ) -> Option<Error> {
        if !self.init {
            Some(Error::NotInitialized)
        } else if hash_checksum != self.hash_param_checksum {
            Some(Error::ParamFail)
        } else if self.senders_refused(sender_1, sender_2) is Some {
            self.senders_refused(sender_1, sender_2)
        } else if acc_contains(self.coin_shards, receiver_1.cm) {
            Some(Error::MantaCoinExist)
        } else if acc_contains(self.coin_shards, receiver_2.cm) || receiver_2.cm == receiver_1.cm {
            Some(Error::MantaCoinExist)
        } else {
            None
        }
    }

    /// The first check that a reclaim fails before its proof is looked at, if
    /// any.
    pub open spec fn reclaim_refused(
        self,
        amount: u64,
        sender_1: SenderData,
        sender_2: SenderData,
        receiver: ReceiverData,
        hash_checksum: [u8; 32],
    ) -> Option<Error> {
        if !self.init {
            Some(Error::NotInitialized)
        } else if hash_checksum != self.hash_param_checksum {
            Some(Error::ParamFail)
        } else if self.pool_balance < amount {
            Some(Error::PoolOverdrawn)
        } else if self.senders_refused(sender_1, sender_2) is Some {
            self.senders_refused(sender_1, sender_2)
        } else if acc_contains(self.coin_shards, receiver.cm) {
            Some(Error::MantaCoinExist)
        } else {
            None
        }
    }

    /// A private transfer: two coins are spent and two are created.
    ///
    /// `root_1` is the root of the first new commitment's shard with that
    /// commitment in it, `root_2` the root of the second's shard with both in
    /// the accumulator; `proof_accepted` is the verdict of the proof system on
    /// the transfer statement with the four legs as public inputs.
    pub open spec fn manta_transfer(
        self,
        origin: AccountId,
        sender_1: SenderData,
        sender_2: SenderData,
        receiver_1: ReceiverData,
        receiver_2: ReceiverData,
        hash_checksum: [u8; 32],
        root_1: [u8; 32],
        root_2: [u8; 32],
        proof_accepted: bool,
    ) -> Outcome {
        match self.transfer_refused(sender_1, sender_2, receiver_1, receiver_2, hash_checksum) {
            Some(refusal) => Err(refusal),
            None => if !proof_accepted {
                Err(Error::ZkpFail)
            } else {
                Ok(
                    (
                        self.spend(sender_1.sn, sender_2.sn).log_coin(receiver_1, root_1).log_coin(
                            receiver_2,
                            root_2,
                        ),
                        Event::PrivateTransferred(origin),
                    ),
                )
            },
        }
    }

    /// A reclaim: two coins are spent, one is created, and `amount` leaves the
    /// pool for the public balance of `origin`.
    ///
    /// `root` is the root of the new commitment's shard with that commitment
    /// in it; `proof_accepted` is the verdict of the proof system on the
    /// reclaim statement with the three legs and `amount` as public inputs.
    pub open spec fn reclaim(
        self,
        origin: AccountId,
        amount: u64,
        sender_1: SenderData,
        sender_2: SenderData,
        receiver: ReceiverData,
        hash_checksum: [u8; 32],
        root: [u8; 32],
        proof_accepted: bool,
    ) -> Outcome {
        match self.reclaim_refused(amount, sender_1, sender_2, receiver, hash_checksum) {
            Some(refusal) => Err(refusal),
            None => if !proof_accepted {
                Err(Error::ZkpFail)
            } else {
                let logged = self.spend(sender_1.sn, sender_2.sn).log_coin(receiver, root);
                Ok(
                    (
                        LedgerView {
                            balances: self.balances.insert(
                                origin,
                                (self.balance(origin) + amount) as u64,
                            ),
                            pool_balance: (self.pool_balance - amount) as u64,
                            ..logged
                        },
                        Event::PrivateReclaimed(origin),
                    ),
                )
            },
        }
    }
}

/// The sum of a map is the balance of any one account plus the sum of the rest.
pub proof fn lemma_sum_split(balances: Map<AccountId, u64>, who: AccountId)
    requires
        balances.dom().finite(),
        balances.dom().contains(who),
    ensures
        sum_balances(balances) == balances[who] + sum_balances(balances.remove(who)),
    decreases balances.dom().len(),
{
    let first = balances.dom().choose();
    if first != who {
        lemma_sum_split(balances.remove(first), who);
        lemma_sum_split(balances.remove(who), first);
        assert(balances.remove(first).remove(who) =~= balances.remove(who).remove(first));
    }
}

/// Setting one balance changes the sum by the difference.
pub proof fn lemma_sum_insert(balances: Map<AccountId, u64>, who: AccountId, amount: u64)
    requires
        balances.dom().finite(),
    ensures
        sum_balances(balances.insert(who, amount)) + balance_of(balances, who) == sum_balances(
            balances,
        ) + amount,
{
    lemma_sum_split(balances.insert(who, amount), who);
    assert(balances.insert(who, amount).remove(who) =~= balances.remove(who));
    if balances.dom().contains(who) {
        lemma_sum_split(balances, who);
    } else {
        assert(balances.remove(who) =~= balances);
    }
}

/// No account holds more than all accounts together.
pub proof fn lemma_balance_within_sum(balances: Map<AccountId, u64>, who: AccountId)
    requires
        balances.dom().finite(),
    ensures
        balance_of(balances, who) <= sum_balances(balances),
{
    if balances.dom().contains(who) {
        lemma_sum_split(balances, who);
    }
}

/// Initialization keeps the invariant.
pub proof fn lemma_init_inv(
    s: LedgerView,
    origin: AccountId,
    total: u64,
    hash_checksum: [u8; 32],
    commit_checksum: [u8; 32],
    transfer_vk: Seq<u8>,
    reclaim_vk: Seq<u8>,
)
    requires
        s.inv(),
    ensures
        s.init(origin, total, hash_checksum, commit_checksum, transfer_vk, reclaim_vk) matches Ok(
            (next, _),
        ) ==> next.inv(),
{
    if !s.init {
        lemma_sum_insert(s.balances, origin, total);
        assert(sum_balances(s.balances) == 0);
    }
}

/// A public transfer keeps the invariant, and the credited balance fits.
pub proof fn lemma_transfer_inv(s: LedgerView, origin: AccountId, target: AccountId, amount: u64)
    requires
        s.inv(),
    ensures
        s.transfer(origin, target, amount) matches Ok((next, _)) ==> {
            &&& next.inv()
            &&& balance_of(
                s.balances.insert(origin, (s.balance(origin) - amount) as u64),
                target,
            ) + amount <= u64::MAX
        },
{
    if s.transfer(origin, target, amount) is Ok {
        let debited = s.balances.insert(origin, (s.balance(origin) - amount) as u64);
        lemma_sum_insert(s.balances, origin, (s.balance(origin) - amount) as u64);
        lemma_balance_within_sum(debited, target);
        lemma_sum_insert(debited, target, (balance_of(debited, target) + amount) as u64);
    }
}

/// Minting keeps the invariant, and the pool after it fits.
pub proof fn lemma_mint_inv(
    s: LedgerView,
    origin: AccountId,
    amount: u64,
    data: MintData,
    hash_checksum: [u8; 32],
    commit_checksum: [u8; 32],
    recommitted: Option<[u8; 32]>,
    root: [u8; 32],
)
    requires
        s.inv(),
    ensures
        s.mint(origin, amount, data, hash_checksum, commit_checksum, recommitted, root) matches Ok(
            (next, _),
        ) ==> next.inv() && s.pool_balance + amount <= u64::MAX,
{
    if s.mint(origin, amount, data, hash_checksum, commit_checksum, recommitted, root) is Ok {
        lemma_balance_within_sum(s.balances, origin);
        lemma_sum_insert(s.balances, origin, (s.balance(origin) - amount) as u64);
        lemma_insert_wf(s.coin_shards, data.cm, root);
    }
}

/// Spending two fresh, distinct nullifiers and logging a new coin keeps the
/// invariant.
proof fn lemma_spend_log_inv(
    s: LedgerView,
    sender_1: SenderData,
    sender_2: SenderData,
    receiver: ReceiverData,
    root: [u8; 32],
)
    requires
        s.inv(),
        s.init,
        s.senders_refused(sender_1, sender_2) is None,
        !acc_contains(s.coin_shards, receiver.cm),
    ensures
        s.spend(sender_1.sn, sender_2.sn).log_coin(receiver, root).inv(),
{
    lemma_push_fresh(s.vn_list, sender_1.sn);
    lemma_push_fresh(s.vn_list.push(sender_1.sn), sender_2.sn);
    lemma_insert_wf(s.coin_shards, receiver.cm, root);
}

/// A private transfer keeps the invariant.
pub proof fn lemma_manta_transfer_inv(
    s: LedgerView,
    origin: AccountId,
    sender_1: SenderData,
    sender_2: SenderData,
    receiver_1: ReceiverData,
    receiver_2: ReceiverData,
    hash_checksum: [u8; 32],
    root_1: [u8; 32],
    root_2: [u8; 32],
    proof_accepted: bool,
)
    requires
        s.inv(),
    ensures
        s.manta_transfer(
            origin,
            sender_1,
            sender_2,
            receiver_1,
            receiver_2,
            hash_checksum,
            root_1,
            root_2,
            proof_accepted,
        ) matches Ok((next, _)) ==> next.inv(),
{
    if s.manta_transfer(
        origin,
        sender_1,
        sender_2,
        receiver_1,
        receiver_2,
        hash_checksum,
        root_1,
        root_2,
        proof_accepted,
    ) is Ok {
        lemma_spend_log_inv(s, sender_1, sender_2, receiver_1, root_1);
        let logged = s.spend(sender_1.sn, sender_2.sn).log_coin(receiver_1, root_1);
        lemma_insert_contains(s.coin_shards, receiver_1.cm, root_1, receiver_2.cm);
        lemma_insert_wf(logged.coin_shards, receiver_2.cm, root_2);
    }
}

/// A reclaim keeps the invariant, and the credited balance fits.
pub proof fn lemma_reclaim_inv(
    s: LedgerView,
    origin: AccountId,
    amount: u64,
    sender_1: SenderData,
    sender_2: SenderData,
    receiver: ReceiverData,
    hash_checksum: [u8; 32],
    root: [u8; 32],
    proof_accepted: bool,
)
    requires
        s.inv(),
    ensures
        s.reclaim(
            origin,
            amount,
            sender_1,
            sender_2,
            receiver,
            hash_checksum,
            root,
            proof_accepted,
        ) matches Ok((next, _)) ==> next.inv() && s.balance(origin) + amount <= u64::MAX,
{
    if s.reclaim(
        origin,
        amount,
        sender_1,
        sender_2,
        receiver,
        hash_checksum,
        root,
        proof_accepted,
    ) is Ok {
        lemma_spend_log_inv(s, sender_1, sender_2, receiver, root);
        lemma_balance_within_sum(s.balances, origin);
        lemma_sum_insert(s.balances, origin, (s.balance(origin) + amount) as u64);
    }
}

/// An operation with everything it depends on as plain values: the checksums
/// of the parameters it is run with, the roots of the shards it appends to,
/// and the verdict on its proof.
pub enum Operation {
    Init {
        total: u64,
        hash_checksum: [u8; 32],
        commit_checksum: [u8; 32],
        transfer_vk: Seq<u8>,
        reclaim_vk: Seq<u8>,
    },
    Transfer { target: AccountId, amount: u64 },
    Mint {
        amount: u64,
        data: MintData,
        hash_checksum: [u8; 32],
        commit_checksum: [u8; 32],
        recommitted: Option<[u8; 32]>,
        root: [u8; 32],
    },
    MantaTransfer {
        sender_1: SenderData,
        sender_2: SenderData,
        receiver_1: ReceiverData,
        receiver_2: ReceiverData,
        hash_checksum: [u8; 32],
        root_1: [u8; 32],
        root_2: [u8; 32],
        proof_accepted: bool,
    },
    Reclaim {
        amount: u64,
        sender_1: SenderData,
        sender_2: SenderData,
        receiver: ReceiverData,
        hash_checksum: [u8; 32],
        root: [u8; 32],
        proof_accepted: bool,
    },
}

impl LedgerView {
    /// The outcome of `operation` submitted by `origin`.
    pub open spec fn step(self, origin: AccountId, operation: Operation) -> Outcome {
        match operation {
            Operation::Init {
                total,
                hash_checksum,
                commit_checksum,
                transfer_vk,
                reclaim_vk,
            } => self.init(origin, total, hash_checksum, commit_checksum, transfer_vk, reclaim_vk),
            Operation::Transfer { target, amount } => self.transfer(origin, target, amount),
            Operation::Mint {
                amount,
                data,
                hash_checksum,
                commit_checksum,
                recommitted,
                root,
            } => self.mint(origin, amount, data, hash_checksum, commit_checksum, recommitted, root),
            Operation::MantaTransfer {
                sender_1,
                sender_2,
                receiver_1,
                receiver_2,
                hash_checksum,
                root_1,
                root_2,
                proof_accepted,
            } => self.manta_transfer(
                origin,
                sender_1,
                sender_2,
                receiver_1,
                receiver_2,
                hash_checksum,
                root_1,
                root_2,
                proof_accepted,
            ),
            Operation::Reclaim {
                amount,
                sender_1,
                sender_2,
                receiver,
                hash_checksum,
                root,
                proof_accepted,
            } => self.reclaim(
                origin,
                amount,
                sender_1,
                sender_2,
                receiver,
                hash_checksum,
                root,
                proof_accepted,
            ),
        }
    }
}

/// Every operation keeps the invariant: whatever is accepted, public balances
/// and pool still add up to the supply, no commitment occurs twice and no
/// nullifier is recorded twice.
pub proof fn lemma_step_inv(s: LedgerView, origin: AccountId, operation: Operation)
    requires
        s.inv(),
    ensures
        s.step(origin, operation) matches Ok((next, _)) ==> next.inv(),
{
    match operation {
        Operation::Init { total, hash_checksum, commit_checksum, transfer_vk, reclaim_vk } => {
            lemma_init_inv(s, origin, total, hash_checksum, commit_checksum, transfer_vk, reclaim_vk);
        },
        Operation::Transfer { target, amount } => {
            lemma_transfer_inv(s, origin, target, amount);
        },
        Operation::Mint { amount, data, hash_checksum, commit_checksum, recommitted, root } => {
            lemma_mint_inv(s, origin, amount, data, hash_checksum, commit_checksum, recommitted, root);
        },
        Operation::MantaTransfer {
            sender_1,
            sender_2,
            receiver_1,
            receiver_2,
            hash_checksum,
            root_1,
            root_2,
            proof_accepted,
        } => {
            lemma_manta_transfer_inv(
                s,
                origin,
                sender_1,
                sender_2,
                receiver_1,
                receiver_2,
                hash_checksum,
                root_1,
                root_2,
                proof_accepted,
            );
        },
        Operation::Reclaim {
            amount,
            sender_1,
            sender_2,
            receiver,
            hash_checksum,
            root,
            proof_accepted,
        } => {
            lemma_reclaim_inv(
                s,
                origin,
                amount,
                sender_1,
                sender_2,
                receiver,
                hash_checksum,
                root,
                proof_accepted,
            );
        },
    }
}

/// Nothing is ever taken back: on an initialized ledger, whatever operation is
/// accepted, the ledger stays initialized with the same supply, checksums and
/// keys, every commitment in the accumulator stays in it, and every revealed
/// nullifier stays revealed.
pub proof fn lemma_step_keeps(
    s: LedgerView,
    origin: AccountId,
    operation: Operation,
    cm: [u8; 32],
    sn: [u8; 32],
)
    requires
        s.inv(),
        s.init,
    ensures
        s.step(origin, operation) matches Ok((next, _)) ==> {
            &&& next.init
            &&& next.total_supply == s.total_supply
            &&& next.hash_param_checksum == s.hash_param_checksum
            &&& next.commit_param_checksum == s.commit_param_checksum
            &&& next.transfer_zkp_vk == s.transfer_zkp_vk
            &&& next.reclaim_zkp_vk == s.reclaim_zkp_vk
            &&& acc_contains(s.coin_shards, cm) ==> acc_contains(next.coin_shards, cm)
            &&& s.vn_list.contains(sn) ==> next.vn_list.contains(sn)
        },
{
    match operation {
        Operation::Init { .. } => {},
        Operation::Transfer { .. } => {},
        Operation::Mint { data, root, .. } => {
            lemma_insert_contains(s.coin_shards, data.cm, root, cm);
        },
        Operation::MantaTransfer { sender_1, sender_2, receiver_1, receiver_2, root_1, root_2, .. } => {
            if s.step(origin, operation) is Ok {
                lemma_insert_contains(s.coin_shards, receiver_1.cm, root_1, cm);
                lemma_insert_contains(
                    acc_insert(s.coin_shards, receiver_1.cm, root_1),
                    receiver_2.cm,
                    root_2,
                    cm,
                );
                lemma_push_fresh(s.vn_list, sender_1.sn);
                lemma_push_fresh(s.vn_list.push(sender_1.sn), sender_2.sn);
            }
        },
        Operation::Reclaim { sender_1, sender_2, receiver, root, .. } => {
            if s.step(origin, operation) is Ok {
                lemma_insert_contains(s.coin_shards, receiver.cm, root, cm);
                lemma_push_fresh(s.vn_list, sender_1.sn);
                lemma_push_fresh(s.vn_list.push(sender_1.sn), sender_2.sn);
            }
        },
    }
}

} // verus!
