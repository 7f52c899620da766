//! What the ledger guarantees, whatever is submitted to it and in whatever
//! order: one initialization, one minting of a commitment, one spend of a
//! coin, no proof against a root that is no longer current.

use vstd::prelude::*;
use crate::coin::{MintData, ReceiverData, SenderData};
use crate::error::{AccountId, Error, Event};
use crate::model::{lemma_step_inv, lemma_step_keeps, LedgerView, Operation};
use crate::shard::{
    acc_contains, acc_root_is_current, lemma_insert_contains, lemma_insert_retires_root, shard_of,
};

verus! {

impl Operation {
    /// The nullifiers that the operation reveals if it is accepted.
    pub open spec fn nullifiers(self) -> Seq<[u8; 32]> {
        match self {
            Operation::MantaTransfer { sender_1, sender_2, .. } => seq![sender_1.sn, sender_2.sn],
            Operation::Reclaim { sender_1, sender_2, .. } => seq![sender_1.sn, sender_2.sn],
            _ => seq![],
        }
    }

    /// Whether the operation gets as far as the check of its nullifiers on
    /// `ledger`: the parameters are the registered ones and, for a reclaim,
    /// the pool covers the amount.
    pub open spec fn reaches_nullifiers(self, ledger: LedgerView) -> bool {
        match self {
            Operation::MantaTransfer { hash_checksum, .. } => ledger.init && hash_checksum
                == ledger.hash_param_checksum,
            Operation::Reclaim { amount, hash_checksum, .. } => ledger.init && hash_checksum
                == ledger.hash_param_checksum && ledger.pool_balance >= amount,
            _ => false,
        }
    }
}

/// Whether the accepted operations `steps`, in turn, lead from `from` to `to`.
pub open spec fn reaches(from: LedgerView, steps: Seq<(AccountId, Operation)>, to: LedgerView) -> bool
    decreases steps.len(),
{
    if steps.len() == 0 {
        to == from
    } else {
        from.step(steps[0].0, steps[0].1) matches Ok((next, _)) && reaches(
            next,
            steps.drop_first(),
            to,
        )
    }
}

/// Whatever operations are accepted on an initialized ledger, it keeps its
/// invariant, its supply and its registered checksums and keys, every
/// commitment in the accumulator stays in it, and every revealed nullifier
/// stays revealed.
pub proof fn lemma_reaches_keeps(
    from: LedgerView,
    steps: Seq<(AccountId, Operation)>,
    to: LedgerView,
    cm: [u8; 32],
    sn: [u8; 32],
)
    requires
        from.inv(),
        from.init,
        reaches(from, steps, to),
    ensures
        to.inv(),
        to.init,
        to.total_supply == from.total_supply,
        to.hash_param_checksum == from.hash_param_checksum,
        to.commit_param_checksum == from.commit_param_checksum,
        to.transfer_zkp_vk == from.transfer_zkp_vk,
        to.reclaim_zkp_vk == from.reclaim_zkp_vk,
        acc_contains(from.coin_shards, cm) ==> acc_contains(to.coin_shards, cm),
        from.vn_list.contains(sn) ==> to.vn_list.contains(sn),
    decreases steps.len(),
{
    if steps.len() > 0 {
        let next = from.step(steps[0].0, steps[0].1)->Ok_0.0;
        lemma_step_inv(from, steps[0].0, steps[0].1);
        lemma_step_keeps(from, steps[0].0, steps[0].1, cm, sn);
        lemma_reaches_keeps(next, steps.drop_first(), to, cm, sn);
    }
}

/// A ledger is initialized exactly once: initialization is accepted on a
/// ledger that was not initialized and refused on one that was, so a second
/// initialization is refused whatever its arguments.
pub proof fn lemma_init_once(
    s: LedgerView,
    origin: AccountId,
    total: u64,
    hash_checksum: [u8; 32],
    commit_checksum: [u8; 32],
    transfer_vk: Seq<u8>,
    reclaim_vk: Seq<u8>,
    again: Operation,
    origin_again: AccountId,
)
    requires
        again is Init,
    ensures
        !s.init ==> s.init(origin, total, hash_checksum, commit_checksum, transfer_vk, reclaim_vk)
            is Ok,
        s.init ==> s.init(origin, total, hash_checksum, commit_checksum, transfer_vk, reclaim_vk)
            == Err::<(LedgerView, Event), Error>(Error::AlreadyInitialized),
        s.init(origin, total, hash_checksum, commit_checksum, transfer_vk, reclaim_vk) matches Ok(
            (next, _),
        ) ==> next.step(origin_again, again) == Err::<(LedgerView, Event), Error>(
            Error::AlreadyInitialized,
        ),
{
}

/// A commitment is minted at most once: while it is in the accumulator, every
/// minting of it is refused, and with `MantaCoinExist` where the mint is in
/// order otherwise.
pub proof fn lemma_minted_refused(
    s: LedgerView,
    origin: AccountId,
    amount: u64,
    data: MintData,
    hash_checksum: [u8; 32],
    commit_checksum: [u8; 32],
    recommitted: Option<[u8; 32]>,
    root: [u8; 32],
)
    requires
        acc_contains(s.coin_shards, data.cm),
    ensures
        s.mint(origin, amount, data, hash_checksum, commit_checksum, recommitted, root) is Err,
        s.init && amount != 0 && s.balance(origin) >= amount && s.params_match(
            hash_checksum,
            commit_checksum,
        ) && recommitted == Some(data.cm) ==> s.mint(
            origin,
            amount,
            data,
            hash_checksum,
            commit_checksum,
            recommitted,
            root,
        ) == Err::<(LedgerView, Event), Error>(Error::MantaCoinExist),
{
}

/// The same minting submitted twice: where the first is accepted and the
/// balance still covers the amount, the second is refused with
/// `MantaCoinExist`.
pub proof fn lemma_mint_twice(
    s: LedgerView,
    origin: AccountId,
    amount: u64,
    data: MintData,
    hash_checksum: [u8; 32],
    commit_checksum: [u8; 32],
    recommitted: Option<[u8; 32]>,
    root: [u8; 32],
)
    requires
        s.inv(),
        s.mint(origin, amount, data, hash_checksum, commit_checksum, recommitted, root) is Ok,
    ensures
        ({
            let next = s.mint(
                origin,
                amount,
                data,
                hash_checksum,
                commit_checksum,
                recommitted,
                root,
            )->Ok_0.0;
            &&& acc_contains(next.coin_shards, data.cm)
            &&& next.mint(origin, amount, data, hash_checksum, commit_checksum, recommitted, root)
                is Err
            &&& next.balance(origin) >= amount ==> next.mint(
                origin,
                amount,
                data,
                hash_checksum,
                commit_checksum,
                recommitted,
                root,
            ) == Err::<(LedgerView, Event), Error>(Error::MantaCoinExist)
        }),
{
    lemma_insert_contains(s.coin_shards, data.cm, root, data.cm);
}

/// An accepted spend reveals the nullifiers of both of its sender legs.
pub proof fn lemma_spend_reveals(s: LedgerView, sender_1: SenderData, sender_2: SenderData)
    requires
        s.senders_refused(sender_1, sender_2) is None,
    ensures
        s.spend(sender_1.sn, sender_2.sn).vn_list.contains(sender_1.sn),
        s.spend(sender_1.sn, sender_2.sn).vn_list.contains(sender_2.sn),
{
    let revealed = s.vn_list.push(sender_1.sn).push(sender_2.sn);
    assert(revealed[s.vn_list.len() as int] == sender_1.sn);
    assert(revealed[s.vn_list.len() as int + 1] == sender_2.sn);
}

/// A coin is spent at most once by a private transfer: while the nullifier of
/// either sender leg is revealed, the transfer is refused, and with
/// `MantaCoinSpent` where the ledger is initialized and the parameters are the
/// registered ones.
pub proof fn lemma_respend_by_transfer_refused(
    s: LedgerView,
    origin: AccountId,
    sender_1: SenderData,
    sender_2: SenderData,
    receiver_1: ReceiverData,
    receiver_2: ReceiverData,
    hash_checksum: [u8; 32],
    root_1: [u8; 32],
    root_2: [u8; 32],
    proof_accepted: bool,
)
    requires
        s.vn_list.contains(sender_1.sn) || s.vn_list.contains(sender_2.sn),
    ensures
        s.manta_transfer(
            origin,
            sender_1,
            sender_2,
            receiver_1,
            receiver_2,
            hash_checksum,
            root_1,
            root_2,
            proof_accepted,
        ) is Err,
        s.init && hash_checksum == s.hash_param_checksum ==> s.manta_transfer(
            origin,
            sender_1,
            sender_2,
            receiver_1,
            receiver_2,
            hash_checksum,
            root_1,
            root_2,
            proof_accepted,
        ) == Err::<(LedgerView, Event), Error>(Error::MantaCoinSpent),
{
}

/// A coin is spent at most once by a reclaim: while the nullifier of either
/// sender leg is revealed, the reclaim is refused, and with `MantaCoinSpent`
/// where the ledger is initialized, the parameters are the registered ones and
/// the pool covers the amount.
pub proof fn lemma_respend_by_reclaim_refused(
    s: LedgerView,
    origin: AccountId,
    amount: u64,
    sender_1: SenderData,
    sender_2: SenderData,
    receiver: ReceiverData,
    hash_checksum: [u8; 32],
    root: [u8; 32],
    proof_accepted: bool,
)
    requires
        s.vn_list.contains(sender_1.sn) || s.vn_list.contains(sender_2.sn),
    ensures
        s.reclaim(
            origin,
            amount,
            sender_1,
            sender_2,
            receiver,
            hash_checksum,
            root,
            proof_accepted,
        ) is Err,
        s.init && hash_checksum == s.hash_param_checksum && s.pool_balance >= amount ==> s.reclaim(
            origin,
            amount,
            sender_1,
            sender_2,
            receiver,
            hash_checksum,
            root,
            proof_accepted,
        ) == Err::<(LedgerView, Event), Error>(Error::MantaCoinSpent),
{
}

/// The same private transfer submitted twice: where the first is accepted,
/// the second is refused with `MantaCoinSpent`.
pub proof fn lemma_transfer_twice(
    s: LedgerView,
    origin: AccountId,
    sender_1: SenderData,
    sender_2: SenderData,
    receiver_1: ReceiverData,
    receiver_2: ReceiverData,
    hash_checksum: [u8; 32],
    root_1: [u8; 32],
    root_2: [u8; 32],
    proof_accepted: bool,
)
    requires
        s.manta_transfer(
            origin,
            sender_1,
            sender_2,
            receiver_1,
            receiver_2,
            hash_checksum,
            root_1,
            root_2,
            proof_accepted,
        ) is Ok,
    ensures
        s.manta_transfer(
            origin,
            sender_1,
            sender_2,
            receiver_1,
            receiver_2,
            hash_checksum,
            root_1,
            root_2,
            proof_accepted,
        )->Ok_0.0.manta_transfer(
            origin,
            sender_1,
            sender_2,
            receiver_1,
            receiver_2,
            hash_checksum,
            root_1,
            root_2,
            proof_accepted,
        ) == Err::<(LedgerView, Event), Error>(Error::MantaCoinSpent),
{
    lemma_spend_reveals(s, sender_1, sender_2);
}

/// A nullifier is revealed at most once. Of two spends that share a
/// nullifier, be they private transfers or reclaims and whoever submits them,
/// the second is refused where the first was accepted, however many
/// operations were accepted in between; and it is refused with
/// `MantaCoinSpent` where it gets as far as the check of its nullifiers.
pub proof fn lemma_spend_twice(
    s: LedgerView,
    origin: AccountId,
    first: Operation,
    between: Seq<(AccountId, Operation)>,
    later: LedgerView,
    origin_again: AccountId,
    second: Operation,
    sn: [u8; 32],
)
    requires
        s.inv(),
        s.step(origin, first) is Ok,
        first.nullifiers().contains(sn),
        second.nullifiers().contains(sn),
        reaches(s.step(origin, first)->Ok_0.0, between, later),
    ensures
        later.vn_list.contains(sn),
        later.step(origin_again, second) is Err,
        second.reaches_nullifiers(later) ==> later.step(origin_again, second) == Err::<
            (LedgerView, Event),
            Error,
        >(Error::MantaCoinSpent),
{
    let next = s.step(origin, first)->Ok_0.0;
    lemma_step_inv(s, origin, first);
    assert(next.init && next.vn_list.contains(sn)) by {
        let i = choose|i: int| 0 <= i < first.nullifiers().len() && first.nullifiers()[i] == sn;
        match first {
            Operation::MantaTransfer { sender_1, sender_2, .. } => {
                lemma_spend_reveals(s, sender_1, sender_2);
            },
            Operation::Reclaim { sender_1, sender_2, .. } => {
                lemma_spend_reveals(s, sender_1, sender_2);
            },
            _ => {},
        }
    }
    lemma_reaches_keeps(next, between, later, sn, sn);
    let j = choose|j: int| 0 <= j < second.nullifiers().len() && second.nullifiers()[j] == sn;
    match second {
        Operation::MantaTransfer { .. } => {},
        Operation::Reclaim { .. } => {},
        _ => {},
    }
}

/// A commitment is minted at most once, however many operations are accepted
/// in between: a minting of a commitment that an earlier, accepted minting
/// put into the accumulator is refused, and with `MantaCoinExist` where the
/// mint is in order otherwise.
pub proof fn lemma_mint_again(
    s: LedgerView,
    origin: AccountId,
    first: Operation,
    between: Seq<(AccountId, Operation)>,
    later: LedgerView,
    origin_again: AccountId,
    amount: u64,
    data: MintData,
    hash_checksum: [u8; 32],
    commit_checksum: [u8; 32],
    recommitted: Option<[u8; 32]>,
    root: [u8; 32],
)
    requires
        s.inv(),
        first is Mint,
        s.step(origin, first) is Ok,
        first->Mint_data.cm == data.cm,
        reaches(s.step(origin, first)->Ok_0.0, between, later),
    ensures
        acc_contains(later.coin_shards, data.cm),
        later.mint(origin_again, amount, data, hash_checksum, commit_checksum, recommitted, root)
            is Err,
        amount != 0 && later.balance(origin_again) >= amount && later.params_match(
            hash_checksum,
            commit_checksum,
        ) && recommitted == Some(data.cm) ==> later.mint(
            origin_again,
            amount,
            data,
            hash_checksum,
            commit_checksum,
            recommitted,
            root,
        ) == Err::<(LedgerView, Event), Error>(Error::MantaCoinExist),
{
    let next = s.step(origin, first)->Ok_0.0;
    lemma_step_inv(s, origin, first);
    lemma_insert_contains(s.coin_shards, data.cm, first->Mint_root, data.cm);
    lemma_reaches_keeps(next, between, later, data.cm, data.cm);
}

/// Only a current root is accepted by a private transfer: with a sender leg
/// whose root is the current root of no shard the transfer is refused, and
/// with `InvalidLedgerState` where nothing that is checked earlier fails.
pub proof fn lemma_stale_root_refused(
    s: LedgerView,
    origin: AccountId,
    sender_1: SenderData,
    sender_2: SenderData,
    receiver_1: ReceiverData,
    receiver_2: ReceiverData,
    hash_checksum: [u8; 32],
    root_1: [u8; 32],
    root_2: [u8; 32],
    proof_accepted: bool,
)
    requires
        !acc_root_is_current(s.coin_shards, sender_1.root) || !acc_root_is_current(
            s.coin_shards,
            sender_2.root,
        ),
    ensures
        s.manta_transfer(
            origin,
            sender_1,
            sender_2,
            receiver_1,
            receiver_2,
            hash_checksum,
            root_1,
            root_2,
            proof_accepted,
        ) is Err,
        s.init && hash_checksum == s.hash_param_checksum && !s.vn_list.contains(sender_1.sn)
            && !s.vn_list.contains(sender_2.sn) && sender_1.sn != sender_2.sn ==> s.manta_transfer(
            origin,
            sender_1,
            sender_2,
            receiver_1,
            receiver_2,
            hash_checksum,
            root_1,
            root_2,
            proof_accepted,
        ) == Err::<(LedgerView, Event), Error>(Error::InvalidLedgerState),
{
}

/// Only a current root is accepted by a reclaim: with a sender leg whose root
/// is the current root of no shard the reclaim is refused, and with
/// `InvalidLedgerState` where nothing that is checked earlier fails.
pub proof fn lemma_stale_root_reclaim_refused(
    s: LedgerView,
    origin: AccountId,
    amount: u64,
    sender_1: SenderData,
    sender_2: SenderData,
    receiver: ReceiverData,
    hash_checksum: [u8; 32],
    root: [u8; 32],
    proof_accepted: bool,
)
    requires
        !acc_root_is_current(s.coin_shards, sender_1.root) || !acc_root_is_current(
            s.coin_shards,
            sender_2.root,
        ),
    ensures
        s.reclaim(
            origin,
            amount,
            sender_1,
            sender_2,
            receiver,
            hash_checksum,
            root,
            proof_accepted,
        ) is Err,
        s.init && hash_checksum == s.hash_param_checksum && s.pool_balance >= amount
            && !s.vn_list.contains(sender_1.sn) && !s.vn_list.contains(sender_2.sn) && sender_1.sn
            != sender_2.sn ==> s.reclaim(
            origin,
            amount,
            sender_1,
            sender_2,
            receiver,
            hash_checksum,
            root,
            proof_accepted,
        ) == Err::<(LedgerView, Event), Error>(Error::InvalidLedgerState),
{
}

/// A membership proof goes stale with the next write to its shard. Let a
/// minting be accepted that gives the shard of its commitment a root other
/// than `stale`, while no other shard has `stale` as its root. Then `stale` is
/// the current root of no shard, and a private transfer with a sender leg that
/// refers to it, on the registered parameters and with fresh nullifiers, is
/// refused with `InvalidLedgerState`, valid though its proof may be.
pub proof fn lemma_mint_retires_root(
    s: LedgerView,
    origin: AccountId,
    amount: u64,
    data: MintData,
    commit_checksum: [u8; 32],
    recommitted: Option<[u8; 32]>,
    root: [u8; 32],
    spender: AccountId,
    sender_1: SenderData,
    sender_2: SenderData,
    receiver_1: ReceiverData,
    receiver_2: ReceiverData,
    hash_checksum: [u8; 32],
    root_1: [u8; 32],
    root_2: [u8; 32],
    proof_accepted: bool,
    stale: [u8; 32],
)
    requires
        s.inv(),
        s.mint(origin, amount, data, hash_checksum, commit_checksum, recommitted, root) is Ok,
        root != stale,
        forall|i: int|
            0 <= i < s.coin_shards.len() && i != shard_of(data.cm) ==> (
            #[trigger] s.coin_shards[i]).root != stale,
        sender_1.root == stale || sender_2.root == stale,
        !s.vn_list.contains(sender_1.sn),
        !s.vn_list.contains(sender_2.sn),
        sender_1.sn != sender_2.sn,
    ensures
        ({
            let next = s.mint(
                origin,
                amount,
                data,
                hash_checksum,
                commit_checksum,
                recommitted,
                root,
            )->Ok_0.0;
            &&& !acc_root_is_current(next.coin_shards, stale)
            &&& next.manta_transfer(
                spender,
                sender_1,
                sender_2,
                receiver_1,
                receiver_2,
                hash_checksum,
                root_1,
                root_2,
                proof_accepted,
            ) == Err::<(LedgerView, Event), Error>(Error::InvalidLedgerState)
        }),
{
    let next = s.mint(origin, amount, data, hash_checksum, commit_checksum, recommitted, root)->Ok_0.0;
    lemma_insert_retires_root(s.coin_shards, data.cm, root, stale);
    lemma_stale_root_refused(
        next,
        spender,
        sender_1,
        sender_2,
        receiver_1,
        receiver_2,
        hash_checksum,
        root_1,
        root_2,
        proof_accepted,
    );
}

} // verus!
