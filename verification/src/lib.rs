//! Transaction validation for an anonymous payment ledger.
//!
//! Public tokens are turned into private coins, private coins change hands
//! without showing sender, receiver or amount, and private value is turned
//! back into public tokens. This crate is the part that decides whether an
//! operation is accepted and what it changes: the records on the wire, the
//! sharded accumulator of commitments, the set of revealed nullifiers, the
//! statement that a proof is verified against, and the ledger itself.
//!
//! Committing, hashing leaves into a Merkle root and proving are the host's;
//! the ledger takes their results as plain values.

pub mod bytes;
pub mod coin;
pub mod crypto;
pub mod error;
pub mod guarantees;
pub mod ledger;
pub mod model;
pub mod nullifier;
pub mod param;
pub mod shard;
pub mod transfer;
pub mod weights;
pub mod zkp;

pub use coin::{MantaCoin, MantaCoinPrivInfo, MantaCoinPubInfo, MintData, ReceiverData, SenderData};
pub use error::{AccountId, Error, Event};
pub use ledger::{Call, Module};
pub use nullifier::NullifierSet;
pub use param::{get_checksum, ParamRegistry};
pub use shard::Shards;
pub use transfer::{CoinCommitments, CommitRequest, TransferCircuit};
pub use weights::{RuntimeDbWeight, SubstrateWeight, WeightInfo};
pub use zkp::{manta_verify_reclaim_zkp, manta_verify_transfer_zkp};
