//! The registry of cryptographic parameters.
//!
//! Parameters are opaque blobs to the ledger. It registers the checksum of
//! each at initialization, and every later operation recomputes the checksum
//! of the parameters it is run with and compares: a coin or a proof made under
//! other parameters means nothing here.

use vstd::prelude::*;
use crate::bytes::bytes_eq;
use crate::crypto::{blake2s, blake2s_digest};

verus! {

/// The checksum of a parameter blob: its BLAKE2s digest.
pub fn get_checksum(param: &Vec<u8>) -> (checksum: [u8; 32])
    ensures
        checksum == blake2s_digest(param@),
{
    blake2s(param)
}

/// The checksums of the registered hash and commitment parameters.
#[derive(Clone, Copy, Debug, PartialEq, Eq)]
pub struct ParamRegistry {
    pub hash_param_checksum: [u8; 32],
    pub commit_param_checksum: [u8; 32],
}

impl ParamRegistry {
    /// Registers both parameter blobs by their checksums.
    pub fn register(hash_param: &Vec<u8>, commit_param: &Vec<u8>) -> (registry: ParamRegistry)
        ensures
            registry.hash_param_checksum == blake2s_digest(hash_param@),
            registry.commit_param_checksum == blake2s_digest(commit_param@),
    {
        ParamRegistry {
            hash_param_checksum: get_checksum(hash_param),
            commit_param_checksum: get_checksum(commit_param),
        }
    }

    /// Whether both checksums are the registered ones.
    pub open spec fn matches_checksums(self, hash_checksum: [u8; 32], commit_checksum: [u8; 32]) -> bool {
        hash_checksum == self.hash_param_checksum && commit_checksum == self.commit_param_checksum
    }

    /// Whether parameters with these checksums are the registered ones.
    pub fn verify_checksums(&self, hash_checksum: &[u8; 32], commit_checksum: &[u8; 32]) -> (same:
        bool)
        ensures
            same == self.matches_checksums(*hash_checksum, *commit_checksum),
    {
        bytes_eq(hash_checksum, &self.hash_param_checksum) && bytes_eq(
            commit_checksum,
            &self.commit_param_checksum,
        )
    }

    /// Recomputes the checksums of both blobs and compares them with the
    /// registered ones.
    pub fn verify(&self, hash_param: &Vec<u8>, commit_param: &Vec<u8>) -> (same: bool)
        ensures
            same == self.matches_checksums(
                blake2s_digest(hash_param@),
                blake2s_digest(commit_param@),
            ),
    {
        let hash_checksum = get_checksum(hash_param);
        let commit_checksum = get_checksum(commit_param);
        self.verify_checksums(&hash_checksum, &commit_checksum)
    }
}

} // verus!
