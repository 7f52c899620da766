//! Coins, what their owners know of them, and the fixed-width records in which
//! they travel.

use vstd::prelude::*;
use crate::bytes::{append, bytes_eq, read_at, write_at};

verus! {

/// Width of a minting record on the wire.
pub const MINT_DATA_BYTES: usize = 96;

/// Width of a sender leg on the wire.
pub const SENDER_DATA_BYTES: usize = 96;

/// Width of a receiver leg on the wire.
pub const RECEIVER_DATA_BYTES: usize = 80;

/// Width of a proof on the wire.
pub const PROOF_BYTES: usize = 192;

/// A coin as the ledger logs it: a leaf of the accumulator and the encrypted value.
#[derive(Clone, Copy, Debug, PartialEq, Eq)]
pub struct MantaCoin {
    pub cm_bytes: [u8; 32],
    pub cipher: [u8; 16],
}

/// What is public of a coin once both of its commitments are opened.
///
/// `k` commits to `pk || rho` under the opening `r`; the coin's commitment commits
/// to `value || k` under the opening `s`.
#[derive(Clone, Copy, Debug, PartialEq, Eq)]
pub struct MantaCoinPubInfo {
    pub pk: [u8; 32],
    pub rho: [u8; 32],
    pub s: [u8; 32],
    pub r: [u8; 32],
    pub k: [u8; 32],
}

/// What only the owner of a coin knows: its value, the spending key and the
/// nullifier that the key derives for this coin.
#[derive(Clone, Copy, Debug, PartialEq, Eq)]
pub struct MantaCoinPrivInfo {
    pub value: u64,
    pub sk: [u8; 32],
    pub sn: [u8; 32],
}

/// A minting record: the new commitment with the inner commitment and the
/// opening that let anyone recompute it from the public amount.
#[derive(Clone, Copy, Debug, PartialEq, Eq)]
pub struct MintData {
    pub cm: [u8; 32],
    pub k: [u8; 32],
    pub s: [u8; 32],
}

/// A sender leg: the nullifier of the coin being spent, the shard root its
/// membership is proved against, and the coin's inner commitment.
#[derive(Clone, Copy, Debug, PartialEq, Eq)]
pub struct SenderData {
    pub k: [u8; 32],
    pub sn: [u8; 32],
    pub root: [u8; 32],
}

/// A receiver leg: the commitment of the new coin, its encrypted value and its
/// inner commitment.
#[derive(Clone, Copy, Debug, PartialEq, Eq)]
pub struct ReceiverData {
    pub k: [u8; 32],
    pub cm: [u8; 32],
    pub cipher: [u8; 16],
}

/// What the inner commitment of a coin is computed over: the public key, then
/// the tag.
pub open spec fn k_preimage(pk: [u8; 32], rho: [u8; 32]) -> Seq<u8> {
    pk@ + rho@
}

/// What the commitment of a coin is computed over: the value in little-endian
/// order, then the inner commitment.
pub open spec fn cm_preimage(value: u64, k: [u8; 32]) -> Seq<u8> {
    vstd::bytes::spec_u64_to_le_bytes(value) + k@
}

/// The bytes that the inner commitment of a coin is computed over.
pub fn inner_commitment_payload(pk: &[u8; 32], rho: &[u8; 32]) -> (bytes: Vec<u8>)
    ensures
        bytes@ == k_preimage(*pk, *rho),
{
    let mut bytes: Vec<u8> = Vec::new();
    append(&mut bytes, pk);
    append(&mut bytes, rho);
    bytes
}

/// The bytes that the commitment of a coin of `value` is computed over.
pub fn commitment_payload(value: u64, k: &[u8; 32]) -> (bytes: Vec<u8>)
    ensures
        bytes@ == cm_preimage(value, *k),
{
    let mut bytes: Vec<u8> = vstd::bytes::u64_to_le_bytes(value);
    append(&mut bytes, k);
    bytes
}

impl MintData {
    /// The record on the wire: `cm || k || s`.
    pub open spec fn wire(self) -> Seq<u8> {
        self.cm@ + self.k@ + self.s@
    }

    pub fn serialize(&self) -> (out: [u8; 96])
        ensures
            out@ == self.wire(),
    {
        let mut out = [0u8; 96];
        write_at(&mut out, 0, &self.cm);
        write_at(&mut out, 32, &self.k);
        write_at(&mut out, 64, &self.s);
        assert(out@ =~= self.wire());
        out
    }

    /// The record that `bytes` encode, where they encode one: every string of
    /// 96 bytes does.
    pub open spec fn from_wire(bytes: Seq<u8>) -> MintData {
        choose|data: MintData| data.wire() == bytes
    }

    pub fn deserialize(bytes: &[u8; 96]) -> (data: MintData)
        ensures
            data == MintData::from_wire(bytes@),
            data.wire() == bytes@,
            data.cm@ == bytes@.subrange(0, 32),
            data.k@ == bytes@.subrange(32, 64),
            data.s@ == bytes@.subrange(64, 96),
    {
        let data = MintData { cm: read_at(bytes, 0), k: read_at(bytes, 32), s: read_at(bytes, 64) };
        assert(data.wire() =~= bytes@);
        proof {
            lemma_mint_data_wire_injective(MintData::from_wire(bytes@), data);
        }
        data
    }

    /// The bytes to commit to, under the opening `s`, to recompute the
    /// commitment of this record for a coin of `value`.
    pub fn payload(&self, value: u64) -> (bytes: Vec<u8>)
        ensures
            bytes@ == cm_preimage(value, self.k),
    {
        commitment_payload(value, &self.k)
    }

    /// Whether the record is consistent: the commitment scheme, run on
    /// `payload` under the opening `s`, gave `recommitted`, and that is the
    /// commitment of the record.
    pub fn sanity_check(&self, recommitted: &Option<[u8; 32]>) -> (consistent: bool)
        ensures
            consistent == (*recommitted == Some(self.cm)),
    {
        match recommitted {
            Some(cm) => bytes_eq(cm, &self.cm),
            None => false,
        }
    }
}

impl SenderData {
    /// The leg on the wire: `sn || root || k`.
    pub open spec fn wire(self) -> Seq<u8> {
        self.sn@ + self.root@ + self.k@
    }

    pub fn serialize(&self) -> (out: [u8; 96])
        ensures
            out@ == self.wire(),
    {
        let mut out = [0u8; 96];
        write_at(&mut out, 0, &self.sn);
        write_at(&mut out, 32, &self.root);
        write_at(&mut out, 64, &self.k);
        assert(out@ =~= self.wire());
        out
    }

    /// The leg that `bytes` encode, where they encode one: every string of 96
    /// bytes does.
    pub open spec fn from_wire(bytes: Seq<u8>) -> SenderData {
        choose|data: SenderData| data.wire() == bytes
    }

    pub fn deserialize(bytes: &[u8; 96]) -> (data: SenderData)
        ensures
            data == SenderData::from_wire(bytes@),
            data.wire() == bytes@,
            data.sn@ == bytes@.subrange(0, 32),
            data.root@ == bytes@.subrange(32, 64),
            data.k@ == bytes@.subrange(64, 96),
    {
        let data = SenderData {
            sn: read_at(bytes, 0),
            root: read_at(bytes, 32),
            k: read_at(bytes, 64),
        };
        assert(data.wire() =~= bytes@);
        proof {
            lemma_sender_data_wire_injective(SenderData::from_wire(bytes@), data);
        }
        data
    }
}

impl ReceiverData {
    /// The leg on the wire: `cm || cipher || k`.
    pub open spec fn wire(self) -> Seq<u8> {
        self.cm@ + self.cipher@ + self.k@
    }

    pub fn serialize(&self) -> (out: [u8; 80])
        ensures
            out@ == self.wire(),
    {
        let mut out = [0u8; 80];
        write_at(&mut out, 0, &self.cm);
        write_at(&mut out, 32, &self.cipher);
        write_at(&mut out, 48, &self.k);
        assert(out@ =~= self.wire());
        out
    }

    /// The leg that `bytes` encode, where they encode one: every string of 80
    /// bytes does.
    pub open spec fn from_wire(bytes: Seq<u8>) -> ReceiverData {
        choose|data: ReceiverData| data.wire() == bytes
    }

    pub fn deserialize(bytes: &[u8; 80]) -> (data: ReceiverData)
        ensures
            data == ReceiverData::from_wire(bytes@),
            data.wire() == bytes@,
            data.cm@ == bytes@.subrange(0, 32),
            data.cipher@ == bytes@.subrange(32, 48),
            data.k@ == bytes@.subrange(48, 80),
    {
        let data = ReceiverData {
            cm: read_at(bytes, 0),
            cipher: read_at(bytes, 32),
            k: read_at(bytes, 48),
        };
        assert(data.wire() =~= bytes@);
        proof {
            lemma_receiver_data_wire_injective(ReceiverData::from_wire(bytes@), data);
        }
        data
    }

    /// The coin that this leg adds to the ledger.
    pub fn coin(&self) -> (coin: MantaCoin)
        ensures
            coin.cm_bytes == self.cm,
            coin.cipher == self.cipher,
    {
        MantaCoin { cm_bytes: self.cm, cipher: self.cipher }
    }
}

/// Two minting records with the same encoding are the same record.
pub proof fn lemma_mint_data_wire_injective(a: MintData, b: MintData)
    requires
        a.wire() == b.wire(),
    ensures
        a == b,
{
    lemma_split3(a.cm@, a.k@, a.s@, b.cm@, b.k@, b.s@);
    assert(a.cm =~= b.cm);
    assert(a.k =~= b.k);
    assert(a.s =~= b.s);
}

/// Two sender legs with the same encoding are the same leg.
pub proof fn lemma_sender_data_wire_injective(a: SenderData, b: SenderData)
    requires
        a.wire() == b.wire(),
    ensures
        a == b,
{
    lemma_split3(a.sn@, a.root@, a.k@, b.sn@, b.root@, b.k@);
    assert(a.sn =~= b.sn);
    assert(a.root =~= b.root);
    assert(a.k =~= b.k);
}

/// Two receiver legs with the same encoding are the same leg.
pub proof fn lemma_receiver_data_wire_injective(a: ReceiverData, b: ReceiverData)
    requires
        a.wire() == b.wire(),
    ensures
        a == b,
{
    lemma_split3(a.cm@, a.cipher@, a.k@, b.cm@, b.cipher@, b.k@);
    assert(a.cm =~= b.cm);
    assert(a.cipher =~= b.cipher);
    assert(a.k =~= b.k);
}

/// Decoding the encoding of a minting record gives the record back.
pub proof fn lemma_mint_data_round_trip(data: MintData)
    ensures
        MintData::from_wire(data.wire()) == data,
{
    lemma_mint_data_wire_injective(MintData::from_wire(data.wire()), data);
}

/// Decoding the encoding of a sender leg gives the leg back.
pub proof fn lemma_sender_data_round_trip(data: SenderData)
    ensures
        SenderData::from_wire(data.wire()) == data,
{
    lemma_sender_data_wire_injective(SenderData::from_wire(data.wire()), data);
}

/// Decoding the encoding of a receiver leg gives the leg back.
pub proof fn lemma_receiver_data_round_trip(data: ReceiverData)
    ensures
        ReceiverData::from_wire(data.wire()) == data,
{
    lemma_receiver_data_wire_injective(ReceiverData::from_wire(data.wire()), data);
}

/// Two concatenations of three parts of the same widths are equal only if the
/// parts are.
proof fn lemma_split3(a: Seq<u8>, b: Seq<u8>, c: Seq<u8>, x: Seq<u8>, y: Seq<u8>, z: Seq<u8>)
    requires
        a + b + c == x + y + z,
        a.len() == x.len(),
        b.len() == y.len(),
    ensures
        a == x,
        b == y,
        c == z,
{
    let l = a + b + c;
    let r = x + y + z;
    assert(l.len() == r.len());
    assert forall|i: int| 0 <= i < a.len() implies a[i] == x[i] by {
        assert(l[i] == r[i]);
    }
    assert forall|i: int| 0 <= i < b.len() implies b[i] == y[i] by {
        assert(l[a.len() + i] == r[a.len() + i]);
    }
    assert forall|i: int| 0 <= i < c.len() implies c[i] == z[i] by {
        assert(l[a.len() + b.len() + i] == r[a.len() + b.len() + i]);
    }
    assert(a =~= x);
    assert(b =~= y);
    assert(c =~= z);
}

} // verus!
