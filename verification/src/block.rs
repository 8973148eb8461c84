//! Blocks, their identity and their validity checks.

use vstd::prelude::*;
use crate::digest::{sha256, sha256_of, DIGEST_LEN};
use crate::encoding::{encode_header, header_encoding};

verus! {

/// The part of a block that is hashed to give the block its identity.
#[derive(Clone, Debug, PartialEq, Eq)]
pub struct BlockHeader {
    /// Position of the block in the chain.
    pub height: u64,
    /// Seconds since the epoch.
    pub timestamp: i64,
    /// Identity of the preceding block.
    pub prev_hash: Vec<u8>,
    /// The value that the proof-of-work search varies.
    pub nonce: u64,
    /// Encodes the target that the block's hash has to meet.
    pub difficulty: u32,
    /// Merkle root of the block's transactions.
    pub merkle_root: Vec<u8>,
}

/// The contents of a [`BlockHeader`].
pub struct BlockHeaderView {
    pub height: u64,
    pub timestamp: i64,
    pub prev_hash: Seq<u8>,
    pub nonce: u64,
    pub difficulty: u32,
    pub merkle_root: Seq<u8>,
}

impl View for BlockHeader {
    type V = BlockHeaderView;

    open spec fn view(&self) -> BlockHeaderView {
        BlockHeaderView {
            height: self.height,
            timestamp: self.timestamp,
            prev_hash: self.prev_hash@,
            nonce: self.nonce,
            difficulty: self.difficulty,
            merkle_root: self.merkle_root@,
        }
    }
}

/// A transaction as the consensus rules see it: its identifying digest,
/// which the transaction layer computes, and its encoded body, which is
/// carried along unread.
#[derive(Clone, Debug, PartialEq, Eq)]
pub struct Transaction {
    /// The transaction's canonical identifying digest.
    pub id: Vec<u8>,
    /// The encoded transaction.
    pub payload: Vec<u8>,
}

/// The contents of a [`Transaction`].
pub struct TransactionView {
    pub id: Seq<u8>,
    pub payload: Seq<u8>,
}

impl View for Transaction {
    type V = TransactionView;

    open spec fn view(&self) -> TransactionView {
        TransactionView { id: self.id@, payload: self.payload@ }
    }
}

impl Transaction {
    /// The transaction's identifying digest.
    pub fn txid(&self) -> (id: Vec<u8>)
        ensures
            id@ == self@.id,
    {
        self.id.clone()
    }
}

/// A header, the transactions it commits to, and the cached identity of the
/// block. Neither the cached hash nor the header's Merkle root is checked
/// when a block is built: checking is a separate step.
#[derive(Clone, Debug, PartialEq, Eq)]
pub struct Block {
    pub header: BlockHeader,
    /// The order of the transactions decides the Merkle root.
    pub transactions: Vec<Transaction>,
    /// The double digest of the header, as claimed by whoever built the block.
    pub hash: Vec<u8>,
}

/// The contents of a [`Block`].
pub struct BlockView {
    pub header: BlockHeaderView,
    pub transactions: Seq<TransactionView>,
    pub hash: Seq<u8>,
}

impl View for Block {
    type V = BlockView;

    open spec fn view(&self) -> BlockView {
        BlockView {
            header: self.header@,
            transactions: Seq::new(self.transactions@.len(), |i: int| self.transactions@[i]@),
            hash: self.hash@,
        }
    }
}

impl BlockView {
    /// The identifying digests of the block's transactions, in block order.
    pub open spec fn txids(self) -> Seq<Seq<u8>> {
        Seq::new(self.transactions.len(), |i: int| self.transactions[i].id)
    }
}

/// The identity of a block with header `h`: the digest of the digest of the
/// header's canonical encoding.
pub open spec fn double_hash(h: BlockHeaderView) -> Seq<u8> {
    sha256_of(sha256_of(header_encoding(h)))
}

/// The root of the empty transaction list: 32 zero bytes.
pub open spec fn zero_digest() -> Seq<u8> {
    Seq::new(DIGEST_LEN as nat, |i: int| 0u8)
}

/// A level of the Merkle tree with its last node repeated if the level is
/// of odd length.
pub open spec fn pad_even(level: Seq<Seq<u8>>) -> Seq<Seq<u8>> {
    if level.len() % 2 == 1 {
        level.push(level.last())
    } else {
        level
    }
}

/// The next level of the Merkle tree above a level of even length: one
/// digest of the concatenation of each pair of neighbours.
pub open spec fn pair_up(level: Seq<Seq<u8>>) -> Seq<Seq<u8>> {
    Seq::new(level.len() / 2, |i: int| sha256_of(level[2 * i] + level[2 * i + 1]))
}

/// The Merkle root over the transaction ids `ids`.
///
/// No id gives the zero digest and a single id is its own root. Otherwise
/// the level is padded to even length, neighbours are combined, and the
/// root is the root of the level above.
pub open spec fn merkle_root(ids: Seq<Seq<u8>>) -> Seq<u8>
    decreases ids.len(),
{
    if ids.len() == 0 {
        zero_digest()
    } else if ids.len() == 1 {
        ids[0]
    } else {
        merkle_root(pair_up(pad_even(ids)))
    }
}

/// The byte strings held by a vector of byte vectors.
spec fn rows(v: Seq<Vec<u8>>) -> Seq<Seq<u8>> {
    Seq::new(v.len(), |i: int| v[i]@)
}

/// Combines the neighbours of a level of even length.
fn combine_pairs(level: &Vec<Vec<u8>>) -> (next: Vec<Vec<u8>>)
    requires
        level.len() % 2 == 0,
    ensures
        rows(next@) == pair_up(rows(level@)),
        forall|k: int| 0 <= k < next@.len() ==> (#[trigger] next@[k])@.len() == DIGEST_LEN,
{
    let mut next: Vec<Vec<u8>> = Vec::new();
    let mut i: usize = 0;
    while i < level.len()
        invariant
            level.len() % 2 == 0,
            i % 2 == 0,
            i <= level.len(),
            next@.len() == i / 2,
            forall|k: int| 0 <= k < next@.len() ==> #[trigger] next@[k]@ == pair_up(rows(level@))[k],
            forall|k: int| 0 <= k < next@.len() ==> (#[trigger] next@[k])@.len() == DIGEST_LEN,
        decreases level.len() - i,
    {
        let mut joined = level[i].clone();
        joined.extend_from_slice(level[i + 1].as_slice());
        assert(joined@ =~= level@[i as int]@ + level@[i + 1]@);
        next.push(sha256(joined.as_slice()));
        i += 2;
    }
    next
}

impl Block {
    /// Computes the double digest of the header.
    ///
    /// The result depends on the header's contents alone.
    pub fn hash_header(&self) -> (out: Vec<u8>)
        ensures
            out@ == double_hash(self@.header),
            out@.len() == DIGEST_LEN,
    {
        let encoded = encode_header(&self.header);
        let once = sha256(encoded.as_slice());
        sha256(once.as_slice())
    }

    /// Checks the block's proof of work: the cached hash has to be the
    /// double digest of the header, and `valid_pow`, the target check, has to
    /// accept that hash under the header's difficulty.
    ///
    /// The hash is compared first. Where it differs the block is rejected
    /// and `valid_pow` is not consulted.
    pub fn verify_pow<F: Fn(&Vec<u8>, u32) -> bool>(&self, valid_pow: F) -> (ok: bool)
        requires
            valid_pow.requires((&self.hash, self.header.difficulty)),
        ensures
            self@.hash != double_hash(self@.header) ==> !ok,
            self@.hash == double_hash(self@.header) ==> valid_pow.ensures(
                (&self.hash, self.header.difficulty),
                ok,
            ),
    {
        let expected = self.hash_header();
        let matches = self.hash == expected;
        assert(matches == (self.hash@ =~= expected@));
        matches && valid_pow(&self.hash, self.header.difficulty)
    }

    /// Computes the Merkle root over the block's transactions.
    ///
    /// The root is a digest of 32 bytes, except where the block holds a
    /// single transaction, whose id is the root as it stands.
    pub fn calculate_merkle_root(&self) -> (root: Vec<u8>)
        ensures
            root@ == merkle_root(self@.txids()),
            self@.transactions.len() != 1 ==> root@.len() == DIGEST_LEN,
    {
        let n = self.transactions.len();
        if n == 0 {
            return vec![0u8; DIGEST_LEN];
        }
        let mut hashes: Vec<Vec<u8>> = Vec::new();
        let mut i: usize = 0;
        while i < n
            invariant
                n == self.transactions.len(),
                i <= n,
                hashes@.len() == i,
                forall|k: int| 0 <= k < i ==> #[trigger] hashes@[k]@ == self.transactions@[k].id@,
            decreases n - i,
        {
            hashes.push(self.transactions[i].txid());
            i += 1;
        }
        assert(rows(hashes@) =~= self@.txids());
        let ghost mut combined = false;
        while hashes.len() > 1
            invariant
                hashes.len() >= 1,
                merkle_root(rows(hashes@)) == merkle_root(self@.txids()),
                !combined ==> hashes.len() == self@.transactions.len(),
                combined ==> forall|k: int|
                    0 <= k < hashes@.len() ==> (#[trigger] hashes@[k])@.len() == DIGEST_LEN,
            decreases hashes.len(),
        {
            let ghost before = rows(hashes@);
            if hashes.len() % 2 != 0 {
                let last = hashes[hashes.len() - 1].clone();
                hashes.push(last);
            }
            assert(rows(hashes@) =~= pad_even(before));
            hashes = combine_pairs(&hashes);
            assert(rows(hashes@).len() == pair_up(pad_even(before)).len());
            proof {
                combined = true;
            }
        }
        hashes[0].clone()
    }
}

/// The identity of a block depends on the contents of its header alone:
/// headers with the same contents have the same double digest.
pub proof fn double_hash_is_a_function_of_contents(a: BlockHeader, b: BlockHeader)
    requires
        a@ == b@,
    ensures
        double_hash(a@) == double_hash(b@),
{
}

/// The Merkle root of no transactions is 32 zero bytes.
pub proof fn merkle_root_of_none()
    ensures
        merkle_root(Seq::<Seq<u8>>::empty()) == zero_digest(),
        zero_digest().len() == 32,
        forall|i: int| 0 <= i < 32 ==> zero_digest()[i] == 0u8,
{
}

/// The Merkle root of a single transaction is its id, with no digest
/// applied.
pub proof fn merkle_root_of_one(id: Seq<u8>)
    ensures
        merkle_root(seq![id]) == id,
{
}

/// The Merkle root of two transactions is one digest of their ids joined.
pub proof fn merkle_root_of_two(id0: Seq<u8>, id1: Seq<u8>)
    ensures
        merkle_root(seq![id0, id1]) == sha256_of(id0 + id1),
{
    reveal_with_fuel(merkle_root, 2);
}

/// A level of odd length has the root of the level with its last id
/// repeated.
pub proof fn merkle_root_of_odd_level(ids: Seq<Seq<u8>>)
    requires
        ids.len() % 2 == 1,
        ids.len() > 1,
    ensures
        merkle_root(ids) == merkle_root(ids.push(ids.last())),
{
}

/// The Merkle root of three transactions pairs the third id with itself:
/// it is the digest of the digest of the first two ids joined, followed by
/// the digest of the third id joined to itself.
pub proof fn merkle_root_of_three(id0: Seq<u8>, id1: Seq<u8>, id2: Seq<u8>)
    ensures
        merkle_root(seq![id0, id1, id2]) == sha256_of(
            sha256_of(id0 + id1) + sha256_of(id2 + id2),
        ),
{
    let above = seq![sha256_of(id0 + id1), sha256_of(id2 + id2)];
    assert(pair_up(pad_even(seq![id0, id1, id2])) =~= above);
    merkle_root_of_two(above[0], above[1]);
}

} // verus!
