//! Bookkeeping of the indexer of on-chain `Tint` events.
//!
//! The indexer stages the commitments announced by deposits and commitment
//! events, and posts them in first-in first-out order when the on-chain
//! aggregation ring advances. Here stands what it decides: which commitments
//! are staged and posted, which block range to fetch next, and which errors
//! an event or a request raises. Folding the posted commitments into the
//! aggregation hash and appending them to the Merkle tree is the work of the
//! tree that the caller keeps; it receives the posted commitments, in order,
//! from [`IndexerState::advance`], [`IndexerState::commit`] and
//! [`IndexerState::apply_event`].

use vstd::prelude::*;

use crate::bytes::{AddressBytes, Word};

verus! {

/// Errors of the indexer.
#[derive(Debug)]
pub enum IndexerError {
    /// The Merkle tree refused an update.
    MerkleTree(String),
    /// The event source failed.
    Syncer(String),
    /// The on-chain verification of the local state failed.
    Verifier(String),
    /// More commitments were asked for than fit in one subtree append.
    SubtreeCountTooLarge(usize),
    /// More commitments were asked for than are staged.
    InsufficientStagedCommitments,
}

/// An event emitted by the `Tint` contract.
#[derive(Clone, Debug)]
pub enum Event {
    /// `Deposited(bytes32 commitment, address asset, uint128 amount, bytes encryptedPartial)`.
    Deposit { commitment: Word, asset: AddressBytes, amount: u128, encrypted_partial: Vec<u8> },
    /// `Committed(bytes32 commitment, bytes encryptedNote)`.
    Committed { commitment: Word, encrypted_note: Vec<u8> },
    /// `Nullified(bytes32 nullifier)`.
    Nullified { nullifier: Word },
    /// `Withdrawn(address asset, uint128 amount, address recipient)`.
    Withdrawn { asset: AddressBytes, amount: u128, recipient: AddressBytes },
    /// `AggregationAdvanced(uint128 index, bytes32 root)`.
    AggregationAdvanced { index: u128, root: Word },
}

/// The persistent state of the indexer. `SUBTREE_SIZE` is the largest number
/// of commitments that one subtree append posts.
#[derive(Clone, Debug)]
pub struct IndexerState<const SUBTREE_SIZE: usize> {
    /// The number of commitments staged since the state was created.
    pub total_staged: u64,
    /// The commitments staged and not yet posted, oldest first.
    pub staged_commitments: Vec<Word>,
    /// The number of commitments posted to the tree: the index of the
    /// currently posted aggregation hash.
    pub posted_count: u128,
    /// The last block whose events have been applied.
    pub last_synced_block: u64,
}

impl<const SUBTREE_SIZE: usize> IndexerState<SUBTREE_SIZE> {
    /// Every commitment ever staged has been posted or is still staged.
    pub open spec fn accounted(&self) -> bool {
        self.total_staged == self.posted_count + self.staged_commitments@.len()
    }

    /// The state of a fresh indexer: nothing staged, posted or synced.
    pub fn new() -> (s: Self)
        ensures
            s.total_staged == 0,
            s.staged_commitments@ == Seq::<Word>::empty(),
            s.posted_count == 0,
            s.last_synced_block == 0,
            s.accounted(),
    {
        IndexerState {
            total_staged: 0,
            staged_commitments: Vec::new(),
            posted_count: 0,
            last_synced_block: 0,
        }
    }

    /// Returns the index of the currently posted aggregation hash.
    pub fn posted_aggregation_index(&self) -> (r: u128)
        ensures
            r == self.posted_count,
    {
        self.posted_count
    }

    /// Returns the number of staged commitments that have not been posted.
    pub fn staged_count(&self) -> (r: u128)
        ensures
            r == self.staged_commitments@.len(),
    {
        self.staged_commitments.len() as u128
    }

    /// Stage a commitment for inclusion in the next [`Self::commit`].
    pub fn stage(&mut self, commitment: Word)
        requires
            old(self).total_staged < u64::MAX,
        ensures
            final(self).total_staged == old(self).total_staged + 1,
            final(self).staged_commitments@ == old(self).staged_commitments@.push(commitment),
            final(self).posted_count == old(self).posted_count,
            final(self).last_synced_block == old(self).last_synced_block,
            old(self).accounted() ==> final(self).accounted(),
    {
        self.total_staged = self.total_staged + 1;
        self.staged_commitments.push(commitment);
    }

    /// Advance the aggregation ring by `count`: the oldest `count` staged
    /// commitments are posted and returned, oldest first, for the tree to
    /// append and fold into the aggregation hash.
    pub fn advance(&mut self, count: usize) -> (r: Result<Vec<Word>, IndexerError>)
        requires
            old(self).posted_count + SUBTREE_SIZE <= u128::MAX,
        ensures
            final(self).total_staged == old(self).total_staged,
            final(self).last_synced_block == old(self).last_synced_block,
            old(self).accounted() ==> final(self).accounted(),
            match r {
                Ok(posted) => {
                    &&& count <= SUBTREE_SIZE
                    &&& count <= old(self).staged_commitments@.len()
                    &&& posted@ == old(self).staged_commitments@.take(count as int)
                    &&& final(self).staged_commitments@ == old(self).staged_commitments@.skip(count as int)
                    &&& final(self).posted_count == old(self).posted_count + count
                },
                Err(IndexerError::SubtreeCountTooLarge(c)) => {
                    &&& count > SUBTREE_SIZE
                    &&& c == count
                    &&& final(self).staged_commitments@ == old(self).staged_commitments@
                    &&& final(self).posted_count == old(self).posted_count
                },
                Err(IndexerError::InsufficientStagedCommitments) => {
                    &&& count <= SUBTREE_SIZE
                    &&& count > old(self).staged_commitments@.len()
                    &&& final(self).staged_commitments@ == old(self).staged_commitments@
                    &&& final(self).posted_count == old(self).posted_count
                },
                Err(_) => false,
            },
    {
        if count > SUBTREE_SIZE {
            return Err(IndexerError::SubtreeCountTooLarge(count));
        }
        if count > self.staged_commitments.len() {
            return Err(IndexerError::InsufficientStagedCommitments);
        }
        let ghost old_staged = self.staged_commitments@;
        let mut posted: Vec<Word> = Vec::new();
        let mut rest: Vec<Word> = Vec::new();
        let mut i: usize = 0;
        while i < self.staged_commitments.len()
            invariant
                self.staged_commitments@ == old_staged,
                count <= old_staged.len(),
                i <= old_staged.len(),
                i <= count ==> posted@ == old_staged.take(i as int) && rest@.len() == 0,
                i > count ==> posted@ == old_staged.take(count as int)
                    && rest@ == old_staged.subrange(count as int, i as int),
            decreases old_staged.len() - i,
        {
            if i < count {
                posted.push(self.staged_commitments[i]);
                assert(posted@ =~= old_staged.take(i + 1));
            } else {
                rest.push(self.staged_commitments[i]);
                assert(rest@ =~= old_staged.subrange(count as int, i + 1));
            }
            i = i + 1;
        }
        assert(posted@ =~= old_staged.take(count as int));
        assert(rest@ =~= old_staged.skip(count as int));
        self.staged_commitments = rest;
        self.posted_count = self.posted_count + count as u128;
        Ok(posted)
    }

    /// Posts up to `SUBTREE_SIZE` staged commitments, oldest first, and
    /// returns them for the tree to append.
    pub fn commit(&mut self) -> (r: Result<Vec<Word>, IndexerError>)
        requires
            old(self).posted_count + SUBTREE_SIZE <= u128::MAX,
        ensures
            final(self).total_staged == old(self).total_staged,
            final(self).last_synced_block == old(self).last_synced_block,
            old(self).accounted() ==> final(self).accounted(),
            ({
                let n = if SUBTREE_SIZE <= old(self).staged_commitments@.len() {
                    SUBTREE_SIZE as int
                } else {
                    old(self).staged_commitments@.len() as int
                };
                &&& r matches Ok(posted)
                &&& posted@ == old(self).staged_commitments@.take(n)
                &&& final(self).staged_commitments@ == old(self).staged_commitments@.skip(n)
                &&& final(self).posted_count == old(self).posted_count + n
            }),
    {
        let len = self.staged_commitments.len();
        let count = if SUBTREE_SIZE <= len { SUBTREE_SIZE } else { len };
        self.advance(count)
    }

    /// Applies one contract event: deposits and commitments are staged,
    /// an aggregation advance to `index` posts the staged commitments up to
    /// that index and returns them, and nullifications and withdrawals leave
    /// the state as it is.
    pub fn apply_event(&mut self, event: &Event) -> (r: Result<Option<Vec<Word>>, IndexerError>)
        requires
            old(self).posted_count + SUBTREE_SIZE <= u128::MAX,
            (event is Deposit || event is Committed) ==> old(self).total_staged < u64::MAX,
            *event matches Event::AggregationAdvanced { index, .. } ==> old(self).posted_count <= index,
        ensures
            final(self).last_synced_block == old(self).last_synced_block,
            old(self).accounted() ==> final(self).accounted(),
            match *event {
                Event::Deposit { commitment, .. } | Event::Committed { commitment, .. } => {
                    &&& r matches Ok(None)
                    &&& final(self).total_staged == old(self).total_staged + 1
                    &&& final(self).staged_commitments@ == old(self).staged_commitments@.push(commitment)
                    &&& final(self).posted_count == old(self).posted_count
                },
                Event::AggregationAdvanced { index, .. } => {
                    let count = (index - old(self).posted_count) as usize;
                    &&& final(self).total_staged == old(self).total_staged
                    &&& match r {
                        Ok(Some(posted)) => {
                            &&& count <= SUBTREE_SIZE
                            &&& count <= old(self).staged_commitments@.len()
                            &&& posted@ == old(self).staged_commitments@.take(count as int)
                            &&& final(self).staged_commitments@ == old(self).staged_commitments@.skip(count as int)
                            &&& final(self).posted_count == old(self).posted_count + count
                        },
                        Err(IndexerError::SubtreeCountTooLarge(c)) => {
                            &&& count > SUBTREE_SIZE
                            &&& c == count
                            &&& final(self).staged_commitments@ == old(self).staged_commitments@
                            &&& final(self).posted_count == old(self).posted_count
                        },
                        Err(IndexerError::InsufficientStagedCommitments) => {
                            &&& count <= SUBTREE_SIZE
                            &&& count > old(self).staged_commitments@.len()
                            &&& final(self).staged_commitments@ == old(self).staged_commitments@
                            &&& final(self).posted_count == old(self).posted_count
                        },
                        _ => false,
                    }
                },
                Event::Nullified { .. } | Event::Withdrawn { .. } => {
                    &&& r matches Ok(None)
                    &&& final(self).total_staged == old(self).total_staged
                    &&& final(self).staged_commitments@ == old(self).staged_commitments@
                    &&& final(self).posted_count == old(self).posted_count
                },
            },
    {
        match event {
            Event::Deposit { commitment, .. } => {
                self.stage(*commitment);
                Ok(None)
            },
            Event::Committed { commitment, .. } => {
                self.stage(*commitment);
                Ok(None)
            },
            Event::AggregationAdvanced { index, .. } => {
                let count = *index - self.posted_count;
                let posted = self.advance(count as usize)?;
                Ok(Some(posted))
            },
            Event::Nullified { .. } | Event::Withdrawn { .. } => Ok(None),
        }
    }

    /// The range of blocks to fetch events from, given the latest block of
    /// the chain: nothing when no block is newer than the last synced one.
    pub fn sync_range(&self, latest: u64) -> (r: Option<(u64, u64)>)
        ensures
            r == spec_sync_range(self.last_synced_block, latest),
            latest <= self.last_synced_block ==> r is None,
            latest > self.last_synced_block ==> r == Some(((self.last_synced_block + 1) as u64, latest)),
    {
        if latest <= self.last_synced_block {
            None
        } else {
            Some((self.last_synced_block + 1, latest))
        }
    }

    /// Records that the events up to block `latest` have been applied, and
    /// returns the aggregation index to verify on chain.
    pub fn finish_sync(&mut self, latest: u64) -> (r: u128)
        ensures
            final(self).last_synced_block == latest,
            final(self).total_staged == old(self).total_staged,
            final(self).staged_commitments@ == old(self).staged_commitments@,
            final(self).posted_count == old(self).posted_count,
            r == final(self).posted_count,
    {
        self.last_synced_block = latest;
        self.posted_count
    }
}

/// The blocks to fetch after `last_synced` when the chain is at `latest`.
pub open spec fn spec_sync_range(last_synced: u64, latest: u64) -> Option<(u64, u64)> {
    if latest <= last_synced {
        None
    } else {
        Some(((last_synced + 1) as u64, latest))
    }
}

/// Syncs fetch each block once and skip none: once the events up to the end
/// of a range are applied, no block of that range is fetched again, and the
/// next range starts right after it.
pub proof fn law_sync_ranges_are_contiguous(last_synced: u64, latest: u64, next_latest: u64)
    requires
        spec_sync_range(last_synced, latest) is Some,
    ensures
        spec_sync_range(last_synced, latest).unwrap().0 == last_synced + 1,
        next_latest <= latest ==> spec_sync_range(latest, next_latest) is None,
        next_latest > latest ==> spec_sync_range(latest, next_latest) == Some(((latest + 1) as u64, next_latest)),
{
}

/// A sync fetches every block after the last synced one up to the latest
/// block of the chain, and nothing when the chain has no newer block.
pub proof fn law_sync_range_covers_all_new_blocks(last_synced: u64, latest: u64)
    ensures
        latest <= last_synced ==> spec_sync_range(last_synced, latest) is None,
        latest > last_synced ==> {
            &&& spec_sync_range(last_synced, latest) is Some
            &&& spec_sync_range(last_synced, latest).unwrap().0 == last_synced + 1
            &&& spec_sync_range(last_synced, latest).unwrap().1 == latest
        },
{
}

/// Commitments are posted first-in first-out: posting `count` commitments
/// hands out exactly the staged ones, oldest first, and loses none; and a
/// commitment staged later is posted only after all those staged before it.
pub proof fn law_posting_is_fifo(staged: Seq<Word>, later: Word, count: int)
    requires
        0 <= count <= staged.len(),
    ensures
        staged.take(count) + staged.skip(count) == staged,
        staged.push(later).take(count) == staged.take(count),
        staged.push(later).skip(count) == staged.skip(count).push(later),
{
    assert(staged.take(count) + staged.skip(count) =~= staged);
    assert(staged.push(later).take(count) =~= staged.take(count));
    assert(staged.push(later).skip(count) =~= staged.skip(count).push(later));
}

} // verus!
