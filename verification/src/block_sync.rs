//! Planning of the block ranges that a history synchronisation asks for.
//!
//! The store remembers one interval of blocks that were indexed before. A synchronisation walks
//! from the current block downwards, in ranges of at most [`MAX_BLOCK_RANGE`] blocks, until it
//! meets the top of that interval; it then jumps to the bottom of the interval and walks on
//! until it reaches the genesis block. It does not get past a range below which there is no room
//! for a full one.

use vstd::prelude::*;

verus! {

/// The widest block range that is requested at once.
pub const MAX_BLOCK_RANGE: u64 = 1000;

/// The range from `start_block` to `end_block`, both ends included.
#[derive(Clone, Copy, Debug, PartialEq, Eq, Structural)]
pub struct BlockRange {
    pub start_block: u64,
    pub end_block: u64,
}

/// The state of a synchronisation, over mathematical integers.
pub struct SyncView {
    /// The newest block of the chain when the synchronisation began.
    pub current: int,
    /// The block below which there is nothing to index.
    pub genesis: int,
    /// The bottom of the interval that was indexed before.
    pub earliest: int,
    /// The top of the interval that was indexed before.
    pub latest: int,
    /// The bottom of the next range, before it is fitted to the indexed interval.
    pub start: int,
    /// The top of the next range.
    pub end: int,
}

/// The larger of two integers.
pub open spec fn larger(a: int, b: int) -> int {
    if a >= b {
        a
    } else {
        b
    }
}

/// The value of an optional block number, as an integer.
pub open spec fn block_number_of(block: Option<u64>) -> Option<int> {
    match block {
        Some(number) => Some(number as int),
        None => None,
    }
}

impl SyncView {
    /// The state in which a synchronisation begins. A stored earliest block of 0 says that
    /// nothing has been indexed yet: the indexed interval is then the current block alone.
    pub open spec fn opening(current: int, stored: (int, int), genesis: int) -> SyncView {
        SyncView {
            current,
            genesis,
            earliest: if stored.0 == 0 {
                current
            } else {
                stored.0
            },
            latest: if stored.0 == 0 {
                current
            } else {
                stored.1
            },
            start: current - MAX_BLOCK_RANGE,
            end: current,
        }
    }

    /// Nothing is left to ask for.
    pub open spec fn finished(self) -> bool {
        self.end <= self.genesis
    }

    /// The bottom of the next range: a range does not reach below the top of the indexed
    /// interval if it begins above it.
    pub open spec fn range_start(self) -> int {
        if self.start < self.latest && self.end > self.latest {
            self.latest
        } else {
            self.start
        }
    }

    /// The next range ends exactly where the indexed interval begins.
    pub open spec fn joins(self) -> bool {
        self.range_start() == self.latest
    }

    /// The top of the range after the next one.
    pub open spec fn next_end(self) -> int {
        if self.joins() {
            self.earliest
        } else {
            self.range_start()
        }
    }

    /// The bottom of the range after the next one.
    pub open spec fn next_start(self) -> int {
        larger(self.next_end() - MAX_BLOCK_RANGE, self.genesis)
    }

    /// The next range can be completed: there is room for a full range below the top of the range
    /// after it. A synchronisation does not get past a range of which this does not hold.
    pub open spec fn completable(self) -> bool {
        self.next_end() >= MAX_BLOCK_RANGE
    }

    /// The state once the next range has been completed.
    pub open spec fn advanced(self) -> SyncView {
        SyncView { start: self.next_start(), end: self.next_end(), ..self }
    }

    /// The latest block that is recorded once the next range has been processed, before it is
    /// completed.
    pub open spec fn latest_update(self) -> Option<int> {
        if self.joins() {
            Some(self.current)
        } else {
            None
        }
    }

    /// The earliest block that is recorded once the next range has been completed.
    pub open spec fn earliest_update(self) -> Option<int> {
        if self.next_start() < self.earliest {
            Some(self.next_start())
        } else {
            None
        }
    }

    /// The state is one that a synchronisation can be in: while it is not finished, the next
    /// range holds a block below its top and is no wider than the limit.
    pub open spec fn well_formed(self) -> bool {
        self.end > self.genesis ==> self.end - MAX_BLOCK_RANGE <= self.start < self.end
    }

    /// The state is well formed, its blocks are not negative, and what was indexed before is an
    /// interval or ends below the genesis block.
    pub open spec fn ready(self) -> bool {
        &&& self.well_formed()
        &&& 0 <= self.genesis
        &&& 0 <= self.start
        &&& 0 <= self.earliest
        &&& self.earliest <= self.latest || self.latest < self.genesis
    }
}

/// A synchronisation of the history from the current block down to the genesis block.
#[derive(Clone, Copy, Debug)]
pub struct BlockSync {
    current_block: u64,
    genesis_block: u64,
    earliest_block_synced: u64,
    latest_block_synced: u64,
    start_block: u64,
    end_block: u64,
}

impl View for BlockSync {
    type V = SyncView;

    closed spec fn view(&self) -> SyncView {
        SyncView {
            current: self.current_block as int,
            genesis: self.genesis_block as int,
            earliest: self.earliest_block_synced as int,
            latest: self.latest_block_synced as int,
            start: self.start_block as int,
            end: self.end_block as int,
        }
    }
}

impl BlockSync {
    #[verifier::type_invariant]
    spec fn inv(self) -> bool {
        self@.well_formed()
    }

    /// Begins a synchronisation at `current_block`. `stored` holds the earliest and the latest
    /// block that the store remembers.
    pub fn begin(current_block: u64, stored: (u64, u64), genesis_block: u64) -> (sync: BlockSync)
        requires
            current_block >= MAX_BLOCK_RANGE,
        ensures
            sync@ == SyncView::opening(
                current_block as int,
                (stored.0 as int, stored.1 as int),
                genesis_block as int,
            ),
            sync@.well_formed(),
            sync@.current == current_block,
            sync@.genesis == genesis_block,
            sync@.end == current_block,
            sync@.start == current_block - 1000,
            stored.0 == 0 ==> sync@.earliest == current_block && sync@.latest == current_block,
            stored.0 != 0 ==> sync@.earliest == stored.0 && sync@.latest == stored.1,
    {
        let (earliest_block, latest_block) = stored;
        let (earliest_block_synced, latest_block_synced): (u64, u64) = if earliest_block == 0 {
            (current_block, current_block)
        } else {
            (earliest_block, latest_block)
        };
        BlockSync {
            current_block,
            genesis_block,
            earliest_block_synced,
            latest_block_synced,
            start_block: current_block - MAX_BLOCK_RANGE,
            end_block: current_block,
        }
    }

    /// The range to ask for next, or `None` where the synchronisation is finished.
    pub fn next_range(&self) -> (range: Option<BlockRange>)
        ensures
            range is None <==> self@.finished(),
            range matches Some(r) ==> {
                &&& r.start_block == self@.range_start()
                &&& r.end_block == self@.end
                &&& r.start_block < r.end_block
                &&& r.end_block - r.start_block <= MAX_BLOCK_RANGE
                &&& self@.genesis < r.end_block
                &&& if self@.start < self@.latest < self@.end {
                    r.start_block == self@.latest
                } else {
                    r.start_block == self@.start
                }
            },
    {
        proof {
            use_type_invariant(self);
        }
        if self.end_block <= self.genesis_block {
            return None;
        }
        Some(BlockRange { start_block: self.range_start_block(), end_block: self.end_block })
    }

    fn range_start_block(&self) -> (start: u64)
        ensures
            start == self@.range_start(),
    {
        if self.start_block < self.latest_block_synced && self.end_block
            > self.latest_block_synced {
            self.latest_block_synced
        } else {
            self.start_block
        }
    }

    /// The latest block to record once the range that [`BlockSync::next_range`] gave has been
    /// processed: the current one, where that range joins the indexed interval.
    pub fn latest_update(&self) -> (latest_block: Option<u64>)
        ensures
            block_number_of(latest_block) == self@.latest_update(),
            latest_block is Some <==> (self@.start == self@.latest || self@.start < self@.latest
                < self@.end),
            latest_block matches Some(block) ==> block == self@.current,
    {
        if self.range_start_block() == self.latest_block_synced {
            Some(self.current_block)
        } else {
            None
        }
    }

    /// The top of the range after the next one. [`BlockSync::complete_range`] needs it to be
    /// [`MAX_BLOCK_RANGE`] or more.
    pub fn next_end_block(&self) -> (end_block: u64)
        ensures
            end_block == self@.next_end(),
            end_block == (if self@.start == self@.latest || self@.start < self@.latest
                < self@.end {
                self@.earliest
            } else {
                self@.start
            }),
    {
        let start_block: u64 = self.range_start_block();
        if start_block == self.latest_block_synced {
            self.earliest_block_synced
        } else {
            start_block
        }
    }

    /// Moves on past the range that [`BlockSync::next_range`] gave, and returns the earliest
    /// block to record, if there is one.
    pub fn complete_range(&mut self) -> (earliest_block: Option<u64>)
        requires
            old(self)@.completable(),
        ensures
            final(self)@ == old(self)@.advanced(),
            final(self)@.well_formed(),
            block_number_of(earliest_block) == old(self)@.earliest_update(),
            earliest_block is Some <==> final(self)@.start < old(self)@.earliest,
            earliest_block matches Some(block) ==> block == final(self)@.start,
            final(self)@.current == old(self)@.current,
            final(self)@.genesis == old(self)@.genesis,
            final(self)@.earliest == old(self)@.earliest,
            final(self)@.latest == old(self)@.latest,
    {
        let end_block: u64 = self.next_end_block();
        let mut start_block: u64 = end_block - MAX_BLOCK_RANGE;
        if start_block <= self.genesis_block {
            start_block = self.genesis_block;
        }
        *self = BlockSync {
            current_block: self.current_block,
            genesis_block: self.genesis_block,
            earliest_block_synced: self.earliest_block_synced,
            latest_block_synced: self.latest_block_synced,
            start_block,
            end_block,
        };
        if start_block < self.earliest_block_synced {
            Some(start_block)
        } else {
            None
        }
    }
}

} // verus!
