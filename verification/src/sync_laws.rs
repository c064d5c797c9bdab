//! What holds of a whole history synchronisation.

use vstd::prelude::*;

use crate::block_sync;
use crate::block_sync::{SyncView, MAX_BLOCK_RANGE};

verus! {

/// Whether a synchronisation in state `s` can still join the indexed interval, as a number that
/// does not grow.
pub open spec fn phase(s: SyncView) -> int {
    if s.latest < s.genesis {
        if s.start < s.genesis {
            1
        } else {
            0
        }
    } else if s.end > s.latest {
        1
    } else {
        0
    }
}

/// What the store remembers is nothing, an interval, or something that ends below the genesis
/// block.
pub open spec fn stored_well(stored: (int, int), genesis: int) -> bool {
    &&& 0 <= stored.0
    &&& stored.0 != 0 ==> stored.0 <= stored.1 || stored.1 < genesis
}

/// The ranges that a synchronisation in state `s` still asks for, in order: up to the one with which
/// it is finished, or up to the first one that cannot be completed.
pub open spec fn plan(s: SyncView) -> Seq<(int, int)>
    decreases phase(s), s.end,
    when s.ready()
{
    if s.finished() {
        Seq::empty()
    } else {
        seq![(s.range_start(), s.end)] + (if s.completable() {
            plan(s.advanced())
        } else {
            Seq::empty()
        })
    }
}

/// The state in which a synchronisation that begins in state `s` asks for its last range.
pub open spec fn last_asking(s: SyncView) -> SyncView {
    after(s, (plan(s).len() - 1) as nat)
}

/// The state that is reached from `s` once `n` ranges have been completed.
pub open spec fn after(s: SyncView, n: nat) -> SyncView
    decreases n,
{
    if n == 0 {
        s
    } else {
        after(s.advanced(), (n - 1) as nat)
    }
}

/// Block `b` lies in one of the ranges.
pub open spec fn asked_for(ranges: Seq<(int, int)>, b: int) -> bool {
    exists|i: int| 0 <= i < ranges.len() && (#[trigger] ranges[i]).0 <= b <= ranges[i].1
}

/// A synchronisation that begins at block [`MAX_BLOCK_RANGE`] or above begins in a ready state.
pub proof fn law_opening_is_ready(current: int, stored: (int, int), genesis: int)
    requires
        current >= MAX_BLOCK_RANGE,
        stored_well(stored, genesis),
        0 <= genesis,
    ensures
        SyncView::opening(current, stored, genesis).ready(),
{
}

/// Completing a range leads from a ready state to a ready state.
pub proof fn law_ready_is_kept(s: SyncView)
    requires
        s.ready(),
    ensures
        s.advanced().ready(),
{
}

/// A synchronisation comes to its end: the ranges it asks for are the planned ones, all of them but
/// the last one can be completed, and once the last one has been completed, if it can be, the
/// synchronisation is finished.
pub proof fn law_sync_follows_its_plan(s: SyncView)
    requires
        s.ready(),
    ensures
        plan(s).len() == 0 <==> s.finished(),
        plan(s).len() > 0 && last_asking(s).completable() ==> after(s, plan(s).len()).finished(),
        forall|i: nat|
            i < plan(s).len() ==> {
                let state = #[trigger] after(s, i);
                &&& state.ready()
                &&& !state.finished()
                &&& plan(s)[i as int] == (state.range_start(), state.end)
                &&& i + 1 < plan(s).len() ==> state.completable()
            },
    decreases plan(s).len(),
{
    if !s.finished() && s.completable() {
        let rest = plan(s.advanced());
        law_ready_is_kept(s);
        law_sync_follows_its_plan(s.advanced());
        assert(plan(s) =~= seq![(s.range_start(), s.end)] + rest);
        assert forall|i: nat| i < plan(s).len() implies {
            let state = #[trigger] after(s, i);
            &&& state.ready()
            &&& !state.finished()
            &&& plan(s)[i as int] == (state.range_start(), state.end)
            &&& i + 1 < plan(s).len() ==> state.completable()
        } by {
            if i > 0 {
                let j = (i - 1) as nat;
                assert(after(s, i) == after(s.advanced(), j));
                assert(plan(s)[i as int] == rest[j as int]);
            }
        }
        if rest.len() > 0 {
            assert(last_asking(s) == last_asking(s.advanced()));
        }
        assert(after(s, plan(s).len()) == after(s.advanced(), rest.len()));
    }
}

/// Every block from the genesis block to the current one is asked for, or was indexed before, as far
/// down as the ranges can be completed: down to [`MAX_BLOCK_RANGE`] in any case, and below that down
/// to where the range after the last one would begin.
pub proof fn law_history_is_covered(current: int, stored: (int, int), genesis: int, b: int)
    requires
        current >= MAX_BLOCK_RANGE,
        stored_well(stored, genesis),
        0 <= genesis < current,
        genesis <= b <= current,
        b >= MAX_BLOCK_RANGE || b >= last_asking(
            SyncView::opening(current, stored, genesis),
        ).next_end(),
    ensures
        asked_for(plan(SyncView::opening(current, stored, genesis)), b) || (stored.0 != 0
            && stored.0 <= b <= stored.1),
{
    let s = SyncView::opening(current, stored, genesis);
    lemma_covered_from(s, b);
    if stored.0 == 0 {
        assert(plan(s)[0] == (s.range_start(), s.end));
    }
}

proof fn lemma_covered_from(s: SyncView, b: int)
    requires
        s.ready(),
        !s.finished(),
        s.genesis <= b <= s.end,
        b >= MAX_BLOCK_RANGE || b >= last_asking(s).next_end(),
    ensures
        asked_for(plan(s), b) || s.earliest <= b <= s.latest,
    decreases plan(s).len(),
{
    assert(plan(s)[0] == (s.range_start(), s.end));
    law_ready_is_kept(s);
    if s.completable() && b < s.range_start() && !(s.earliest <= b <= s.latest) {
        let rest = plan(s.advanced());
        assert(last_asking(s) == last_asking(s.advanced()));
        lemma_covered_from(s.advanced(), b);
        let i = choose|i: int| 0 <= i < rest.len() && (#[trigger] rest[i]).0 <= b <= rest[i].1;
        assert(plan(s)[i + 1] == rest[i]);
    }
}

/// Where the chain has grown past the indexed interval, no range reaches into the inside of
/// that interval.
pub proof fn law_indexed_interval_is_skipped(
    current: int,
    stored: (int, int),
    genesis: int,
    i: int,
)
    requires
        current >= MAX_BLOCK_RANGE,
        0 < stored.0 <= stored.1 < current,
        0 <= genesis,
        0 <= i < plan(SyncView::opening(current, stored, genesis)).len(),
    ensures
        plan(SyncView::opening(current, stored, genesis))[i].0 >= stored.1 || plan(
            SyncView::opening(current, stored, genesis),
        )[i].1 <= stored.0,
{
    lemma_skipped_from(SyncView::opening(current, stored, genesis), i);
}

proof fn lemma_skipped_from(s: SyncView, i: int)
    requires
        s.ready(),
        s.earliest <= s.latest,
        s.end > s.latest || s.end <= s.earliest,
        0 <= i < plan(s).len(),
    ensures
        plan(s)[i].0 >= s.latest || plan(s)[i].1 <= s.earliest,
    decreases plan(s).len(),
{
    law_ready_is_kept(s);
    if i > 0 {
        assert(plan(s)[i] == plan(s.advanced())[i - 1]);
        lemma_skipped_from(s.advanced(), i - 1);
    }
}

/// Each range begins where the one before it left off, or below the indexed interval where the
/// one before it joined that interval.
pub proof fn law_ranges_are_adjacent(s: SyncView, i: int)
    requires
        s.ready(),
        0 <= i,
        i + 1 < plan(s).len(),
    ensures
        plan(s)[i + 1].1 == plan(s)[i].0 || (plan(s)[i].0 == s.latest && plan(s)[i + 1].1
            == s.earliest),
    decreases plan(s).len(),
{
    law_ready_is_kept(s);
    let rest = plan(s.advanced());
    assert(plan(s)[i + 1] == rest[i]);
    if i > 0 {
        assert(plan(s)[i] == rest[i - 1]);
        law_ranges_are_adjacent(s.advanced(), i - 1);
    }
}

/// No range is empty, wider than [`MAX_BLOCK_RANGE`], or above the current block, if no block above
/// the current one was stored; and none but the first can reach below the genesis block.
pub proof fn law_ranges_are_bounded(current: int, stored: (int, int), genesis: int, i: int)
    requires
        current >= MAX_BLOCK_RANGE,
        stored_well(stored, genesis),
        0 <= genesis,
        0 <= i < plan(SyncView::opening(current, stored, genesis)).len(),
    ensures
        ({
            let range = plan(SyncView::opening(current, stored, genesis))[i];
            &&& range.0 < range.1
            &&& range.1 - range.0 <= MAX_BLOCK_RANGE
            &&& stored.0 <= current ==> range.1 <= current
            &&& i > 0 ==> range.0 >= genesis
        }),
{
    lemma_bounded_from(SyncView::opening(current, stored, genesis), current, i);
}

proof fn lemma_bounded_from(s: SyncView, top: int, i: int)
    requires
        s.ready(),
        s.end <= top || s.earliest > top,
        0 <= i < plan(s).len(),
    ensures
        plan(s)[i].0 < plan(s)[i].1,
        plan(s)[i].1 - plan(s)[i].0 <= MAX_BLOCK_RANGE,
        s.earliest <= top ==> plan(s)[i].1 <= top,
        i > 0 || s.start >= s.genesis ==> plan(s)[i].0 >= s.genesis,
    decreases plan(s).len(),
{
    law_ready_is_kept(s);
    if i > 0 {
        assert(plan(s)[i] == plan(s.advanced())[i - 1]);
        lemma_bounded_from(s.advanced(), top, i - 1);
    }
}

/// When a range can be completed, where the genesis block is not below [`MAX_BLOCK_RANGE`]: one that
/// joins the indexed interval can be if that interval does not begin below [`MAX_BLOCK_RANGE`]; any
/// other one can be, unless it is the first one and reaches below [`MAX_BLOCK_RANGE`].
pub proof fn law_when_a_range_can_be_completed(s: SyncView, n: nat)
    requires
        s.genesis >= MAX_BLOCK_RANGE,
    ensures
        after(s, n).completable() <==> (if after(s, n).joins() {
            s.earliest >= MAX_BLOCK_RANGE
        } else {
            n > 0 || s.start >= MAX_BLOCK_RANGE
        }),
    decreases n,
{
    if n > 0 {
        law_when_a_range_can_be_completed(s.advanced(), (n - 1) as nat);
    }
}

/// Every range can be completed where neither the genesis block nor the bottom of the indexed
/// interval lies below [`MAX_BLOCK_RANGE`], and the first range does not reach below it either or
/// joins the interval.
pub proof fn law_every_range_can_be_completed(
    current: int,
    stored: (int, int),
    genesis: int,
    n: nat,
)
    requires
        genesis >= MAX_BLOCK_RANGE,
        SyncView::opening(current, stored, genesis).earliest >= MAX_BLOCK_RANGE,
        SyncView::opening(current, stored, genesis).start >= MAX_BLOCK_RANGE || SyncView::opening(
            current,
            stored,
            genesis,
        ).joins(),
    ensures
        after(SyncView::opening(current, stored, genesis), n).completable(),
{
    law_when_a_range_can_be_completed(SyncView::opening(current, stored, genesis), n);
}

/// Where the genesis block is below [`MAX_BLOCK_RANGE`], the last range cannot be completed.
pub proof fn law_low_genesis_is_not_completed(s: SyncView)
    requires
        s.ready(),
        !s.finished(),
        s.genesis < MAX_BLOCK_RANGE,
    ensures
        !last_asking(s).completable(),
{
    law_sync_follows_its_plan(s);
    lemma_last_step(s, (plan(s).len() - 1) as nat);
}

proof fn lemma_last_step(s: SyncView, n: nat)
    ensures
        after(s, n + 1) == after(s, n).advanced(),
        after(s, n).genesis == s.genesis,
    decreases n,
{
    reveal_with_fuel(after, 2);
    if n > 0 {
        lemma_last_step(s.advanced(), (n - 1) as nat);
    }
}

/// A range that joins the indexed interval does not jump upwards: that interval does not begin
/// above its own end, or not above the genesis block.
pub open spec fn jumps_down(s: SyncView) -> bool {
    s.joins() ==> s.earliest <= block_sync::larger(s.latest, s.genesis)
}

/// The ranges descend: each one lies below the bottom of every one before it.
pub proof fn law_ranges_descend(s: SyncView, i: int, j: int)
    requires
        s.ready(),
        jumps_down(s),
        0 <= i < j < plan(s).len(),
    ensures
        plan(s)[j].0 < plan(s)[j].1 <= plan(s)[i].0 < plan(s)[i].1,
    decreases plan(s).len(),
{
    let rest = plan(s.advanced());
    law_ready_is_kept(s);
    assert(plan(s)[j] == rest[j - 1]);
    if i > 0 {
        assert(plan(s)[i] == rest[i - 1]);
        law_ranges_descend(s.advanced(), i - 1, j - 1);
    } else {
        lemma_below_top(s.advanced(), j - 1);
    }
}

proof fn lemma_below_top(s: SyncView, j: int)
    requires
        s.ready(),
        jumps_down(s),
        0 <= j < plan(s).len(),
    ensures
        plan(s)[j].0 < plan(s)[j].1 <= s.end,
    decreases plan(s).len(),
{
    law_ready_is_kept(s);
    if j > 0 {
        assert(plan(s)[j] == plan(s.advanced())[j - 1]);
        lemma_below_top(s.advanced(), j - 1);
    }
}

/// The earliest block that is recorded never rises, and once one has been recorded, one is recorded
/// with every range that is completed.
pub proof fn law_recorded_earliest_never_rises(s: SyncView, i: nat, j: nat)
    requires
        s.ready(),
        jumps_down(s),
        i <= j < plan(s).len(),
        after(s, j).completable(),
    ensures
        after(s, i).earliest_update() matches Some(above) ==> after(
            s,
            j,
        ).earliest_update() matches Some(below) && below <= above,
    decreases i,
{
    law_ready_is_kept(s);
    if i > 0 {
        law_recorded_earliest_never_rises(s.advanced(), (i - 1) as nat, (j - 1) as nat);
    } else {
        lemma_tops_fall(s, j);
    }
}

proof fn lemma_tops_fall(s: SyncView, n: nat)
    requires
        s.ready(),
        jumps_down(s),
        n < plan(s).len(),
    ensures
        after(s, n).earliest == s.earliest,
        after(s, n).genesis == s.genesis,
        after(s, n).next_end() <= s.next_end(),
    decreases n,
{
    law_ready_is_kept(s);
    if n > 0 {
        lemma_tops_fall(s.advanced(), (n - 1) as nat);
    }
}

/// A store that held nothing is filled with as many ranges as it takes to cover the blocks above the
/// genesis block, or those from [`MAX_BLOCK_RANGE`] on where the genesis block lies below them.
pub proof fn law_number_of_ranges(current: int, genesis: int, latest: int)
    requires
        current >= MAX_BLOCK_RANGE,
        0 <= genesis,
    ensures
        plan(SyncView::opening(current, (0, latest), genesis)).len() == (if current <= genesis {
            0
        } else {
            let above = block_sync::larger(genesis, MAX_BLOCK_RANGE - 1);
            (current - above + MAX_BLOCK_RANGE - 1) / (MAX_BLOCK_RANGE as int)
        }),
{
    lemma_number_of_ranges(SyncView::opening(current, (0, latest), genesis));
}

proof fn lemma_number_of_ranges(s: SyncView)
    requires
        s.ready(),
        s.end >= MAX_BLOCK_RANGE,
        s.end <= s.latest,
        s.start <= s.genesis || s.start == s.end - MAX_BLOCK_RANGE,
    ensures
        plan(s).len() == (if s.finished() {
            0
        } else {
            let above = block_sync::larger(s.genesis, MAX_BLOCK_RANGE - 1);
            (s.end - above + MAX_BLOCK_RANGE - 1) / (MAX_BLOCK_RANGE as int)
        }),
    decreases plan(s).len(),
{
    law_ready_is_kept(s);
    if !s.finished() && s.completable() {
        lemma_number_of_ranges(s.advanced());
    }
}

/// When the last range has been completed, the genesis block is recorded as the earliest one,
/// unless an earlier or equal one was stored.
pub proof fn law_finishing_records_genesis(s: SyncView)
    requires
        s.completable(),
        s.advanced().finished(),
    ensures
        s.earliest_update() == (if s.genesis < s.earliest {
            Some(s.genesis)
        } else {
            None
        }),
{
}

/// An earliest block that is recorded lies below the stored one, and not below the genesis
/// block.
pub proof fn law_recorded_earliest_is_bounded(s: SyncView)
    ensures
        s.earliest_update() matches Some(block) ==> s.genesis <= block < s.earliest,
{
}

/// A store that held nothing gets no latest block recorded.
pub proof fn law_fresh_store_records_no_latest(current: int, genesis: int, latest: int, n: nat)
    requires
        current >= MAX_BLOCK_RANGE,
        0 <= genesis,
        n < plan(SyncView::opening(current, (0, latest), genesis)).len(),
    ensures
        after(SyncView::opening(current, (0, latest), genesis), n).latest_update() is None,
{
    lemma_no_join_from(SyncView::opening(current, (0, latest), genesis), n);
}

/// From a top that is not above the indexed interval, no range joins that interval.
proof fn lemma_no_join_from(s: SyncView, n: nat)
    requires
        s.ready(),
        s.end <= s.latest,
        n < plan(s).len(),
    ensures
        !after(s, n).joins(),
    decreases n,
{
    law_ready_is_kept(s);
    if n > 0 {
        lemma_no_join_from(s.advanced(), (n - 1) as nat);
    }
}

/// Where the chain has grown past the indexed interval, and that interval does not end below the
/// genesis block, exactly one range of the synchronisation joins the interval, if the ranges above
/// the interval can be completed; with it the current block is recorded as the latest one.
pub proof fn law_grown_chain_records_latest_once(
    current: int,
    stored: (int, int),
    genesis: int,
) -> (k: nat)
    requires
        current >= MAX_BLOCK_RANGE,
        0 < stored.0 <= stored.1 < current,
        0 <= genesis <= stored.1,
        stored.1 >= MAX_BLOCK_RANGE || current % (MAX_BLOCK_RANGE as int) <= stored.1,
    ensures
        k < plan(SyncView::opening(current, stored, genesis)).len(),
        forall|n: nat|
            n < plan(SyncView::opening(current, stored, genesis)).len() ==> (#[trigger] after(
                SyncView::opening(current, stored, genesis),
                n,
            )).latest_update() == (if n == k {
                Some(current)
            } else {
                None
            }),
{
    lemma_join_once_from(SyncView::opening(current, stored, genesis))
}

proof fn lemma_join_once_from(s: SyncView) -> (k: nat)
    requires
        s.ready(),
        s.genesis <= s.latest < s.end,
        s.start <= s.genesis || s.start == s.end - MAX_BLOCK_RANGE,
        s.latest >= MAX_BLOCK_RANGE || s.end % (MAX_BLOCK_RANGE as int) <= s.latest,
    ensures
        k < plan(s).len(),
        forall|n: nat|
            n < plan(s).len() ==> (#[trigger] after(s, n)).latest_update() == (if n == k {
                Some(s.current)
            } else {
                None
            }),
    decreases plan(s).len(),
{
    let t = s.advanced();
    law_ready_is_kept(s);
    if s.joins() {
        assert forall|n: nat| n < plan(s).len() && n != 0 implies (#[trigger] after(
            s,
            n,
        )).latest_update() is None by {
            lemma_no_join_from(t, (n - 1) as nat);
        }
        0
    } else {
        let j = lemma_join_once_from(t);
        assert forall|n: nat| n < plan(s).len() implies (#[trigger] after(s, n)).latest_update()
            == (if n == j + 1 {
            Some(s.current)
        } else {
            None
        }) by {
            if n > 0 {
                assert(after(s, n) == after(t, (n - 1) as nat));
            }
        }
        j + 1
    }
}

/// When the current block is recorded as the latest one, every block from the top of the indexed
/// interval to the current block has been asked for.
pub proof fn law_recorded_latest_is_true(
    current: int,
    stored: (int, int),
    genesis: int,
    k: nat,
    b: int,
)
    requires
        current >= MAX_BLOCK_RANGE,
        stored_well(stored, genesis),
        0 <= genesis,
        k < plan(SyncView::opening(current, stored, genesis)).len(),
        after(SyncView::opening(current, stored, genesis), k).latest_update() is Some,
        SyncView::opening(current, stored, genesis).latest <= b <= current,
    ensures
        asked_for(plan(SyncView::opening(current, stored, genesis)).take(k as int + 1), b),
{
    lemma_asked_before_join(SyncView::opening(current, stored, genesis), k, b);
}

proof fn lemma_asked_before_join(s: SyncView, k: nat, b: int)
    requires
        s.ready(),
        k < plan(s).len(),
        after(s, k).joins(),
        s.latest <= b <= s.end,
    ensures
        asked_for(plan(s).take(k as int + 1), b),
    decreases k,
{
    let ranges = plan(s).take(k as int + 1);
    assert(ranges[0] == (s.range_start(), s.end));
    if b < s.range_start() {
        let rest = plan(s.advanced()).take(k as int);
        law_ready_is_kept(s);
        lemma_asked_before_join(s.advanced(), (k - 1) as nat, b);
        let i = choose|i: int| 0 <= i < rest.len() && (#[trigger] rest[i]).0 <= b <= rest[i].1;
        assert(ranges[i + 1] == rest[i]);
    }
}

/// A synchronisation begins at the current block, with a range of a thousand blocks. A store that
/// remembers an earliest block gives the indexed interval; for any other one the current block
/// stands for it.
pub proof fn law_sync_begins_at_the_current_block(current: int, stored: (int, int), genesis: int)
    ensures
        ({
            let s = SyncView::opening(current, stored, genesis);
            &&& s.current == current
            &&& s.genesis == genesis
            &&& s.end == current
            &&& s.end - s.start == 1000
            &&& stored.0 == 0 ==> s.earliest == current && s.latest == current
            &&& stored.0 != 0 ==> (s.earliest, s.latest) == stored
        }),
{
}

/// Where the next range lies: its top is the top that the state holds, and its bottom is the bottom
/// that the state holds, or the top of the indexed interval where that lies between the two. There
/// is a next range exactly if its top lies above the genesis block.
pub proof fn law_range_is_cut_at_the_indexed_interval(s: SyncView)
    ensures
        s.start < s.latest < s.end ==> s.range_start() == s.latest,
        s.start >= s.latest || s.latest >= s.end ==> s.range_start() == s.start,
        s.finished() <==> s.end <= s.genesis,
        s.joins() <==> (s.start == s.latest || s.start < s.latest < s.end),
{
}

/// Where a completed range leads: below a range that reached the indexed interval the next one
/// begins at the bottom of that interval, below any other one at its own bottom. The next range is
/// a thousand blocks wide, or ends at the genesis block if that comes first. Nothing else changes.
pub proof fn law_completed_range_leads_downwards(s: SyncView)
    ensures
        ({
            let t = s.advanced();
            let reached = s.start == s.latest || s.start < s.latest < s.end;
            &&& reached ==> t.end == s.earliest
            &&& !reached ==> t.end == s.start
            &&& t.start >= s.genesis
            &&& t.end - t.start <= 1000
            &&& t.start == s.genesis || t.end - t.start == 1000
            &&& s.completable() <==> t.end >= 1000
            &&& t.current == s.current
            &&& t.genesis == s.genesis
            &&& t.earliest == s.earliest
            &&& t.latest == s.latest
        }),
{
}

/// What is recorded with a range: as the latest block the one at which the synchronisation began,
/// exactly if the range reaches the indexed interval; and as the earliest block the bottom of the
/// range that follows, exactly if that lies below the indexed interval.
pub proof fn law_recorded_blocks(s: SyncView)
    ensures
        s.latest_update() is Some <==> (s.start == s.latest || s.start < s.latest < s.end),
        s.latest_update() matches Some(block) ==> block == s.current,
        s.earliest_update() is Some <==> s.advanced().start < s.earliest,
        s.earliest_update() matches Some(block) ==> block == s.advanced().start && s.advanced().end
            - block <= 1000,
{
}

/// An optional block number stands for itself.
pub proof fn law_block_numbers_stand_for_themselves(block: Option<u64>, number: u64)
    ensures
        block_sync::block_number_of(block) == Some(number as int) <==> block == Some(number),
        block_sync::block_number_of(block) is None <==> block is None,
{
}

/// An earliest block is recorded truthfully but for the range that follows: it is the bottom of that
/// range, which lies at most a thousand blocks below its top; and every block from that top to the
/// current block has been asked for, or was indexed before.
pub proof fn law_recorded_earliest_is_true(
    current: int,
    stored: (int, int),
    genesis: int,
    n: nat,
    b: int,
)
    requires
        current >= MAX_BLOCK_RANGE,
        stored_well(stored, genesis),
        0 <= genesis,
        n < plan(SyncView::opening(current, stored, genesis)).len(),
        after(SyncView::opening(current, stored, genesis), n).earliest_update() is Some,
    ensures
        ({
            let s = SyncView::opening(current, stored, genesis);
            let next = after(s, n + 1);
            let recorded = after(s, n).earliest_update()->Some_0;
            &&& recorded == next.start
            &&& next.end - 1000 <= recorded
            &&& genesis <= recorded
            &&& next.end <= b <= current ==> asked_for(plan(s).take(n as int + 1), b) || (stored.0
                != 0 && stored.0 <= b <= stored.1)
        }),
{
    let s = SyncView::opening(current, stored, genesis);
    lemma_last_step(s, n);
    if after(s, n).next_end() <= b <= current {
        lemma_asked_above(s, n, b);
        if stored.0 == 0 {
            assert(plan(s).take(n as int + 1)[0] == (s.range_start(), s.end));
        }
    }
}

proof fn lemma_asked_above(s: SyncView, n: nat, b: int)
    requires
        s.ready(),
        n < plan(s).len(),
        after(s, n).next_end() <= b <= s.end,
    ensures
        asked_for(plan(s).take(n as int + 1), b) || s.earliest <= b <= s.latest,
    decreases n,
{
    let ranges = plan(s).take(n as int + 1);
    assert(ranges[0] == (s.range_start(), s.end));
    if n > 0 && b < s.range_start() && !(s.earliest <= b <= s.latest) {
        let rest = plan(s.advanced()).take(n as int);
        law_ready_is_kept(s);
        lemma_asked_above(s.advanced(), (n - 1) as nat, b);
        let i = choose|i: int| 0 <= i < rest.len() && (#[trigger] rest[i]).0 <= b <= rest[i].1;
        assert(ranges[i + 1] == rest[i]);
    }
}

} // verus!
