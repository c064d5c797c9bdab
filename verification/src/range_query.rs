//! Narrowing of a block range whose events could not be fetched.
//!
//! A query for the events of a range is repeated on its upper half for as long as it fails, until
//! the range is too narrow to be halved.

use vstd::prelude::*;

use crate::block_sync::BlockRange;

verus! {

/// A range that spans fewer blocks than this between its ends is not narrowed any more.
pub const MIN_BLOCK_RANGE: u64 = 2;

/// What follows from the reply to a query.
pub enum QueryStep<T, E> {
    /// The query is over, with this result.
    Done(Result<T, E>),
    /// The query is to be repeated on this range.
    Retry(BlockRange),
}

impl BlockRange {
    /// How far the ends of the range lie apart.
    pub open spec fn width(self) -> int {
        self.end_block - self.start_block
    }

    /// The upper half of the range.
    pub open spec fn upper_half(self) -> BlockRange {
        BlockRange {
            start_block: (self.start_block + self.width() / 2) as u64,
            end_block: self.end_block,
        }
    }
}

/// How a query for the events of `range` goes on, where `reply` is what the last attempt gave.
pub open spec fn query_step<T, E>(range: BlockRange, reply: Result<Result<T, E>, E>) -> QueryStep<
    T,
    E,
> {
    match reply {
        Ok(events) => QueryStep::Done(events),
        Err(error) => if range.width() < MIN_BLOCK_RANGE {
            QueryStep::Done(Err(error))
        } else {
            QueryStep::Retry(range.upper_half())
        },
    }
}

/// Decides how a query for the events of `range` goes on. `reply` is `Err` where the attempts
/// were given up, and `Ok` with the result of the last attempt otherwise.
pub fn get_events_in_range_with_retry<T, E>(
    range: BlockRange,
    reply: Result<Result<T, E>, E>,
) -> (step: QueryStep<T, E>)
    requires
        reply is Err ==> range.start_block <= range.end_block,
    ensures
        step == match reply {
            Ok(events) => QueryStep::Done(events),
            Err(error) => if range.width() < MIN_BLOCK_RANGE {
                QueryStep::Done(Err(error))
            } else {
                QueryStep::Retry(range.upper_half())
            },
        },
        step == query_step(range, reply),
        step is Retry <==> reply is Err && range.end_block - range.start_block >= 2,
        step matches QueryStep::Retry(narrower) ==> {
            &&& narrower.end_block == range.end_block
            &&& narrower.start_block == range.start_block + (range.end_block - range.start_block)
                / 2
        },
        reply is Err && step is Done ==> step->Done_0 == Err::<T, E>(reply->Err_0),
        reply matches Ok(result) ==> step == QueryStep::<T, E>::Done(result),
{
    match reply {
        Ok(events) => QueryStep::Done(events),
        Err(error) => {
            if range.end_block - range.start_block < MIN_BLOCK_RANGE {
                return QueryStep::Done(Err(error));
            }
            let start_block: u64 = range.start_block + (range.end_block - range.start_block) / 2;
            QueryStep::Retry(BlockRange { start_block, end_block: range.end_block })
        },
    }
}

/// A range that is queried again lies inside the one that failed: it has the same top and a
/// higher bottom, still below the top. It is the upper half, rounded up.
pub proof fn law_retry_narrows_from_below(range: BlockRange)
    requires
        range.width() >= MIN_BLOCK_RANGE,
    ensures
        range.upper_half().end_block == range.end_block,
        range.start_block < range.upper_half().start_block < range.end_block,
        range.upper_half().width() == (range.width() + 1) / 2,
{
}

/// The range that is queried after `n` failures.
pub open spec fn narrowed(range: BlockRange, n: nat) -> BlockRange
    decreases n,
{
    if n == 0 {
        range
    } else {
        narrowed(range.upper_half(), (n - 1) as nat)
    }
}

/// The number of failures after which a query for a range of the given width is over.
pub open spec fn attempts(width: int) -> nat
    decreases width,
{
    if width < MIN_BLOCK_RANGE {
        1
    } else {
        1 + attempts((width + 1) / 2)
    }
}

/// A query is given up with its last error exactly at failure number `attempts(width)`: every
/// range before that one is wide enough to be narrowed, and that one is not.
pub proof fn law_query_is_given_up(range: BlockRange)
    requires
        range.start_block <= range.end_block,
    ensures
        attempts(range.width()) >= 1,
        narrowed(range, (attempts(range.width()) - 1) as nat).width() < MIN_BLOCK_RANGE,
        forall|n: nat|
            n + 1 < attempts(range.width()) ==> (#[trigger] narrowed(range, n)).width()
                >= MIN_BLOCK_RANGE,
    decreases range.width(),
{
    if range.width() >= MIN_BLOCK_RANGE {
        let half = range.upper_half();
        law_retry_narrows_from_below(range);
        law_query_is_given_up(half);
        assert forall|n: nat| n + 1 < attempts(range.width()) implies (#[trigger] narrowed(
            range,
            n,
        )).width() >= MIN_BLOCK_RANGE by {
            if n > 0 {
                assert(narrowed(range, n) == narrowed(half, (n - 1) as nat));
            }
        }
    }
}

/// Every range that is queried on the way has the top of the first one, and lies inside it.
pub proof fn law_queried_ranges_stay_inside(range: BlockRange, n: nat)
    requires
        range.start_block <= range.end_block,
    ensures
        narrowed(range, n).end_block == range.end_block,
        range.start_block <= narrowed(range, n).start_block <= range.end_block,
    decreases n,
{
    if n > 0 {
        law_queried_ranges_stay_inside(range.upper_half(), (n - 1) as nat);
    }
}

/// A query for a range no wider than two to the power `k` fails at most `k + 1` times.
pub proof fn law_attempts_are_logarithmic(width: int, k: nat)
    requires
        width <= vstd::arithmetic::power2::pow2(k),
    ensures
        attempts(width) <= k + 1,
    decreases k,
{
    vstd::arithmetic::power2::lemma2_to64();
    if width >= MIN_BLOCK_RANGE {
        vstd::arithmetic::power2::lemma_pow2_unfold(k);
        law_attempts_are_logarithmic((width + 1) / 2, (k - 1) as nat);
    }
}

/// A query for the widest range that a synchronisation asks for fails at most eleven times.
pub proof fn law_widest_range_attempts(width: int)
    requires
        width <= crate::block_sync::MAX_BLOCK_RANGE,
    ensures
        attempts(width) <= 11,
{
    vstd::arithmetic::power2::lemma2_to64();
    law_attempts_are_logarithmic(width, 10);
}

/// How wide a range is: as far as its two block numbers lie apart.
pub proof fn law_width_is_the_distance_of_the_ends(range: BlockRange)
    ensures
        range.width() == range.end_block - range.start_block,
{
}

/// A query that failed on a range whose ends lie two blocks or more apart, at whatever height of
/// the chain, is repeated: with the same top, from the middle of the range on.
pub proof fn law_failed_query_is_repeated_from_the_middle<T, E>(
    start_block: u64,
    end_block: u64,
    error: E,
)
    requires
        start_block + 2 <= end_block,
    ensures
        query_step::<T, E>(BlockRange { start_block, end_block }, Err(error)) matches QueryStep::Retry(
            narrower,
        ) && narrower.end_block == end_block && narrower.start_block == start_block + (end_block
            - start_block) / 2,
{
}

/// A query that failed on a range whose ends lie less than two blocks apart is over, with that
/// error; and a query that had a reply is over, with that reply, whatever the range.
pub proof fn law_query_is_over<T, E>(range: BlockRange, error: E, result: Result<T, E>)
    ensures
        range.start_block <= range.end_block < range.start_block + 2 ==> query_step::<T, E>(
            range,
            Err(error),
        ) == QueryStep::<T, E>::Done(Err(error)),
        query_step(range, Ok(result)) == QueryStep::<T, E>::Done(result),
{
}

/// What a failed query that is repeated leaves out is the lower part of the range, no more than
/// half of it: the events of every block of the upper half are still asked for.
pub proof fn law_repeated_query_keeps_the_upper_half<T, E>(range: BlockRange, error: E, block: u64)
    requires
        range.start_block <= range.end_block,
        query_step::<T, E>(range, Err(error)) is Retry,
        range.start_block <= block <= range.end_block,
    ensures
        ({
            let narrower = query_step::<T, E>(range, Err(error))->Retry_0;
            narrower.start_block <= block <= narrower.end_block <==> 2 * (range.end_block - block)
                <= range.end_block - range.start_block + 1
        }),
{
}

} // verus!
