//! The run over a list of events: which lookups it asks for, and in which order.
//!
//! An event is first decoded. One that is no event of the bridge is passed over. For any other
//! one, its block is looked up, then its transaction; with both, its transfers are added.

use vstd::pervasive::unreached;
use vstd::prelude::*;

use crate::ethereum::Uint256;
use crate::transfer_laws;
use crate::transfers;
use crate::transfers::{
    BatchView, EthBridgeEvent, EthSuiBridgeEvents, EventClass, ObservedEvent, TokenTransfer,
    TransferBatch,
};

verus! {

/// Where an event is found on the chain.
#[derive(Clone, Copy, Debug, PartialEq, Eq)]
pub struct EventSource {
    /// The block of the event.
    pub block_number: u64,
    /// The transaction of the event.
    pub tx_hash: [u8; 32],
}

/// What a run asks for next.
#[derive(Clone, Copy, Debug, PartialEq, Eq)]
pub enum EventRequest {
    /// To decode the event at this place of the list.
    Decode(usize),
    /// To look up the block with this number.
    Block(u64),
    /// To look up the transaction with this hash.
    Transaction([u8; 32]),
    /// Nothing: all events have been processed.
    Done,
}

/// What is known of the event that a run is at.
pub enum Progress {
    /// Nothing yet.
    Encoded,
    /// What the event is.
    Decoded(EthBridgeEvent),
    /// What the event is, and the time of its block in seconds.
    Timed(EthBridgeEvent, Uint256),
}

/// The state of a run.
pub struct RunView {
    pub events: Seq<EventSource>,
    pub position: int,
    pub progress: Progress,
    pub batch: BatchView,
}

impl RunView {
    /// The state in which a run over a list of events begins.
    pub open spec fn opening(events: Seq<EventSource>, last_finalized_block: u64) -> RunView {
        RunView {
            events,
            position: 0,
            progress: Progress::Encoded,
            batch: transfer_laws::empty_batch(last_finalized_block),
        }
    }

    /// All events have been processed.
    pub open spec fn finished(self) -> bool {
        self.position >= self.events.len()
    }

    /// What the run asks for next.
    pub open spec fn request(self) -> EventRequest {
        if self.finished() {
            EventRequest::Done
        } else {
            match self.progress {
                Progress::Encoded => EventRequest::Decode(self.position as usize),
                Progress::Decoded(_) => EventRequest::Block(
                    self.events[self.position].block_number,
                ),
                Progress::Timed(_, _) => EventRequest::Transaction(
                    self.events[self.position].tx_hash,
                ),
            }
        }
    }

    /// The state at the next event.
    pub open spec fn moved_on(self) -> RunView {
        RunView { position: self.position + 1, progress: Progress::Encoded, ..self }
    }

    /// The state once the event has been decoded.
    pub open spec fn decoded(self, event: Option<EthBridgeEvent>) -> RunView {
        match event {
            None => self.moved_on(),
            Some(event) => RunView { progress: Progress::Decoded(event), ..self },
        }
    }

    /// The state once the block has been looked up.
    pub open spec fn timed(self, timestamp: Uint256) -> RunView {
        RunView { progress: Progress::Timed(self.progress->Decoded_0, timestamp), ..self }
    }

    /// The event that the run is at, once its transaction has been looked up.
    pub open spec fn observed(self, gas: Uint256) -> ObservedEvent {
        ObservedEvent {
            event: self.progress->Timed_0,
            block_number: self.events[self.position].block_number,
            timestamp: self.progress->Timed_1,
            tx_hash: self.events[self.position].tx_hash,
            gas,
        }
    }

    /// The state once the transaction has been looked up.
    pub open spec fn processed(self, gas: Uint256) -> RunView {
        RunView { batch: self.batch.with(self.observed(gas)), ..self.moved_on() }
    }
}

/// A run over a list of events.
pub struct EventRun {
    events: Vec<EventSource>,
    position: usize,
    progress: Progress,
    batch: TransferBatch,
}

impl View for EventRun {
    type V = RunView;

    closed spec fn view(&self) -> RunView {
        RunView {
            events: self.events@,
            position: self.position as int,
            progress: self.progress,
            batch: self.batch@,
        }
    }
}

impl EventRun {
    /// Begins a run over `events`, where the chain is final up to `last_finalized_block`.
    pub fn begin(events: Vec<EventSource>, last_finalized_block: u64) -> (run: EventRun)
        ensures
            run@ == RunView::opening(events@, last_finalized_block),
    {
        EventRun {
            events,
            position: 0,
            progress: Progress::Encoded,
            batch: TransferBatch::new(last_finalized_block),
        }
    }

    /// What the run asks for next.
    pub fn request(&self) -> (request: EventRequest)
        ensures
            request == self@.request(),
            request is Done <==> self@.position >= self@.events.len(),
            request matches EventRequest::Decode(place) ==> place == self@.position
                && self@.progress is Encoded,
            request matches EventRequest::Block(number) ==> number
                == self@.events[self@.position].block_number && self@.progress is Decoded,
            request matches EventRequest::Transaction(hash) ==> hash
                == self@.events[self@.position].tx_hash && self@.progress is Timed,
    {
        if self.position >= self.events.len() {
            return EventRequest::Done;
        }
        match &self.progress {
            Progress::Encoded => EventRequest::Decode(self.position),
            Progress::Decoded(_) => EventRequest::Block(self.events[self.position].block_number),
            Progress::Timed(_, _) => EventRequest::Transaction(self.events[self.position].tx_hash),
        }
    }

    /// Takes what the event was decoded to: `None` where it is no event of the bridge.
    pub fn decoded(&mut self, event: Option<EthBridgeEvent>)
        requires
            old(self)@.request() is Decode,
        ensures
            final(self)@ == old(self)@.decoded(event),
    {
        match event {
            None => {
                assert(self.position < self.events.len());
                self.position = self.position + 1;
            },
            Some(event) => {
                self.progress = Progress::Decoded(event);
            },
        }
    }

    /// Takes the time of the block, in seconds.
    pub fn timed(&mut self, timestamp: Uint256)
        requires
            old(self)@.request() is Block,
            timestamp.value() * 1000 <= u64::MAX,
        ensures
            final(self)@ == old(self)@.timed(timestamp),
    {
        let mut progress = Progress::Encoded;
        std::mem::swap(&mut progress, &mut self.progress);
        match progress {
            Progress::Decoded(event) => {
                self.progress = Progress::Timed(event, timestamp);
            },
            _ => {
                unreached::<()>()
            },
        }
    }

    /// What the event that the run is at amounts to.
    pub fn class(&self) -> (class: EventClass)
        requires
            self@.request() is Transaction,
        ensures
            class == self@.progress->Timed_0.class(),
    {
        match &self.progress {
            Progress::Timed(event, _) => event.classify(),
            _ => unreached::<EventClass>(),
        }
    }

    /// Whether [`EventRun::processed`] can take the gas of the transaction.
    pub fn is_storable(&self, gas: &Uint256) -> (storable: bool)
        requires
            self@.request() is Transaction,
        ensures
            storable == self@.observed(*gas).storable(),
    {
        match &self.progress {
            Progress::Timed(event, timestamp) => event.is_storable(timestamp, gas),
            _ => unreached::<bool>(),
        }
    }

    /// Takes the gas of the transaction, adds the transfers of the event, and returns the transfers
    /// that are to be written: after an event that stands for a transfer all those that were
    /// added, and else none.
    pub fn processed(&mut self, gas: Uint256) -> (write: Option<Vec<TokenTransfer>>)
        requires
            old(self)@.request() is Transaction,
            old(self)@.observed(gas).storable(),
        ensures
            final(self)@ == old(self)@.processed(gas),
            match write {
                Some(written) => {
                    &&& old(self)@.observed(gas).class() != EventClass::Other
                    &&& transfers::transfer_views(written@) == final(self)@.batch.transfers
                    &&& written@.len() == final(self)@.batch.transfers.len()
                    &&& forall|i: int|
                        0 <= i < written@.len() ==> (#[trigger] written@[i])@
                            == final(self)@.batch.transfers[i]
                },
                None => old(self)@.observed(gas).class() == EventClass::Other,
            },
            transfers::optional_views(write) == old(self)@.batch.to_write(old(self)@.observed(gas)),
            final(self)@.position == old(self)@.position + 1,
            final(self)@.progress is Encoded,
            final(self)@.events == old(self)@.events,
    {
        let mut progress = Progress::Encoded;
        std::mem::swap(&mut progress, &mut self.progress);
        let source = self.events[self.position];
        let observed = match progress {
            Progress::Timed(event, timestamp) => ObservedEvent {
                event,
                block_number: source.block_number,
                timestamp,
                tx_hash: source.tx_hash,
                gas,
            },
            _ => unreached::<ObservedEvent>(),
        };
        assert(self.position < self.events.len());
        self.position = self.position + 1;
        self.batch.process(&observed)
    }
}

/// What can be found of an event: what it is, the time of its block and the gas of its
/// transaction.
pub type Finding = (EthBridgeEvent, Uint256, Uint256);

/// The state once the event that the run is at has been dealt with, where `finding` is what was
/// found of it: `None` for one that is no event of the bridge.
pub open spec fn dealt_with(run: RunView, finding: Option<Finding>) -> RunView {
    match finding {
        None => run.decoded(None),
        Some((event, timestamp, gas)) => run.decoded(Some(event)).timed(timestamp).processed(gas),
    }
}

/// The state once the next events have been dealt with, in order, where `findings` is what was
/// found of them.
pub open spec fn dealt_with_all(run: RunView, findings: Seq<Option<Finding>>) -> RunView
    decreases findings.len(),
{
    if findings.len() == 0 {
        run
    } else {
        dealt_with(dealt_with_all(run, findings.drop_last()), findings.last())
    }
}

/// The events of the bridge among those of a list, with what was found of them, in order.
pub open spec fn bridge_events(
    events: Seq<EventSource>,
    findings: Seq<Option<Finding>>,
) -> Seq<ObservedEvent>
    decreases findings.len(),
{
    if findings.len() == 0 {
        Seq::empty()
    } else {
        let before = bridge_events(events, findings.drop_last());
        match findings.last() {
            None => before,
            Some((event, timestamp, gas)) => before.push(
                ObservedEvent {
                    event,
                    block_number: events[findings.len() - 1].block_number,
                    timestamp,
                    tx_hash: events[findings.len() - 1].tx_hash,
                    gas,
                },
            ),
        }
    }
}

/// For an event that is no event of the bridge nothing is looked up. For any other one, its block
/// is looked up, then its transaction, and the run moves on by one event.
pub proof fn law_lookups_come_in_order(run: RunView, finding: Finding)
    requires
        run.request() is Decode,
    ensures
        run.decoded(None) == run.moved_on(),
        ({
            let (event, timestamp, gas) = finding;
            let source = run.events[run.position];
            let decoded = run.decoded(Some(event));
            let timed = decoded.timed(timestamp);
            &&& decoded.request() == EventRequest::Block(source.block_number)
            &&& timed.request() == EventRequest::Transaction(source.tx_hash)
            &&& timed.processed(gas).position == run.position + 1
            &&& timed.processed(gas).progress is Encoded
        }),
{
}

/// A run over a whole list comes to its end at the end of the list, and has then collected
/// exactly the transfers of the events of the bridge, in their order.
pub proof fn law_run_collects_all_events(
    events: Seq<EventSource>,
    last_finalized_block: u64,
    findings: Seq<Option<Finding>>,
)
    requires
        findings.len() <= events.len(),
    ensures
        ({
            let run = dealt_with_all(RunView::opening(events, last_finalized_block), findings);
            &&& run.events == events
            &&& run.position == findings.len()
            &&& run.progress is Encoded
            &&& run.finished() <==> findings.len() == events.len()
            &&& run.batch == transfer_laws::collected(
                transfer_laws::empty_batch(last_finalized_block),
                bridge_events(events, findings),
            )
        }),
    decreases findings.len(),
{
    if findings.len() > 0 {
        law_run_collects_all_events(events, last_finalized_block, findings.drop_last());
        let before = bridge_events(events, findings.drop_last());
        if findings.last() is Some {
            assert(bridge_events(events, findings).drop_last() =~= before);
        }
    }
}

/// The events of a list can be dealt with in two parts.
pub proof fn law_dealing_with_events_composes(
    run: RunView,
    first: Seq<Option<Finding>>,
    second: Seq<Option<Finding>>,
)
    ensures
        dealt_with_all(run, first + second) == dealt_with_all(dealt_with_all(run, first), second),
    decreases second.len(),
{
    if second.len() == 0 {
        assert(first + second =~= first);
    } else {
        assert((first + second).drop_last() =~= first + second.drop_last());
        law_dealing_with_events_composes(run, first, second.drop_last());
    }
}

/// A run over two lists of events, one behind the other, collects what a run over the first one
/// collects, followed by what a run over the second one collects.
pub proof fn law_runs_concatenate(
    first: Seq<EventSource>,
    second: Seq<EventSource>,
    last_finalized_block: u64,
    found_first: Seq<Option<Finding>>,
    found_second: Seq<Option<Finding>>,
)
    requires
        found_first.len() == first.len(),
        found_second.len() <= second.len(),
    ensures
        dealt_with_all(
            RunView::opening(first + second, last_finalized_block),
            found_first + found_second,
        ).batch.transfers == dealt_with_all(
            RunView::opening(first, last_finalized_block),
            found_first,
        ).batch.transfers + dealt_with_all(
            RunView::opening(second, last_finalized_block),
            found_second,
        ).batch.transfers,
{
    let empty = transfer_laws::empty_batch(last_finalized_block);
    let a = bridge_events(first, found_first);
    let b = bridge_events(second, found_second);
    law_run_collects_all_events(first, last_finalized_block, found_first);
    law_run_collects_all_events(second, last_finalized_block, found_second);
    law_run_collects_all_events(first + second, last_finalized_block, found_first + found_second);
    lemma_bridge_events_concatenate(first, second, found_first, found_second);
    transfer_laws::law_collecting_composes(empty, a, b);
    transfer_laws::law_writes_only_grow(empty, a);
    transfer_laws::law_events_add_the_same_to_any_batch(transfer_laws::collected(empty, a), b);
}

proof fn lemma_bridge_events_concatenate(
    first: Seq<EventSource>,
    second: Seq<EventSource>,
    found_first: Seq<Option<Finding>>,
    found_second: Seq<Option<Finding>>,
)
    requires
        found_first.len() == first.len(),
        found_second.len() <= second.len(),
    ensures
        bridge_events(first + second, found_first + found_second) == bridge_events(
            first,
            found_first,
        ) + bridge_events(second, found_second),
    decreases found_second.len(),
{
    let found = found_first + found_second;
    if found_second.len() == 0 {
        assert(found =~= found_first);
        lemma_bridge_events_of_a_part(first, second, found_first);
        assert(bridge_events(first, found_first) + bridge_events(second, found_second)
            =~= bridge_events(first, found_first));
    } else {
        assert(found.drop_last() =~= found_first + found_second.drop_last());
        lemma_bridge_events_concatenate(first, second, found_first, found_second.drop_last());
        assert(bridge_events(first + second, found) =~= bridge_events(first, found_first)
            + bridge_events(second, found_second));
    }
}

proof fn lemma_bridge_events_of_a_part(
    first: Seq<EventSource>,
    second: Seq<EventSource>,
    findings: Seq<Option<Finding>>,
)
    requires
        findings.len() <= first.len(),
    ensures
        bridge_events(first + second, findings) == bridge_events(first, findings),
    decreases findings.len(),
{
    if findings.len() > 0 {
        lemma_bridge_events_of_a_part(first, second, findings.drop_last());
    }
}

/// A run begins at the first event of its list, with nothing collected.
pub proof fn law_run_begins_at_the_first_event(
    events: Seq<EventSource>,
    last_finalized_block: u64,
)
    ensures
        ({
            let run = RunView::opening(events, last_finalized_block);
            &&& run.events == events
            &&& run.position == 0
            &&& run.progress is Encoded
            &&& run.batch.last_finalized_block == last_finalized_block
            &&& run.batch.transfers.len() == 0
        }),
{
}

/// A run asks for what is missing of the event it is at, and of no other one: to decode it at its own
/// place, then for its own block, then for its own transaction. It asks for nothing exactly if it is
/// past the end of its list.
pub proof fn law_run_asks_about_the_event_it_is_at(run: RunView)
    requires
        0 <= run.position,
        run.events.len() <= usize::MAX,
    ensures
        run.request() is Done <==> run.position >= run.events.len(),
        run.position < run.events.len() ==> match run.progress {
            Progress::Encoded => run.request() is Decode && run.request()->Decode_0
                == run.position,
            Progress::Decoded(_) => run.request() is Block && run.request()->Block_0
                == run.events[run.position].block_number,
            Progress::Timed(_, _) => run.request() is Transaction && run.request()->Transaction_0
                == run.events[run.position].tx_hash,
        },
{
}

/// Over a whole list, the places that are to be decoded are those of the list, one after the other,
/// each of them once: when `findings` have been dealt with, it is the turn of the event behind them.
pub proof fn law_places_are_asked_for_one_after_the_other(
    events: Seq<EventSource>,
    last_finalized_block: u64,
    findings: Seq<Option<Finding>>,
)
    requires
        findings.len() <= events.len() <= usize::MAX,
    ensures
        ({
            let request = dealt_with_all(
                RunView::opening(events, last_finalized_block),
                findings,
            ).request();
            if findings.len() < events.len() {
                request is Decode && request->Decode_0 == findings.len()
            } else {
                request is Done
            }
        }),
{
    law_run_collects_all_events(events, last_finalized_block, findings);
}

/// What a run does with the replies to its requests: it keeps what the event was decoded to, and the
/// time of its block, without moving; it passes over an event that is none of the bridge; and it
/// pairs the event with the block and the transaction of its own place.
pub proof fn law_run_keeps_what_it_is_told(
    run: RunView,
    event: EthBridgeEvent,
    timestamp: Uint256,
    gas: Uint256,
)
    ensures
        ({
            let decoded = run.decoded(Some(event));
            let timed = decoded.timed(timestamp);
            let observed = timed.observed(gas);
            let skipped = run.decoded(None);
            &&& decoded.progress == Progress::Decoded(event)
            &&& timed.progress == Progress::Timed(event, timestamp)
            &&& decoded.position == run.position
            &&& timed.position == run.position
            &&& decoded.events == run.events
            &&& timed.events == run.events
            &&& decoded.batch == run.batch
            &&& timed.batch == run.batch
            &&& observed.event == event
            &&& observed.timestamp == timestamp
            &&& observed.gas == gas
            &&& observed.block_number == run.events[run.position].block_number
            &&& observed.tx_hash == run.events[run.position].tx_hash
            &&& skipped.position == run.position + 1
            &&& skipped.progress is Encoded
            &&& skipped.events == run.events
            &&& skipped.batch == run.batch
        }),
{
}

/// What is stored for an event is stored with the event's own block and transaction, behind what was
/// stored before; how much that is depends on what the event is.
pub proof fn law_event_is_stored_with_its_own_block_and_transaction(
    run: RunView,
    event: EthBridgeEvent,
    timestamp: Uint256,
    gas: Uint256,
    i: int,
)
    ensures
        ({
            let source = run.events[run.position];
            let before = run.batch.transfers;
            let after = dealt_with(run, Some((event, timestamp, gas)));
            let stored = after.batch.transfers;
            &&& after.position == run.position + 1
            &&& after.progress is Encoded
            &&& after.events == run.events
            &&& after.batch.last_finalized_block == run.batch.last_finalized_block
            &&& stored.len() == before.len() + match event {
                EthBridgeEvent::EthSuiBridgeEvents(
                    EthSuiBridgeEvents::TokensDepositedFilter(_),
                ) => if source.block_number <= run.batch.last_finalized_block {
                    2int
                } else {
                    1
                },
                EthBridgeEvent::EthSuiBridgeEvents(
                    EthSuiBridgeEvents::TokensClaimedFilter(_),
                ) => 1,
                _ => 0,
            }
            &&& 0 <= i < before.len() ==> stored[i] == before[i]
            &&& before.len() <= i < stored.len() ==> {
                &&& stored[i].block_height == source.block_number
                &&& stored[i].txn_hash == source.tx_hash@
                &&& stored[i].timestamp_ms == 1000 * timestamp.value()
                &&& gas.value() < 0x8000_0000_0000_0000 ==> stored[i].gas_usage == gas.value()
                &&& event matches EthBridgeEvent::EthSuiBridgeEvents(
                    EthSuiBridgeEvents::TokensDepositedFilter(deposit),
                ) ==> stored[i].nonce == deposit.nonce && stored[i].chain_id
                    == deposit.source_chain_id && stored[i].data is Some
                    && stored[i].data->Some_0.amount == deposit.sui_adjusted_amount
                &&& event matches EthBridgeEvent::EthSuiBridgeEvents(
                    EthSuiBridgeEvents::TokensClaimedFilter(claim),
                ) ==> stored[i].nonce == claim.nonce && stored[i].chain_id
                    == claim.source_chain_id && stored[i].txn_sender == claim.sender_address@
            }
        }),
{
    let before = run.batch.transfers;
    let stored = dealt_with(run, Some((event, timestamp, gas))).batch.transfers;
    let observed = run.decoded(Some(event)).timed(timestamp).observed(gas);
    let added = observed.added(run.batch.last_finalized_block);
    assert(stored =~= before + added);
    if before.len() <= i < stored.len() {
        assert(stored[i] == added[i - before.len()]);
    }
}

/// An event that is none of the bridge leaves what is stored as it is, and is passed over.
pub proof fn law_foreign_event_stores_nothing(run: RunView)
    ensures
        dealt_with(run, None).batch == run.batch,
        dealt_with(run, None).events == run.events,
        dealt_with(run, None).position == run.position + 1,
        dealt_with(run, None).progress is Encoded,
{
}

/// Every event of the bridge that was found at a place of the list is among those that are stored, as
/// it was found there, with the block and the transaction of that very place.
pub proof fn law_found_event_keeps_its_place(
    events: Seq<EventSource>,
    findings: Seq<Option<Finding>>,
    n: int,
) -> (k: int)
    requires
        0 <= n < findings.len() <= events.len(),
        findings[n] is Some,
    ensures
        0 <= k < bridge_events(events, findings).len(),
        k <= n,
        ({
            let observed = bridge_events(events, findings)[k];
            &&& observed.event == findings[n]->Some_0.0
            &&& observed.timestamp == findings[n]->Some_0.1
            &&& observed.gas == findings[n]->Some_0.2
            &&& observed.block_number == events[n].block_number
            &&& observed.tx_hash == events[n].tx_hash
        }),
    decreases findings.len(),
{
    lemma_no_more_events_than_findings(events, findings.drop_last());
    if n == findings.len() - 1 {
        bridge_events(events, findings.drop_last()).len() as int
    } else {
        law_found_event_keeps_its_place(events, findings.drop_last(), n)
    }
}

proof fn lemma_no_more_events_than_findings(
    events: Seq<EventSource>,
    findings: Seq<Option<Finding>>,
)
    ensures
        bridge_events(events, findings).len() <= findings.len(),
    decreases findings.len(),
{
    if findings.len() > 0 {
        lemma_no_more_events_than_findings(events, findings.drop_last());
    }
}

} // verus!
