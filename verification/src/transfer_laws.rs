//! What holds of the transfers that are collected from a list of events.

use vstd::prelude::*;

use crate::ethereum::Uint256;
use crate::transfers;
use crate::transfers::{
    BatchView, BridgeDataSource, EthBridgeEvent, EthSuiBridgeEvents, EventClass, ObservedEvent,
    TokenTransfer, TokenTransferData, TokenTransferStatus, TokensClaimed, TokensDeposited,
    TransferView,
};

verus! {

/// The batch once a list of events has been processed, in order.
pub open spec fn collected(batch: BatchView, events: Seq<ObservedEvent>) -> BatchView
    decreases events.len(),
{
    if events.len() == 0 {
        batch
    } else {
        collected(batch, events.drop_last()).with(events.last())
    }
}

/// A batch that nothing has been added to.
pub open spec fn empty_batch(last_finalized_block: u64) -> BatchView {
    BatchView { last_finalized_block, transfers: Seq::empty() }
}

/// The transfer at place `i` is a deposit that is not final, and the next one is the same deposit
/// as a final one, in a block that is final.
pub open spec fn finalized_pair(batch: BatchView, i: int) -> bool {
    &&& 0 <= i
    &&& i + 1 < batch.transfers.len()
    &&& batch.transfers[i].status == TokenTransferStatus::DepositedUnfinalized
    &&& batch.transfers[i + 1] == batch.transfers[i].with_status(TokenTransferStatus::Deposited)
    &&& batch.transfers[i].block_height <= batch.last_finalized_block
}

/// A list of events can be processed in two parts.
pub proof fn law_collecting_composes(
    batch: BatchView,
    first: Seq<ObservedEvent>,
    second: Seq<ObservedEvent>,
)
    ensures
        collected(batch, first + second) == collected(collected(batch, first), second),
    decreases second.len(),
{
    if second.len() == 0 {
        assert(first + second =~= first);
    } else {
        assert((first + second).drop_last() =~= first + second.drop_last());
        law_collecting_composes(batch, first, second.drop_last());
    }
}

/// What a list of events adds does not depend on what was collected before them.
pub proof fn law_events_add_the_same_to_any_batch(batch: BatchView, events: Seq<ObservedEvent>)
    ensures
        collected(batch, events).transfers == batch.transfers + collected(
            empty_batch(batch.last_finalized_block),
            events,
        ).transfers,
    decreases events.len(),
{
    let empty = empty_batch(batch.last_finalized_block);
    if events.len() > 0 {
        law_events_add_the_same_to_any_batch(batch, events.drop_last());
        law_writes_only_grow(batch, events.drop_last());
        law_writes_only_grow(empty, events.drop_last());
    }
    assert(collected(batch, events).transfers =~= batch.transfers + collected(
        empty,
        events,
    ).transfers);
}

/// What is written after an event begins with what was written before it: events only add
/// transfers at the end, and do not move the last final block.
pub proof fn law_writes_only_grow(batch: BatchView, events: Seq<ObservedEvent>)
    ensures
        batch.transfers.is_prefix_of(collected(batch, events).transfers),
        collected(batch, events).last_finalized_block == batch.last_finalized_block,
    decreases events.len(),
{
    if events.len() > 0 {
        law_writes_only_grow(batch, events.drop_last());
    }
}

/// Every transfer of a batch was added for one of the events, with the status of that event or,
/// for a deposit in a final block, as one that is not final.
pub proof fn law_every_transfer_has_its_event(
    last_finalized_block: u64,
    events: Seq<ObservedEvent>,
    i: int,
) -> (k: int)
    requires
        0 <= i < collected(empty_batch(last_finalized_block), events).transfers.len(),
    ensures
        0 <= k < events.len(),
        events[k].added(last_finalized_block).contains(
            collected(empty_batch(last_finalized_block), events).transfers[i],
        ),
    decreases events.len(),
{
    let before = collected(empty_batch(last_finalized_block), events.drop_last());
    law_writes_only_grow(empty_batch(last_finalized_block), events.drop_last());
    let added = events.last().added(last_finalized_block);
    if i < before.transfers.len() {
        law_every_transfer_has_its_event(last_finalized_block, events.drop_last(), i)
    } else {
        assert(added[i - before.transfers.len()] == collected(
            empty_batch(last_finalized_block),
            events,
        ).transfers[i]);
        events.len() - 1
    }
}

/// No event is lost: what an event adds stands in the batch, in one piece.
pub proof fn law_every_event_has_its_transfers(
    last_finalized_block: u64,
    events: Seq<ObservedEvent>,
    k: int,
) -> (i: int)
    requires
        0 <= k < events.len(),
    ensures
        0 <= i,
        i + events[k].added(last_finalized_block).len() <= collected(
            empty_batch(last_finalized_block),
            events,
        ).transfers.len(),
        collected(empty_batch(last_finalized_block), events).transfers.subrange(
            i,
            i + events[k].added(last_finalized_block).len(),
        ) == events[k].added(last_finalized_block),
    decreases events.len(),
{
    let batch = empty_batch(last_finalized_block);
    let before = collected(batch, events.drop_last());
    let all = collected(batch, events);
    let added = events[k].added(last_finalized_block);
    law_writes_only_grow(batch, events.drop_last());
    if k == events.len() - 1 {
        let i = before.transfers.len() as int;
        assert(all.transfers.subrange(i, i + added.len()) =~= added);
        i
    } else {
        let i = law_every_event_has_its_transfers(last_finalized_block, events.drop_last(), k);
        assert(all.transfers.subrange(i, i + added.len()) =~= before.transfers.subrange(
            i,
            i + added.len(),
        ));
        i
    }
}

/// A deposit that is stored as not final is followed by the same deposit as a final one; and a
/// final deposit in a final block follows the same deposit as one that is not final.
pub proof fn law_finalized_deposits_come_in_pairs(
    last_finalized_block: u64,
    events: Seq<ObservedEvent>,
    i: int,
)
    requires
        0 <= i < collected(empty_batch(last_finalized_block), events).transfers.len(),
    ensures
        ({
            let batch = collected(empty_batch(last_finalized_block), events);
            let transfer = batch.transfers[i];
            &&& transfer.status == TokenTransferStatus::DepositedUnfinalized ==> finalized_pair(
                batch,
                i,
            )
            &&& transfer.status == TokenTransferStatus::Deposited && transfer.block_height
                <= last_finalized_block ==> finalized_pair(batch, i - 1)
        }),
    decreases events.len(),
{
    let batch = collected(empty_batch(last_finalized_block), events);
    let before = collected(empty_batch(last_finalized_block), events.drop_last());
    let added = events.last().added(last_finalized_block);
    law_writes_only_grow(empty_batch(last_finalized_block), events.drop_last());
    if i < before.transfers.len() {
        law_finalized_deposits_come_in_pairs(last_finalized_block, events.drop_last(), i);
    } else {
        let n = before.transfers.len() as int;
        assert(forall|j: int| 0 <= j < added.len() ==> batch.transfers[n + j] == added[j]);
        if added.len() == 2 {
            assert(batch.transfers[n] == added[0]);
            assert(batch.transfers[n + 1] == added[1]);
            assert(added[0].with_status(TokenTransferStatus::Deposited) == added[1]);
        }
    }
}

/// A stored transfer was read from the Ethereum side, at a whole second. It holds data exactly
/// if it is a deposit, and the sender of a deposit is the sender of its transaction.
pub proof fn law_stored_transfers_are_consistent(
    event: ObservedEvent,
    last_finalized_block: u64,
    i: int,
)
    requires
        0 <= i < event.added(last_finalized_block).len(),
    ensures
        ({
            let transfer = event.added(last_finalized_block)[i];
            &&& transfer.data_source == BridgeDataSource::Eth
            &&& transfer.timestamp_ms == 1000 * event.timestamp.value()
            &&& transfer.block_height == event.block_number
            &&& transfer.txn_hash == event.tx_hash@
            &&& transfer.data is None <==> transfer.status == TokenTransferStatus::Claimed
            &&& transfer.data matches Some(data) ==> data.sender_address == transfer.txn_sender
        }),
{
}

/// How many transfers an event adds: two for a deposit in a final block, one for any other
/// deposit and for a claim, none for any other event.
pub proof fn law_number_of_transfers(event: ObservedEvent, last_finalized_block: u64)
    ensures
        event.added(last_finalized_block).len() == match event.class() {
            EventClass::Deposited => if event.block_number <= last_finalized_block {
                2nat
            } else {
                1
            },
            EventClass::Claimed => 1,
            EventClass::Other => 0,
        },
{
}

/// What a later view of the chain changes for an event: a deposit in a block that has become final
/// is also added as one that is not final, in front, and nothing else changes.
pub proof fn law_later_finality_adds_in_front(event: ObservedEvent, earlier: u64, later: u64)
    requires
        earlier <= later,
    ensures
        event.added(later) == (if event.class() == EventClass::Deposited && earlier
            < event.block_number <= later {
            seq![
                event.transfer()->Some_0.with_status(TokenTransferStatus::DepositedUnfinalized),
            ] + event.added(earlier)
        } else {
            event.added(earlier)
        }),
{
}

/// The transfers without the deposits that are not final yet.
pub open spec fn settled(transfers: Seq<TransferView>) -> Seq<TransferView> {
    transfers.filter(
        |transfer: TransferView| transfer.status != TokenTransferStatus::DepositedUnfinalized,
    )
}

/// How far the chain is final decides only on the deposits that are added as not final yet: but for
/// those, the same transfers are collected from a list of events, in the same order.
pub proof fn law_finality_leaves_the_settled_transfers(
    events: Seq<ObservedEvent>,
    one_height: u64,
    other_height: u64,
)
    ensures
        settled(collected(empty_batch(one_height), events).transfers) == settled(
            collected(empty_batch(other_height), events).transfers,
        ),
    decreases events.len(),
{
    if events.len() > 0 {
        let before = events.drop_last();
        law_finality_leaves_the_settled_transfers(before, one_height, other_height);
        lemma_settled_grows(events, one_height);
        lemma_settled_grows(events, other_height);
    }
}

/// An event adds its transfer, and nothing else, to those that are not deposits that are not final.
proof fn lemma_settled_grows(events: Seq<ObservedEvent>, last_finalized_block: u64)
    requires
        events.len() > 0,
    ensures
        settled(collected(empty_batch(last_finalized_block), events).transfers) == settled(
            collected(empty_batch(last_finalized_block), events.drop_last()).transfers,
        ) + match events.last().transfer() {
            Some(transfer) => seq![transfer],
            None => Seq::empty(),
        },
{
    let batch = empty_batch(last_finalized_block);
    let before = collected(batch, events.drop_last()).transfers;
    let added = events.last().added(last_finalized_block);
    law_writes_only_grow(batch, events.drop_last());
    Seq::filter_distributes_over_add(
        before,
        added,
        |transfer: TransferView| transfer.status != TokenTransferStatus::DepositedUnfinalized,
    );
    reveal_with_fuel(Seq::filter, 3);
    assert(settled(added) =~= match events.last().transfer() {
        Some(transfer) => seq![transfer],
        None => Seq::empty(),
    });
}

/// A later view of the chain loses no transfer and keeps their order: what is collected from a list
/// of events with the earlier one stands, at the increasing `places`, in what is collected with the
/// later one.
pub proof fn law_later_finality_loses_nothing(
    events: Seq<ObservedEvent>,
    earlier: u64,
    later: u64,
) -> (places: Seq<int>)
    requires
        earlier <= later,
    ensures
        places.len() == collected(empty_batch(earlier), events).transfers.len(),
        forall|i: int|
            0 <= i < places.len() ==> 0 <= #[trigger] places[i] < collected(
                empty_batch(later),
                events,
            ).transfers.len() && collected(empty_batch(later), events).transfers[places[i]]
                == collected(empty_batch(earlier), events).transfers[i],
        forall|i: int, j: int| 0 <= i < j < places.len() ==> places[i] < places[j],
    decreases events.len(),
{
    if events.len() == 0 {
        Seq::empty()
    } else {
        let before = collected(empty_batch(earlier), events.drop_last()).transfers;
        let after = collected(empty_batch(later), events.drop_last()).transfers;
        let added_earlier = events.last().added(earlier);
        let added_later = events.last().added(later);
        law_writes_only_grow(empty_batch(earlier), events.drop_last());
        law_writes_only_grow(empty_batch(later), events.drop_last());
        law_later_finality_adds_in_front(events.last(), earlier, later);
        let first = law_later_finality_loses_nothing(events.drop_last(), earlier, later);
        let skipped = added_later.len() - added_earlier.len();
        let places = first + Seq::new(added_earlier.len(), |k: int| after.len() + skipped + k);
        assert(collected(empty_batch(earlier), events).transfers =~= before + added_earlier);
        assert(collected(empty_batch(later), events).transfers =~= after + added_later);
        assert forall|i: int| 0 <= i < places.len() implies 0 <= #[trigger] places[i] < (after
            + added_later).len() && (after + added_later)[places[i]] == (before
            + added_earlier)[i] by {
            if i < first.len() {
                assert(places[i] == first[i]);
            } else {
                let k = i - first.len();
                assert(added_later[skipped + k] == added_earlier[k]);
            }
        }
        places
    }
}

/// A deposit is stored as it is: every transfer that is added for it holds the chain, the nonce, the
/// sender, the recipient, the token and the amount of the deposit, the block and the time of the
/// event, and the hash and the gas of its transaction. The last of them is a final deposit; the one
/// in front of it, which only a deposit in a final block has, is not.
pub proof fn law_deposit_is_stored_as_it_is(
    event: ObservedEvent,
    deposit: TokensDeposited,
    last_finalized_block: u64,
    i: int,
)
    requires
        event.event == EthBridgeEvent::EthSuiBridgeEvents(
            EthSuiBridgeEvents::TokensDepositedFilter(deposit),
        ),
        0 <= i < event.added(last_finalized_block).len(),
    ensures
        ({
            let added = event.added(last_finalized_block);
            let transfer = added[i];
            &&& added.len() == (if event.block_number <= last_finalized_block {
                2int
            } else {
                1
            })
            &&& transfer.status == (if i + 1 == added.len() {
                TokenTransferStatus::Deposited
            } else {
                TokenTransferStatus::DepositedUnfinalized
            })
            &&& transfer.chain_id == deposit.source_chain_id
            &&& transfer.nonce == deposit.nonce
            &&& transfer.block_height == event.block_number
            &&& transfer.timestamp_ms == 1000 * event.timestamp.value()
            &&& transfer.txn_hash == event.tx_hash@
            &&& transfer.txn_sender == deposit.sender_address@
            &&& event.gas.value() < 0x8000_0000_0000_0000 ==> transfer.gas_usage
                == event.gas.value()
            &&& 0x8000_0000_0000_0000 <= event.gas.value() <= u64::MAX ==> transfer.gas_usage
                == event.gas.value() - 0x1_0000_0000_0000_0000
            &&& transfer.data_source == BridgeDataSource::Eth
            &&& transfer.data is Some
            &&& transfer.data->Some_0.sender_address == deposit.sender_address@
            &&& transfer.data->Some_0.destination_chain == deposit.destination_chain_id
            &&& transfer.data->Some_0.recipient_address == deposit.recipient_address@
            &&& transfer.data->Some_0.token_id == deposit.token_id
            &&& transfer.data->Some_0.amount == deposit.sui_adjusted_amount
        }),
{
}

/// A deposit is stored, whatever it holds: at least one transfer is added for it.
pub proof fn law_deposit_is_stored(
    event: ObservedEvent,
    deposit: TokensDeposited,
    last_finalized_block: u64,
)
    requires
        event.event == EthBridgeEvent::EthSuiBridgeEvents(
            EthSuiBridgeEvents::TokensDepositedFilter(deposit),
        ),
    ensures
        event.added(last_finalized_block).len() > 0,
        event.added(last_finalized_block).len() == 2 <==> event.block_number
            <= last_finalized_block,
        event.added(last_finalized_block).last().status == TokenTransferStatus::Deposited,
{
}

/// A claim is stored as it is, once, whether its block is final or not: with the chain, the nonce and
/// the sender of the claim, the block and the time of the event, and the hash and the gas of its
/// transaction.
pub proof fn law_claim_is_stored_as_it_is(
    event: ObservedEvent,
    claim: TokensClaimed,
    last_finalized_block: u64,
)
    requires
        event.event == EthBridgeEvent::EthSuiBridgeEvents(
            EthSuiBridgeEvents::TokensClaimedFilter(claim),
        ),
    ensures
        ({
            let added = event.added(last_finalized_block);
            let transfer = added[0];
            &&& added.len() == 1
            &&& transfer.status == TokenTransferStatus::Claimed
            &&& transfer.chain_id == claim.source_chain_id
            &&& transfer.nonce == claim.nonce
            &&& transfer.block_height == event.block_number
            &&& transfer.timestamp_ms == 1000 * event.timestamp.value()
            &&& transfer.txn_hash == event.tx_hash@
            &&& transfer.txn_sender == claim.sender_address@
            &&& event.gas.value() < 0x8000_0000_0000_0000 ==> transfer.gas_usage
                == event.gas.value()
            &&& 0x8000_0000_0000_0000 <= event.gas.value() <= u64::MAX ==> transfer.gas_usage
                == event.gas.value() - 0x1_0000_0000_0000_0000
            &&& transfer.data_source == BridgeDataSource::Eth
            &&& transfer.data is None
        }),
{
}

/// What an event amounts to is decided by what it is: a deposit, a claim, or any other one; and for
/// any other one nothing is stored.
pub proof fn law_only_deposits_and_claims_are_stored(
    event: ObservedEvent,
    last_finalized_block: u64,
)
    ensures
        ({
            let is_deposit = event.event matches EthBridgeEvent::EthSuiBridgeEvents(
                EthSuiBridgeEvents::TokensDepositedFilter(_),
            );
            let is_claim = event.event matches EthBridgeEvent::EthSuiBridgeEvents(
                EthSuiBridgeEvents::TokensClaimedFilter(_),
            );
            &&& event.class() == event.event.class()
            &&& event.class() == EventClass::Deposited <==> is_deposit
            &&& event.class() == EventClass::Claimed <==> is_claim
            &&& event.class() == EventClass::Other <==> !is_deposit && !is_claim
            &&& event.added(last_finalized_block).len() > 0 <==> is_deposit || is_claim
            &&& event.transfer() is Some <==> is_deposit || is_claim
        }),
{
}

/// Which events can be stored: those whose time in milliseconds fits in 64 bits, and whose gas does
/// too if they are deposits or claims.
pub proof fn law_storable_events(event: ObservedEvent)
    ensures
        ({
            let is_transfer = (event.event matches EthBridgeEvent::EthSuiBridgeEvents(
                EthSuiBridgeEvents::TokensDepositedFilter(_),
            )) || (event.event matches EthBridgeEvent::EthSuiBridgeEvents(
                EthSuiBridgeEvents::TokensClaimedFilter(_),
            ));
            event.storable() <==> 1000 * event.timestamp.value() <= u64::MAX && (is_transfer
                ==> event.gas.value() <= u64::MAX)
        }),
        event.event.storable(event.timestamp, event.gas) <==> event.storable(),
{
}

/// An event adds to a batch at its end: what stood in the batch stays where it is, and what the event
/// adds follows.
pub proof fn law_event_adds_at_the_end(batch: BatchView, event: ObservedEvent, i: int)
    requires
        0 <= i < batch.with(event).transfers.len(),
    ensures
        ({
            let before = batch.transfers;
            let added = event.added(batch.last_finalized_block);
            &&& batch.with(event).transfers.len() == before.len() + added.len()
            &&& batch.with(event).transfers[i] == (if i < before.len() {
                before[i]
            } else {
                added[i - before.len()]
            })
            &&& batch.with(event).last_finalized_block == batch.last_finalized_block
        }),
{
}

/// A batch holds as many transfers after an event as before it, and those that the event adds.
pub proof fn law_event_adds_its_transfers(batch: BatchView, event: ObservedEvent)
    ensures
        batch.with(event).transfers.len() == batch.transfers.len() + event.added(
            batch.last_finalized_block,
        ).len(),
{
}

/// After a deposit or a claim, and after no other event, everything that has been collected is to be
/// written: what stood in the batch, and behind it what the event adds.
pub proof fn law_all_transfers_are_written_after_each_one(batch: BatchView, event: ObservedEvent)
    ensures
        ({
            let is_deposit = event.event matches EthBridgeEvent::EthSuiBridgeEvents(
                EthSuiBridgeEvents::TokensDepositedFilter(_),
            );
            let is_claim = event.event matches EthBridgeEvent::EthSuiBridgeEvents(
                EthSuiBridgeEvents::TokensClaimedFilter(_),
            );
            &&& batch.to_write(event) is Some <==> is_deposit || is_claim
            &&& batch.to_write(event) matches Some(written) ==> written == batch.transfers
                + event.added(batch.last_finalized_block)
        }),
{
}

/// The contents of what is to be written are those of its transfers, in order, if there are any.
pub proof fn law_written_list_holds_its_transfers(
    write: Option<Vec<TokenTransfer>>,
    i: int,
)
    ensures
        transfers::optional_views(write) is Some <==> write is Some,
        write matches Some(list) ==> transfers::optional_views(write)->Some_0.len() == list@.len(),
        write is Some && 0 <= i < write->Some_0@.len() ==> transfers::optional_views(
            write,
        )->Some_0[i] == write->Some_0@[i]@,
{
}

/// The contents of a stored transfer are what its fields hold.
pub proof fn law_transfer_holds_its_contents(transfer: TokenTransfer)
    ensures
        ({
            let view = transfer@;
            &&& view.chain_id == transfer.chain_id
            &&& view.nonce == transfer.nonce
            &&& view.block_height == transfer.block_height
            &&& view.timestamp_ms == transfer.timestamp_ms
            &&& view.txn_hash == transfer.txn_hash@
            &&& view.txn_sender == transfer.txn_sender@
            &&& view.status == transfer.status
            &&& view.gas_usage == transfer.gas_usage
            &&& view.data_source == transfer.data_source
            &&& view.data is Some <==> transfer.data is Some
            &&& transfer.data matches Some(data) ==> view.data == Some(data@)
        }),
{
}

/// The contents of the data of a deposit are what their fields hold.
pub proof fn law_transfer_data_hold_their_contents(data: TokenTransferData)
    ensures
        data@.sender_address == data.sender_address@,
        data@.destination_chain == data.destination_chain,
        data@.recipient_address == data.recipient_address@,
        data@.token_id == data.token_id,
        data@.amount == data.amount,
{
}

/// The contents of a list of transfers are those of its transfers, in order.
pub proof fn law_list_holds_its_transfers(list: Seq<TokenTransfer>, i: int)
    requires
        0 <= i < list.len(),
    ensures
        transfers::transfer_views(list).len() == list.len(),
        transfers::transfer_views(list)[i] == list[i]@,
{
}

/// Another status changes nothing of a transfer but the status.
pub proof fn law_status_is_all_that_changes(transfer: TransferView, status: TokenTransferStatus)
    ensures
        transfer.with_status(status).status == status,
        transfer.with_status(status).with_status(transfer.status) == transfer,
        transfer.with_status(status).chain_id == transfer.chain_id,
        transfer.with_status(status).nonce == transfer.nonce,
        transfer.with_status(status).block_height == transfer.block_height,
        transfer.with_status(status).timestamp_ms == transfer.timestamp_ms,
        transfer.with_status(status).txn_hash == transfer.txn_hash,
        transfer.with_status(status).txn_sender == transfer.txn_sender,
        transfer.with_status(status).gas_usage == transfer.gas_usage,
        transfer.with_status(status).data_source == transfer.data_source,
        transfer.with_status(status).data == transfer.data,
{
}

/// The bits of a gas that fits in 64 bits are kept: it is stored as the signed number that is equal to
/// it, or that is smaller by two to the power 64.
pub proof fn law_gas_keeps_its_bits(gas: int)
    requires
        0 <= gas <= u64::MAX,
    ensures
        i64::MIN <= transfers::as_signed(gas) <= i64::MAX,
        transfers::as_signed(gas) == gas || transfers::as_signed(gas) + 0x1_0000_0000_0000_0000
            == gas,
{
}

/// The number that four words stand for: each word counts two to the power 64 times as much as the
/// one before it. It fits in one word exactly if the three higher ones are zero, and is then the
/// lowest one.
pub proof fn law_words_make_a_number(number: Uint256)
    ensures
        number.value() == number.words[0] + 0x1_0000_0000_0000_0000 * number.words[1]
            + 0x1_0000_0000_0000_0000_0000_0000_0000_0000 * number.words[2]
            + 0x1_0000_0000_0000_0000_0000_0000_0000_0000_0000_0000_0000_0000 * number.words[3],
        number.value() <= u64::MAX <==> number.words[1] == 0 && number.words[2] == 0
            && number.words[3] == 0,
        number.value() <= u64::MAX ==> number.value() == number.words[0],
{
}

} // verus!
