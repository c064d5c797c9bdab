use sui_workers::ethereum::Uint256;
use sui_workers::event_run::{EventRequest, EventRun, EventSource};
use sui_workers::transfers::{
    is_storable_time, EthBridgeEvent, EthSuiBridgeEvents, EventClass, TokenTransfer,
    TokenTransferStatus, TokensClaimed, TokensDeposited,
};

fn word(n: u64) -> Uint256 {
    Uint256 { words: [n, 0, 0, 0] }
}

fn source(block_number: u64, byte: u8) -> EventSource {
    EventSource { block_number, tx_hash: [byte; 32] }
}

fn deposit() -> EthBridgeEvent {
    EthBridgeEvent::EthSuiBridgeEvents(EthSuiBridgeEvents::TokensDepositedFilter(TokensDeposited {
        source_chain_id: 11,
        nonce: 1,
        destination_chain_id: 1,
        token_id: 2,
        sui_adjusted_amount: 3,
        sender_address: [3; 20],
        recipient_address: vec![4; 32],
    }))
}

fn claim() -> EthBridgeEvent {
    EthBridgeEvent::EthSuiBridgeEvents(EthSuiBridgeEvents::TokensClaimedFilter(TokensClaimed {
        source_chain_id: 1,
        nonce: 2,
        sender_address: vec![5; 32],
    }))
}

#[test]
fn empty_list_asks_for_nothing() {
    assert_eq!(EventRun::begin(vec![], 10).request(), EventRequest::Done);
}

#[test]
fn foreign_events_are_passed_over() {
    let mut run = EventRun::begin(vec![source(1, 1), source(2, 2)], 10);
    assert_eq!(run.request(), EventRequest::Decode(0));
    run.decoded(None);
    assert_eq!(run.request(), EventRequest::Decode(1));
    run.decoded(None);
    assert_eq!(run.request(), EventRequest::Done);
}

#[test]
fn lookups_come_in_order() {
    let mut run = EventRun::begin(vec![source(8, 1), source(9, 2), source(11, 3)], 10);

    assert_eq!(run.request(), EventRequest::Decode(0));
    run.decoded(Some(deposit()));
    assert_eq!(run.request(), EventRequest::Block(8));
    run.timed(word(100));
    assert_eq!(run.request(), EventRequest::Transaction([1; 32]));
    assert!(run.is_storable(&word(7)));
    assert_eq!(run.class(), EventClass::Deposited);
    let written = run.processed(word(7)).unwrap();
    assert_eq!(written.len(), 2);
    assert_eq!(written[0].status, TokenTransferStatus::DepositedUnfinalized);
    assert_eq!(written[1].status, TokenTransferStatus::Deposited);
    assert_eq!(written[1].timestamp_ms, 100_000);
    assert_eq!(written[1].gas_usage, 7);
    assert_eq!(written[1].txn_hash, vec![1; 32]);

    assert_eq!(run.request(), EventRequest::Decode(1));
    run.decoded(Some(EthBridgeEvent::EthBridgeLimiterEvents));
    assert_eq!(run.request(), EventRequest::Block(9));
    run.timed(word(200));
    assert_eq!(run.request(), EventRequest::Transaction([2; 32]));
    assert!(run.is_storable(&Uint256 { words: [0, 1, 0, 0] }));
    assert_eq!(run.class(), EventClass::Other);
    assert_eq!(run.processed(word(7)), None);

    assert_eq!(run.request(), EventRequest::Decode(2));
    run.decoded(Some(claim()));
    assert_eq!(run.request(), EventRequest::Block(11));
    run.timed(word(300));
    assert!(!run.is_storable(&Uint256 { words: [0, 1, 0, 0] }));
    assert_eq!(run.class(), EventClass::Claimed);
    let written = run.processed(word(9)).unwrap();
    assert_eq!(written.len(), 3);
    assert_eq!(written[2].status, TokenTransferStatus::Claimed);
    assert_eq!(written[2].block_height, 11);
    assert_eq!(run.request(), EventRequest::Done);
}

#[test]
fn times_are_told_apart() {
    assert!(is_storable_time(&word(18_446_744_073_709_551)));
    assert!(!is_storable_time(&word(18_446_744_073_709_552)));
    assert!(!is_storable_time(&Uint256 { words: [0, 0, 1, 0] }));
}

fn transfers_of(events: &[(u64, EthBridgeEvent)], last_finalized_block: u64) -> Vec<TokenTransfer> {
    let sources = events.iter().map(|(block, _)| source(*block, 1)).collect();
    let mut run = EventRun::begin(sources, last_finalized_block);
    let mut written = vec![];
    for (_, event) in events {
        run.decoded(Some(event.clone()));
        run.timed(word(100));
        if let Some(transfers) = run.processed(word(7)) {
            written = transfers;
        }
    }
    assert_eq!(run.request(), EventRequest::Done);
    written
}

#[test]
fn runs_concatenate() {
    let first = vec![(8, deposit()), (9, EthBridgeEvent::EthBridgeConfigEvents), (11, claim())];
    let second = vec![(12, deposit()), (10, deposit())];
    let mut both = first.clone();
    both.extend(second.clone());
    let mut expected = transfers_of(&first, 10);
    expected.extend(transfers_of(&second, 10));
    assert_eq!(expected.len(), 6);
    assert_eq!(transfers_of(&both, 10), expected);
}

#[test]
fn later_finality_only_adds_in_front() {
    let events = vec![(8, deposit()), (9, claim()), (11, deposit()), (12, deposit())];
    let earlier = transfers_of(&events, 10);
    let later = transfers_of(&events, 11);
    assert_eq!(earlier.len(), 5);
    assert_eq!(later.len(), 6);
    assert_eq!(later[..3], earlier[..3]);
    assert_eq!(later[3].status, TokenTransferStatus::DepositedUnfinalized);
    assert_eq!(later[3].block_height, 11);
    assert_eq!(later[4..], earlier[3..]);
}

#[test]
fn finality_leaves_the_settled_transfers() {
    let events = vec![(8, deposit()), (9, claim()), (11, deposit()), (12, deposit())];
    let settled = |height: u64| -> Vec<TokenTransfer> {
        transfers_of(&events, height)
            .into_iter()
            .filter(|transfer| transfer.status != TokenTransferStatus::DepositedUnfinalized)
            .collect()
    };
    let blocks: Vec<u64> = settled(0).iter().map(|transfer| transfer.block_height).collect();
    assert_eq!(blocks, vec![8, 9, 11, 12]);
    assert_eq!(settled(0), settled(10));
    assert_eq!(settled(0), settled(100));
}
