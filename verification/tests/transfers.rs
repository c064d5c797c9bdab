use sui_workers::ethereum::Uint256;
use sui_workers::transfers::{
    BridgeDataSource, EthBridgeEvent, EthSuiBridgeEvents, EventClass, ObservedEvent, TokenTransfer,
    TokenTransferData, TokenTransferStatus, TokensClaimed, TokensDeposited, TransferBatch,
};

fn word(n: u64) -> Uint256 {
    Uint256 { words: [n, 0, 0, 0] }
}

fn observed(event: EthBridgeEvent, block_number: u64) -> ObservedEvent {
    ObservedEvent {
        event,
        block_number,
        timestamp: word(1_700_000_000),
        tx_hash: [7; 32],
        gas: word(21_000),
    }
}

fn deposit(nonce: u64) -> EthBridgeEvent {
    EthBridgeEvent::EthSuiBridgeEvents(EthSuiBridgeEvents::TokensDepositedFilter(TokensDeposited {
        source_chain_id: 11,
        nonce,
        destination_chain_id: 1,
        token_id: 2,
        sui_adjusted_amount: 123_456,
        sender_address: [3; 20],
        recipient_address: vec![4; 32],
    }))
}

fn claim(nonce: u64) -> EthBridgeEvent {
    EthBridgeEvent::EthSuiBridgeEvents(EthSuiBridgeEvents::TokensClaimedFilter(TokensClaimed {
        source_chain_id: 1,
        nonce,
        sender_address: vec![5; 32],
    }))
}

fn deposit_transfer(nonce: u64, block: u64, status: TokenTransferStatus) -> TokenTransfer {
    TokenTransfer {
        chain_id: 11,
        nonce,
        block_height: block,
        timestamp_ms: 1_700_000_000_000,
        txn_hash: vec![7; 32],
        txn_sender: vec![3; 20],
        status,
        gas_usage: 21_000,
        data_source: BridgeDataSource::Eth,
        data: Some(TokenTransferData {
            sender_address: vec![3; 20],
            destination_chain: 1,
            recipient_address: vec![4; 32],
            token_id: 2,
            amount: 123_456,
        }),
    }
}

fn claim_transfer(nonce: u64, block: u64) -> TokenTransfer {
    TokenTransfer {
        chain_id: 1,
        nonce,
        block_height: block,
        timestamp_ms: 1_700_000_000_000,
        txn_hash: vec![7; 32],
        txn_sender: vec![5; 32],
        status: TokenTransferStatus::Claimed,
        gas_usage: 21_000,
        data_source: BridgeDataSource::Eth,
        data: None,
    }
}

#[test]
fn finalized_deposit_is_stored_twice() {
    let mut batch = TransferBatch::new(100);
    assert_eq!(deposit(9).classify(), EventClass::Deposited);
    assert_eq!(
        batch.process(&observed(deposit(9), 100)),
        Some(vec![
            deposit_transfer(9, 100, TokenTransferStatus::DepositedUnfinalized),
            deposit_transfer(9, 100, TokenTransferStatus::Deposited),
        ])
    );
}

#[test]
fn deposit_above_the_last_final_block_is_stored_once() {
    let mut batch = TransferBatch::new(100);
    assert_eq!(
        batch.process(&observed(deposit(9), 101)),
        Some(vec![deposit_transfer(9, 101, TokenTransferStatus::Deposited)])
    );
}

#[test]
fn claim_is_stored_once() {
    let mut batch = TransferBatch::new(100);
    assert_eq!(claim(4).classify(), EventClass::Claimed);
    assert_eq!(batch.process(&observed(claim(4), 7)), Some(vec![claim_transfer(4, 7)]));
}

#[test]
fn other_events_are_not_stored() {
    let others = vec![
        EthBridgeEvent::EthSuiBridgeEvents(EthSuiBridgeEvents::PausedFilter),
        EthBridgeEvent::EthSuiBridgeEvents(EthSuiBridgeEvents::UnpausedFilter),
        EthBridgeEvent::EthSuiBridgeEvents(EthSuiBridgeEvents::UpgradedFilter),
        EthBridgeEvent::EthSuiBridgeEvents(EthSuiBridgeEvents::InitializedFilter),
        EthBridgeEvent::EthBridgeCommitteeEvents,
        EthBridgeEvent::EthBridgeLimiterEvents,
        EthBridgeEvent::EthBridgeConfigEvents,
        EthBridgeEvent::EthCommitteeUpgradeableContractEvents,
    ];
    let mut batch = TransferBatch::new(100);
    for other in others {
        assert_eq!(other.classify(), EventClass::Other);
        assert_eq!(batch.process(&observed(other, 7)), None);
    }
    assert_eq!(batch.process(&observed(claim(4), 7)), Some(vec![claim_transfer(4, 7)]));
}

#[test]
fn batch_grows_in_the_order_of_the_events() {
    let mut batch = TransferBatch::new(50);
    let first = batch.process(&observed(claim(1), 60));
    batch.process(&observed(EthBridgeEvent::EthBridgeLimiterEvents, 40));
    let second = batch.process(&observed(deposit(2), 40));
    assert_eq!(first.unwrap(), vec![claim_transfer(1, 60)]);
    assert_eq!(
        second.unwrap(),
        vec![
            claim_transfer(1, 60),
            deposit_transfer(2, 40, TokenTransferStatus::DepositedUnfinalized),
            deposit_transfer(2, 40, TokenTransferStatus::Deposited),
        ]
    );
}

#[test]
fn gas_keeps_its_bits() {
    let mut event = observed(claim(1), 60);
    event.gas = word(u64::MAX);
    let mut batch = TransferBatch::new(50);
    assert!(event.is_storable());
    assert_eq!(batch.process(&event).unwrap()[0].gas_usage, -1);
    event.gas = word(1 << 63);
    assert_eq!(batch.process(&event).unwrap()[1].gas_usage, i64::MIN);
    event.gas = word((1 << 63) - 1);
    assert_eq!(batch.process(&event).unwrap()[2].gas_usage, i64::MAX);
}

#[test]
fn numbers_that_cannot_be_stored_are_told() {
    let mut event = observed(claim(1), 60);
    event.timestamp = word(u64::MAX / 1000);
    assert!(event.is_storable());
    event.timestamp = word(u64::MAX / 1000 + 1);
    assert!(!event.is_storable());
    event.timestamp = Uint256 { words: [1, 1, 0, 0] };
    assert!(!event.is_storable());
    event.timestamp = word(1);
    event.gas = Uint256 { words: [0, 0, 0, 1] };
    assert!(!event.is_storable());
    event.event = EthBridgeEvent::EthBridgeConfigEvents;
    assert!(event.is_storable());
}
