//! The token transfers that are stored for the events of the bridge.

use vstd::prelude::*;
use vstd::slice::slice_to_vec;

use crate::ethereum::Uint256;

verus! {

/// How far a token transfer has come.
#[derive(Clone, Copy, Debug, PartialEq, Eq, Structural)]
pub enum TokenTransferStatus {
    DepositedUnfinalized,
    Deposited,
    Claimed,
}

/// The chain from which a transfer was read.
#[derive(Clone, Copy, Debug, PartialEq, Eq, Structural)]
pub enum BridgeDataSource {
    Sui,
    Eth,
}

/// What is known of the tokens that a deposit transfers.
#[derive(Debug, PartialEq, Eq)]
pub struct TokenTransferData {
    pub sender_address: Vec<u8>,
    pub destination_chain: u8,
    pub recipient_address: Vec<u8>,
    pub token_id: u8,
    pub amount: u64,
}

/// A token transfer as it is stored.
#[derive(Debug, PartialEq, Eq)]
pub struct TokenTransfer {
    pub chain_id: u8,
    pub nonce: u64,
    pub block_height: u64,
    pub timestamp_ms: u64,
    pub txn_hash: Vec<u8>,
    pub txn_sender: Vec<u8>,
    pub status: TokenTransferStatus,
    pub gas_usage: i64,
    pub data_source: BridgeDataSource,
    pub data: Option<TokenTransferData>,
}

/// The contents of a [`TokenTransferData`].
pub struct TransferDataView {
    pub sender_address: Seq<u8>,
    pub destination_chain: u8,
    pub recipient_address: Seq<u8>,
    pub token_id: u8,
    pub amount: u64,
}

/// The contents of a [`TokenTransfer`].
pub struct TransferView {
    pub chain_id: u8,
    pub nonce: u64,
    pub block_height: u64,
    pub timestamp_ms: int,
    pub txn_hash: Seq<u8>,
    pub txn_sender: Seq<u8>,
    pub status: TokenTransferStatus,
    pub gas_usage: int,
    pub data_source: BridgeDataSource,
    pub data: Option<TransferDataView>,
}

impl View for TokenTransferData {
    type V = TransferDataView;

    open spec fn view(&self) -> TransferDataView {
        TransferDataView {
            sender_address: self.sender_address@,
            destination_chain: self.destination_chain,
            recipient_address: self.recipient_address@,
            token_id: self.token_id,
            amount: self.amount,
        }
    }
}

impl View for TokenTransfer {
    type V = TransferView;

    open spec fn view(&self) -> TransferView {
        TransferView {
            chain_id: self.chain_id,
            nonce: self.nonce,
            block_height: self.block_height,
            timestamp_ms: self.timestamp_ms as int,
            txn_hash: self.txn_hash@,
            txn_sender: self.txn_sender@,
            status: self.status,
            gas_usage: self.gas_usage as int,
            data_source: self.data_source,
            data: match self.data {
                Some(data) => Some(data@),
                None => None,
            },
        }
    }
}

impl TransferView {
    /// The same transfer with another status.
    pub open spec fn with_status(self, status: TokenTransferStatus) -> TransferView {
        TransferView { status, ..self }
    }
}

impl Clone for TokenTransferData {
    fn clone(&self) -> (copy: Self)
        ensures
            copy@ == self@,
    {
        TokenTransferData {
            sender_address: slice_to_vec(self.sender_address.as_slice()),
            destination_chain: self.destination_chain,
            recipient_address: slice_to_vec(self.recipient_address.as_slice()),
            token_id: self.token_id,
            amount: self.amount,
        }
    }
}

impl Clone for TokenTransfer {
    fn clone(&self) -> (copy: Self)
        ensures
            copy@ == self@,
    {
        self.with_status(self.status)
    }
}

impl TokenTransfer {
    /// A copy of the transfer with another status.
    fn with_status(&self, status: TokenTransferStatus) -> (copy: TokenTransfer)
        ensures
            copy@ == self@.with_status(status),
    {
        TokenTransfer {
            chain_id: self.chain_id,
            nonce: self.nonce,
            block_height: self.block_height,
            timestamp_ms: self.timestamp_ms,
            txn_hash: slice_to_vec(self.txn_hash.as_slice()),
            txn_sender: slice_to_vec(self.txn_sender.as_slice()),
            status,
            gas_usage: self.gas_usage,
            data_source: self.data_source,
            data: match &self.data {
                Some(data) => Some(data.clone()),
                None => None,
            },
        }
    }
}

/// Tokens were deposited on the Ethereum side.
#[derive(Clone, Debug, PartialEq, Eq)]
pub struct TokensDeposited {
    pub source_chain_id: u8,
    pub nonce: u64,
    pub destination_chain_id: u8,
    pub token_id: u8,
    pub sui_adjusted_amount: u64,
    pub sender_address: [u8; 20],
    pub recipient_address: Vec<u8>,
}

/// Tokens were claimed on the Ethereum side.
#[derive(Clone, Debug, PartialEq, Eq)]
pub struct TokensClaimed {
    pub source_chain_id: u8,
    pub nonce: u64,
    pub sender_address: Vec<u8>,
}

/// An event of the bridge contract.
#[derive(Clone, Debug, PartialEq, Eq)]
pub enum EthSuiBridgeEvents {
    TokensDepositedFilter(TokensDeposited),
    TokensClaimedFilter(TokensClaimed),
    PausedFilter,
    UnpausedFilter,
    UpgradedFilter,
    InitializedFilter,
}

/// An event of one of the contracts of the bridge.
#[derive(Clone, Debug, PartialEq, Eq)]
pub enum EthBridgeEvent {
    EthSuiBridgeEvents(EthSuiBridgeEvents),
    EthBridgeCommitteeEvents,
    EthBridgeLimiterEvents,
    EthBridgeConfigEvents,
    EthCommitteeUpgradeableContractEvents,
}

impl EthBridgeEvent {
    /// What the event amounts to.
    pub open spec fn class(self) -> EventClass {
        match self {
            EthBridgeEvent::EthSuiBridgeEvents(
                EthSuiBridgeEvents::TokensDepositedFilter(_),
            ) => EventClass::Deposited,
            EthBridgeEvent::EthSuiBridgeEvents(
                EthSuiBridgeEvents::TokensClaimedFilter(_),
            ) => EventClass::Claimed,
            _ => EventClass::Other,
        }
    }

    /// What the event amounts to.
    pub fn classify(&self) -> (class: EventClass)
        ensures
            class == self.class(),
    {
        match self {
            EthBridgeEvent::EthSuiBridgeEvents(
                EthSuiBridgeEvents::TokensDepositedFilter(_),
            ) => EventClass::Deposited,
            EthBridgeEvent::EthSuiBridgeEvents(
                EthSuiBridgeEvents::TokensClaimedFilter(_),
            ) => EventClass::Claimed,
            _ => EventClass::Other,
        }
    }

    /// The numbers of the event are ones that can be stored: the time of its block in
    /// milliseconds, and the gas of a transfer, fit in 64 bits.
    pub open spec fn storable(self, timestamp: Uint256, gas: Uint256) -> bool {
        &&& timestamp.value() * 1000 <= u64::MAX
        &&& self.class() != EventClass::Other ==> gas.value() <= u64::MAX
    }

    /// Whether the event can be stored, with the time of its block in seconds and the gas of its
    /// transaction.
    pub fn is_storable(&self, timestamp: &Uint256, gas: &Uint256) -> (storable: bool)
        ensures
            storable == self.storable(*timestamp, *gas),
    {
        is_storable_time(timestamp) && (self.classify() == EventClass::Other || gas.fits_u64())
    }
}

/// Whether a time in seconds fits in 64 bits as one in milliseconds.
pub fn is_storable_time(timestamp: &Uint256) -> (storable: bool)
    ensures
        storable == (timestamp.value() * 1000 <= u64::MAX),
{
    timestamp.fits_u64() && timestamp.as_u64() <= u64::MAX / 1000
}

/// What an event amounts to.
#[derive(Clone, Copy, Debug, PartialEq, Eq, Structural)]
pub enum EventClass {
    /// A deposit, which stands for a transfer.
    Deposited,
    /// A claim, which stands for a transfer.
    Claimed,
    /// An event that stands for no transfer.
    Other,
}

/// An event of the bridge, with what was found of its block and of its transaction.
#[derive(Clone, Debug, PartialEq, Eq)]
pub struct ObservedEvent {
    pub event: EthBridgeEvent,
    /// The block of the event.
    pub block_number: u64,
    /// The time of that block, in seconds.
    pub timestamp: Uint256,
    /// The transaction of the event.
    pub tx_hash: [u8; 32],
    /// The gas of that transaction.
    pub gas: Uint256,
}

/// The number that is left of `n` in a signed integer of 64 bits.
pub open spec fn as_signed(n: int) -> int {
    if n < 0x8000_0000_0000_0000 {
        n
    } else {
        n - 0x1_0000_0000_0000_0000
    }
}

impl ObservedEvent {
    /// What the event amounts to.
    pub open spec fn class(self) -> EventClass {
        self.event.class()
    }

    /// The numbers of the event are ones that can be stored.
    pub open spec fn storable(self) -> bool {
        self.event.storable(self.timestamp, self.gas)
    }

    /// The transfer that the event stands for, if it stands for one.
    pub open spec fn transfer(self) -> Option<TransferView> {
        match self.event {
            EthBridgeEvent::EthSuiBridgeEvents(
                EthSuiBridgeEvents::TokensDepositedFilter(deposit),
            ) => Some(
                TransferView {
                    chain_id: deposit.source_chain_id,
                    nonce: deposit.nonce,
                    block_height: self.block_number,
                    timestamp_ms: self.timestamp.value() * 1000,
                    txn_hash: self.tx_hash@,
                    txn_sender: deposit.sender_address@,
                    status: TokenTransferStatus::Deposited,
                    gas_usage: as_signed(self.gas.value()),
                    data_source: BridgeDataSource::Eth,
                    data: Some(
                        TransferDataView {
                            sender_address: deposit.sender_address@,
                            destination_chain: deposit.destination_chain_id,
                            recipient_address: deposit.recipient_address@,
                            token_id: deposit.token_id,
                            amount: deposit.sui_adjusted_amount,
                        },
                    ),
                },
            ),
            EthBridgeEvent::EthSuiBridgeEvents(
                EthSuiBridgeEvents::TokensClaimedFilter(claim),
            ) => Some(
                TransferView {
                    chain_id: claim.source_chain_id,
                    nonce: claim.nonce,
                    block_height: self.block_number,
                    timestamp_ms: self.timestamp.value() * 1000,
                    txn_hash: self.tx_hash@,
                    txn_sender: claim.sender_address@,
                    status: TokenTransferStatus::Claimed,
                    gas_usage: as_signed(self.gas.value()),
                    data_source: BridgeDataSource::Eth,
                    data: None,
                },
            ),
            _ => None,
        }
    }

    /// The transfers that are added for the event, where the chain is final up to
    /// `last_finalized_block`. A deposit in a final block is also added as one that is not final
    /// yet, in front.
    pub open spec fn added(self, last_finalized_block: u64) -> Seq<TransferView> {
        match self.transfer() {
            None => Seq::empty(),
            Some(transfer) => if self.block_number <= last_finalized_block && transfer.status
                == TokenTransferStatus::Deposited {
                seq![transfer.with_status(TokenTransferStatus::DepositedUnfinalized), transfer]
            } else {
                seq![transfer]
            },
        }
    }

    /// Whether [`TransferBatch::process`] can take the event.
    pub fn is_storable(&self) -> (storable: bool)
        ensures
            storable == self.storable(),
    {
        self.event.is_storable(&self.timestamp, &self.gas)
    }
}

/// The transfers that are collected from a list of events.
#[derive(Debug)]
pub struct TransferBatch {
    last_finalized_block: u64,
    transfers: Vec<TokenTransfer>,
}

/// The contents of a [`TransferBatch`].
pub struct BatchView {
    pub last_finalized_block: u64,
    pub transfers: Seq<TransferView>,
}

/// The contents of a list of transfers.
pub open spec fn transfer_views(transfers: Seq<TokenTransfer>) -> Seq<TransferView> {
    transfers.map_values(|transfer: TokenTransfer| transfer@)
}

impl View for TransferBatch {
    type V = BatchView;

    closed spec fn view(&self) -> BatchView {
        BatchView {
            last_finalized_block: self.last_finalized_block,
            transfers: transfer_views(self.transfers@),
        }
    }
}

/// The contents of an optional list of transfers.
pub open spec fn optional_views(transfers: Option<Vec<TokenTransfer>>) -> Option<
    Seq<TransferView>,
> {
    match transfers {
        Some(transfers) => Some(transfer_views(transfers@)),
        None => None,
    }
}

impl BatchView {
    /// The transfers that are to be written once an event has been processed.
    pub open spec fn to_write(self, event: ObservedEvent) -> Option<Seq<TransferView>> {
        if event.class() == EventClass::Other {
            None
        } else {
            Some(self.with(event).transfers)
        }
    }

    /// The batch once an event has been processed.
    pub open spec fn with(self, event: ObservedEvent) -> BatchView {
        BatchView { transfers: self.transfers + event.added(self.last_finalized_block), ..self }
    }
}

impl TransferBatch {
    /// An empty batch, where the chain is final up to `last_finalized_block`.
    pub fn new(last_finalized_block: u64) -> (batch: TransferBatch)
        ensures
            batch@ == (BatchView { last_finalized_block, transfers: Seq::empty() }),
    {
        let batch = TransferBatch { last_finalized_block, transfers: Vec::new() };
        assert(batch@.transfers =~= Seq::<TransferView>::empty());
        batch
    }

    /// A copy of the transfers of the batch, in order.
    fn transfers(&self) -> (transfers: Vec<TokenTransfer>)
        ensures
            transfer_views(transfers@) == self@.transfers,
    {
        let mut transfers: Vec<TokenTransfer> = Vec::new();
        for i in 0..self.transfers.len()
            invariant
                transfers@.len() == i,
                forall|j: int| 0 <= j < i ==> (#[trigger] transfers@[j])@ == self.transfers@[j]@,
        {
            transfers.push(self.transfers[i].clone());
        }
        assert(transfer_views(transfers@) =~= self@.transfers);
        transfers
    }

    /// Adds the transfers of one event, and returns the transfers that are to be written: after an
    /// event that stands for a transfer all those of the batch, and else none.
    pub fn process(&mut self, observed: &ObservedEvent) -> (write: Option<Vec<TokenTransfer>>)
        requires
            observed.storable(),
        ensures
            final(self)@ == old(self)@.with(*observed),
            match write {
                Some(transfers) => {
                    &&& observed.class() != EventClass::Other
                    &&& transfer_views(transfers@) == final(self)@.transfers
                    &&& transfers@.len() == final(self)@.transfers.len()
                    &&& forall|i: int|
                        0 <= i < transfers@.len() ==> (#[trigger] transfers@[i])@
                            == final(self)@.transfers[i]
                },
                None => observed.class() == EventClass::Other,
            },
            optional_views(write) == old(self)@.to_write(*observed),
            final(self)@.last_finalized_block == old(self)@.last_finalized_block,
            old(self)@.transfers.is_prefix_of(final(self)@.transfers),
    {
        let finalized = observed.block_number <= self.last_finalized_block;
        let timestamp: u64 = observed.timestamp.as_u64() * 1000;
        let transfer = match &observed.event {
            EthBridgeEvent::EthSuiBridgeEvents(event) => match event {
                EthSuiBridgeEvents::TokensDepositedFilter(deposit) => TokenTransfer {
                    chain_id: deposit.source_chain_id,
                    nonce: deposit.nonce,
                    block_height: observed.block_number,
                    timestamp_ms: timestamp,
                    txn_hash: slice_to_vec(observed.tx_hash.as_slice()),
                    txn_sender: slice_to_vec(deposit.sender_address.as_slice()),
                    status: TokenTransferStatus::Deposited,
                    gas_usage: signed(observed.gas.as_u64()),
                    data_source: BridgeDataSource::Eth,
                    data: Some(
                        TokenTransferData {
                            sender_address: slice_to_vec(deposit.sender_address.as_slice()),
                            destination_chain: deposit.destination_chain_id,
                            recipient_address: slice_to_vec(deposit.recipient_address.as_slice()),
                            token_id: deposit.token_id,
                            amount: deposit.sui_adjusted_amount,
                        },
                    ),
                },
                EthSuiBridgeEvents::TokensClaimedFilter(claim) => TokenTransfer {
                    chain_id: claim.source_chain_id,
                    nonce: claim.nonce,
                    block_height: observed.block_number,
                    timestamp_ms: timestamp,
                    txn_hash: slice_to_vec(observed.tx_hash.as_slice()),
                    txn_sender: slice_to_vec(claim.sender_address.as_slice()),
                    status: TokenTransferStatus::Claimed,
                    gas_usage: signed(observed.gas.as_u64()),
                    data_source: BridgeDataSource::Eth,
                    data: None,
                },
                EthSuiBridgeEvents::PausedFilter
                | EthSuiBridgeEvents::UnpausedFilter
                | EthSuiBridgeEvents::UpgradedFilter
                | EthSuiBridgeEvents::InitializedFilter => {
                    assert(self@.transfers + Seq::empty() =~= self@.transfers);
                    return None;
                },
            },
            EthBridgeEvent::EthBridgeCommitteeEvents
            | EthBridgeEvent::EthBridgeLimiterEvents
            | EthBridgeEvent::EthBridgeConfigEvents
            | EthBridgeEvent::EthCommitteeUpgradeableContractEvents => {
                assert(self@.transfers + Seq::empty() =~= self@.transfers);
                return None;
            },
        };
        assert(Some(transfer@) == observed.transfer());
        let is_deposit = match transfer.status {
            TokenTransferStatus::Deposited => true,
            _ => false,
        };
        if finalized && is_deposit {
            self.transfers.push(transfer.with_status(TokenTransferStatus::DepositedUnfinalized));
        }
        self.transfers.push(transfer);
        assert(self@.transfers =~= old(self)@.with(*observed).transfers);
        Some(self.transfers())
    }
}

fn signed(n: u64) -> (s: i64)
    ensures
        s == as_signed(n as int),
{
    assert(n < 0x8000_0000_0000_0000 ==> n as i64 == n) by (bit_vector);
    assert(n >= 0x8000_0000_0000_0000 ==> n as i64 == n - 0x1_0000_0000_0000_0000) by (bit_vector);
    n as i64
}

} // verus!
