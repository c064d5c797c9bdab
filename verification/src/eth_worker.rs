//! The worker that indexes the Ethereum side of the bridge.

use std::sync::Arc;

use vstd::prelude::*;

use crate::block_sync::{BlockSync, SyncView, MAX_BLOCK_RANGE};
use crate::ethereum;
use crate::ethereum::{parse_address, AddressError};
use crate::rpc_provider;
use crate::rpc_provider::{RpcProvider, UrlError};

verus! {

/// The interval, in milliseconds, at which the provider of a worker polls.
pub const POLL_INTERVAL_MILLIS: u64 = 2000;

/// What a worker is configured with.
#[derive(Clone, Debug)]
pub struct Config {
    /// The address of the bridge contract, in hexadecimal digits.
    pub eth_sui_bridge_contract_address: String,
    /// The URL of the RPC server.
    pub eth_rpc_url: String,
}

/// Why a worker could not be built.
#[derive(Clone, Copy, Debug, PartialEq, Eq, Structural)]
pub enum WorkerError {
    /// The address of the bridge contract is malformed.
    BridgeAddress(AddressError),
    /// The URL of the RPC server is malformed.
    RpcUrl(UrlError),
}

/// A worker that indexes the events of the bridge contract.
#[derive(Clone)]
pub struct EthBridgeWorker {
    /// The provider for the RPC server.
    pub provider: Arc<RpcProvider>,
    /// The address of the bridge contract.
    pub bridge_address: [u8; 20],
    /// What the worker was configured with.
    pub config: Config,
}

impl EthBridgeWorker {
    /// Building a worker with the given configuration has the given outcome.
    pub open spec fn builds(config: Config, built: Result<EthBridgeWorker, WorkerError>) -> bool {
        match ethereum::address_of(config.eth_sui_bridge_contract_address@) {
            Err(error) => built == Err::<EthBridgeWorker, _>(WorkerError::BridgeAddress(error)),
            Ok(address) => match rpc_provider::rpc_url_error(config.eth_rpc_url@) {
                Some(error) => built == Err::<EthBridgeWorker, _>(WorkerError::RpcUrl(error)),
                None => {
                    &&& built is Ok
                    &&& built->Ok_0.bridge_address@ == address
                    &&& built->Ok_0.provider.url() == config.eth_rpc_url@
                    &&& built->Ok_0.provider.interval_millis() == Some(POLL_INTERVAL_MILLIS)
                    &&& built->Ok_0.config == config
                },
            },
        }
    }

    /// Builds a worker: parses the address of the bridge contract, and makes a provider for the
    /// RPC server that polls every [`POLL_INTERVAL_MILLIS`] milliseconds.
    pub fn new(config: Config) -> (built: Result<EthBridgeWorker, WorkerError>)
        ensures
            match ethereum::address_of(config.eth_sui_bridge_contract_address@) {
                Err(error) => built == Err::<EthBridgeWorker, _>(WorkerError::BridgeAddress(error)),
                Ok(address) => match rpc_provider::rpc_url_error(config.eth_rpc_url@) {
                    Some(error) => built == Err::<EthBridgeWorker, _>(WorkerError::RpcUrl(error)),
                    None => {
                        &&& built is Ok
                        &&& built->Ok_0.bridge_address@ == address
                        &&& built->Ok_0.provider.url() == config.eth_rpc_url@
                        &&& built->Ok_0.provider.interval_millis() == Some(POLL_INTERVAL_MILLIS)
                        &&& built->Ok_0.config == config
                    },
                },
            },
            EthBridgeWorker::builds(config, built),
    {
        match parse_address(config.eth_sui_bridge_contract_address.as_str()) {
            Err(error) => Err(WorkerError::BridgeAddress(error)),
            Ok(bridge_address) => {
                let provider = RpcProvider::connect(config.eth_rpc_url.as_str());
                EthBridgeWorker::with_provider(bridge_address, provider, config)
            },
        }
    }

    /// Builds a worker for the contract at `bridge_address`, with the provider that was made for
    /// the RPC server, if it could be made.
    pub fn with_provider(
        bridge_address: [u8; 20],
        provider: Result<RpcProvider, UrlError>,
        config: Config,
    ) -> (built: Result<EthBridgeWorker, WorkerError>)
        ensures
            match provider {
                Err(error) => built == Err::<EthBridgeWorker, _>(WorkerError::RpcUrl(error)),
                Ok(made) => {
                    &&& built is Ok
                    &&& built->Ok_0.bridge_address == bridge_address
                    &&& built->Ok_0.provider.url() == made.url()
                    &&& built->Ok_0.provider.interval_millis() == Some(POLL_INTERVAL_MILLIS)
                    &&& built->Ok_0.config == config
                },
            },
    {
        match provider {
            Err(error) => Err(WorkerError::RpcUrl(error)),
            Ok(provider) => Ok(
                EthBridgeWorker {
                    provider: Arc::new(provider.interval(POLL_INTERVAL_MILLIS)),
                    bridge_address,
                    config,
                },
            ),
        }
    }

    /// Begins to synchronise the history of the bridge, from `current_block` down to
    /// `genesis_block`. `stored` holds the earliest and the latest block that the store
    /// remembers.
    pub fn sync_events(
        &self,
        current_block: u64,
        stored: (u64, u64),
        genesis_block: u64,
    ) -> (sync: BlockSync)
        requires
            current_block >= MAX_BLOCK_RANGE,
        ensures
            sync@ == SyncView::opening(
                current_block as int,
                (stored.0 as int, stored.1 as int),
                genesis_block as int,
            ),
            sync@.well_formed(),
            sync@.current == current_block,
            sync@.genesis == genesis_block,
            sync@.end == current_block,
            sync@.start == current_block - 1000,
            stored.0 == 0 ==> sync@.earliest == current_block && sync@.latest == current_block,
            stored.0 != 0 ==> sync@.earliest == stored.0 && sync@.latest == stored.1,
    {
        BlockSync::begin(current_block, stored, genesis_block)
    }
}

/// A worker is built exactly where the configured address and the configured URL are well formed. It
/// then has the bytes of that address, a provider for that URL that polls every two seconds, and the
/// configuration itself.
pub proof fn law_worker_is_built_as_configured(
    config: Config,
    built: Result<EthBridgeWorker, WorkerError>,
)
    requires
        EthBridgeWorker::builds(config, built),
    ensures
        built is Ok <==> ethereum::address_of(config.eth_sui_bridge_contract_address@) is Ok
            && rpc_provider::rpc_url_error(config.eth_rpc_url@) is None,
        built matches Ok(worker) ==> {
            &&& worker.config == config
            &&& worker.provider.url() == config.eth_rpc_url@
            &&& worker.provider.interval_millis() == Some(2000u64)
            &&& worker.bridge_address@ == ethereum::address_of(
                config.eth_sui_bridge_contract_address@,
            )->Ok_0
        },
{
}

/// A worker that is not built is refused for the first thing that is malformed: the address, or else
/// the URL.
pub proof fn law_worker_is_refused_for_the_address_first(
    config: Config,
    built: Result<EthBridgeWorker, WorkerError>,
)
    requires
        EthBridgeWorker::builds(config, built),
    ensures
        ethereum::address_of(config.eth_sui_bridge_contract_address@) matches Err(error) ==> built
            is Err && built->Err_0 == WorkerError::BridgeAddress(error),
        ethereum::address_of(config.eth_sui_bridge_contract_address@) is Ok ==> (
        rpc_provider::rpc_url_error(config.eth_rpc_url@) matches Some(error) ==> built is Err
            && built->Err_0 == WorkerError::RpcUrl(error)),
{
}

} // verus!
