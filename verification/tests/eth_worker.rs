use std::sync::Arc;
use std::time::Duration;

use sui_workers::block_sync::BlockRange;
use sui_workers::eth_worker::{Config, EthBridgeWorker, WorkerError};
use sui_workers::ethereum::{AddressError, Uint256};
use sui_workers::rpc_provider::UrlError;

const ADDRESS: &str = "0xAE68F87938439afEEDd6552B0E83D2CbC2473623";
const BYTES: [u8; 20] = [
    0xae, 0x68, 0xf8, 0x79, 0x38, 0x43, 0x9a, 0xfe, 0xed, 0xd6, 0x55, 0x2b, 0x0e, 0x83, 0xd2, 0xcb,
    0xc2, 0x47, 0x36, 0x23,
];

fn build(address: &str, url: &str) -> Result<EthBridgeWorker, WorkerError> {
    EthBridgeWorker::new(Config {
        eth_sui_bridge_contract_address: address.to_string(),
        eth_rpc_url: url.to_string(),
    })
}

fn address_error(address: &str) -> AddressError {
    match build(address, "http://localhost:8545") {
        Err(WorkerError::BridgeAddress(error)) => error,
        Err(WorkerError::RpcUrl(_)) => panic!("the URL is well formed"),
        Ok(_) => panic!("the address is malformed"),
    }
}

fn url_error(url: &str) -> UrlError {
    match build(ADDRESS, url) {
        Err(WorkerError::RpcUrl(error)) => error,
        Err(WorkerError::BridgeAddress(_)) => panic!("the address is well formed"),
        Ok(_) => panic!("the URL is malformed"),
    }
}

#[test]
fn worker_is_built() {
    let worker = build(ADDRESS, "http://localhost:8545").ok().unwrap();
    assert_eq!(worker.bridge_address, BYTES);
    assert_eq!(worker.config.eth_rpc_url, "http://localhost:8545");
    assert_eq!(worker.provider.client().url().as_str(), "http://localhost:8545/");
    assert_eq!(worker.provider.client().get_interval(), Duration::from_millis(2000));
}

#[test]
fn prefix_and_blanks_of_an_address_are_passed_over() {
    let bare = "ae68f87938439afeedd6552b0e83d2cbc2473623";
    assert_eq!(build(bare, "http://localhost").ok().unwrap().bridge_address, BYTES);
    let spaced = "0x ae68f87938439afeedd6\t552b0e83d2cbc247362\n3 ";
    assert_eq!(build(spaced, "http://localhost").ok().unwrap().bridge_address, BYTES);
}

#[test]
fn malformed_addresses_are_refused() {
    assert_eq!(address_error(""), AddressError::InvalidHexLength);
    assert_eq!(address_error("0x"), AddressError::InvalidHexLength);
    assert_eq!(address_error("0xae68"), AddressError::InvalidHexLength);
    assert_eq!(address_error("0xae6"), AddressError::InvalidHexLength);
    assert_eq!(address_error(&format!("{}00", ADDRESS)), AddressError::InvalidHexLength);
    assert_eq!(address_error(&format!("{}0", ADDRESS)), AddressError::InvalidHexLength);
    assert_eq!(address_error(&format!("{}z", ADDRESS)), AddressError::InvalidHexLength);
    assert_eq!(address_error("0xae6z"), AddressError::InvalidHexCharacter('z', 3));
    assert_eq!(address_error("0x0xae"), AddressError::InvalidHexCharacter('x', 1));
    assert_eq!(address_error("a \u{e9}"), AddressError::InvalidHexCharacter('\u{e9}', 2));
}

#[test]
fn malformed_urls_are_refused() {
    assert_eq!(url_error(""), UrlError::RelativeUrlWithoutBase);
    assert_eq!(url_error("localhost"), UrlError::RelativeUrlWithoutBase);
    assert_eq!(url_error("http://"), UrlError::EmptyHost);
    assert_eq!(url_error("http://localhost:99999"), UrlError::InvalidPort);
    assert_eq!(url_error("http://1.2.3.4.5"), UrlError::InvalidIpv4Address);
    assert_eq!(url_error("http://[1::2::3]"), UrlError::InvalidIpv6Address);
}

#[test]
fn address_is_looked_at_before_the_url() {
    assert!(matches!(
        build("nowhere", "nothing"),
        Err(WorkerError::BridgeAddress(AddressError::InvalidHexCharacter('n', 0)))
    ));
}

#[test]
fn provider_that_could_not_be_made_refuses_the_worker() {
    let config = Config {
        eth_sui_bridge_contract_address: ADDRESS.to_string(),
        eth_rpc_url: "http://localhost".to_string(),
    };
    let refused = EthBridgeWorker::with_provider(BYTES, Err(UrlError::Overflow), config.clone());
    assert!(matches!(refused, Err(WorkerError::RpcUrl(UrlError::Overflow))));
    let other = build(ADDRESS, "https://example.org/rpc").ok().unwrap();
    let made = Arc::try_unwrap(other.provider).unwrap();
    let worker = EthBridgeWorker::with_provider([1; 20], Ok(made), config).ok().unwrap();
    assert_eq!(worker.bridge_address, [1; 20]);
    assert_eq!(worker.config.eth_rpc_url, "http://localhost");
    assert_eq!(worker.provider.client().url().as_str(), "https://example.org/rpc");
    assert_eq!(worker.provider.client().get_interval(), Duration::from_secs(2));
}

#[test]
fn worker_begins_to_sync() {
    let worker = build(ADDRESS, "http://localhost:8545").ok().unwrap();
    let sync = worker.sync_events(10_000, (6000, 9500), 4000);
    assert_eq!(sync.next_range(), Some(BlockRange { start_block: 9500, end_block: 10_000 }));
    assert_eq!(sync.latest_update(), Some(10_000));
    assert_eq!(sync.next_end_block(), 6000);
}

#[test]
fn wide_integers_are_narrowed() {
    assert_eq!(Uint256 { words: [u64::MAX, 0, 0, 0] }.as_u64(), u64::MAX);
    assert_eq!(Uint256 { words: [42, 0, 0, 0] }.as_u64(), 42);
    assert!(Uint256 { words: [42, 0, 0, 0] }.fits_u64());
    assert!(!Uint256 { words: [42, 1, 0, 0] }.fits_u64());
    assert!(!Uint256 { words: [42, 0, 1, 0] }.fits_u64());
    assert!(!Uint256 { words: [42, 0, 0, 1] }.fits_u64());
}
