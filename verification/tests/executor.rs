use std::collections::HashMap;

use sui_workers::attrs::Attrs;
use sui_workers::decimal::NumeralError;
use sui_workers::executor::{
    deploy_testbed, parse_duration, testbed_ips, AgentKind, AppConfig, ExecutorShard, GlobalConfig,
    IpAddress, SocketAddress, UniqueId, SEQUENCE_WORKER_ID,
};

fn config(kind: &str, port: u16) -> AppConfig<u64> {
    let mut attrs = Attrs::new();
    attrs.insert("mode".to_string(), "database".to_string());
    AppConfig {
        kind: kind.to_string(),
        metrics_address: SocketAddress { ip: IpAddress::V6([1; 16]), port },
        attrs,
        rest: 7 * u64::from(port),
    }
}

fn testbed(execution_workers: UniqueId) -> GlobalConfig<u64> {
    let mut configs = HashMap::new();
    configs.insert(0, config("SW", 1500));
    for id in 1..execution_workers + 1 {
        configs.insert(id, config("EW", 1500 + id));
    }
    GlobalConfig(configs)
}

fn attr(configs: &GlobalConfig<u64>, id: UniqueId, name: &str) -> Option<String> {
    configs.0[&id].attrs.get(&name.to_string()).cloned()
}

#[test]
fn testbed_gets_its_workload() {
    let (tx_count, duration, execution_workers) = (300, 60, 4);
    let mut configs = testbed(5);
    let workers = deploy_testbed(&mut configs, tx_count, duration, execution_workers);
    assert_eq!(workers, vec![1, 2, 3, 4]);
    for id in 0..5 {
        assert_eq!(attr(&configs, id, "tx_count"), Some("300".to_string()));
        assert_eq!(attr(&configs, id, "duration"), Some("60".to_string()));
        assert_eq!(attr(&configs, id, "mode"), Some("database".to_string()));
        assert_eq!(attr(&configs, id, "working_dir"), None);
        assert_eq!(configs.0[&id].rest, 7 * (1500 + u64::from(id)));
    }
    assert_eq!(attr(&configs, 5, "tx_count"), None);
    assert_eq!(configs.0.len(), 6);
}

#[test]
fn shards_that_are_not_configured_stay_so() {
    let mut configs = testbed(1);
    assert_eq!(deploy_testbed(&mut configs, 1, 2, 3), vec![1, 2, 3]);
    assert_eq!(configs.0.len(), 2);
    configs.configure_run(9, 1, 2, "here".to_string());
    assert_eq!(configs.0.len(), 2);
}

#[test]
fn deploying_twice_is_deploying_once() {
    let mut configs = testbed(2);
    deploy_testbed(&mut configs, 7, 8, 2);
    let once = configs.0[&1].attrs.entries().clone();
    deploy_testbed(&mut configs, 7, 8, 2);
    assert_eq!(configs.0[&1].attrs.entries(), &once);
}

#[test]
fn every_worker_has_a_host() {
    assert_eq!(testbed_ips(4), vec![IpAddress::V4([127, 0, 0, 1]); 5]);
    assert_eq!(testbed_ips(0), vec![IpAddress::V4([127, 0, 0, 1])]);
}

#[test]
fn run_is_configured() {
    let mut configs = testbed(2);
    configs.configure_run(2, u64::MAX, 0, "/tmp/bench".to_string());
    assert_eq!(attr(&configs, 2, "tx_count"), Some("18446744073709551615".to_string()));
    assert_eq!(attr(&configs, 2, "duration"), Some("0".to_string()));
    assert_eq!(attr(&configs, 2, "working_dir"), Some("/tmp/bench".to_string()));
    assert_eq!(attr(&configs, 2, "mode"), Some("database".to_string()));
    assert_eq!(attr(&configs, 1, "tx_count"), None);
    assert_eq!(configs.0[&2].kind, "EW");
    assert_eq!(configs.0[&2].metrics_address.port, 1502);
    assert_eq!(configs.0[&2].rest, 10_514);
}

#[test]
fn shard_is_started_as_configured() {
    let configs = testbed(3);
    let sequence = ExecutorShard::start(&configs, SEQUENCE_WORKER_ID);
    assert_eq!(sequence.id, 0);
    assert_eq!(sequence.kind, AgentKind::SequenceWorker);
    let address = SocketAddress { ip: IpAddress::V4([0, 0, 0, 0]), port: 1500 };
    assert_eq!(sequence.metrics_address, address);
    let execution = ExecutorShard::start(&configs, 3);
    assert_eq!(execution.id, 3);
    assert_eq!(execution.kind, AgentKind::ExecutionWorker);
    assert_eq!(execution.metrics_address.port, 1503);
}

#[test]
fn agents_have_two_kinds() {
    assert_eq!(AgentKind::from_name(&"SW".to_string()), Some(AgentKind::SequenceWorker));
    assert_eq!(AgentKind::from_name(&"EW".to_string()), Some(AgentKind::ExecutionWorker));
    assert_eq!(AgentKind::from_name(&"sw".to_string()), None);
    assert_eq!(AgentKind::from_name(&"".to_string()), None);
}

#[test]
fn durations_are_parsed() {
    assert_eq!(parse_duration("300"), Ok(300));
    assert_eq!(parse_duration("0"), Ok(0));
    assert_eq!(parse_duration("007"), Ok(7));
    assert_eq!(parse_duration("+5"), Ok(5));
    assert_eq!(parse_duration("18446744073709551615"), Ok(u64::MAX));
    assert_eq!(parse_duration("18446744073709551616"), Err(NumeralError::PosOverflow));
    assert_eq!(parse_duration(""), Err(NumeralError::Empty));
    assert_eq!(parse_duration("+"), Err(NumeralError::InvalidDigit));
    assert_eq!(parse_duration("-1"), Err(NumeralError::InvalidDigit));
    assert_eq!(parse_duration(" 5"), Err(NumeralError::InvalidDigit));
    assert_eq!(parse_duration("5s"), Err(NumeralError::InvalidDigit));
}

#[test]
fn long_malformed_durations_are_refused() {
    let digits_first = "99999999999999999999999s";
    let digits_last = "s99999999999999999999999";
    assert_eq!(parse_duration(digits_last), Err(NumeralError::InvalidDigit));
    let error = parse_duration(digits_first).unwrap_err();
    assert!(error == NumeralError::InvalidDigit || error == NumeralError::PosOverflow);
    assert_eq!(parse_duration(digits_first), Err(error));
}

#[test]
fn workload_is_read_back() {
    let mut configs = testbed(1);
    for number in [0, 9, 10, 1_000, u64::MAX] {
        configs.configure_run(1, number, number, "".to_string());
        let tx_count = attr(&configs, 1, "tx_count").unwrap();
        assert_eq!(parse_duration(&tx_count), Ok(number));
    }
}

#[test]
fn attributes_are_replaced_by_name() {
    let mut attrs = Attrs::new();
    assert_eq!(attrs.get(&"a".to_string()), None);
    attrs.insert("a".to_string(), "1".to_string());
    attrs.insert("b".to_string(), "2".to_string());
    attrs.insert("a".to_string(), "3".to_string());
    assert_eq!(attrs.get(&"a".to_string()), Some(&"3".to_string()));
    assert_eq!(attrs.get(&"b".to_string()), Some(&"2".to_string()));
    assert_eq!(attrs.entries().len(), 2);
    let mut copy = attrs.clone();
    copy.insert("c".to_string(), "4".to_string());
    assert_eq!(copy.entries().len(), 3);
    assert_eq!(attrs.entries().len(), 2);
}
