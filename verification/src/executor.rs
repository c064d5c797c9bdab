//! The shards of a distributed execution testbed: how they are configured, and how each of them
//! is started.

use std::collections::HashMap;

use vstd::prelude::*;

use crate::attrs::Attrs;
use crate::decimal;
use crate::decimal::{parse_u64, u64_to_string, NumeralError};

verus! {

broadcast use vstd::std_specs::hash::group_hash_axioms;

/// The identity of a shard.
pub type UniqueId = u16;

/// The identity of the sequence worker of a testbed.
pub const SEQUENCE_WORKER_ID: UniqueId = 0;

/// The number of sequence workers of a testbed.
pub const SEQUENCE_WORKERS: usize = 1;

/// The address of a host.
#[derive(Clone, Copy, Debug, PartialEq, Eq)]
pub enum IpAddress {
    V4([u8; 4]),
    V6([u8; 16]),
}

/// The address of a server.
#[derive(Clone, Copy, Debug, PartialEq, Eq)]
pub struct SocketAddress {
    pub ip: IpAddress,
    pub port: u16,
}

/// The configuration of a shard.
#[derive(Clone, Debug)]
pub struct AppConfig<R> {
    pub kind: String,
    pub metrics_address: SocketAddress,
    pub attrs: Attrs,
    /// What else the shard is configured with.
    pub rest: R,
}

/// The contents of an [`AppConfig`].
pub struct AppConfigView<R> {
    pub kind: Seq<char>,
    pub metrics_address: SocketAddress,
    pub attrs: Map<Seq<char>, Seq<char>>,
    pub rest: R,
}

impl<R> View for AppConfig<R> {
    type V = AppConfigView<R>;

    open spec fn view(&self) -> AppConfigView<R> {
        AppConfigView {
            kind: self.kind@,
            metrics_address: self.metrics_address,
            attrs: self.attrs@,
            rest: self.rest,
        }
    }
}

impl<R> AppConfigView<R> {
    /// The configuration with the workload of a benchmark: the number of transactions, and the
    /// duration in seconds.
    pub open spec fn with_workload(self, tx_count: u64, duration: u64) -> AppConfigView<R> {
        AppConfigView {
            attrs: self.attrs.insert("tx_count"@, decimal::numeral(tx_count as nat)).insert(
                "duration"@,
                decimal::numeral(duration as nat),
            ),
            ..self
        }
    }

    /// The configuration with the directory for the files of a benchmark.
    pub open spec fn with_working_dir(self, working_dir: Seq<char>) -> AppConfigView<R> {
        AppConfigView { attrs: self.attrs.insert("working_dir"@, working_dir), ..self }
    }
}

/// The configurations of all shards.
#[derive(Clone, Debug)]
pub struct GlobalConfig<R>(pub HashMap<UniqueId, AppConfig<R>>);

/// The contents of the configurations, by identity.
pub open spec fn config_views<R>(configs: Map<UniqueId, AppConfig<R>>) -> Map<
    UniqueId,
    AppConfigView<R>,
> {
    Map::new(|id: UniqueId| configs.dom().contains(id), |id: UniqueId| configs[id]@)
}

impl<R> View for GlobalConfig<R> {
    type V = Map<UniqueId, AppConfigView<R>>;

    open spec fn view(&self) -> Map<UniqueId, AppConfigView<R>> {
        config_views(self.0@)
    }
}

/// The configurations with the workload of a benchmark for every configured shard whose identity
/// is at most `last`.
pub open spec fn with_workloads<R>(
    configs: Map<UniqueId, AppConfigView<R>>,
    tx_count: u64,
    duration: u64,
    last: int,
) -> Map<UniqueId, AppConfigView<R>> {
    Map::new(
        |id: UniqueId| configs.dom().contains(id),
        |id: UniqueId|
            if id <= last {
                configs[id].with_workload(tx_count, duration)
            } else {
                configs[id]
            },
    )
}

/// The configurations once a testbed with the given number of execution workers has been deployed.
pub open spec fn deployed<R>(
    configs: Map<UniqueId, AppConfigView<R>>,
    tx_count: u64,
    duration: u64,
    execution_workers: nat,
) -> Map<UniqueId, AppConfigView<R>> {
    with_workloads(configs, tx_count, duration, execution_workers as int)
}

/// The configurations once the shard `id`, if it is configured, has been configured to run a benchmark.
pub open spec fn with_run<R>(
    configs: Map<UniqueId, AppConfigView<R>>,
    id: UniqueId,
    tx_count: u64,
    duration: u64,
    working_dir: Seq<char>,
) -> Map<UniqueId, AppConfigView<R>> {
    if configs.dom().contains(id) {
        configs.insert(
            id,
            configs[id].with_workload(tx_count, duration).with_working_dir(working_dir),
        )
    } else {
        configs
    }
}

/// Nothing but attributes differs between two lots of configurations.
pub open spec fn same_but_for_attrs<R>(
    configs: Map<UniqueId, AppConfigView<R>>,
    others: Map<UniqueId, AppConfigView<R>>,
) -> bool {
    &&& configs.dom() == others.dom()
    &&& forall|id: UniqueId| #[trigger]
        configs.dom().contains(id) ==> {
            &&& configs[id].kind == others[id].kind
            &&& configs[id].metrics_address == others[id].metrics_address
            &&& configs[id].rest == others[id].rest
        }
}

impl<R> GlobalConfig<R> {
    /// Configures the shard `id` to run a benchmark. A shard that is not configured stays so.
    pub fn configure_run(&mut self, id: UniqueId, tx_count: u64, duration: u64, working_dir: String)
        ensures
            final(self)@ == (if old(self)@.dom().contains(id) {
                old(self)@.insert(
                    id,
                    old(self)@[id].with_workload(tx_count, duration).with_working_dir(working_dir@),
                )
            } else {
                old(self)@
            }),
            final(self)@ == with_run(old(self)@, id, tx_count, duration, working_dir@),
            same_but_for_attrs(old(self)@, final(self)@),
    {
        let ghost before = self@;
        self.configure(id, tx_count, duration, Some(working_dir));
        proof {
            let after = self@;
            assert(before.dom() =~= after.dom());
            assert forall|other: UniqueId| #[trigger] before.dom().contains(other) implies {
                &&& before[other].kind == after[other].kind
                &&& before[other].metrics_address == after[other].metrics_address
                &&& before[other].rest == after[other].rest
            } by {
                if other != id {
                    assert(after[other] == before[other]);
                }
            }
        }
    }

    /// Sets the workload of the shard `id`, and the directory for its files, if there is one. A
    /// shard that is not configured stays so.
    fn configure(
        &mut self,
        id: UniqueId,
        tx_count: u64,
        duration: u64,
        working_dir: Option<String>,
    )
        ensures
            final(self)@ == (if old(self)@.dom().contains(id) {
                let config = old(self)@[id].with_workload(tx_count, duration);
                old(self)@.insert(
                    id,
                    match working_dir {
                        Some(working_dir) => config.with_working_dir(working_dir@),
                        None => config,
                    },
                )
            } else {
                old(self)@
            }),
    {
        let ghost before = self@;
        match self.0.remove(&id) {
            Some(mut config) => {
                config.attrs.insert("tx_count".to_string(), u64_to_string(tx_count));
                config.attrs.insert("duration".to_string(), u64_to_string(duration));
                if let Some(working_dir) = working_dir {
                    config.attrs.insert("working_dir".to_string(), working_dir);
                }
                self.0.insert(id, config);
                assert(self@ =~= before.insert(id, config@));
            },
            None => {
                assert(self@ =~= before);
            },
        }
    }
}

/// The hosts of a testbed, one for each of its workers: the host itself.
pub fn testbed_ips(execution_workers: usize) -> (ips: Vec<IpAddress>)
    requires
        execution_workers < usize::MAX,
    ensures
        ips@.len() == execution_workers + SEQUENCE_WORKERS,
        forall|i: int| 0 <= i < ips@.len() ==> is_v4(#[trigger] ips@[i], seq![127u8, 0, 0, 1]),
        are_testbed_hosts(ips@, execution_workers as nat),
{
    let mut ips: Vec<IpAddress> = Vec::new();
    let localhost: [u8; 4] = [127, 0, 0, 1];
    assert(localhost@ =~= seq![127u8, 0, 0, 1]);
    for _worker in 0..execution_workers + SEQUENCE_WORKERS
        invariant
            ips@.len() == _worker,
            localhost@ == seq![127u8, 0, 0, 1],
            forall|i: int| 0 <= i < ips@.len() ==> is_v4(#[trigger] ips@[i], seq![127u8, 0, 0, 1]),
    {
        ips.push(IpAddress::V4(localhost));
    }
    ips
}

/// The addresses are those of the hosts of a testbed.
pub open spec fn are_testbed_hosts(ips: Seq<IpAddress>, execution_workers: nat) -> bool {
    &&& ips.len() == execution_workers + 1
    &&& forall|i: int| 0 <= i < ips.len() ==> is_v4(#[trigger] ips[i], seq![127u8, 0, 0, 1])
}

/// The address is the IP version 4 address with the given bytes.
pub open spec fn is_v4(ip: IpAddress, bytes: Seq<u8>) -> bool {
    ip matches IpAddress::V4(octets) && octets@ == bytes
}

/// Gives the sequence worker and the execution workers of a testbed their workload, and returns
/// the identities of the execution workers, in the order in which they are started. The sequence
/// worker, [`SEQUENCE_WORKER_ID`], is started before them.
pub fn deploy_testbed<R>(
    configs: &mut GlobalConfig<R>,
    tx_count: u64,
    duration: u64,
    execution_workers: usize,
) -> (workers: Vec<UniqueId>)
    requires
        execution_workers < usize::MAX,
    ensures
        final(configs)@ == with_workloads(
            old(configs)@,
            tx_count,
            duration,
            execution_workers as int,
        ),
        workers@ == worker_ids(execution_workers as nat),
        final(configs)@ == deployed(old(configs)@, tx_count, duration, execution_workers as nat),
        same_but_for_attrs(old(configs)@, final(configs)@),
{
    let ghost before = configs@;
    assert(with_workloads(before, tx_count, duration, -1) =~= before);
    for id in 0..execution_workers + 1
        invariant
            configs@ == with_workloads(before, tx_count, duration, id - 1),
    {
        configs.configure(id as UniqueId, tx_count, duration, None);
        proof {
            assert forall|config: AppConfigView<R>| (#[trigger] config.with_workload(
                tx_count,
                duration,
            )).with_workload(tx_count, duration) == config.with_workload(tx_count, duration) by {
                law_workload_is_set_once(config, tx_count, duration);
            }
            assert(configs@ =~= with_workloads(before, tx_count, duration, id as int));
        }
    }
    assert(before.dom() =~= configs@.dom());
    let mut workers: Vec<UniqueId> = Vec::new();
    for id in 1..execution_workers + 1
        invariant
            workers@ == worker_ids((id - 1) as nat),
    {
        workers.push(id as UniqueId);
        assert(workers@ =~= worker_ids(id as nat));
    }
    workers
}

/// The identities of the execution workers of a testbed: one, two and so on, as far as an
/// identity can count.
pub open spec fn worker_ids(execution_workers: nat) -> Seq<UniqueId> {
    Seq::new(execution_workers, |i: int| (i + 1) as UniqueId)
}

/// What a shard does in the testbed.
#[derive(Clone, Copy, Debug, PartialEq, Eq, Structural)]
pub enum AgentKind {
    /// A worker that puts transactions in sequence.
    SequenceWorker,
    /// A worker that executes transactions.
    ExecutionWorker,
}

/// The kind of agent that a configured kind names, if it names one.
pub open spec fn agent_kind(kind: Seq<char>) -> Option<AgentKind> {
    if kind == "SW"@ {
        Some(AgentKind::SequenceWorker)
    } else if kind == "EW"@ {
        Some(AgentKind::ExecutionWorker)
    } else {
        None
    }
}

impl AgentKind {
    /// The kind of agent that a configured kind names, if it names one.
    pub fn from_name(kind: &String) -> (agent: Option<AgentKind>)
        ensures
            agent == agent_kind(kind@),
    {
        if *kind == "SW".to_string() {
            Some(AgentKind::SequenceWorker)
        } else if *kind == "EW".to_string() {
            Some(AgentKind::ExecutionWorker)
        } else {
            None
        }
    }
}

/// The address at which a shard serves its metrics: every interface, at the configured port.
pub fn binding_metrics_address(configured: SocketAddress) -> (binding: SocketAddress)
    ensures
        binding.port == configured.port,
        is_v4(binding.ip, seq![0u8, 0, 0, 0]),
        binds_for(binding, configured),
{
    let unspecified: [u8; 4] = [0, 0, 0, 0];
    assert(unspecified@ =~= seq![0u8, 0, 0, 0]);
    SocketAddress { ip: IpAddress::V4(unspecified), port: configured.port }
}

/// The address is the one at which a shard serves the metrics that are configured for another one.
pub open spec fn binds_for(binding: SocketAddress, configured: SocketAddress) -> bool {
    &&& binding.port == configured.port
    &&& is_v4(binding.ip, seq![0u8, 0, 0, 0])
}

/// How a shard is started.
#[derive(Clone, Copy, Debug)]
pub struct ExecutorShard {
    /// The identity of the shard.
    pub id: UniqueId,
    /// The kind of agent that it runs.
    pub kind: AgentKind,
    /// The address at which it serves its metrics.
    pub metrics_address: SocketAddress,
}

impl ExecutorShard {
    /// The shard `id`, with the given configuration, is started like this.
    pub open spec fn starts<R>(self, id: UniqueId, config: AppConfigView<R>) -> bool {
        &&& self.id == id
        &&& agent_kind(config.kind) == Some(self.kind)
        &&& binds_for(self.metrics_address, config.metrics_address)
    }

    /// Decides how the shard `id` is started: it serves its metrics on every interface, at the
    /// configured port, and runs the configured kind of agent.
    pub fn start<R>(global_configs: &GlobalConfig<R>, id: UniqueId) -> (shard: ExecutorShard)
        requires
            global_configs@.dom().contains(id),
            agent_kind(global_configs@[id].kind) is Some,
        ensures
            shard.id == id,
            Some(shard.kind) == agent_kind(global_configs@[id].kind),
            shard.metrics_address.port == global_configs@[id].metrics_address.port,
            is_v4(shard.metrics_address.ip, seq![0u8, 0, 0, 0]),
            shard.starts(id, global_configs@[id]),
    {
        let configs = global_configs.0.get(&id).unwrap();
        let metrics_address = binding_metrics_address(configs.metrics_address);
        let kind = AgentKind::from_name(&configs.kind).unwrap();
        ExecutorShard { id, kind, metrics_address }
    }
}

/// The number of seconds that an argument of the command line stands for.
pub fn parse_duration(arg: &str) -> (parsed: Result<u64, NumeralError>)
    ensures
        decimal::parses_as(arg@, parsed),
        parsed matches Err(error) ==> error == decimal::numeral_error(arg@),
{
    parse_u64(arg)
}

/// A workload is read back as it was set: the attributes denote the number of transactions and
/// the duration.
pub proof fn law_workload_is_read_back<R>(config: AppConfigView<R>, tx_count: u64, duration: u64)
    ensures
        ({
            let attrs = config.with_workload(tx_count, duration).attrs;
            &&& attrs.dom().contains("tx_count"@)
            &&& decimal::denoted(attrs["tx_count"@]) == Some(tx_count as nat)
            &&& attrs.dom().contains("duration"@)
            &&& decimal::denoted(attrs["duration"@]) == Some(duration as nat)
        }),
{
    reveal_strlit("tx_count");
    reveal_strlit("duration");
    assert("tx_count"@[0] != "duration"@[0]);
    decimal::law_numeral_denotes_its_number(tx_count as nat);
    decimal::law_numeral_denotes_its_number(duration as nat);
}

/// What a run was configured with is read back as it was set.
pub proof fn law_run_is_read_back<R>(
    config: AppConfigView<R>,
    tx_count: u64,
    duration: u64,
    working_dir: Seq<char>,
)
    ensures
        ({
            let attrs = config.with_workload(tx_count, duration).with_working_dir(
                working_dir,
            ).attrs;
            &&& attrs.dom().contains("tx_count"@)
            &&& decimal::denoted(attrs["tx_count"@]) == Some(tx_count as nat)
            &&& attrs.dom().contains("duration"@)
            &&& decimal::denoted(attrs["duration"@]) == Some(duration as nat)
            &&& attrs.dom().contains("working_dir"@)
            &&& attrs["working_dir"@] == working_dir
        }),
{
    reveal_strlit("tx_count");
    reveal_strlit("duration");
    reveal_strlit("working_dir");
    assert("tx_count"@[0] != "working_dir"@[0]);
    assert("duration"@[0] != "working_dir"@[0]);
    law_workload_is_read_back(config, tx_count, duration);
}

/// A workload changes no other attribute, and nothing else of the configuration.
pub proof fn law_workload_changes_nothing_else<R>(
    config: AppConfigView<R>,
    tx_count: u64,
    duration: u64,
    name: Seq<char>,
)
    requires
        name != "tx_count"@,
        name != "duration"@,
    ensures
        ({
            let changed = config.with_workload(tx_count, duration);
            &&& changed.attrs.dom().contains(name) == config.attrs.dom().contains(name)
            &&& config.attrs.dom().contains(name) ==> changed.attrs[name] == config.attrs[name]
            &&& changed.kind == config.kind
            &&& changed.metrics_address == config.metrics_address
            &&& changed.rest == config.rest
        }),
{
}

/// Deploying a testbed twice configures it as deploying it once does.
pub proof fn law_deploying_is_idempotent<R>(
    configs: Map<UniqueId, AppConfigView<R>>,
    tx_count: u64,
    duration: u64,
    last: int,
)
    ensures
        with_workloads(
            with_workloads(configs, tx_count, duration, last),
            tx_count,
            duration,
            last,
        ) == with_workloads(configs, tx_count, duration, last),
{
    let once = with_workloads(configs, tx_count, duration, last);
    let twice = with_workloads(once, tx_count, duration, last);
    assert forall|id: UniqueId| once.dom().contains(id) implies once[id] == twice[id] by {
        law_workload_is_set_once(configs[id], tx_count, duration);
    }
    assert(once =~= twice);
}

/// A testbed starts no shard twice: its execution workers have different identities, none of them
/// that of the sequence worker, as long as identities suffice.
pub proof fn law_worker_ids_differ(execution_workers: nat, i: int, j: int)
    requires
        execution_workers <= UniqueId::MAX,
        0 <= i < execution_workers,
        0 <= j < execution_workers,
    ensures
        worker_ids(execution_workers)[i] != SEQUENCE_WORKER_ID,
        i != j ==> worker_ids(execution_workers)[i] != worker_ids(execution_workers)[j],
{
}

/// Every configured shard that a testbed starts has its workload.
pub proof fn law_started_shards_have_their_workload<R>(
    configs: Map<UniqueId, AppConfigView<R>>,
    tx_count: u64,
    duration: u64,
    execution_workers: nat,
    id: UniqueId,
)
    requires
        configs.dom().contains(id),
        id == SEQUENCE_WORKER_ID || worker_ids(execution_workers).contains(id),
    ensures
        with_workloads(configs, tx_count, duration, execution_workers as int)[id]
            == configs[id].with_workload(tx_count, duration),
{
}

/// Setting a workload twice is setting it once.
pub proof fn law_workload_is_set_once<R>(config: AppConfigView<R>, tx_count: u64, duration: u64)
    ensures
        config.with_workload(tx_count, duration).with_workload(tx_count, duration)
            == config.with_workload(tx_count, duration),
{
    let once = config.with_workload(tx_count, duration);
    assert(once.with_workload(tx_count, duration).attrs =~= once.attrs);
}

} // verus!
