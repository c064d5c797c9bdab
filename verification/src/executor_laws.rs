//! What holds of the configuration and the start of the shards of a testbed.

use vstd::prelude::*;

use crate::decimal;
use crate::executor;
use crate::executor::{
    AgentKind, AppConfig, AppConfigView, ExecutorShard, IpAddress, SocketAddress, UniqueId,
};

verus! {

/// Configuring a run changes the three attributes of the run, and nothing else: neither another
/// attribute, nor the kind of the shard, nor the address of its metrics, nor the rest of its
/// configuration.
pub proof fn law_run_changes_nothing_else<R>(
    config: AppConfigView<R>,
    tx_count: u64,
    duration: u64,
    working_dir: Seq<char>,
    name: Seq<char>,
)
    requires
        name != "tx_count"@,
        name != "duration"@,
        name != "working_dir"@,
    ensures
        ({
            let changed = config.with_workload(tx_count, duration).with_working_dir(working_dir);
            &&& changed.attrs.dom().contains(name) <==> config.attrs.dom().contains(name)
            &&& config.attrs.dom().contains(name) ==> changed.attrs[name] == config.attrs[name]
            &&& changed.kind == config.kind
            &&& changed.metrics_address == config.metrics_address
            &&& changed.rest == config.rest
        }),
{
}

/// A directory for the files changes no other attribute, and nothing else of the configuration.
pub proof fn law_working_dir_changes_nothing_else<R>(
    config: AppConfigView<R>,
    working_dir: Seq<char>,
    name: Seq<char>,
)
    ensures
        ({
            let changed = config.with_working_dir(working_dir);
            &&& changed.attrs.dom().contains("working_dir"@)
            &&& changed.attrs["working_dir"@] == working_dir
            &&& name != "working_dir"@ ==> (changed.attrs.dom().contains(name)
                <==> config.attrs.dom().contains(name))
            &&& name != "working_dir"@ && config.attrs.dom().contains(name) ==> changed.attrs[name]
                == config.attrs[name]
            &&& changed.kind == config.kind
            &&& changed.metrics_address == config.metrics_address
            &&& changed.rest == config.rest
        }),
{
}

/// A workload stands in the attributes as two numerals without leading zeros, of the number of
/// transactions and of the duration.
pub proof fn law_workload_is_written_in_numerals<R>(
    config: AppConfigView<R>,
    tx_count: u64,
    duration: u64,
)
    ensures
        ({
            let attrs = config.with_workload(tx_count, duration).attrs;
            &&& attrs.dom().contains("tx_count"@)
            &&& attrs.dom().contains("duration"@)
            &&& decimal::digits_value(attrs["tx_count"@]) == tx_count
            &&& decimal::digits_value(attrs["duration"@]) == duration
            &&& attrs["tx_count"@].len() > 1 ==> attrs["tx_count"@][0] != '0'
            &&& attrs["duration"@].len() > 1 ==> attrs["duration"@][0] != '0'
        }),
{
    reveal_strlit("tx_count");
    reveal_strlit("duration");
    assert("tx_count"@[0] != "duration"@[0]);
    decimal::law_numeral_is_plain(tx_count as nat);
    decimal::law_numeral_is_plain(duration as nat);
}

/// Configuring a run touches the configuration of one shard: the same shards are configured as
/// before, every other one as before, and the shard itself, if it is configured at all, gets the
/// three attributes of the run and keeps the rest.
pub proof fn law_run_configures_one_shard<R>(
    configs: Map<UniqueId, AppConfigView<R>>,
    id: UniqueId,
    tx_count: u64,
    duration: u64,
    working_dir: Seq<char>,
    other: UniqueId,
)
    ensures
        ({
            let changed = executor::with_run(configs, id, tx_count, duration, working_dir);
            &&& changed.dom() == configs.dom()
            &&& other != id && configs.dom().contains(other) ==> changed[other] == configs[other]
            &&& configs.dom().contains(id) ==> {
                let (before, after) = (configs[id], changed[id]);
                &&& after.kind == before.kind
                &&& after.metrics_address == before.metrics_address
                &&& after.rest == before.rest
                &&& after.attrs.dom() == before.attrs.dom().insert("tx_count"@).insert(
                    "duration"@,
                ).insert("working_dir"@)
                &&& decimal::denoted(after.attrs["tx_count"@]) == Some(tx_count as nat)
                &&& decimal::denoted(after.attrs["duration"@]) == Some(duration as nat)
                &&& after.attrs["working_dir"@] == working_dir
            }
        }),
{
    let changed = executor::with_run(configs, id, tx_count, duration, working_dir);
    assert(changed.dom() =~= configs.dom());
    if configs.dom().contains(id) {
        executor::law_run_is_read_back(configs[id], tx_count, duration, working_dir);
        assert(changed[id].attrs.dom() =~= configs[id].attrs.dom().insert("tx_count"@).insert(
            "duration"@,
        ).insert("working_dir"@));
    }
}

/// Deploying a testbed configures the shards up to the last execution worker, and no other one: these
/// get the two attributes of the workload and keep the rest, and no shard is configured that was not
/// configured before.
pub proof fn law_deployment_configures_the_workers<R>(
    configs: Map<UniqueId, AppConfigView<R>>,
    tx_count: u64,
    duration: u64,
    execution_workers: nat,
    id: UniqueId,
    name: Seq<char>,
)
    ensures
        ({
            let changed = executor::deployed(configs, tx_count, duration, execution_workers);
            &&& changed.dom() == configs.dom()
            &&& configs.dom().contains(id) && id > execution_workers ==> changed[id] == configs[id]
            &&& configs.dom().contains(id) && id <= execution_workers ==> {
                let (before, after) = (configs[id], changed[id]);
                &&& after.kind == before.kind
                &&& after.metrics_address == before.metrics_address
                &&& after.rest == before.rest
                &&& after.attrs.dom() == before.attrs.dom().insert("tx_count"@).insert("duration"@)
                &&& decimal::denoted(after.attrs["tx_count"@]) == Some(tx_count as nat)
                &&& decimal::denoted(after.attrs["duration"@]) == Some(duration as nat)
                &&& name != "tx_count"@ && name != "duration"@ && before.attrs.dom().contains(name)
                    ==> after.attrs[name] == before.attrs[name]
            }
        }),
{
    let changed = executor::deployed(configs, tx_count, duration, execution_workers);
    assert(changed.dom() =~= configs.dom());
    if configs.dom().contains(id) && id <= execution_workers {
        executor::law_workload_is_read_back(configs[id], tx_count, duration);
        assert(changed[id].attrs.dom() =~= configs[id].attrs.dom().insert("tx_count"@).insert(
            "duration"@,
        ));
    }
}

/// Two deployments in a row leave the workload of the second one, if it is for as many workers.
pub proof fn law_last_deployment_counts<R>(
    configs: Map<UniqueId, AppConfigView<R>>,
    first: (u64, u64),
    second: (u64, u64),
    execution_workers: nat,
)
    ensures
        executor::deployed(
            executor::deployed(configs, first.0, first.1, execution_workers),
            second.0,
            second.1,
            execution_workers,
        ) == executor::deployed(configs, second.0, second.1, execution_workers),
{
    let one = executor::deployed(configs, first.0, first.1, execution_workers);
    let two = executor::deployed(one, second.0, second.1, execution_workers);
    let last = executor::deployed(configs, second.0, second.1, execution_workers);
    assert forall|id: UniqueId| last.dom().contains(id) implies two[id] == last[id] by {
        if id <= execution_workers {
            assert(two[id].attrs =~= last[id].attrs);
        }
    }
    assert(two =~= last);
}

/// Of two runs that a shard is configured for, one after the other, the second one counts.
pub proof fn law_last_run_counts<R>(
    config: AppConfigView<R>,
    first: (u64, u64, Seq<char>),
    second: (u64, u64, Seq<char>),
)
    ensures
        config.with_workload(first.0, first.1).with_working_dir(first.2).with_workload(
            second.0,
            second.1,
        ).with_working_dir(second.2) == config.with_workload(second.0, second.1).with_working_dir(
            second.2,
        ),
{
    let twice = config.with_workload(first.0, first.1).with_working_dir(first.2).with_workload(
        second.0,
        second.1,
    ).with_working_dir(second.2);
    let once = config.with_workload(second.0, second.1).with_working_dir(second.2);
    assert(twice.attrs =~= once.attrs);
}

/// The execution workers of a testbed are counted from one on. Their identities start over behind
/// the largest one that sixteen bits can hold.
pub proof fn law_execution_workers_count_up(execution_workers: nat, i: int)
    requires
        execution_workers < usize::MAX,
        0 <= i < execution_workers,
    ensures
        executor::worker_ids(execution_workers).len() == execution_workers,
        executor::worker_ids(execution_workers)[i] == (i + 1) % 0x1_0000,
        i < 0xffff ==> executor::worker_ids(execution_workers)[i] == i + 1,
{
    let id = (i + 1) as usize;
    assert(id as u16 == id % 0x1_0000) by (bit_vector);
}

/// A configured kind names an agent by one of two words, and by nothing else.
pub proof fn law_two_words_name_an_agent(kind: Seq<char>)
    ensures
        executor::agent_kind(kind) == Some(AgentKind::SequenceWorker) <==> kind == seq!['S', 'W'],
        executor::agent_kind(kind) == Some(AgentKind::ExecutionWorker) <==> kind == seq!['E', 'W'],
        executor::agent_kind(kind) is None <==> kind != seq!['S', 'W'] && kind != seq!['E', 'W'],
{
    reveal_strlit("SW");
    reveal_strlit("EW");
    assert("SW"@ =~= seq!['S', 'W']);
    assert("EW"@ =~= seq!['E', 'W']);
    assert("SW"@[0] != "EW"@[0]);
}

/// A shard is started with its own identity, as the agent that its configuration names, and serves
/// its metrics on every interface at the configured port.
pub proof fn law_shard_is_started_as_configured<R>(
    shard: ExecutorShard,
    id: UniqueId,
    config: AppConfigView<R>,
)
    requires
        shard.starts(id, config),
    ensures
        shard.id == id,
        shard.kind == AgentKind::SequenceWorker <==> config.kind == seq!['S', 'W'],
        shard.kind == AgentKind::ExecutionWorker <==> config.kind == seq!['E', 'W'],
        shard.metrics_address.port == config.metrics_address.port,
        shard.metrics_address.ip is V4,
        forall|i: int| 0 <= i < 4 ==> #[trigger] shard.metrics_address.ip->V4_0@[i] == 0,
{
    law_two_words_name_an_agent(config.kind);
}

/// Neither a run nor a workload changes how a shard is started.
pub proof fn law_configuring_does_not_change_the_start<R>(
    shard: ExecutorShard,
    id: UniqueId,
    config: AppConfigView<R>,
    tx_count: u64,
    duration: u64,
    working_dir: Seq<char>,
)
    ensures
        shard.starts(id, config.with_workload(tx_count, duration)) <==> shard.starts(id, config),
        shard.starts(
            id,
            config.with_workload(tx_count, duration).with_working_dir(working_dir),
        ) <==> shard.starts(id, config),
{
}

/// An address at which metrics are served has the configured port, and stands for every interface.
pub proof fn law_metrics_are_served_at_the_configured_port(
    binding: SocketAddress,
    configured: SocketAddress,
)
    requires
        executor::binds_for(binding, configured),
    ensures
        binding.port == configured.port,
        binding.ip is V4,
        forall|i: int| 0 <= i < 4 ==> #[trigger] binding.ip->V4_0@[i] == 0,
{
}

/// A testbed has one host more than execution workers, and all of them are the host itself.
pub proof fn law_testbed_runs_on_one_host(
    ips: Seq<IpAddress>,
    execution_workers: nat,
    i: int,
)
    requires
        executor::are_testbed_hosts(ips, execution_workers),
        0 <= i < ips.len(),
    ensures
        ips.len() == 1 + execution_workers,
        ips[i] is V4,
        ips[i]->V4_0@ == seq![127u8, 0u8, 0u8, 1u8],
{
}

/// The address with given bytes is of version 4, and holds these bytes.
pub proof fn law_address_holds_its_bytes(ip: IpAddress, bytes: Seq<u8>)
    ensures
        executor::is_v4(ip, bytes) <==> ip is V4 && ip->V4_0@ == bytes,
{
}

/// The contents of a configuration are what its fields hold.
pub proof fn law_config_holds_its_contents<R>(config: AppConfig<R>)
    ensures
        config@.kind == config.kind@,
        config@.metrics_address == config.metrics_address,
        config@.attrs == config.attrs@,
        config@.rest == config.rest,
{
}

/// The contents of the configurations are those of the shards that are configured, and of no other
/// ones.
pub proof fn law_configs_hold_their_contents<R>(
    configs: Map<UniqueId, AppConfig<R>>,
    id: UniqueId,
)
    ensures
        executor::config_views(configs).dom().contains(id) <==> configs.dom().contains(id),
        configs.dom().contains(id) ==> executor::config_views(configs)[id] == configs[id]@,
{
}

} // verus!
