# sui_workers

The decision logic of two long-running workers, written and proved in Verus.

* The **bridge indexer** reads the history of the Ethereum side of the bridge. It plans which block
  ranges are asked for (`src/block_sync.rs`), narrows a range whose events could not be fetched
  (`src/range_query.rs`), orders the lookups for the events of a range (`src/event_run.rs`) and turns
  the events into the token transfers that are stored (`src/transfers.rs`). The laws of a whole
  synchronisation are in `src/sync_laws.rs`: it ends, and it leaves no block out as far down as its
  ranges can be completed, which is down to the genesis block unless that lies below the width of a
  range. Those of a list of events are in `src/transfer_laws.rs`.
* The **benchmark executor** configures and starts the shards of a distributed execution testbed
  (`src/executor.rs`).

`src/` is the verified library. It is pure: network, database, metrics and the command line are in
`app/`, which is ordinary Rust. `app/` is generic over the services that a deployment supplies: the
bridge client, the store of the indexer, and the agents of the testbed.

What the library takes on trust is what it calls: the parsing of addresses, the making of a provider
for a URL (`src/rpc_provider.rs`) and the narrowing of wide integers in the Ethereum client library,
and the reading and writing of decimal numerals in the standard library. Each of these calls stands behind one function whose documentation says what
is believed of it.
