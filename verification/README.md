# klag_exporter

The collection core of a Kafka consumer-group lag exporter, verified with Verus.

- `src/` is the library. Its functions have contracts that Verus proves; what it takes
  on trust of `rdkafka`, `aws-types` and std is said in the doc comment of each small
  wrapper that calls them.
  - `kafka/auth.rs`: who signs in, and with what: region resolution, token providers,
    the OAUTHBEARER callback.
  - `kafka/client.rs`: partitions of topics, the settings of the admin client and the
    consumer, the steps of creating them, and what their answers mean.
  - `kafka/watermarks.rs`, `kafka/partition_map.rs`: fetching and merging both ends of
    partitions.
  - `kafka/compaction.rs`: finding compacted topics.
  - `kafka/settings.rs`, `error.rs`: the boundary to `rdkafka`.
  - `cluster/setup.rs`, `cluster/manager.rs`: setting up the collection of a cluster.
  - `cluster/run.rs`: the collection loop as a function from state and event to next
    state and actions; `cluster/history.rs`: what holds over everything that has
    happened to it.
  - `cluster/collection.rs`: one collection, step by step.
  - `config.rs`, `duration.rs`, `memory.rs`, `text.rs`: plain values.
- `app/` runs the library: Kafka calls, timers, clocks, environment and logging. A lean
  build without signing for Amazon MSK sets `--cfg no_msk_iam`.
- `tests/` runs the library on concrete values.

The proof functions whose names start with `law_` state what holds of the library as a
whole.
