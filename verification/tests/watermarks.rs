use klag_exporter::config::{ClusterConfig, StringMap};
use klag_exporter::duration::Duration;
use klag_exporter::error::KlagError;
use klag_exporter::kafka::auth::MskIamSupport;
use klag_exporter::kafka::client::{ClientStep, KafkaClient, TopicPartition};
use klag_exporter::kafka::partition_map::PartitionMap;
use klag_exporter::kafka::watermarks::{
    merge_watermarks, OffsetSpec, WatermarkFetch, WatermarkStep,
};
use rdkafka::error::KafkaError;

fn client() -> KafkaClient<u8, u16> {
    let config = ClusterConfig {
        name: "prod".to_string(),
        bootstrap_servers: "localhost:9092".to_string(),
        consumer_properties: StringMap::new(),
        labels: StringMap::new(),
        aws_msk_iam: None,
    };
    match KafkaClient::<u8, u16>::new(&config, MskIamSupport::NotBuilt) {
        ClientStep::Create { setup, .. } => setup.finish(Ok((1, 2))).ok().unwrap(),
        _ => panic!("no token provider is needed"),
    }
}

fn offsets(entries: &[(&str, i32, i64)]) -> PartitionMap<i64> {
    let mut map = PartitionMap::new();
    for (topic, partition, offset) in entries {
        map.insert(TopicPartition::new(*topic, *partition), *offset);
    }
    map
}

#[test]
fn a_partition_map_keeps_the_last_value_of_a_key() {
    let mut map = offsets(&[("a", 0, 1), ("a", 1, 2), ("b", 0, 3)]);
    assert_eq!(map.len(), 3);
    map.insert(TopicPartition::new("a", 1), 20);
    assert_eq!(map.len(), 3);
    assert_eq!(map.get(&TopicPartition::new("a", 0)), Some(&1));
    assert_eq!(map.get(&TopicPartition::new("a", 1)), Some(&20));
    assert_eq!(map.get(&TopicPartition::new("b", 0)), Some(&3));
    assert_eq!(map.get(&TopicPartition::new("b", 1)), None);
    assert_eq!(map.get(&TopicPartition::new("c", 0)), None);
    assert_eq!(*map.key_at(0), TopicPartition::new("a", 0));
    assert_eq!(*map.key_at(1), TopicPartition::new("a", 1));
    assert_eq!(*map.key_at(2), TopicPartition::new("b", 0));
    assert_eq!(*map.value_at(1), 20);
}

#[test]
fn a_partition_map_takes_every_partition_number() {
    let map = offsets(&[("t", i32::MIN, 1), ("t", -1, 2), ("t", 0, 3), ("t", i32::MAX, 4)]);
    assert_eq!(map.get(&TopicPartition::new("t", i32::MIN)), Some(&1));
    assert_eq!(map.get(&TopicPartition::new("t", -1)), Some(&2));
    assert_eq!(map.get(&TopicPartition::new("t", 0)), Some(&3));
    assert_eq!(map.get(&TopicPartition::new("t", i32::MAX)), Some(&4));
    assert_eq!(map.get(&TopicPartition::new("t", 1)), None);
}

#[test]
fn known_ends_are_kept() {
    let merged = merge_watermarks(&offsets(&[("t", 0, 5)]), &offsets(&[("t", 0, 9)]));
    assert_eq!(merged.len(), 1);
    assert_eq!(merged.get(&TopicPartition::new("t", 0)), Some(&(5, 9)));
}

#[test]
fn a_missing_low_watermark_is_the_high_one() {
    let merged = merge_watermarks(&offsets(&[]), &offsets(&[("t", 0, 9)]));
    assert_eq!(merged.get(&TopicPartition::new("t", 0)), Some(&(9, 9)));
}

#[test]
fn a_missing_high_watermark_is_the_low_one() {
    let merged = merge_watermarks(&offsets(&[("t", 0, 5)]), &offsets(&[]));
    assert_eq!(merged.get(&TopicPartition::new("t", 0)), Some(&(5, 5)));
}

#[test]
fn the_merge_covers_both_sides() {
    let lows = offsets(&[("a", 0, 1), ("b", 0, 2)]);
    let highs = offsets(&[("b", 0, 20), ("c", 0, 30)]);
    let merged = merge_watermarks(&lows, &highs);
    assert_eq!(merged.len(), 3);
    assert_eq!(merged.get(&TopicPartition::new("a", 0)), Some(&(1, 1)));
    assert_eq!(merged.get(&TopicPartition::new("b", 0)), Some(&(2, 20)));
    assert_eq!(merged.get(&TopicPartition::new("c", 0)), Some(&(30, 30)));
    for i in 0..merged.len() {
        let (low, high) = merged.value_at(i);
        assert!(low <= high);
    }
}

#[test]
fn no_partitions_need_no_call() {
    match client().fetch_watermarks_for_partitions(&[]) {
        WatermarkStep::Done(Ok(merged)) => assert_eq!(merged.len(), 0),
        _ => panic!("there is nothing to ask for"),
    }
}

#[test]
fn watermarks_take_two_calls() {
    let client = client();
    let partitions = vec![TopicPartition::new("t", 0), TopicPartition::new("t", 1)];
    let WatermarkStep::Query { partitions: asked, offsets: which, timeout, then_with } =
        client.fetch_watermarks_for_partitions(&partitions)
    else {
        panic!("the earliest offsets are asked for first");
    };
    assert_eq!(asked, &partitions[..]);
    assert_eq!(which, OffsetSpec::Earliest);
    assert_eq!(timeout, Duration::from_secs(30));
    let WatermarkStep::Query { partitions: asked, offsets: which, timeout, then_with } =
        client.watermarks_fetched(then_with, Ok(offsets(&[("t", 0, 5)])))
    else {
        panic!("the latest offsets are asked for next");
    };
    assert_eq!(asked, &partitions[..]);
    assert_eq!(which, OffsetSpec::Latest);
    assert_eq!(timeout, Duration::from_secs(30));
    match client.watermarks_fetched(then_with, Ok(offsets(&[("t", 0, 9), ("t", 1, 7)]))) {
        WatermarkStep::Done(Ok(merged)) => {
            assert_eq!(merged.len(), 2);
            assert_eq!(merged.get(&TopicPartition::new("t", 0)), Some(&(5, 9)));
            assert_eq!(merged.get(&TopicPartition::new("t", 1)), Some(&(7, 7)));
        }
        _ => panic!("both calls are done"),
    }
}

#[test]
fn an_error_of_either_call_ends_the_fetch() {
    let client = client();
    let partitions = vec![TopicPartition::new("t", 0)];
    let error = || Err(KlagError::Kafka(KafkaError::Canceled));
    let first = WatermarkFetch::Earliest { partitions: &partitions };
    match client.watermarks_fetched(first, error()) {
        WatermarkStep::Done(Err(KlagError::Kafka(e))) => assert_eq!(e, KafkaError::Canceled),
        _ => panic!("the first call failed"),
    }
    let second = WatermarkFetch::Latest { lows: offsets(&[("t", 0, 5)]) };
    match client.watermarks_fetched(second, error()) {
        WatermarkStep::Done(Err(KlagError::Kafka(e))) => assert_eq!(e, KafkaError::Canceled),
        _ => panic!("the second call failed"),
    }
}
