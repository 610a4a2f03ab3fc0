use klag_exporter::config::{ClusterConfig, StringMap};
use klag_exporter::error::KlagError;
use klag_exporter::kafka::auth::MskIamSupport;
use klag_exporter::kafka::client::{ClientStep, KafkaClient};
use klag_exporter::kafka::compaction::{
    compacted_topics, ConfigEntry, ConfigResource, ResourceSpecifier,
};
use rdkafka::error::KafkaError;

fn client() -> KafkaClient<u8, u16> {
    let config = ClusterConfig {
        name: "prod".to_string(),
        bootstrap_servers: "localhost:9092".to_string(),
        consumer_properties: StringMap::new(),
        labels: StringMap::new(),
        aws_msk_iam: None,
    };
    match KafkaClient::<u8, u16>::new(&config, MskIamSupport::NotBuilt) {
        ClientStep::Create { setup, .. } => setup.finish(Ok((1, 2))).ok().unwrap(),
        _ => panic!("no token provider is needed"),
    }
}

fn topic(name: &str, entries: &[(&str, Option<&str>)]) -> Result<ConfigResource, String> {
    Ok(resource(ResourceSpecifier::Topic(name.to_string()), entries))
}

fn resource(specifier: ResourceSpecifier, entries: &[(&str, Option<&str>)]) -> ConfigResource {
    ConfigResource {
        specifier,
        entries: entries
            .iter()
            .map(|(name, value)| ConfigEntry {
                name: name.to_string(),
                value: value.map(|v| v.to_string()),
            })
            .collect(),
    }
}

#[test]
fn a_policy_that_contains_compact_makes_a_topic_compacted() {
    let described = vec![
        topic("plain", &[("cleanup.policy", Some("delete"))]),
        topic("compacted", &[("retention.ms", Some("1")), ("cleanup.policy", Some("compact"))]),
        topic("both", &[("cleanup.policy", Some("compact,delete"))]),
        topic("both_turned", &[("cleanup.policy", Some("delete,compact"))]),
        topic("unset", &[("cleanup.policy", None)]),
        topic("other", &[("min.compaction.lag.ms", Some("compact"))]),
        topic("bare", &[]),
        topic("case", &[("cleanup.policy", Some("Compact"))]),
    ];
    assert_eq!(compacted_topics(&described), ["compacted", "both", "both_turned"]);
}

#[test]
fn a_topic_is_named_once() {
    let described = vec![
        topic("t", &[("cleanup.policy", Some("compact")), ("cleanup.policy", Some("compact"))]),
        topic("t", &[("cleanup.policy", Some("compact"))]),
    ];
    assert_eq!(compacted_topics(&described), ["t"]);
}

#[test]
fn what_is_no_topic_is_passed_over() {
    let compact = [("cleanup.policy", Some("compact"))];
    let described = vec![
        Err("unknown topic".to_string()),
        Ok(resource(ResourceSpecifier::Broker(1), &compact)),
        Ok(resource(ResourceSpecifier::Group("g".to_string()), &compact)),
        topic("t", &compact),
    ];
    assert_eq!(compacted_topics(&described), ["t"]);
}

#[test]
fn no_topics_need_no_description() {
    assert!(client().fetch_compacted_topics_for(None).unwrap().is_empty());
}

#[test]
fn described_topics_are_looked_through() {
    let described = vec![topic("t", &[("cleanup.policy", Some("compact"))])];
    let topics = client().fetch_compacted_topics_for(Some(Ok(described))).unwrap();
    assert_eq!(topics, ["t"]);
}

#[test]
fn a_failed_description_of_topics_is_an_error() {
    let topics = client().fetch_compacted_topics_for(Some(Err(KafkaError::Canceled)));
    assert!(matches!(topics, Err(KlagError::Kafka(KafkaError::Canceled))));
}
