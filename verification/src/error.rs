//! What can go wrong.

use rdkafka::error::KafkaError;
use vstd::prelude::*;

verus! {

/// The error type of `rdkafka`, carried as it is; nothing is claimed of what it holds.
#[verifier::external_type_specification]
#[verifier::external_body]
pub struct ExKafkaError(KafkaError);

/// Why setting up or collecting from a cluster failed.
#[derive(Debug)]
pub enum KlagError {
    /// The configuration cannot be used as it is.
    Config(String),
    /// A Kafka call failed.
    Kafka(KafkaError),
}

/// The outcome of a Kafka call, with its error as one of the exporter's.
pub fn kafka_result<T>(outcome: Result<T, KafkaError>) -> (result: Result<T, KlagError>)
    ensures
        result == match outcome {
            Ok(value) => Ok::<T, KlagError>(value),
            Err(e) => Err(KlagError::Kafka(e)),
        },
{
    match outcome {
        Ok(value) => Ok(value),
        Err(e) => Err(KlagError::Kafka(e)),
    }
}

} // verus!
