//! The settings that Kafka clients are created with.

use rdkafka::config::ClientConfig;
use vstd::prelude::*;

verus! {

/// Settings by their keys.
pub type Settings = Map<Seq<char>, Seq<char>>;

/// `rdkafka`'s client configuration. Of what it holds, only the settings are
/// spoken of, through `settings_of`; its log level is left open.
#[verifier::external_type_specification]
#[verifier::external_body]
pub struct ExClientConfig(ClientConfig);

/// The settings that a client configuration holds, by their keys.
pub uninterp spec fn settings_of(config: ClientConfig) -> Map<Seq<char>, Seq<char>>;

/// Calls `ClientConfig::new`: the configuration it returns holds no settings.
#[verifier::external_body]
pub(crate) fn no_settings() -> (config: ClientConfig)
    ensures
        settings_of(config) == Settings::empty(),
{
    ClientConfig::new()
}

/// Calls `ClientConfig::set`: `key` has `value` from then on, whatever it had
/// before, and every other setting stays.
#[verifier::external_body]
pub(crate) fn put_setting(config: &mut ClientConfig, key: &str, value: &str)
    ensures
        settings_of(*final(config)) == settings_of(*old(config)).insert(key@, value@),
{
    config.set(key, value);
}

/// Calls `ClientConfig::clone`: the copy holds the same settings.
#[verifier::external_body]
pub(crate) fn copy_settings(config: &ClientConfig) -> (duplicate: ClientConfig)
    ensures
        settings_of(duplicate) == settings_of(*config),
{
    config.clone()
}

} // verus!
