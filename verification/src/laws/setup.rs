//! Laws of setting up the collection of a cluster.

use crate::cluster::manager::ClusterManager;
use crate::cluster::setup::{ClusterSetup, SetupAction, SetupEvent};
use crate::config::{ClusterConfig, ExporterConfig};
use crate::error::KlagError;
use crate::kafka::auth::{build_token_provider, MskIamSupport, MskIamTokenProvider};
use std::sync::Arc;
use vstd::prelude::*;

verus! {

/// A setup whose filters cannot be compiled fails with that error, before anything else is
/// looked at. Else it shares the signer that the configuration asks for, asks for clients
/// without a provider where it asks for none, or fails with the error of building it.
pub proof fn law_a_setup_begins_with_filters_and_provider<P: ?Sized>(
    config: ClusterConfig,
    exporter: ExporterConfig,
    begun: ClusterSetup<P>,
    setup: &mut ClusterSetup<P>,
    outcome: Result<(), KlagError>,
    support: MskIamSupport,
    action: SetupAction<P>,
    built: Result<Option<MskIamTokenProvider>, KlagError>,
    name: &str,
    built_name: &str,
)
    requires
        call_ensures(ClusterSetup::<P>::new, (config, exporter), begun),
        *old(setup) == begun,
        call_ensures(
            ClusterSetup::<P>::advance,
            (setup, (SetupEvent::FiltersCompiled { outcome, support })),
            action,
        ),
        call_ensures(build_token_provider, (&config, support), built),
        action matches SetupAction::ShareProvider { signer } ==> call_ensures(
            MskIamTokenProvider::region,
            (&signer,),
            name,
        ),
        built matches Ok(Some(signer)) ==> call_ensures(
            MskIamTokenProvider::region,
            (&signer,),
            built_name,
        ),
    ensures
        call_requires(
            ClusterSetup::<P>::advance,
            (setup, (SetupEvent::FiltersCompiled { outcome, support })),
        ),
        outcome matches Err(e) ==> (action matches SetupAction::Fail(k) && k == e),
        outcome is Ok ==> match built {
            Ok(Some(signer)) => action is ShareProvider && name@ == built_name@,
            Ok(None) => {
                &&& action matches SetupAction::CreateClient { token_provider, performance }
                &&& token_provider is None
                &&& performance == exporter.performance
            },
            Err(KlagError::Config(e)) => action matches SetupAction::Fail(KlagError::Config(k)) && k@
                == e@,
            Err(e) => action is Fail,
        },
{
}

/// Whether two managers go by the same things.
pub open spec fn go_alike(a: ClusterManager, b: ClusterManager) -> bool {
    &&& a.cluster_name@ == b.cluster_name@
    &&& a.cluster_labels@ == b.cluster_labels@
    &&& a.timestamp_sampler == b.timestamp_sampler
    &&& a.poll_interval@ == b.poll_interval@
    &&& a.max_backoff@ == b.max_backoff@
    &&& a.granularity == b.granularity
    &&& a.max_concurrent_fetches == b.max_concurrent_fetches
    &&& a.cache_cleanup_interval@ == b.cache_cleanup_interval@
    &&& a.collection_timeout@ == b.collection_timeout@
    &&& a.client_recycle_interval == b.client_recycle_interval
}

/// The provider that is shared goes to the clients and to the consumers that read
/// timestamps alike. These are as many as configured, and are asked for exactly where
/// messages are sampled; then the collection is ready to go by its configuration. A step that
/// fails ends the setup with its error.
pub proof fn law_one_provider_is_shared<P: ?Sized>(
    config: ClusterConfig,
    exporter: ExporterConfig,
    begun: ClusterSetup<P>,
    support: MskIamSupport,
    first: &mut ClusterSetup<P>,
    asked: SetupAction<P>,
    provider: Arc<P>,
    second: &mut ClusterSetup<P>,
    clients: SetupAction<P>,
    created: Result<(), KlagError>,
    third: &mut ClusterSetup<P>,
    third_action: SetupAction<P>,
    pooled: Result<(), KlagError>,
    fourth: &mut ClusterSetup<P>,
    fourth_action: SetupAction<P>,
    fresh: ClusterManager,
)
    requires
        call_ensures(ClusterSetup::<P>::new, (config, exporter), begun),
        *old(first) == begun,
        call_ensures(
            ClusterSetup::<P>::advance,
            (first, (SetupEvent::FiltersCompiled { outcome: Ok(()), support })),
            asked,
        ),
        asked is ShareProvider,
        *old(second) == *final(first),
        call_ensures(
            ClusterSetup::<P>::advance,
            (second, (SetupEvent::ProviderShared { provider })),
            clients,
        ),
        *old(third) == *final(second),
        call_ensures(
            ClusterSetup::<P>::advance,
            (third, (SetupEvent::ClientCreated { outcome: created })),
            third_action,
        ),
        *old(fourth) == *final(third),
        third_action is CreateTimestampPool ==> call_ensures(
            ClusterSetup::<P>::advance,
            (fourth, (SetupEvent::TimestampPoolCreated { outcome: pooled })),
            fourth_action,
        ),
        call_ensures(ClusterManager::new, (&config, &exporter), fresh),
    ensures
        ({
            &&& clients matches SetupAction::CreateClient { token_provider, performance }
            &&& token_provider == Some(provider)
            &&& performance == exporter.performance
        }),
        created matches Err(e) ==> (third_action matches SetupAction::Fail(k) && k == e),
        created is Ok && exporter.timestamp_sampling.enabled && exporter.timestamp_sampling.mode
            is Message ==> {
            &&& third_action matches SetupAction::CreateTimestampPool { pool_size, token_provider }
            &&& pool_size == exporter.timestamp_sampling.max_concurrent_fetches
            &&& token_provider == Some(provider)
            &&& pooled matches Err(e) ==> (fourth_action matches SetupAction::Fail(k) && k == e)
            &&& pooled is Ok ==> (fourth_action matches SetupAction::Ready(manager) && go_alike(
                manager,
                fresh,
            ))
        },
        created is Ok && (!exporter.timestamp_sampling.enabled || exporter.timestamp_sampling.mode
            is Rate) ==> (third_action matches SetupAction::Ready(manager) && go_alike(
            manager,
            fresh,
        )),
        call_requires(
            ClusterSetup::<P>::advance,
            (second, (SetupEvent::ProviderShared { provider })),
        ),
        2 * exporter.timestamp_sampling.cache_ttl@ <= 18_446_744_073_709_551_615_999_999_999
            ==> call_requires(
            ClusterSetup::<P>::advance,
            (third, (SetupEvent::ClientCreated { outcome: created })),
        ),
{
}

/// Without MSK IAM nothing is shared: neither the clients nor the consumers that read
/// timestamps have a provider. In everything else such a setup goes on as any.
pub proof fn law_without_iam_no_provider_is_shared<P: ?Sized>(
    config: ClusterConfig,
    exporter: ExporterConfig,
    begun: ClusterSetup<P>,
    support: MskIamSupport,
    first: &mut ClusterSetup<P>,
    clients: SetupAction<P>,
    created: Result<(), KlagError>,
    second: &mut ClusterSetup<P>,
    second_action: SetupAction<P>,
    pooled: Result<(), KlagError>,
    third: &mut ClusterSetup<P>,
    third_action: SetupAction<P>,
    fresh: ClusterManager,
)
    requires
        config.aws_msk_iam is None,
        call_ensures(ClusterSetup::<P>::new, (config, exporter), begun),
        *old(first) == begun,
        call_ensures(
            ClusterSetup::<P>::advance,
            (first, (SetupEvent::FiltersCompiled { outcome: Ok(()), support })),
            clients,
        ),
        *old(second) == *final(first),
        call_ensures(
            ClusterSetup::<P>::advance,
            (second, (SetupEvent::ClientCreated { outcome: created })),
            second_action,
        ),
        *old(third) == *final(second),
        second_action is CreateTimestampPool ==> call_ensures(
            ClusterSetup::<P>::advance,
            (third, (SetupEvent::TimestampPoolCreated { outcome: pooled })),
            third_action,
        ),
        call_ensures(ClusterManager::new, (&config, &exporter), fresh),
    ensures
        ({
            &&& clients matches SetupAction::CreateClient { token_provider, performance }
            &&& token_provider is None
            &&& performance == exporter.performance
        }),
        created matches Err(e) ==> (second_action matches SetupAction::Fail(k) && k == e),
        created is Ok && exporter.timestamp_sampling.enabled && exporter.timestamp_sampling.mode
            is Message ==> {
            &&& second_action matches SetupAction::CreateTimestampPool { pool_size, token_provider }
            &&& pool_size == exporter.timestamp_sampling.max_concurrent_fetches
            &&& token_provider is None
            &&& pooled matches Err(e) ==> (third_action matches SetupAction::Fail(k) && k == e)
            &&& pooled is Ok ==> (third_action matches SetupAction::Ready(manager) && go_alike(
                manager,
                fresh,
            ))
        },
        created is Ok && (!exporter.timestamp_sampling.enabled || exporter.timestamp_sampling.mode
            is Rate) ==> (second_action matches SetupAction::Ready(manager) && go_alike(
            manager,
            fresh,
        )),
        2 * exporter.timestamp_sampling.cache_ttl@ <= 18_446_744_073_709_551_615_999_999_999
            ==> call_requires(
            ClusterSetup::<P>::advance,
            (second, (SetupEvent::ClientCreated { outcome: created })),
        ),
        2 * exporter.timestamp_sampling.cache_ttl@ <= 18_446_744_073_709_551_615_999_999_999
            && second_action is CreateTimestampPool ==> call_requires(
            ClusterSetup::<P>::advance,
            (third, (SetupEvent::TimestampPoolCreated { outcome: pooled })),
        ),
{
}

} // verus!
