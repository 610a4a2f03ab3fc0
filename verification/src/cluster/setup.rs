//! Setting up the collection of one cluster, step by step.

use crate::cluster::manager::{sampler_plan, ClusterManager};
use crate::config::{ClusterConfig, ExporterConfig, PerformanceConfig, TimestampSamplingMode};
use crate::duration::MAX_NANOS;
use crate::error::KlagError;
use crate::kafka::auth::{
    build_token_provider, is_token_provider_of, MskIamSupport, MskIamTokenProvider,
};
use crate::kafka::client::share;
use std::sync::Arc;
use vstd::prelude::*;

verus! {

/// What a setup waits for.
#[derive(Clone, Copy, Debug, PartialEq, Eq, Structural)]
pub enum SetupStage {
    Filters,
    Provider,
    Client,
    TimestampPool,
    Finished,
}

/// How a step of a setup ended.
pub enum SetupEvent<P: ?Sized> {
    /// The filters were compiled; what there is for signing is known.
    FiltersCompiled { outcome: Result<(), KlagError>, support: MskIamSupport },
    /// The signer was made a provider of.
    ProviderShared { provider: Arc<P> },
    /// The Kafka clients were created.
    ClientCreated { outcome: Result<(), KlagError> },
    /// The consumers that read timestamps were created.
    TimestampPoolCreated { outcome: Result<(), KlagError> },
}

/// What a setup asks for.
pub enum SetupAction<P: ?Sized> {
    /// Make a provider around this signer. It is the only one that the cluster gets.
    ShareProvider { signer: MskIamTokenProvider },
    /// Create the Kafka clients with this provider.
    CreateClient {
        token_provider: Option<Arc<P>>,
        performance: PerformanceConfig,
    },
    /// Create this many consumers that read timestamps, with the clients' provider.
    CreateTimestampPool {
        pool_size: usize,
        token_provider: Option<Arc<P>>,
    },
    /// The collection can start.
    Ready(ClusterManager),
    /// The setup has failed.
    Fail(KlagError),
}

/// A setup on its way, of clients that share a provider `P`. It begins with the cluster's
/// filters.
pub struct ClusterSetup<P: ?Sized> {
    config: ClusterConfig,
    exporter_config: ExporterConfig,
    token_provider: Option<Arc<P>>,
    stage: SetupStage,
}

impl<P: ?Sized> ClusterSetup<P> {
    /// The cluster that is set up.
    pub closed spec fn spec_config(&self) -> ClusterConfig {
        self.config
    }

    /// What holds for every cluster.
    pub closed spec fn spec_exporter_config(&self) -> ExporterConfig {
        self.exporter_config
    }

    /// What the clients of the cluster share, as far as it is known.
    pub closed spec fn spec_token_provider(&self) -> Option<Arc<P>> {
        self.token_provider
    }

    /// What is waited for.
    pub closed spec fn spec_stage(&self) -> SetupStage {
        self.stage
    }

    /// What every step keeps: a provider is there from when it was shared, and clients
    /// are created with one exactly where MSK IAM is configured.
    pub open spec fn wf(&self) -> bool {
        match self.spec_stage() {
            SetupStage::Filters => self.spec_token_provider() is None,
            SetupStage::Provider => {
                &&& self.spec_token_provider() is None
                &&& self.spec_config()@.aws_msk_iam is Some
            },
            SetupStage::Client | SetupStage::TimestampPool => {
                self.spec_token_provider() is Some <==> self.spec_config()@.aws_msk_iam is Some
            },
            SetupStage::Finished => true,
        }
    }

    /// Whether an event is what is waited for.
    pub open spec fn expects(&self, event: SetupEvent<P>) -> bool {
        match event {
            SetupEvent::FiltersCompiled { .. } => self.spec_stage() == SetupStage::Filters,
            SetupEvent::ProviderShared { .. } => self.spec_stage() == SetupStage::Provider,
            SetupEvent::ClientCreated { .. } => self.spec_stage() == SetupStage::Client,
            SetupEvent::TimestampPoolCreated { .. } => self.spec_stage()
                == SetupStage::TimestampPool,
        }
    }

    /// Whether timestamps are read by a pool of consumers.
    pub open spec fn needs_pool(&self) -> bool {
        sampler_plan(self.spec_exporter_config().timestamp_sampling) matches Some(plan)
            && plan is Message
    }

    /// Whether an event completes the setup.
    pub open spec fn completes(&self, event: SetupEvent<P>) -> bool {
        match event {
            SetupEvent::FiltersCompiled { .. } | SetupEvent::ProviderShared { .. } => false,
            SetupEvent::ClientCreated { outcome } => outcome is Ok && !self.needs_pool(),
            SetupEvent::TimestampPoolCreated { outcome } => outcome is Ok,
        }
    }

    /// Whether an action asks for the clients, with the provider that the setup keeps.
    pub open spec fn asks_for_clients(&self, action: SetupAction<P>) -> bool {
        &&& action matches SetupAction::CreateClient { token_provider, performance }
        &&& token_provider == self.spec_token_provider()
        &&& performance == self.spec_exporter_config().performance
        &&& self.spec_stage() == SetupStage::Client
    }

    /// Whether an action ends the setup with an error.
    pub open spec fn fails_with(&self, action: SetupAction<P>, error: KlagError) -> bool {
        &&& action matches SetupAction::Fail(e)
        &&& e == error
        &&& self.spec_stage() == SetupStage::Finished
    }

    /// Whether an action completes the setup.
    pub open spec fn is_ready(&self, action: SetupAction<P>) -> bool {
        &&& action matches SetupAction::Ready(manager)
        &&& manager.wf()
        &&& manager.follows(self.spec_config(), self.spec_exporter_config())
        &&& self.spec_stage() == SetupStage::Finished
    }

    /// A setup that waits for the cluster's filters.
    pub fn new(config: ClusterConfig, exporter_config: ExporterConfig) -> (setup: Self)
        ensures
            setup.wf(),
            setup.spec_config() == config,
            setup.spec_exporter_config() == exporter_config,
            setup.spec_token_provider() is None,
            setup.spec_stage() == SetupStage::Filters,
    {
        ClusterSetup {
            config,
            exporter_config,
            token_provider: None,
            stage: SetupStage::Filters,
        }
    }

    /// Takes the outcome of a step in, and says what is next. A step that failed ends
    /// the setup with its error, and nothing more is asked for. The provider that was
    /// shared goes to the clients and to the consumers that read timestamps alike.
    pub fn advance(&mut self, event: SetupEvent<P>) -> (action: SetupAction<P>)
        requires
            old(self).wf(),
            old(self).expects(event),
            old(self).completes(event) ==> 2
                * old(self).spec_exporter_config().timestamp_sampling.cache_ttl@ <= MAX_NANOS,
        ensures
            final(self).wf(),
            final(self).spec_config() == old(self).spec_config(),
            final(self).spec_exporter_config() == old(self).spec_exporter_config(),
            match event {
                SetupEvent::ProviderShared { provider } => {
                    &&& final(self).spec_token_provider() matches Some(kept)
                    &&& kept == provider
                    &&& final(self).asks_for_clients(action)
                },
                _ => final(self).spec_token_provider() == old(self).spec_token_provider(),
            },
            match event {
                SetupEvent::FiltersCompiled { outcome: Err(e), support } => final(self).fails_with(
                    action,
                    e,
                ),
                SetupEvent::FiltersCompiled { outcome: Ok(_), support } => match action {
                    SetupAction::ShareProvider { signer } => {
                        &&& is_token_provider_of(
                            old(self).spec_config()@,
                            support,
                            Ok(Some(signer)),
                        )
                        &&& final(self).spec_stage() == SetupStage::Provider
                    },
                    SetupAction::Fail(e) => {
                        &&& is_token_provider_of(old(self).spec_config()@, support, Err(e))
                        &&& final(self).spec_stage() == SetupStage::Finished
                    },
                    _ => {
                        &&& is_token_provider_of(old(self).spec_config()@, support, Ok(None))
                        &&& final(self).asks_for_clients(action)
                    },
                },
                SetupEvent::ProviderShared { provider } => true,
                SetupEvent::ClientCreated { outcome: Err(e) } => final(self).fails_with(action, e),
                SetupEvent::ClientCreated { outcome: Ok(_) } => if old(self).needs_pool() {
                    &&& action matches SetupAction::CreateTimestampPool { pool_size, token_provider }
                    &&& pool_size
                        == old(self).spec_exporter_config().timestamp_sampling.max_concurrent_fetches
                    &&& token_provider == old(self).spec_token_provider()
                    &&& final(self).spec_stage() == SetupStage::TimestampPool
                } else {
                    final(self).is_ready(action)
                },
                SetupEvent::TimestampPoolCreated { outcome: Err(e) } => final(self).fails_with(
                    action,
                    e,
                ),
                SetupEvent::TimestampPoolCreated { outcome: Ok(_) } => final(self).is_ready(action),
            },
    {
        match event {
            SetupEvent::FiltersCompiled { outcome, support } => {
                if let Err(e) = outcome {
                    self.stage = SetupStage::Finished;
                    return SetupAction::Fail(e);
                }
                match build_token_provider(&self.config, support) {
                    Ok(Some(signer)) => {
                        self.stage = SetupStage::Provider;
                        SetupAction::ShareProvider { signer }
                    },
                    Ok(None) => self.create_client(),
                    Err(e) => {
                        self.stage = SetupStage::Finished;
                        SetupAction::Fail(e)
                    },
                }
            },
            SetupEvent::ProviderShared { provider } => {
                let shared = Some(provider);
                self.token_provider = shared;
                self.create_client()
            },
            SetupEvent::ClientCreated { outcome } => {
                if let Err(e) = outcome {
                    self.stage = SetupStage::Finished;
                    return SetupAction::Fail(e);
                }
                let sampling = self.exporter_config.timestamp_sampling;
                if sampling.enabled {
                    if let TimestampSamplingMode::Message = sampling.mode {
                        self.stage = SetupStage::TimestampPool;
                        return SetupAction::CreateTimestampPool {
                            pool_size: sampling.max_concurrent_fetches,
                            token_provider: share(&self.token_provider),
                        };
                    }
                }
                self.stage = SetupStage::Finished;
                SetupAction::Ready(ClusterManager::new(&self.config, &self.exporter_config))
            },
            SetupEvent::TimestampPoolCreated { outcome } => {
                self.stage = SetupStage::Finished;
                match outcome {
                    Err(e) => SetupAction::Fail(e),
                    Ok(_) => SetupAction::Ready(
                        ClusterManager::new(&self.config, &self.exporter_config),
                    ),
                }
            },
        }
    }

    /// Asks for the clients.
    fn create_client(&mut self) -> (action: SetupAction<P>)
        ensures
            final(self).spec_stage() == SetupStage::Client,
            final(self).spec_config() == old(self).spec_config(),
            final(self).spec_exporter_config() == old(self).spec_exporter_config(),
            final(self).spec_token_provider() == old(self).spec_token_provider(),
            final(self).asks_for_clients(action),
    {
        self.stage = SetupStage::Client;
        SetupAction::CreateClient {
            token_provider: share(&self.token_provider),
            performance: self.exporter_config.performance,
        }
    }
}

} // verus!
