//! Authentication against the brokers.

use crate::config::{text_of, ClusterConfig, ClusterConfigView};
use crate::duration::{seconds, Duration};
use crate::error::KlagError;
use crate::kafka::settings::{put_setting, settings_of, Settings};
use aws_types::region::Region;
use rdkafka::config::ClientConfig;
use std::sync::Arc;
use vstd::prelude::*;

verus! {

/// A token for the OAUTHBEARER mechanism. It has no `Debug`, so that none gets into a log.
pub struct OAuthToken {
    /// The token itself.
    pub token: String,
    /// The Kafka principal that the token belongs to.
    pub principal_name: String,
    /// When the token expires, in milliseconds since the Unix epoch.
    pub lifetime_ms: i64,
}

/// Generates an OAuth token on demand. Cloud-specific implementations live in
/// their own structs.
pub trait OAuthTokenProvider: Send + Sync {
    /// Whether a call of `generate` may end in `result`: in any, unless an
    /// implementation says more.
    open spec fn may_issue(&self, result: Result<OAuthToken, String>) -> bool {
        true
    }

    /// A fresh token, or why there is none.
    fn generate(&self) -> (result: Result<OAuthToken, String>)
        ensures
            self.may_issue(result),
    ;
}

/// Why a provider cannot be made without a region.
pub const REGION_REQUIRED: &'static str =
    "MSK IAM auth requires an AWS region; set [clusters.aws_msk_iam] region = \"...\", or export AWS_REGION / AWS_DEFAULT_REGION";

/// Why a cluster with IAM cannot be used where signing is not built in.
pub const MSK_IAM_DISABLED_MSG: &'static str =
    "cluster has [clusters.aws_msk_iam] configured but this binary was built without the `msk-iam` feature; rebuild with default features enabled (cargo build --release) or pass --features msk-iam";

/// Why no token is issued for a cluster without a provider.
pub const NO_TOKEN_PROVIDER: &'static str =
    "OAUTHBEARER callback invoked but no token provider is configured for this cluster; add an [clusters.aws_msk_iam] block to the cluster config";

/// Why no token is issued when the signing thread dies.
pub const SIGNER_PANICKED: &'static str = "MSK IAM OAuth token thread panicked";

/// Why no token is issued when signing takes too long.
pub const SIGNER_TIMED_OUT: &'static str = "MSK IAM OAuth token request timed out after 10s";

/// What stands before the signer's own words when signing fails.
pub const SIGNER_FAILED_PREFIX: &'static str = "MSK IAM signer error: ";

/// Whether signing for Amazon MSK is built in, and what the environment says
/// about the region.
#[derive(Debug)]
pub enum MskIamSupport {
    BuiltIn {
        /// `AWS_REGION`, where it is set.
        aws_region: Option<String>,
        /// `AWS_DEFAULT_REGION`, where it is set.
        aws_default_region: Option<String>,
    },
    NotBuilt,
}

/// The region to sign for: the configured one, else `AWS_REGION`, else
/// `AWS_DEFAULT_REGION`.
pub open spec fn resolved_region(
    region: Option<Seq<char>>,
    aws_region: Option<Seq<char>>,
    aws_default_region: Option<Seq<char>>,
) -> Option<Seq<char>> {
    if region is Some {
        region
    } else if aws_region is Some {
        aws_region
    } else {
        aws_default_region
    }
}

/// The AWS region type, carried as it is.
#[verifier::external_type_specification]
#[verifier::external_body]
pub struct ExRegion(Region);

/// The region that `Region::new` makes of a name.
pub uninterp spec fn region_named(name: Seq<char>) -> Region;

/// Calls `Region::new`, whose result depends on the name alone.
#[verifier::external_body]
fn new_region(name: String) -> (region: Region)
    ensures
        region == region_named(name@),
{
    Region::new(name)
}

/// What to ask of the signer.
pub struct SigningRequest {
    pub region: Region,
    /// How long to wait for the token.
    pub timeout: Duration,
}

/// How a signing request ended. It has no `Debug`, as the token has none.
pub enum SigningOutcome {
    /// The signing thread died.
    Panicked,
    /// No token came in time.
    TimedOut,
    /// The signer refused; these are its words.
    Failed(String),
    Signed {
        token: String,
        /// When the token expires, in milliseconds since the Unix epoch.
        expiry_ms: i64,
    },
}

/// Generates SigV4-presigned OAUTHBEARER tokens for Amazon MSK IAM.
#[derive(Debug)]
pub struct MskIamTokenProvider {
    region: String,
}

impl MskIamTokenProvider {
    /// The region that tokens are signed for.
    pub closed spec fn spec_region(&self) -> Seq<char> {
        self.region@
    }

    /// Makes the provider, resolving the region if it is not given. Without any
    /// region this fails at once, rather than at every token refresh.
    pub fn new(
        region: Option<String>,
        aws_region: Option<String>,
        aws_default_region: Option<String>,
    ) -> (provider: Result<Self, String>)
        ensures
            match resolved_region(text_of(region), text_of(aws_region), text_of(aws_default_region)) {
                Some(name) => provider matches Ok(p) && p.spec_region() == name,
                None => provider matches Err(e) && e@ == REGION_REQUIRED@,
            },
    {
        let resolved = match region {
            Some(r) => r,
            None => match aws_region {
                Some(r) => r,
                None => match aws_default_region {
                    Some(r) => r,
                    None => {
                        return Err(REGION_REQUIRED.to_owned());
                    },
                },
            },
        };
        Ok(MskIamTokenProvider { region: resolved })
    }

    /// The name of the region that tokens are signed for.
    pub fn region(&self) -> (name: &str)
        ensures
            name@ == self.spec_region(),
    {
        self.region.as_str()
    }

    /// What to ask of the signer for one token.
    pub fn signing_request(&self) -> (request: SigningRequest)
        ensures
            request.region == region_named(self.spec_region()),
            request.timeout@ == seconds(10),
    {
        SigningRequest { region: new_region(self.region.clone()), timeout: Duration::from_secs(10) }
    }

    /// The token that a signing request gave, or why it gave none.
    pub fn generate(&self, outcome: SigningOutcome) -> (result: Result<OAuthToken, String>)
        ensures
            match outcome {
                SigningOutcome::Panicked => result matches Err(e) && e@ == SIGNER_PANICKED@,
                SigningOutcome::TimedOut => result matches Err(e) && e@ == SIGNER_TIMED_OUT@,
                SigningOutcome::Failed(reason) => result matches Err(e) && e@
                    == SIGNER_FAILED_PREFIX@ + reason@,
                SigningOutcome::Signed { token, expiry_ms } => {
                    &&& result matches Ok(t)
                    &&& t.token == token
                    &&& t.principal_name@ == Seq::<char>::empty()
                    &&& t.lifetime_ms == expiry_ms
                },
            },
    {
        match outcome {
            SigningOutcome::Panicked => Err(SIGNER_PANICKED.to_owned()),
            SigningOutcome::TimedOut => Err(SIGNER_TIMED_OUT.to_owned()),
            SigningOutcome::Failed(reason) => {
                let mut message = SIGNER_FAILED_PREFIX.to_owned();
                message.append(reason.as_str());
                Err(message)
            },
            SigningOutcome::Signed { token, expiry_ms } => Ok(
                OAuthToken { token, principal_name: String::new(), lifetime_ms: expiry_ms },
            ),
        }
    }
}

/// Whether `built` is what a cluster gets for a token provider: none without MSK IAM,
/// a signer for the resolved region with it, and an error where no region is to be
/// had or signing is not built in.
pub open spec fn is_token_provider_of(
    config: ClusterConfigView,
    support: MskIamSupport,
    built: Result<Option<MskIamTokenProvider>, KlagError>,
) -> bool {
    match config.aws_msk_iam {
        None => built matches Ok(None),
        Some(region) => match support {
            MskIamSupport::NotBuilt => built matches Err(KlagError::Config(e)) && e@
                == MSK_IAM_DISABLED_MSG@,
            MskIamSupport::BuiltIn { aws_region, aws_default_region } => match resolved_region(
                region,
                text_of(aws_region),
                text_of(aws_default_region),
            ) {
                Some(name) => built matches Ok(Some(p)) && p.spec_region() == name,
                None => built matches Err(KlagError::Config(e)) && e@ == REGION_REQUIRED@,
            },
        },
    }
}

/// A cluster has a token provider exactly where it is configured for MSK IAM, and it
/// signs for the configured region where one is given, whatever the environment says.
pub proof fn law_provider_follows_the_configuration(
    config: ClusterConfigView,
    support: MskIamSupport,
    provider: Option<MskIamTokenProvider>,
)
    requires
        is_token_provider_of(config, support, Ok(provider)),
    ensures
        provider is Some <==> config.aws_msk_iam is Some,
        config.aws_msk_iam matches Some(Some(region)) ==> provider->0.spec_region() == region,
{
}

/// A configured region is enough: where signing is built in, nothing else can fail.
pub proof fn law_configured_region_suffices(
    config: ClusterConfigView,
    support: MskIamSupport,
    built: Result<Option<MskIamTokenProvider>, KlagError>,
)
    requires
        is_token_provider_of(config, support, built),
        config.aws_msk_iam matches Some(region) ==> region is Some && support is BuiltIn,
    ensures
        built is Ok,
{
}

/// Builds the token provider of a cluster, if it is configured for MSK IAM. To be
/// called once per cluster; all its clients share the provider.
pub fn build_token_provider(config: &ClusterConfig, support: MskIamSupport) -> (provider: Result<
    Option<MskIamTokenProvider>,
    KlagError,
>)
    ensures
        is_token_provider_of(config@, support, provider),
{
    match &config.aws_msk_iam {
        None => Ok(None),
        Some(iam) => match support {
            MskIamSupport::NotBuilt => Err(KlagError::Config(MSK_IAM_DISABLED_MSG.to_owned())),
            MskIamSupport::BuiltIn { aws_region, aws_default_region } => {
                match MskIamTokenProvider::new(iam.region.clone(), aws_region, aws_default_region) {
                    Ok(provider) => Ok(Some(provider)),
                    Err(e) => Err(KlagError::Config(e)),
                }
            },
        },
    }
}

/// `settings` with what MSK IAM needs, where it is configured.
pub open spec fn with_iam_defaults(settings: Settings, msk_iam: bool) -> Settings {
    if msk_iam {
        settings.insert("security.protocol"@, "SASL_SSL"@).insert("sasl.mechanism"@, "OAUTHBEARER"@)
    } else {
        settings
    }
}

/// Sets the MSK IAM defaults. To be called before the cluster's own properties
/// are set, so that explicit overrides win.
pub fn apply_msk_iam_sasl(config: &ClusterConfig, client_config: &mut ClientConfig)
    ensures
        settings_of(*final(client_config)) == with_iam_defaults(
            settings_of(*old(client_config)),
            config@.aws_msk_iam is Some,
        ),
        config@.aws_msk_iam is None ==> *final(client_config) == *old(client_config),
{
    if config.aws_msk_iam.is_some() {
        put_setting(client_config, "security.protocol", "SASL_SSL");
        put_setting(client_config, "sasl.mechanism", "OAUTHBEARER");
    }
}

/// Setting the MSK IAM defaults again changes no setting, and setting them once changes
/// none but the protocol and the mechanism.
pub proof fn law_iam_defaults_settle_at_once(settings: Settings, msk_iam: bool, key: Seq<char>)
    ensures
        with_iam_defaults(with_iam_defaults(settings, msk_iam), msk_iam) == with_iam_defaults(
            settings,
            msk_iam,
        ),
        key != "security.protocol"@ && key != "sasl.mechanism"@ ==> {
            &&& with_iam_defaults(settings, msk_iam).contains_key(key) == settings.contains_key(key)
            &&& with_iam_defaults(settings, msk_iam)[key] == settings[key]
        },
{
    let once = with_iam_defaults(settings, msk_iam);
    assert(with_iam_defaults(once, msk_iam) =~= once);
}

/// What the clients of a cluster call back to. Passes a request for an OAuth
/// token on to the provider, where there is one.
///
/// It answers for every use of the OAUTHBEARER mechanism: a cluster that asks for
/// it in its own properties, without MSK IAM, has no provider and gets an error.
pub struct KlagContext {
    token_provider: Option<Arc<dyn OAuthTokenProvider>>,
}

impl KlagContext {
    /// The provider that requests are passed on to.
    pub closed spec fn provider(&self) -> Option<Arc<dyn OAuthTokenProvider>> {
        self.token_provider
    }

    /// A context around a provider, or around none.
    pub fn new(token_provider: Option<Arc<dyn OAuthTokenProvider>>) -> (context: Self)
        ensures
            context.provider() == token_provider,
    {
        KlagContext { token_provider }
    }

    /// A token from the provider, or its error, as it came; an error where there is no
    /// provider. How often the provider is asked is not stated: once, by the code below.
    pub fn generate_oauth_token(&self, _oauthbearer_config: Option<&str>) -> (result: Result<
        OAuthToken,
        String,
    >)
        ensures
            match self.provider() {
                Some(provider) => provider.may_issue(result),
                None => result matches Err(e) && e@ == NO_TOKEN_PROVIDER@,
            },
    {
        match &self.token_provider {
            Some(provider) => provider.generate(),
            None => Err(NO_TOKEN_PROVIDER.to_owned()),
        }
    }
}

} // verus!
