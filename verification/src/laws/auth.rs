//! Laws of signing in.

use crate::config::ClusterConfig;
use crate::error::KlagError;
use crate::kafka::auth::{
    apply_msk_iam_sasl, build_token_provider, region_named, KlagContext, MskIamSupport,
    MskIamTokenProvider, OAuthToken, OAuthTokenProvider, SigningOutcome, SigningRequest,
    MSK_IAM_DISABLED_MSG, NO_TOKEN_PROVIDER, REGION_REQUIRED, SIGNER_FAILED_PREFIX,
    SIGNER_PANICKED, SIGNER_TIMED_OUT,
};
use crate::kafka::settings::settings_of;
use rdkafka::config::ClientConfig;
use std::sync::Arc;
use vstd::prelude::*;

verus! {

/// A provider signs for the region that it is given; else for the one in `AWS_REGION`; else
/// for the one in `AWS_DEFAULT_REGION`. It is refused where none of them is there, and
/// only there.
pub proof fn law_the_first_region_counts(
    region: Option<String>,
    aws_region: Option<String>,
    aws_default_region: Option<String>,
    made: Result<MskIamTokenProvider, String>,
    name: &str,
)
    requires
        call_ensures(MskIamTokenProvider::new, (region, aws_region, aws_default_region), made),
        made matches Ok(p) ==> call_ensures(MskIamTokenProvider::region, (&p,), name),
    ensures
        made is Err <==> region is None && aws_region is None && aws_default_region is None,
        made matches Err(e) ==> e@ == REGION_REQUIRED@,
        region matches Some(r) ==> made is Ok && name@ == r@,
        region is None ==> (aws_region matches Some(r) ==> made is Ok && name@ == r@),
        region is None && aws_region is None ==> (aws_default_region matches Some(r) ==> made is Ok
            && name@ == r@),
{
}

/// Every request goes to the provider's region and waits for ten seconds.
pub proof fn law_requests_are_for_the_region(
    p: &MskIamTokenProvider,
    name: &str,
    request: SigningRequest,
)
    requires
        call_ensures(MskIamTokenProvider::region, (p,), name),
        call_ensures(MskIamTokenProvider::signing_request, (p,), request),
    ensures
        request.region == region_named(name@),
        request.timeout@ == 10_000_000_000,
{
}

/// What the signer answered is passed on: a token with its expiry and no principal, or
/// the reason why there is none, whatever the provider's region.
pub proof fn law_the_signers_answer_is_passed_on(
    p: &MskIamTokenProvider,
    outcome: SigningOutcome,
    result: Result<OAuthToken, String>,
)
    requires
        call_ensures(MskIamTokenProvider::generate, (p, outcome), result),
    ensures
        result is Ok <==> outcome is Signed,
        outcome matches SigningOutcome::Signed { token, expiry_ms } ==> {
            &&& result matches Ok(t)
            &&& t.token@ == token@
            &&& t.lifetime_ms == expiry_ms
            &&& t.principal_name@.len() == 0
        },
        outcome matches SigningOutcome::Failed(reason) ==> {
            &&& result matches Err(e)
            &&& e@ == SIGNER_FAILED_PREFIX@ + reason@
        },
        outcome is TimedOut ==> (result matches Err(e) && e@ == SIGNER_TIMED_OUT@),
        outcome is Panicked ==> (result matches Err(e) && e@ == SIGNER_PANICKED@),
{
}

/// Without MSK IAM a cluster has no provider, whatever the environment says. With it, it
/// has one that signs for the region in the configuration, in `AWS_REGION` or in
/// `AWS_DEFAULT_REGION`, the first that is there; without any, or where signing is not
/// built in, there is an error.
pub proof fn law_providers_are_built_as_configured(
    config: &ClusterConfig,
    support: MskIamSupport,
    built: Result<Option<MskIamTokenProvider>, KlagError>,
    name: &str,
)
    requires
        call_ensures(build_token_provider, (config, support), built),
        built matches Ok(Some(p)) ==> call_ensures(MskIamTokenProvider::region, (&p,), name),
    ensures
        config.aws_msk_iam is None ==> (built matches Ok(p) && p is None),
        config.aws_msk_iam is Some && support is NotBuilt ==> (built matches Err(
            KlagError::Config(e),
        ) && e@ == MSK_IAM_DISABLED_MSG@),
        config.aws_msk_iam matches Some(iam) ==> (support matches MskIamSupport::BuiltIn {
            aws_region,
            aws_default_region,
        } ==> {
            &&& iam.region matches Some(r) ==> (built matches Ok(p) && p is Some && name@ == r@)
            &&& iam.region is None ==> (aws_region matches Some(r) ==> (built matches Ok(p) && p
                is Some && name@ == r@))
            &&& iam.region is None && aws_region is None ==> (aws_default_region matches Some(r)
                ==> (built matches Ok(p) && p is Some && name@ == r@))
            &&& iam.region is None && aws_region is None && aws_default_region is None ==> (
            built matches Err(KlagError::Config(e)) && e@ == REGION_REQUIRED@)
        }),
{
}

/// The MSK IAM settings are set where it is configured, over what was there, and nothing
/// else changes; where it is not configured, nothing changes at all.
pub proof fn law_iam_settings_are_set(
    config: &ClusterConfig,
    client_config: &mut ClientConfig,
    key: Seq<char>,
)
    requires
        call_ensures(apply_msk_iam_sasl, (config, client_config), ()),
    ensures
        config.aws_msk_iam is None ==> *final(client_config) == *old(client_config),
        config.aws_msk_iam is Some ==> {
            let set = settings_of(*final(client_config));
            let was = settings_of(*old(client_config));
            &&& set.contains_key("security.protocol"@)
            &&& set["security.protocol"@] == "SASL_SSL"@
            &&& set.contains_key("sasl.mechanism"@)
            &&& set["sasl.mechanism"@] == "OAUTHBEARER"@
            &&& key != "security.protocol"@ && key != "sasl.mechanism"@ ==> set.contains_key(key)
                == was.contains_key(key) && set[key] == was[key]
        },
{
    reveal_strlit("security.protocol");
    reveal_strlit("sasl.mechanism");
    assert("security.protocol"@.len() == 17);
    assert("sasl.mechanism"@.len() == 14);
}

/// A context answers with what its provider issues, and with an error exactly where it was
/// made without one, whatever it is asked with.
pub proof fn law_contexts_answer_for_their_provider(
    given: Option<Arc<dyn OAuthTokenProvider>>,
    context: KlagContext,
    asked_with: Option<&str>,
    result: Result<OAuthToken, String>,
)
    requires
        call_ensures(KlagContext::new, (given,), context),
        call_ensures(KlagContext::generate_oauth_token, (&context, asked_with), result),
    ensures
        given matches Some(provider) ==> provider.may_issue(result),
        given is None ==> (result matches Err(e) && e@ == NO_TOKEN_PROVIDER@),
{
}

} // verus!
