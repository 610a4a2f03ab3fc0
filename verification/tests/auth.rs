use klag_exporter::config::{AwsMskIamConfig, ClusterConfig, StringMap};
use klag_exporter::error::KlagError;
use klag_exporter::kafka::auth::{
    apply_msk_iam_sasl, build_token_provider, KlagContext, MskIamSupport, MskIamTokenProvider,
    OAuthToken, OAuthTokenProvider, SigningOutcome, MSK_IAM_DISABLED_MSG, NO_TOKEN_PROVIDER,
    REGION_REQUIRED,
};
use rdkafka::config::ClientConfig;
use std::sync::Arc;

fn cluster(aws_msk_iam: Option<AwsMskIamConfig>) -> ClusterConfig {
    ClusterConfig {
        name: "prod".to_string(),
        bootstrap_servers: "b-1:9098".to_string(),
        consumer_properties: StringMap::new(),
        labels: StringMap::new(),
        aws_msk_iam,
    }
}

fn built_in(aws_region: Option<&str>, aws_default_region: Option<&str>) -> MskIamSupport {
    MskIamSupport::BuiltIn {
        aws_region: aws_region.map(|r| r.to_string()),
        aws_default_region: aws_default_region.map(|r| r.to_string()),
    }
}

#[test]
fn msk_iam_provider_uses_explicit_region() {
    assert!(MskIamTokenProvider::new(Some("us-east-1".to_string()), None, None).is_ok());
}

#[test]
fn msk_iam_provider_falls_back_to_aws_region() {
    // What the environment says of AWS_REGION.
    let aws_region = Some("eu-west-1".to_string());
    assert!(MskIamTokenProvider::new(None, aws_region, None).is_ok());
}

#[test]
fn msk_iam_provider_falls_back_to_aws_default_region() {
    // AWS_REGION is not set; what the environment says of AWS_DEFAULT_REGION.
    let aws_default_region = Some("ap-southeast-2".to_string());
    assert!(MskIamTokenProvider::new(None, None, aws_default_region).is_ok());
}

#[test]
fn msk_iam_provider_errors_when_no_region_available() {
    // Neither AWS_REGION nor AWS_DEFAULT_REGION is set.
    match MskIamTokenProvider::new(None, None, None) {
        Err(e) => assert!(e.contains("MSK IAM auth requires an AWS region")),
        Ok(_) => panic!("missing region should fail"),
    }
}

#[test]
fn the_configured_region_wins_over_the_environment() {
    let some = |r: &str| Some(r.to_string());
    let all = MskIamTokenProvider::new(some("us-east-1"), some("eu-west-1"), some("ap-south-1"));
    assert_eq!(all.unwrap().region(), "us-east-1");
    let env = MskIamTokenProvider::new(None, some("eu-west-1"), some("ap-south-1"));
    assert_eq!(env.unwrap().region(), "eu-west-1");
    let default = MskIamTokenProvider::new(None, None, some("ap-south-1"));
    assert_eq!(default.unwrap().region(), "ap-south-1");
}

#[test]
fn an_empty_region_is_a_region() {
    let provider = MskIamTokenProvider::new(Some(String::new()), Some("eu-west-1".to_string()), None);
    assert_eq!(provider.unwrap().region(), "");
}

#[test]
fn the_message_about_a_missing_region_is_whole() {
    assert_eq!(
        REGION_REQUIRED,
        "MSK IAM auth requires an AWS region; set [clusters.aws_msk_iam] \
         region = \"...\", or export AWS_REGION / AWS_DEFAULT_REGION"
    );
}

#[test]
fn a_signing_request_names_the_region_and_waits_ten_seconds() {
    let provider = MskIamTokenProvider::new(Some("us-east-1".to_string()), None, None).unwrap();
    let request = provider.signing_request();
    assert_eq!(request.region.as_ref(), "us-east-1");
    assert_eq!(request.timeout.as_secs(), 10);
    assert_eq!(request.timeout.subsec_nanos(), 0);
}

#[test]
fn a_signed_token_has_no_principal() {
    let provider = MskIamTokenProvider::new(Some("us-east-1".to_string()), None, None).unwrap();
    let signed = SigningOutcome::Signed { token: "t0k3n".to_string(), expiry_ms: 1_700_000_900_000 };
    let token = provider.generate(signed).unwrap();
    assert_eq!(token.token, "t0k3n");
    assert_eq!(token.principal_name, "");
    assert_eq!(token.lifetime_ms, 1_700_000_900_000);
}

#[test]
fn a_failed_signing_says_why() {
    let provider = MskIamTokenProvider::new(Some("us-east-1".to_string()), None, None).unwrap();
    let e = provider.generate(SigningOutcome::Panicked).err().unwrap();
    assert_eq!(e, "MSK IAM OAuth token thread panicked");
    let e = provider.generate(SigningOutcome::TimedOut).err().unwrap();
    assert_eq!(e, "MSK IAM OAuth token request timed out after 10s");
    let e = provider.generate(SigningOutcome::Failed("no credentials".to_string())).err().unwrap();
    assert_eq!(e, "MSK IAM signer error: no credentials");
}

#[test]
fn without_iam_no_provider_is_built() {
    assert!(build_token_provider(&cluster(None), built_in(None, None)).unwrap().is_none());
    assert!(build_token_provider(&cluster(None), MskIamSupport::NotBuilt).unwrap().is_none());
}

#[test]
fn with_iam_a_provider_is_built_for_the_region() {
    let config = cluster(Some(AwsMskIamConfig { region: Some("us-east-1".to_string()) }));
    let provider = build_token_provider(&config, built_in(Some("eu-west-1"), None)).unwrap();
    assert_eq!(provider.unwrap().region(), "us-east-1");
    let config = cluster(Some(AwsMskIamConfig { region: None }));
    let provider = build_token_provider(&config, built_in(None, Some("ap-south-1"))).unwrap();
    assert_eq!(provider.unwrap().region(), "ap-south-1");
}

#[test]
fn with_iam_and_no_region_building_fails() {
    let config = cluster(Some(AwsMskIamConfig { region: None }));
    match build_token_provider(&config, built_in(None, None)) {
        Err(KlagError::Config(e)) => assert_eq!(e, REGION_REQUIRED),
        _ => panic!("a region is required"),
    }
}

#[test]
fn iam_without_the_signer_is_refused() {
    let config = cluster(Some(AwsMskIamConfig { region: Some("us-east-1".to_string()) }));
    match build_token_provider(&config, MskIamSupport::NotBuilt) {
        Err(KlagError::Config(e)) => {
            assert_eq!(e, MSK_IAM_DISABLED_MSG);
            assert_eq!(
                e,
                "cluster has [clusters.aws_msk_iam] configured but this \
                 binary was built without the `msk-iam` feature; rebuild with default features \
                 enabled (cargo build --release) or pass --features msk-iam"
            );
        }
        _ => panic!("signing is not built in"),
    }
}

#[test]
fn iam_defaults_are_set_only_with_iam() {
    let mut settings = ClientConfig::new();
    apply_msk_iam_sasl(&cluster(None), &mut settings);
    assert_eq!(settings.get("security.protocol"), None);
    assert_eq!(settings.get("sasl.mechanism"), None);

    settings.set("sasl.mechanism", "PLAIN");
    settings.set("client.id", "kept");
    apply_msk_iam_sasl(&cluster(Some(AwsMskIamConfig { region: None })), &mut settings);
    assert_eq!(settings.get("security.protocol"), Some("SASL_SSL"));
    assert_eq!(settings.get("sasl.mechanism"), Some("OAUTHBEARER"));
    assert_eq!(settings.get("client.id"), Some("kept"));
    apply_msk_iam_sasl(&cluster(Some(AwsMskIamConfig { region: None })), &mut settings);
    assert_eq!(settings.get("sasl.mechanism"), Some("OAUTHBEARER"));
    assert_eq!(settings.config_map().len(), 3);
}

struct FixedProvider;

impl OAuthTokenProvider for FixedProvider {
    fn generate(&self) -> Result<OAuthToken, String> {
        Ok(OAuthToken {
            token: "fixed".to_string(),
            principal_name: "someone".to_string(),
            lifetime_ms: 42,
        })
    }
}

#[test]
fn a_context_passes_requests_on_to_its_provider() {
    let context = KlagContext::new(Some(Arc::new(FixedProvider)));
    let token = context.generate_oauth_token(Some("ignored")).unwrap();
    assert_eq!(token.token, "fixed");
    assert_eq!(token.principal_name, "someone");
    assert_eq!(token.lifetime_ms, 42);
}

#[test]
fn a_context_without_a_provider_answers_with_an_error() {
    let context = KlagContext::new(None);
    let e = context.generate_oauth_token(None).err().unwrap();
    assert_eq!(e, NO_TOKEN_PROVIDER);
    assert_eq!(
        e,
        "OAUTHBEARER callback invoked but no token provider is configured \
         for this cluster; add an [clusters.aws_msk_iam] block to the cluster config"
    );
}
