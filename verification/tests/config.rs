use nvisy_sdk::Error;
use nvisy_sdk::NvisyConfig;
use nvisy_sdk::NvisyConfigBuilder;
use nvisy_sdk::NvisyConfigBuilderError;
use nvisy_sdk::Result;
use nvisy_sdk::Timeout;
use nvisy_sdk::DEFAULT_BASE_URL;
use nvisy_sdk::DEFAULT_TIMEOUT_SECS;

fn refusal(builder: NvisyConfigBuilder) -> String {
    match builder.build() {
        Err(NvisyConfigBuilderError::ValidationError(reason)) => reason,
        Err(NvisyConfigBuilderError::UninitializedField(name)) => {
            panic!("missing {}", name)
        }
        Ok(_) => panic!("the settings were accepted"),
    }
}

#[test]
fn test_config_builder() -> Result<()> {
    let config = NvisyConfig::builder().with_api_key("test_key").build()?;

    assert_eq!(config.api_key(), "test_key");
    assert_eq!(config.base_url(), DEFAULT_BASE_URL);
    assert_eq!(config.timeout(), Timeout::from_secs(DEFAULT_TIMEOUT_SECS));

    Ok(())
}

#[test]
fn test_config_builder_with_custom_values() -> Result<()> {
    let config = NvisyConfig::builder()
        .with_api_key("test_key")
        .with_base_url("https://custom.api.com")
        .with_timeout(Timeout::from_secs(60))
        .build()?;

    assert_eq!(config.api_key(), "test_key");
    assert_eq!(config.base_url(), "https://custom.api.com");
    assert_eq!(config.timeout(), Timeout::from_secs(60));

    Ok(())
}

#[test]
fn test_config_builder_timeout_secs() -> Result<()> {
    let config = NvisyConfig::builder()
        .with_api_key("test_key")
        .with_timeout_secs(45)
        .build()?;

    assert_eq!(config.timeout(), Timeout::from_secs(45));

    Ok(())
}

#[test]
fn test_config_validation_empty_api_key() {
    let result = NvisyConfig::builder().with_api_key("").build();
    assert!(result.is_err());
}

#[test]
fn test_config_validation_invalid_base_url() {
    let result = NvisyConfig::builder()
        .with_api_key("test_key")
        .with_base_url("not-a-url")
        .build();
    assert!(result.is_err());
}

#[test]
fn test_config_validation_zero_timeout() {
    let result = NvisyConfig::builder()
        .with_api_key("test_key")
        .with_timeout(Timeout::from_secs(0))
        .build();
    assert!(result.is_err());
}

#[test]
fn test_config_validation_excessive_timeout() {
    let result = NvisyConfig::builder()
        .with_api_key("test_key")
        .with_timeout(Timeout::from_secs(400))
        .build();
    assert!(result.is_err());
}

#[test]
fn test_masked_api_key() -> Result<()> {
    let config = NvisyConfig::builder()
        .with_api_key("test_key_12345")
        .build()?;

    assert_eq!(config.masked_api_key(), "test****");

    Ok(())
}

#[test]
fn test_masked_api_key_short() -> Result<()> {
    let config = NvisyConfig::builder().with_api_key("abc").build()?;

    assert_eq!(config.masked_api_key(), "****");

    Ok(())
}

#[test]
fn test_debug_masks_api_key() -> Result<()> {
    let config = NvisyConfig::builder()
        .with_api_key("secret_api_key_12345")
        .build()?;

    let debug_output = config.debug_text();
    assert!(debug_output.contains("secr****"));
    assert!(!debug_output.contains("secret_api_key_12345"));

    Ok(())
}

#[test]
fn defaults_are_documented_values() {
    assert_eq!(DEFAULT_BASE_URL, "https://api.nvisy.com");
    assert_eq!(DEFAULT_TIMEOUT_SECS, 30);
    assert_eq!(NvisyConfigBuilder::default_base_url(), "https://api.nvisy.com");
    assert_eq!(NvisyConfigBuilder::default_timeout(), Timeout::from_secs(30));
}

#[test]
fn validation_names_the_broken_rule() {
    assert_eq!(
        refusal(NvisyConfig::builder().with_api_key("")),
        "API key cannot be empty"
    );
    assert_eq!(
        refusal(NvisyConfig::builder().with_api_key(" \t\n")),
        "API key cannot be empty"
    );
    assert_eq!(
        refusal(NvisyConfig::builder().with_api_key("\u{3000}\u{a0}")),
        "API key cannot be empty"
    );
    assert_eq!(
        refusal(NvisyConfig::builder().with_api_key("k").with_base_url("ftp://example.com")),
        "Base URL must start with http:// or https://"
    );
    assert_eq!(
        refusal(NvisyConfig::builder().with_api_key("k").with_base_url("")),
        "Base URL must start with http:// or https://"
    );
    assert_eq!(
        refusal(NvisyConfig::builder().with_api_key("k").with_timeout_secs(0)),
        "Timeout must be greater than 0"
    );
    assert_eq!(
        refusal(NvisyConfig::builder().with_api_key("k").with_timeout_secs(301)),
        "Timeout cannot exceed 300 seconds (5 minutes)"
    );
    assert_eq!(
        refusal(
            NvisyConfig::builder()
                .with_api_key("k")
                .with_timeout(Timeout::new(300, 1).unwrap())
        ),
        "Timeout cannot exceed 300 seconds (5 minutes)"
    );
}

#[test]
fn validation_reports_the_first_broken_rule() {
    assert_eq!(
        refusal(
            NvisyConfig::builder()
                .with_api_key(" ")
                .with_base_url("nope")
                .with_timeout_secs(0)
        ),
        "API key cannot be empty"
    );
    assert_eq!(
        refusal(NvisyConfig::builder().with_base_url("nope").with_timeout_secs(0)),
        "Base URL must start with http:// or https://"
    );
}

#[test]
fn validate_config_checks_only_what_was_given() {
    assert_eq!(NvisyConfig::builder().validate_config(), Ok(()));
    assert_eq!(
        NvisyConfig::builder().with_timeout_secs(300).validate_config(),
        Ok(())
    );
    assert_eq!(
        NvisyConfig::builder().with_timeout_secs(0).validate_config(),
        Err("Timeout must be greater than 0".to_string())
    );
}

#[test]
fn missing_api_key_is_an_uninitialized_field() {
    match NvisyConfig::builder().with_timeout_secs(10).build() {
        Err(NvisyConfigBuilderError::UninitializedField(name)) => assert_eq!(name, "api_key"),
        _ => panic!("a configuration without a credential was built"),
    }
    let error = NvisyConfigBuilderError::UninitializedField("api_key");
    assert_eq!(error.message(), "`api_key` must be initialized");
}

#[test]
fn boundary_values_are_accepted() -> Result<()> {
    let config = NvisyConfig::builder()
        .with_api_key(" k ")
        .with_base_url("http://localhost:8080")
        .with_timeout_secs(300)
        .build()?;
    assert_eq!(config.api_key(), " k ");
    assert_eq!(config.base_url(), "http://localhost:8080");
    assert_eq!(config.timeout().as_secs(), 300);
    assert_eq!(config.timeout().subsec_nanos(), 0);

    let config = NvisyConfig::builder()
        .with_api_key("k")
        .with_timeout(Timeout::from_millis(1))
        .build()?;
    assert_eq!(config.timeout(), Timeout::new(0, 1_000_000).unwrap());
    Ok(())
}

#[test]
fn masking_counts_characters() -> Result<()> {
    let masked = |key: &str| -> Result<String> {
        Ok(NvisyConfig::builder().with_api_key(key).build()?.masked_api_key())
    };
    assert_eq!(masked("abcd")?, "****");
    assert_eq!(masked("abcde")?, "abcd****");
    assert_eq!(masked("a")?, "****");
    assert_eq!(masked("\u{43a}\u{43b}\u{44e}\u{447}\u{438}")?, "\u{43a}\u{43b}\u{44e}\u{447}****");
    Ok(())
}

#[test]
fn debug_text_is_exact() -> Result<()> {
    let config = NvisyConfig::builder()
        .with_api_key("secret_api_key_12345")
        .build()?;
    assert_eq!(
        config.debug_text(),
        "NvisyConfig { api_key: \"secr****\", base_url: \"https://api.nvisy.com\", timeout: 30s }"
    );
    let config = NvisyConfig::builder()
        .with_api_key("ab\"c")
        .with_base_url("https://h/\\")
        .with_timeout(Timeout::from_millis(1500))
        .build()?;
    assert_eq!(
        config.debug_text(),
        "NvisyConfig { api_key: \"****\", base_url: \"https://h/\\\\\", timeout: 1.5s }"
    );
    Ok(())
}

#[test]
fn debug_text_is_the_same_for_keys_with_the_same_mask() -> Result<()> {
    let first = NvisyConfig::builder().with_api_key("secret-one").build()?;
    let second = NvisyConfig::builder().with_api_key("secret-two-and-more").build()?;
    assert_eq!(first.debug_text(), second.debug_text());
    Ok(())
}

#[test]
fn timeout_arithmetic() {
    let t = Timeout::new(1, 2_500_000_000).unwrap();
    assert_eq!(t.as_secs(), 3);
    assert_eq!(t.subsec_nanos(), 500_000_000);
    assert_eq!(Timeout::new(u64::MAX, 999_999_999).map(|t| t.as_secs()), Some(u64::MAX));
    assert_eq!(Timeout::new(u64::MAX, 1_000_000_000), None);
    assert_eq!(Timeout::from_millis(1500), Timeout::new(1, 500_000_000).unwrap());
    assert_eq!(Timeout::from_millis(u64::MAX).as_secs(), 18_446_744_073_709_551);
    assert_eq!(Timeout::from_millis(u64::MAX).subsec_nanos(), 615_000_000);
    assert!(Timeout::from_secs(0).is_zero());
    assert!(!Timeout::from_millis(1).is_zero());
    assert!(!Timeout::from_secs(300).exceeds_secs(300));
    assert!(Timeout::new(300, 1).unwrap().exceeds_secs(300));
    assert!(Timeout::from_secs(301).exceeds_secs(300));
    assert!(!Timeout::new(299, 999_999_999).unwrap().exceeds_secs(300));
}

#[test]
fn config_clone_keeps_every_setting() -> Result<()> {
    let config = NvisyConfig::builder()
        .with_api_key("key")
        .with_base_url("https://custom.api.com")
        .with_timeout_secs(7)
        .build()?;
    let copy = config.clone();
    assert_eq!(copy.api_key(), "key");
    assert_eq!(copy.base_url(), "https://custom.api.com");
    assert_eq!(copy.timeout(), Timeout::from_secs(7));
    assert!(copy.client().is_none());
    Ok(())
}

#[test]
fn config_errors_convert() {
    let error: Error = NvisyConfigBuilderError::ValidationError("nope".to_string()).into();
    assert_eq!(error.message(), "Configuration error: nope");
    assert!(matches!(error, Error::Config(NvisyConfigBuilderError::ValidationError(_))));
}
