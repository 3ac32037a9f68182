use nvisy_sdk::Body;
use nvisy_sdk::Error;
use nvisy_sdk::FilePart;
use nvisy_sdk::HttpError;
use nvisy_sdk::Method;
use nvisy_sdk::NoRecord;
use nvisy_sdk::NvisyClient;
use nvisy_sdk::NvisyConfig;
use nvisy_sdk::NvisyConfigBuilderError;
use nvisy_sdk::Request;
use nvisy_sdk::Response;
use nvisy_sdk::Result;
use nvisy_sdk::Timeout;
use nvisy_sdk::first_uploaded;

fn pair(name: &str, value: &str) -> (String, String) {
    (name.to_string(), value.to_string())
}

fn client_at(base_url: &str) -> Result<NvisyClient> {
    NvisyClient::builder()
        .with_api_key("test-key")
        .with_base_url(base_url)
        .build_client()
}

#[test]
fn test_client_creation() -> Result<()> {
    let client = NvisyClient::with_api_key("test-key")?;
    assert_eq!(client.config().api_key(), "test-key");
    assert_eq!(client.config().base_url(), "https://api.nvisy.com");
    Ok(())
}

#[test]
fn test_client_creation_with_custom_config() -> Result<()> {
    let config = NvisyConfig::builder()
        .with_api_key("custom_key")
        .with_base_url("https://custom.api.com")
        .with_timeout(Timeout::from_secs(60))
        .build()?;

    let client = NvisyClient::new(config)?;

    assert_eq!(client.config().api_key(), "custom_key");
    assert_eq!(client.config().base_url(), "https://custom.api.com");
    assert_eq!(client.config().timeout(), Timeout::from_secs(60));

    Ok(())
}

#[test]
fn test_client_clone() -> Result<()> {
    let client = NvisyClient::with_api_key("test-key")?;
    let cloned = client.clone();

    assert_eq!(client.config().api_key(), cloned.config().api_key());
    assert_eq!(client.config().base_url(), cloned.config().base_url());

    Ok(())
}

#[test]
fn test_builder_convenience_method() -> Result<()> {
    let client = NvisyClient::builder()
        .with_api_key("test_key")
        .build_client()?;

    assert_eq!(client.config().api_key(), "test_key");

    Ok(())
}

#[test]
fn test_debug_impl_masks_api_key() -> Result<()> {
    let client = NvisyClient::with_api_key("secret_api_key_12345")?;
    let debug_output = client.debug_text();

    assert!(debug_output.contains("secr****"));
    assert!(!debug_output.contains("secret_api_key_12345"));

    Ok(())
}

fn shared_between_threads<T: Send + Sync + Clone>(_: &T) {}

#[test]
fn client_can_be_shared_between_threads() -> Result<()> {
    let client = NvisyClient::with_api_key("test-key")?;
    shared_between_threads(&client);
    Ok(())
}

#[test]
fn client_defaults() -> Result<()> {
    let client = NvisyClient::with_api_key("only-a-key")?;
    assert_eq!(client.config().base_url(), "https://api.nvisy.com");
    assert_eq!(client.config().timeout(), Timeout::from_secs(30));
    assert!(client.config().client().is_none());
    assert_eq!(
        client.debug_text(),
        "NvisyClient { api_key: \"only****\", base_url: \"https://api.nvisy.com\", timeout: 30s }"
    );
    Ok(())
}

#[test]
fn client_refuses_a_blank_key() {
    match NvisyClient::with_api_key("  ") {
        Err(Error::Config(NvisyConfigBuilderError::ValidationError(reason))) => {
            assert_eq!(reason, "API key cannot be empty")
        }
        _ => panic!("a blank credential was accepted"),
    }
    assert!(matches!(
        NvisyClient::builder().build_client(),
        Err(Error::Config(NvisyConfigBuilderError::UninitializedField("api_key")))
    ));
}

#[test]
fn client_adopts_a_given_transport() -> Result<()> {
    let transport = NvisyClient::with_api_key("first")?.http().clone();
    let config = NvisyConfig::builder()
        .with_api_key("second")
        .with_client(transport)
        .build()?;
    assert!(config.client().is_some());
    let client = config.build_client()?;
    assert!(client.config().client().is_some());
    assert_eq!(client.config().api_key(), "second");
    Ok(())
}

#[test]
fn clone_of_a_client_shows_the_same_settings() -> Result<()> {
    let client = NvisyClient::builder()
        .with_api_key("key-of-the-clone")
        .with_base_url("https://custom.api.com")
        .with_timeout_secs(12)
        .build_client()?;
    let cloned = client.clone();
    assert_eq!(cloned.config().api_key(), "key-of-the-clone");
    assert_eq!(cloned.config().base_url(), "https://custom.api.com");
    assert_eq!(cloned.config().timeout(), Timeout::from_secs(12));
    assert_eq!(cloned.debug_text(), client.debug_text());
    Ok(())
}

#[test]
fn parse_url_joins_endpoint_and_path() -> Result<()> {
    let client = client_at("https://api.nvisy.com")?;
    assert_eq!(client.parse_url("/workspaces/")?, "https://api.nvisy.com/workspaces/");
    assert_eq!(client.parse_url("/health/")?, "https://api.nvisy.com/health/");

    let client = client_at("https://custom.api.com/v1/")?;
    assert_eq!(client.parse_url("/files/x")?, "https://custom.api.com/v1/files/x");

    let client = client_at("https://custom.api.com/v1///")?;
    assert_eq!(client.parse_url("/files/x")?, "https://custom.api.com/v1/files/x");

    let client = client_at("http://localhost:8080/api?old=1")?;
    assert_eq!(client.parse_url("/a b")?, "http://localhost:8080/api/a%20b?old=1");
    Ok(())
}

#[test]
fn parse_url_reports_an_endpoint_that_is_no_url() -> Result<()> {
    let client = client_at("https://")?;
    assert!(matches!(client.parse_url("/workspaces/"), Err(Error::UrlParse(_))));
    let client = client_at("http://[broken")?;
    match client.parse_url("/workspaces/") {
        Err(error) => assert!(error.message().starts_with("URL parse error: ")),
        Ok(address) => panic!("parsed to {}", address),
    }
    Ok(())
}

#[test]
fn build_url_appends_the_query() -> Result<()> {
    let client = client_at("https://api.nvisy.com")?;
    assert_eq!(
        client.build_url("/workspaces/", &vec![])?,
        "https://api.nvisy.com/workspaces/"
    );
    assert_eq!(
        client.build_url("/workspaces/", &vec![pair("after", "abc"), pair("limit", "10")])?,
        "https://api.nvisy.com/workspaces/?after=abc&limit=10"
    );
    assert_eq!(
        client.build_url("/workspaces/", &vec![pair("search", "a b&c=d")])?,
        "https://api.nvisy.com/workspaces/?search=a+b%26c%3Dd"
    );
    Ok(())
}

#[test]
fn a_path_beyond_the_parser_is_refused() -> Result<()> {
    let client = client_at("https://api.nvisy.com")?;
    let path = "a".repeat(0x1000_0001);
    match client.parse_url(&path) {
        Err(Error::UrlParse(cause)) => assert_eq!(cause, url::ParseError::Overflow),
        _ => panic!("a path of 256 MiB was accepted"),
    }
    Ok(())
}

#[test]
fn request_carries_credential_and_timeout() -> Result<()> {
    let client = NvisyClient::builder()
        .with_api_key("test-key")
        .with_timeout_secs(9)
        .build_client()?;
    let request: Request<NoRecord> = client.request(
        Method::Get,
        "https://api.nvisy.com/x".to_string(),
        vec![pair("a", "b")],
        Body::Empty,
    );
    assert_eq!(request.method, Method::Get);
    assert_eq!(request.url, "https://api.nvisy.com/x");
    assert_eq!(request.query, vec![pair("a", "b")]);
    assert_eq!(request.headers, vec![pair("Authorization", "Bearer test-key")]);
    assert_eq!(request.timeout, Timeout::from_secs(9));
    assert!(matches!(request.body, Body::Empty));

    let request = client.request(
        Method::Post,
        "https://api.nvisy.com/x".to_string(),
        vec![],
        Body::Json(7u8),
    );
    assert_eq!(
        request.headers,
        vec![
            pair("Authorization", "Bearer test-key"),
            pair("Content-Type", "application/json")
        ]
    );
    let request: Request<NoRecord> = client.request(
        Method::Put,
        "https://api.nvisy.com/x".to_string(),
        vec![],
        Body::Multipart(FilePart::upload("a.bin", vec![1, 2, 3])),
    );
    assert_eq!(request.headers, vec![pair("Authorization", "Bearer test-key")]);
    match request.body {
        Body::Multipart(part) => {
            assert_eq!(part.field, "file");
            assert_eq!(part.file_name, "a.bin");
            assert_eq!(part.data, vec![1, 2, 3]);
        }
        _ => panic!("no form"),
    }
    Ok(())
}

#[test]
fn method_names() {
    assert_eq!(Method::Get.as_str(), "GET");
    assert_eq!(Method::Post.as_str(), "POST");
    assert_eq!(Method::Put.as_str(), "PUT");
    assert_eq!(Method::Patch.as_str(), "PATCH");
    assert_eq!(Method::Delete.as_str(), "DELETE");
}

#[test]
fn success_is_the_range_from_200_to_299() {
    for status in [200u16, 201, 204, 299] {
        let response = Response { status, body: vec![1] };
        match response.error_for_status() {
            Ok(passed) => {
                assert_eq!(passed.status, status);
                assert_eq!(passed.body, vec![1]);
            }
            Err(_) => panic!("{} was taken for a failure", status),
        }
    }
    for status in [0u16, 100, 199, 300, 304, 400, 404, 500, 599, 600, u16::MAX] {
        let response = Response { status, body: b"why".to_vec() };
        match response.error_for_status() {
            Err(Error::Http(HttpError::Status { status: reported, body })) => {
                assert_eq!(reported, status);
                assert_eq!(body, b"why".to_vec());
            }
            _ => panic!("{} was not reported as a failure", status),
        }
    }
}

#[test]
fn bodies_are_read_after_the_status() {
    assert_eq!(Response { status: 200, body: vec![1, 2] }.bytes().ok(), Some(vec![1, 2]));
    assert_eq!(Response { status: 204, body: vec![] }.confirm().ok(), Some(()));
    match (Response { status: 500, body: vec![3] }).bytes() {
        Err(Error::Http(HttpError::Status { status, body })) => {
            assert_eq!(status, 500);
            assert_eq!(body, vec![3]);
        }
        _ => panic!("the body of a failure was read"),
    }
    match (Response { status: 404, body: vec![4] }).confirm() {
        Err(Error::Http(HttpError::Status { status, body })) => {
            assert_eq!(status, 404);
            assert_eq!(body, vec![4]);
        }
        _ => panic!("a failure was confirmed"),
    }
}

#[test]
fn empty_upload_answer_is_an_api_error() {
    let stored: Vec<u32> = Vec::new();
    match first_uploaded(stored) {
        Err(Error::Api(reason)) => assert_eq!(reason, "upload returned no files"),
        _ => panic!("an empty answer gave a record"),
    }
    assert_eq!(first_uploaded(vec![4u32]).ok(), Some(4));
    assert_eq!(first_uploaded(vec![5u32, 6, 7]).ok(), Some(5));
}

#[test]
fn error_messages() {
    assert_eq!(Error::Api("upload returned no files".to_string()).message(), "API error: upload returned no files");
    assert_eq!(Error::Serialization("eof".to_string()).message(), "Serialization error: eof");
    assert_eq!(
        Error::Http(HttpError::Transport("timed out".to_string())).message(),
        "HTTP error: timed out"
    );
    assert_eq!(
        Error::Http(HttpError::Status { status: 404, body: vec![] }).message(),
        "HTTP error: status 404"
    );
    assert_eq!(
        Error::from(url::ParseError::EmptyHost).message(),
        "URL parse error: empty host"
    );
    let io = std::io::Error::new(std::io::ErrorKind::NotFound, "no such file");
    assert_eq!(Error::from(io).message(), "I/O error: no such file");
    let error: Error = HttpError::Status { status: 500, body: vec![] }.into();
    assert!(matches!(error, Error::Http(HttpError::Status { status: 500, .. })));
}
