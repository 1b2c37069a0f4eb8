use asimov_readwise_module::api::error::ReadwiseError;
use asimov_readwise_module::api::error::RequestKind;
use asimov_readwise_module::api::types::PaginatedResponse;
use asimov_readwise_module::api::types::ReadwiseConfig;
use asimov_readwise_module::json::Json;
use asimov_readwise_module::json::JsonError;

#[test]
fn full_config_has_the_documented_defaults() {
    let config = ReadwiseConfig::default();
    assert_eq!(config.base_url, "https://readwise.io/api/v2");
    assert_eq!(config.access_token, "");
    assert_eq!(config.timeout, 30);
    assert_eq!(config.rate_limit, 20);
    let config = ReadwiseConfig::new("abc".to_string());
    assert_eq!(config.access_token, "abc");
    assert_eq!(config.base_url, "https://readwise.io/api/v2");
    assert_eq!(config.timeout, 30);
    assert_eq!(config.rate_limit, 20);
}

#[test]
fn full_config_builders_change_one_field() {
    let config = ReadwiseConfig::new("abc".to_string())
        .with_base_url("http://localhost".to_string())
        .with_timeout(5);
    assert_eq!(config.base_url, "http://localhost");
    assert_eq!(config.access_token, "abc");
    assert_eq!(config.timeout, 5);
    assert_eq!(config.rate_limit, 20);
    assert_eq!(config.endpoint_url("/highlights/"), "http://localhost/highlights/");
}

#[test]
fn paginated_response_holds_what_it_is_given() {
    let page: PaginatedResponse<u8> = PaginatedResponse {
        count: Some(3),
        next: None,
        previous: Some("p".to_string()),
        results: Some(vec![1, 2, 3]),
    };
    let copy = page.clone();
    assert_eq!(copy.count, Some(3));
    assert_eq!(copy.results, Some(vec![1, 2, 3]));
}

#[test]
fn answers_with_status_429_are_rate_limits() {
    let error = ReadwiseError::classify(RequestKind::Page, Some(429), "http status: 429");
    assert!(error.is_rate_limited());
    assert!(matches!(error, ReadwiseError::RateLimited(RequestKind::Page)));
    assert_eq!(
        error.message(),
        "Rate limit exceeded (429). Please wait a minute before trying again. Consider using smaller page sizes to avoid hitting limits."
    );
    let error = ReadwiseError::classify(RequestKind::HighlightsForTags, Some(429), "");
    assert!(matches!(error, ReadwiseError::RateLimited(RequestKind::HighlightsForTags)));
    assert_eq!(
        error.message(),
        "Rate limit exceeded while fetching highlights (429). Please wait a minute before trying again."
    );
    let error = ReadwiseError::classify(RequestKind::TagsOfHighlight, Some(429), "anything");
    assert!(matches!(error, ReadwiseError::RateLimited(RequestKind::TagsOfHighlight)));
    assert_eq!(
        error.message(),
        "Rate limit exceeded while fetching tags (429). Please wait a minute before trying again."
    );
}

#[test]
fn other_failures_keep_their_text() {
    let error = ReadwiseError::classify(RequestKind::Page, Some(500), "http status: 500");
    assert!(!error.is_rate_limited());
    assert!(matches!(&error, ReadwiseError::Transport(text) if text == "http status: 500"));
    assert_eq!(error.message(), "http status: 500");
    let error = ReadwiseError::classify(RequestKind::Page, None, "");
    assert!(!error.is_rate_limited());
    assert_eq!(error.message(), "");
}

#[test]
fn a_failure_whose_text_holds_429_is_no_rate_limit_by_that() {
    let text = "response header is too big: 429 > 100";
    let error = ReadwiseError::classify(RequestKind::Page, None, text);
    assert!(!error.is_rate_limited());
    assert_eq!(error.message(), text);
    let error = ReadwiseError::classify(RequestKind::Page, Some(428), "429");
    assert!(!error.is_rate_limited());
    assert_eq!(error.message(), "429");
    let error = ReadwiseError::classify(RequestKind::TagsOfHighlight, Some(200), "x429x");
    assert!(matches!(&error, ReadwiseError::Transport(text) if text == "x429x"));
    let error = ReadwiseError::classify(RequestKind::Page, Some(4290), "http status: 4290");
    assert!(!error.is_rate_limited());
}

#[test]
fn malformed_bodies_have_their_own_failure() {
    let error = match Json::parse("{") {
        Err(JsonError::Unreadable(cause)) => ReadwiseError::Malformed(cause),
        _ => panic!("the text is no JSON"),
    };
    assert!(!error.is_rate_limited());
    assert_eq!(error.message(), "The service answered with a body that is not valid JSON.");
}
