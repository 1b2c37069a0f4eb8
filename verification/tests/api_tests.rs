use asimov_readwise_module::api::readwise::ReadwiseClient;
use asimov_readwise_module::api::readwise::ReadwiseConfig;
use asimov_readwise_module::api::types::ReadwiseType;
use asimov_readwise_module::find_engine_for;
use asimov_readwise_module::providers::provider::resolve;
use asimov_readwise_module::providers::provider::resolve_index;
use asimov_readwise_module::providers::readwise::url_prefix_to_provider;
use asimov_readwise_module::Provider;

#[test]
fn test_find_provider_for_highlights() {
    let url = "https://readwise.io/highlights";
    let provider = find_engine_for(url);
    assert!(provider.is_some());
    assert_eq!(provider.unwrap().id, ReadwiseType::HIGHLIGHTS_ID);
}

#[test]
fn test_find_provider_for_books() {
    let url = "https://readwise.io/books";
    let provider = find_engine_for(url);
    assert!(provider.is_some());
    assert_eq!(provider.unwrap().id, ReadwiseType::BOOKLIST_ID);
}

#[test]
fn test_find_provider_for_tags() {
    let url = "https://readwise.io/tags";
    let provider = find_engine_for(url);
    assert!(provider.is_some());
    assert_eq!(provider.unwrap().id, ReadwiseType::TAGS_ID);
}

#[test]
fn test_find_provider_for_unsupported_url() {
    let url = "https://example.com/api/books";
    let provider = find_engine_for(url);
    assert!(provider.is_none());
}

#[test]
fn test_provider_url() {
    let url = "https://readwise.io/highlights";
    let provider = find_engine_for(url).unwrap();
    assert_eq!(provider.url, "https://readwise.io/highlights");
}

#[test]
fn test_supported_url_patterns() {
    let highlights_url = "https://readwise.io/highlights";
    let books_url = "https://readwise.io/books";
    let tags_url = "https://readwise.io/tags";

    assert!(highlights_url.contains("highlights"));
    assert!(books_url.contains("books"));
    assert!(tags_url.contains("tags"));
}

#[test]
fn test_readwise_type_variants() {
    let _highlights = ReadwiseType::HIGHLIGHTS_ID;
    let _books = ReadwiseType::BOOKLIST_ID;
    let _tags = ReadwiseType::TAGS_ID;
}

#[test]
fn test_readwise_type_as_str() {
    assert_eq!(ReadwiseType::Highlights.as_str(), "readwise-highlights");
    assert_eq!(ReadwiseType::Booklist.as_str(), "readwise-booklist");
    assert_eq!(ReadwiseType::Tags.as_str(), "readwise-tags");
}

#[test]
fn test_readwise_config_new() {
    let config = ReadwiseConfig::new("test_token".to_string());
    assert_eq!(config.access_token, "test_token");
    assert_eq!(config.base_url, "https://readwise.io/api/v2");
}

#[test]
fn find_engine_matches_longer_urls_by_prefix() {
    let provider = find_engine_for("https://readwise.io/highlights/?page=2").unwrap();
    assert_eq!(provider.id, "readwise-highlights");
    assert_eq!(provider.brand, "Readwise");
}

#[test]
fn find_engine_does_not_normalise() {
    assert!(find_engine_for("https://readwise.io/highlight").is_none());
    assert!(find_engine_for("HTTPS://READWISE.IO/HIGHLIGHTS").is_none());
    assert!(find_engine_for("http://readwise.io/books").is_none());
    assert!(find_engine_for("").is_none());
}

#[test]
fn type_from_id_is_inverse_of_as_str() {
    assert_eq!(ReadwiseType::from_id("readwise-highlights"), Some(ReadwiseType::Highlights));
    assert_eq!(ReadwiseType::from_id("readwise-booklist"), Some(ReadwiseType::Booklist));
    assert_eq!(ReadwiseType::from_id("readwise-tags"), Some(ReadwiseType::Tags));
    assert_eq!(ReadwiseType::from_id("readwise"), None);
    assert_eq!(ReadwiseType::Booklist.root_key(), "books");
}

fn entry(id: &'static str, url: &'static str) -> Provider {
    Provider { id, brand: "Test", url }
}

#[test]
fn resolve_prefers_the_longest_prefix_whatever_the_order() {
    let short_first = vec![entry("short", "https://x.io/a"), entry("long", "https://x.io/a/b")];
    let long_first = vec![entry("long", "https://x.io/a/b"), entry("short", "https://x.io/a")];
    assert_eq!(resolve(&short_first, "https://x.io/a/b/c").unwrap().id, "long");
    assert_eq!(resolve(&long_first, "https://x.io/a/b/c").unwrap().id, "long");
    assert_eq!(resolve(&short_first, "https://x.io/a/z").unwrap().id, "short");
    assert_eq!(resolve(&long_first, "https://x.io/a/z").unwrap().id, "short");
    assert!(resolve(&long_first, "https://x.io/").is_none());
}

#[test]
fn resolve_takes_the_later_of_two_equal_prefixes() {
    let table = vec![entry("first", "https://x.io/a"), entry("second", "https://x.io/a")];
    assert_eq!(resolve_index(&table, "https://x.io/a"), Some(1));
    assert_eq!(resolve_index(&Vec::new(), "https://x.io/a"), None);
}

#[test]
fn registry_declares_three_providers_in_order() {
    let table = url_prefix_to_provider();
    assert_eq!(table.len(), 3);
    assert_eq!(table[0].url, "https://readwise.io/highlights");
    assert_eq!(table[1].url, "https://readwise.io/books");
    assert_eq!(table[2].url, "https://readwise.io/tags");
}

#[test]
fn client_builds_urls_with_only_the_given_parameters() {
    let client = ReadwiseClient::new(ReadwiseConfig::new("secret".to_string())).unwrap();
    assert_eq!(
        client.build_url_with_params("/highlights/", None, None),
        "https://readwise.io/api/v2/highlights/"
    );
    assert_eq!(
        client.build_url_with_params("/highlights/", Some(100), None),
        "https://readwise.io/api/v2/highlights/?page_size=100"
    );
    assert_eq!(
        client.build_url_with_params("/books/", None, Some(7)),
        "https://readwise.io/api/v2/books/?page=7"
    );
    assert_eq!(
        client.build_url_with_params("/books/", Some(2), Some(10)),
        "https://readwise.io/api/v2/books/?page_size=2&page=10"
    );
    assert_eq!(
        client.build_url_with_params("/books/", Some(0), Some(0)),
        "https://readwise.io/api/v2/books/?page_size=0&page=0"
    );
}

#[test]
fn client_requests_carry_the_token() {
    let client = ReadwiseClient::new(ReadwiseConfig::new("secret".to_string())).unwrap();
    assert_eq!(client.auth_header(), "Token secret");
    assert_eq!(client.endpoint_url("/books/"), "https://readwise.io/api/v2/books/");
    let highlights = client.highlights_request(Some(2), Some(1));
    assert_eq!(highlights.url, "https://readwise.io/api/v2/highlights/?page_size=2&page=1");
    assert_eq!(highlights.authorization, "Token secret");
    let books = client.booklist_request(None, None);
    assert_eq!(books.url, "https://readwise.io/api/v2/books/");
    assert_eq!(books.authorization, "Token secret");
    let tags = client.highlight_tags_request(18446744073709551615);
    assert_eq!(tags.url, "https://readwise.io/api/v2/highlights/18446744073709551615/tags");
    assert_eq!(tags.authorization, "Token secret");
}

#[test]
fn config_endpoint_url_concatenates() {
    let mut config = ReadwiseConfig::new("t".to_string());
    config.base_url = "http://localhost:8080".to_string();
    assert_eq!(config.endpoint_url("/x"), "http://localhost:8080/x");
    assert_eq!(config.endpoint_url(""), "http://localhost:8080");
}
