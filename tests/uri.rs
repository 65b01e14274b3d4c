use chatgpt_basic_api::cache::UriCache;
use chatgpt_basic_api::openai::{model_url, models_url, openai_uri};

#[test]
fn test_v1_uri_valid() {
    let testtable = [
        ("v1", "engines", "https://api.openai.com/v1/engines"),
        (
            "v1",
            "engines/davinci",
            "https://api.openai.com/v1/engines/davinci",
        ),
        (
            "v1",
            "engines/davinci/completions",
            "https://api.openai.com/v1/engines/davinci/completions",
        ),
    ];

    for (version, endpoint, expected) in testtable.into_iter() {
        assert_eq!(openai_uri(version, endpoint).unwrap().to_string(), expected);
    }
}

#[test]
fn uri_resolves_dot_segments() {
    assert_eq!(
        openai_uri("v1", "engines/../models").unwrap().as_str(),
        "https://api.openai.com/v1/models"
    );
}

#[test]
fn models_url_text() {
    assert_eq!(models_url().unwrap().as_str(), "https://api.openai.com/v1/models");
}

#[test]
fn model_url_keeps_colon_in_segment() {
    assert_eq!(
        model_url("text-babbage:001").unwrap().as_str(),
        "https://api.openai.com/v1/models/text-babbage:001"
    );
}

#[test]
fn model_url_encodes_slash_and_space() {
    assert_eq!(
        model_url("a/b c").unwrap().as_str(),
        "https://api.openai.com/v1/models/a%2Fb%20c"
    );
}

#[test]
fn cache_second_call_is_a_hit() {
    let mut cache = UriCache::new();
    let first = cache.uri("v1", "engines").unwrap();
    assert_eq!(cache.hits(), 0);
    let second = cache.uri("v1", "engines").unwrap();
    assert_eq!(cache.hits(), 1);
    assert_eq!(first, second);
    assert_eq!(second.as_str(), "https://api.openai.com/v1/engines");
}

#[test]
fn cache_keys_by_exact_pair() {
    let mut cache = UriCache::new();
    let a = cache.uri("v1", "engines").unwrap();
    let b = cache.uri("v1", "models").unwrap();
    assert_eq!(cache.hits(), 0);
    assert_ne!(a, b);
    assert_eq!(b.as_str(), "https://api.openai.com/v1/models");
}

#[test]
fn cache_model_uri_uses_the_memo() {
    let mut cache = UriCache::new();
    let a = cache.model_uri("text-babbage:001").unwrap();
    assert_eq!(a.as_str(), "https://api.openai.com/v1/models/text-babbage:001");
    assert_eq!(cache.hits(), 0);
    let b = cache.model_uri("davinci").unwrap();
    assert_eq!(b.as_str(), "https://api.openai.com/v1/models/davinci");
    assert_eq!(cache.hits(), 1);
    let c = cache.uri("v1", "models").unwrap();
    assert_eq!(c.as_str(), "https://api.openai.com/v1/models");
    assert_eq!(cache.hits(), 2);
}

#[test]
fn uri_keeps_colon_and_at_after_first_segment() {
    assert_eq!(
        openai_uri("v1", "models/text-babbage:001@x").unwrap().as_str(),
        "https://api.openai.com/v1/models/text-babbage:001@x"
    );
}
