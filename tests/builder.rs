use chatgpt_basic_api::openai::{default_headers, BuilderError, OpenAIBuilder};

#[test]
fn test_new() {
    let builder = OpenAIBuilder::new();

    assert!(builder.token.is_none());
    assert!(builder.org.is_none());
}

#[test]
fn test_token_set() {
    let mut builder = OpenAIBuilder::new();

    builder.token("token");

    assert!(builder.token.is_some());
    assert!(builder.org.is_none());
}

#[test]
fn test_org_set() {
    let mut builder = OpenAIBuilder::new();

    builder.organization("org");

    assert!(builder.token.is_none());
    assert!(builder.org.is_some());
}

#[test]
fn test_build_no_token() {
    let mut builder = OpenAIBuilder::new();

    assert!(matches!(builder.build(), Err(BuilderError::NoToken)));
}

#[test]
fn test_build_token_invaild() {
    let mut builder = OpenAIBuilder::new();

    builder.token("\x1b[0b");

    assert!(matches!(builder.build(), Err(BuilderError::AuthHeader(_))));
}

#[test]
fn test_build_token_vaild() {
    let mut builder = OpenAIBuilder::new();

    builder.token("hello");

    assert!(builder.build().is_ok());
}

#[test]
fn test_build_org_invaild() {
    let mut builder = OpenAIBuilder::new();

    builder.token("hello");
    builder.organization("\x1b[0b");

    assert!(matches!(builder.build(), Err(BuilderError::OrgHeader(_))));
}

#[test]
fn test_build_token_org_vaild() {
    let mut builder = OpenAIBuilder::new();

    builder.token("hello");
    builder.organization("org");

    assert!(builder.build().is_ok());
}

#[test]
fn build_takes_token_and_org_out() {
    let mut builder = OpenAIBuilder::new();
    builder.token("hello");
    builder.organization("org");
    assert!(builder.build().is_ok());
    assert!(builder.token.is_none());
    assert!(builder.org.is_none());
}

#[test]
fn missing_token_keeps_org() {
    let mut builder = OpenAIBuilder::new();
    builder.organization("org");
    assert!(matches!(builder.build(), Err(BuilderError::NoToken)));
    assert_eq!(builder.org, Some("org"));
}

#[test]
fn headers_with_token_only() {
    let map = default_headers("hello", None).unwrap();
    assert_eq!(map.len(), 1);
    assert_eq!(map.get("authorization").unwrap().to_str().unwrap(), "Bearer hello");
    assert!(map.get("openai-organization").is_none());
}

#[test]
fn headers_with_token_and_org() {
    let map = default_headers("hello", Some("org")).unwrap();
    assert_eq!(map.len(), 2);
    assert_eq!(map.get("authorization").unwrap().to_str().unwrap(), "Bearer hello");
    assert_eq!(map.get("openai-organization").unwrap().to_str().unwrap(), "org");
}

#[test]
fn headers_accept_tab_and_refuse_delete() {
    assert!(default_headers("a\tb", None).is_ok());
    assert!(matches!(default_headers("a\x7fb", None), Err(BuilderError::AuthHeader(_))));
    assert!(matches!(default_headers("ok", Some("a\nb")), Err(BuilderError::OrgHeader(_))));
    assert!(matches!(default_headers("a\nb", Some("a\nb")), Err(BuilderError::AuthHeader(_))));
}

#[test]
fn refused_token_keeps_org() {
    let mut builder = OpenAIBuilder::new();
    builder.token("\x1b[0b");
    builder.organization("org");
    assert!(matches!(builder.build(), Err(BuilderError::AuthHeader(_))));
    assert!(builder.token.is_none());
    assert_eq!(builder.org, Some("org"));
}

#[test]
fn refused_org_is_taken_out() {
    let mut builder = OpenAIBuilder::new();
    builder.token("hello");
    builder.organization("\x1b[0b");
    assert!(matches!(builder.build(), Err(BuilderError::OrgHeader(_))));
    assert!(builder.token.is_none());
    assert!(builder.org.is_none());
}
