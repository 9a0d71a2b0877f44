use lobsters_cli::client::{
    extract_csrf_token_from_html, index_path, login_outcome, redirects_to, story_path, Page,
};
use lobsters_cli::error::ClientError as Error;
use lobsters_cli::models::StoryId;
use lobsters_cli::util::parse_url;

#[test]
fn the_front_page_has_no_page_number() {
    assert!(Page::new(0).is_none());
    assert!(Page::new(1).is_none());
    assert_eq!(Page::new(2).unwrap().number(), 2);
    assert_eq!(Page::new(u32::MAX).unwrap().number(), u32::MAX);
}

#[test]
fn the_stories_of_a_page_are_under_its_number() {
    assert_eq!(index_path(None), "");
    assert_eq!(index_path(Page::new(1)), "");
    assert_eq!(index_path(Page::new(2)), "page/2");
    assert_eq!(index_path(Page::new(10)), "page/10");
    assert_eq!(index_path(Page::new(u32::MAX)), "page/4294967295");
}

#[test]
fn a_story_is_under_its_identifier() {
    assert_eq!(story_path(&StoryId("abc123".to_string())), "s/abc123");
    assert_eq!(story_path(&StoryId("".to_string())), "s/");
}

#[test]
fn a_login_succeeds_when_it_leads_to_the_success_page() {
    let target = parse_url("https://lobste.rs/lobsters-login-success").unwrap();
    assert!(redirects_to(Some("https://lobste.rs/lobsters-login-success"), &target));
    assert!(redirects_to(Some("HTTPS://LOBSTE.RS/lobsters-login-success"), &target));
    assert!(!redirects_to(Some("https://lobste.rs/login"), &target));
    assert!(!redirects_to(Some("/lobsters-login-success"), &target));
    assert!(!redirects_to(Some(""), &target));
    assert!(!redirects_to(None, &target));
}

#[test]
fn a_login_needs_a_redirect_to_the_success_page() {
    let target = parse_url("https://lobste.rs/lobsters-login-success").unwrap();
    let there = Some("https://lobste.rs/lobsters-login-success");
    assert!(login_outcome(true, there, &target).is_ok());
    assert!(matches!(login_outcome(false, there, &target), Err(Error::Authorisation)));
    assert!(matches!(login_outcome(true, None, &target), Err(Error::Authorisation)));
    assert!(matches!(
        login_outcome(true, Some("https://lobste.rs/login"), &target),
        Err(Error::Authorisation)
    ));
}

#[test]
fn extract_csrf_token_from_html_success() {
    let html = r#"<html><head><meta name="csrf-token" content="token" /></head></html>"#;
    assert_eq!(
        extract_csrf_token_from_html(html).unwrap(),
        "token".to_string()
    );
}

#[test]
fn extract_csrf_token_from_html_faile() {
    let html = r#"<html><head><title>No token</title></head></html>"#;
    match extract_csrf_token_from_html(html) {
        Err(Error::MissingHtmlElement) => (),
        other => panic!("Expected Error::MissingHtmlElement got {:?}", other),
    }
}

#[test]
fn the_first_token_of_a_page_is_taken() {
    let html = r#"<meta name="other" content="x"><meta name="csrf-token" content="first">
        <p>text</p><meta name="csrf-token" content="second">"#;
    assert_eq!(extract_csrf_token_from_html(html).unwrap(), "first");
    assert_eq!(
        extract_csrf_token_from_html(r#"<meta content="a b" name="csrf-token">"#).unwrap(),
        "a b"
    );
}

#[test]
fn a_token_without_content_is_missing() {
    for html in ["", "<meta name=\"csrf-token\">", "<meta name=\"csrf\" content=\"x\">"] {
        assert!(matches!(extract_csrf_token_from_html(html), Err(Error::MissingHtmlElement)));
    }
}
