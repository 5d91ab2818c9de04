use freshrss_image_cache_service_rs::app_service::AppService;

fn service(token: &str) -> AppService {
    AppService::new(token.to_string(), "/data".to_string(), false, None)
}

#[test]
fn exact_token_is_valid() {
    assert!(service("s3cret-token").validate_access_token("s3cret-token"));
}

#[test]
fn prefix_of_the_token_is_not_valid() {
    assert!(!service("s3cret-token").validate_access_token("s3cret"));
}

#[test]
fn suffix_of_the_token_is_not_valid() {
    assert!(!service("s3cret-token").validate_access_token("token"));
}

#[test]
fn longer_text_that_holds_the_token_is_not_valid() {
    assert!(!service("s3cret-token").validate_access_token("s3cret-token "));
    assert!(!service("s3cret-token").validate_access_token(" s3cret-token"));
}

#[test]
fn other_case_is_not_valid() {
    assert!(!service("s3cret-token").validate_access_token("S3CRET-TOKEN"));
}

#[test]
fn empty_candidate_is_valid_only_for_an_empty_token() {
    assert!(!service("s3cret-token").validate_access_token(""));
    assert!(service("").validate_access_token(""));
}

#[test]
fn token_beyond_ascii_is_compared_exactly() {
    assert!(service("cl\u{e9}").validate_access_token("cl\u{e9}"));
    assert!(!service("cl\u{e9}").validate_access_token("cle"));
}
