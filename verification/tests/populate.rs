use freshrss_image_cache_service_rs::app_service::{AppService, CloudFlareBypassProxy};
use freshrss_image_cache_service_rs::error::{CacheError, Failure};
use freshrss_image_cache_service_rs::protocol::{Action, Event, FetchRequest, Stage};

const URL: &str = "https://example.com/a.png";
const FOLDER: &str = "/data/e2";
const PAYLOAD: &str = "/data/e2/e25f8c5a5c82b277a43c9232af0d16e2ebbf8bf3ea593d1b4d67765d0376e647";
const MEDIA_TYPE: &str =
    "/data/e2/e25f8c5a5c82b277a43c9232af0d16e2ebbf8bf3ea593d1b4d67765d0376e647.mime-type";

fn proxy() -> CloudFlareBypassProxy {
    CloudFlareBypassProxy {
        proxy_url: "http://proxy.example:8080".to_string(),
        proxy_login: "user".to_string(),
        proxy_password: "pass".to_string(),
    }
}

fn plain() -> AppService {
    AppService::new("token".to_string(), "/data".to_string(), false, None)
}

fn with_proxy() -> AppService {
    AppService::new("token".to_string(), "/data".to_string(), false, Some(proxy()))
}

fn direct_request(accept_invalid_certs: bool) -> FetchRequest {
    FetchRequest {
        url: URL.to_string(),
        user_agent: "curl/7.86.0".to_string(),
        accept: "*/*".to_string(),
        accept_invalid_certs,
        proxy: None,
    }
}

fn bypass_request() -> FetchRequest {
    FetchRequest {
        url: URL.to_string(),
        user_agent: "curl/7.86.0".to_string(),
        accept: "*/*".to_string(),
        accept_invalid_certs: true,
        proxy: Some(proxy()),
    }
}

fn fetched(content_type: &[u8]) -> Event {
    Event::Fetched { content_type: Some(content_type.to_vec()) }
}

fn storage_failure() -> Event {
    Event::Failed(Failure::Storage("disk full".to_string()))
}

#[test]
fn storing_begins_with_the_folder() {
    let (stage, action) = plain().save_image(URL, Stage::Start, Event::Begin);
    assert_eq!(stage, Stage::CreatingFolder);
    assert_eq!(action, Action::EnsureFolder { path: FOLDER.to_string() });
}

#[test]
fn direct_fetch_follows_the_folder() {
    let (stage, action) = plain().save_image(URL, Stage::CreatingFolder, Event::FolderReady);
    assert_eq!(stage, Stage::DirectFetchInFlight);
    assert_eq!(action, Action::Fetch(direct_request(false)));
}

#[test]
fn direct_fetch_keeps_the_tls_setting() {
    let service = AppService::new("token".to_string(), "/data".to_string(), true, Some(proxy()));
    let (_, action) = service.save_image(URL, Stage::CreatingFolder, Event::FolderReady);
    assert_eq!(action, Action::Fetch(direct_request(true)));
    assert_eq!(service.try_get_image(URL, false), direct_request(true));
    assert_eq!(plain().try_get_image(URL, false), direct_request(false));
}

#[test]
fn bypass_request_goes_through_the_proxy_and_accepts_any_certificate() {
    assert_eq!(with_proxy().try_get_image(URL, true), bypass_request());
}

#[test]
fn genuine_answer_is_written_to_the_staging_file() {
    let (stage, action) =
        plain().save_image(URL, Stage::DirectFetchInFlight, fetched(b"image/png"));
    assert_eq!(stage, Stage::WritingPayload { media_type: b"image/png".to_vec() });
    assert_eq!(action, Action::StorePayload { path: format!("{PAYLOAD}.part") });
}

#[test]
fn video_is_genuine_too() {
    let (stage, action) =
        plain().save_image(URL, Stage::DirectFetchInFlight, fetched(b"video/mp4"));
    assert_eq!(stage, Stage::WritingPayload { media_type: b"video/mp4".to_vec() });
    assert_eq!(action, Action::StorePayload { path: format!("{PAYLOAD}.part") });
}

#[test]
fn media_type_is_written_after_the_payload() {
    let (stage, action) = plain().save_image(
        URL,
        Stage::WritingPayload { media_type: b"image/png".to_vec() },
        Event::PayloadStored,
    );
    assert_eq!(stage, Stage::WritingMediaType);
    assert_eq!(
        action,
        Action::StoreMediaType {
            path: format!("{MEDIA_TYPE}.part"),
            value: b"image/png".to_vec(),
        }
    );
}

#[test]
fn media_type_is_published_first() {
    let (stage, action) =
        plain().save_image(URL, Stage::WritingMediaType, Event::MediaTypeStored);
    assert_eq!(stage, Stage::PublishingMediaType);
    assert_eq!(
        action,
        Action::Publish { from: format!("{MEDIA_TYPE}.part"), to: MEDIA_TYPE.to_string() }
    );
}

#[test]
fn payload_is_published_last() {
    let (stage, action) = plain().save_image(URL, Stage::PublishingMediaType, Event::Published);
    assert_eq!(stage, Stage::PublishingPayload);
    assert_eq!(
        action,
        Action::Publish { from: format!("{PAYLOAD}.part"), to: PAYLOAD.to_string() }
    );
}

#[test]
fn storing_ends_when_the_payload_is_published() {
    let (stage, action) = plain().save_image(URL, Stage::PublishingPayload, Event::Published);
    assert_eq!(stage, Stage::Stored);
    assert_eq!(action, Action::Stored);
}

#[test]
fn challenge_escalation() {
    let (stage, action) =
        with_proxy().save_image(URL, Stage::DirectFetchInFlight, fetched(b"text/html"));
    assert_eq!(stage, Stage::BypassFetchInFlight);
    assert_eq!(action, Action::Fetch(bypass_request()));
}

#[test]
fn challenge_escalation_succeeds_through_the_proxy() {
    let (stage, action) =
        with_proxy().save_image(URL, Stage::BypassFetchInFlight, fetched(b"image/jpeg"));
    assert_eq!(stage, Stage::WritingPayload { media_type: b"image/jpeg".to_vec() });
    assert_eq!(action, Action::StorePayload { path: format!("{PAYLOAD}.part") });
}

#[test]
fn challenge_through_the_proxy_is_final() {
    let (stage, action) =
        with_proxy().save_image(URL, Stage::BypassFetchInFlight, fetched(b"text/html"));
    assert_eq!(stage, Stage::Failed);
    assert_eq!(action, Action::Fail(CacheError::Challenge(b"text/html".to_vec())));
}

#[test]
fn no_bypass_failure() {
    let (stage, action) =
        plain().save_image(URL, Stage::DirectFetchInFlight, fetched(b"text/html"));
    assert_eq!(stage, Stage::Failed);
    assert_eq!(action, Action::Fail(CacheError::Challenge(b"text/html".to_vec())));
}

#[test]
fn missing_content_type_fails_the_direct_fetch() {
    let (stage, action) = plain().save_image(
        URL,
        Stage::DirectFetchInFlight,
        Event::Fetched { content_type: None },
    );
    assert_eq!(stage, Stage::Failed);
    assert_eq!(action, Action::Fail(CacheError::MissingContentType));
}

#[test]
fn missing_content_type_is_no_challenge() {
    let (stage, action) = with_proxy().save_image(
        URL,
        Stage::DirectFetchInFlight,
        Event::Fetched { content_type: None },
    );
    assert_eq!(stage, Stage::Failed);
    assert_eq!(action, Action::Fail(CacheError::MissingContentType));
    let (stage, action) = with_proxy().save_image(
        URL,
        Stage::BypassFetchInFlight,
        Event::Fetched { content_type: None },
    );
    assert_eq!(stage, Stage::Failed);
    assert_eq!(action, Action::Fail(CacheError::MissingContentType));
}

#[test]
fn transport_failure_is_handed_on_and_not_retried() {
    let (stage, action) = with_proxy().save_image(
        URL,
        Stage::DirectFetchInFlight,
        Event::Failed(Failure::Transport("connection refused".to_string())),
    );
    assert_eq!(stage, Stage::Failed);
    assert_eq!(action, Action::Fail(CacheError::Transport("connection refused".to_string())));
}

#[test]
fn storage_failure_ends_every_stage_in_flight() {
    let stages = vec![
        Stage::CreatingFolder,
        Stage::DirectFetchInFlight,
        Stage::BypassFetchInFlight,
        Stage::WritingPayload { media_type: b"image/png".to_vec() },
        Stage::WritingMediaType,
        Stage::PublishingMediaType,
        Stage::PublishingPayload,
    ];
    for stage in stages {
        let (next, action) = with_proxy().save_image(URL, stage, storage_failure());
        assert_eq!(next, Stage::Failed);
        assert_eq!(action, Action::Fail(CacheError::Storage("disk full".to_string())));
    }
}

#[test]
fn broken_transfer_while_the_payload_is_written_is_a_transport_error() {
    let (stage, action) = plain().save_image(
        URL,
        Stage::WritingPayload { media_type: b"image/png".to_vec() },
        Event::Failed(Failure::Transport("reset".to_string())),
    );
    assert_eq!(stage, Stage::Failed);
    assert_eq!(action, Action::Fail(CacheError::Transport("reset".to_string())));
}

#[test]
fn event_that_answers_nothing_is_out_of_order() {
    let cases = vec![
        (Stage::Start, Event::FolderReady),
        (Stage::Start, storage_failure()),
        (Stage::CreatingFolder, Event::Begin),
        (Stage::DirectFetchInFlight, Event::PayloadStored),
        (Stage::WritingPayload { media_type: b"image/png".to_vec() }, Event::MediaTypeStored),
        (Stage::WritingMediaType, Event::Published),
        (Stage::PublishingMediaType, Event::MediaTypeStored),
        (Stage::PublishingPayload, Event::Probed { exists: true }),
        (Stage::Stored, Event::Begin),
        (Stage::Stored, storage_failure()),
        (Stage::Failed, Event::Begin),
        (Stage::Failed, storage_failure()),
    ];
    for (stage, event) in cases {
        let (next, action) = plain().save_image(URL, stage, event);
        assert_eq!(next, Stage::Failed);
        assert_eq!(action, Action::Fail(CacheError::OutOfOrder));
    }
}

#[test]
fn failure_reported_becomes_the_matching_error() {
    assert_eq!(
        CacheError::from_failure(Failure::Transport("t".to_string())),
        CacheError::Transport("t".to_string())
    );
    assert_eq!(
        CacheError::from_failure(Failure::Storage("s".to_string())),
        CacheError::Storage("s".to_string())
    );
}

#[test]
fn copy_of_the_proxy_settings_is_equal() {
    assert_eq!(proxy().duplicate(), proxy());
}

#[test]
fn service_tells_whether_it_has_a_proxy() {
    assert!(with_proxy().has_bypass());
    assert!(!plain().has_bypass());
}
