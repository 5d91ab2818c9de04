use freshrss_image_cache_service_rs::app_service::{AppService, CloudFlareBypassProxy};
use freshrss_image_cache_service_rs::cached_image::CachedImage as Entry;
use freshrss_image_cache_service_rs::dtos::CachedImage;
use freshrss_image_cache_service_rs::error::{CacheError, Failure};
use freshrss_image_cache_service_rs::protocol::{Action, Event, FetchRequest, Progress, Stage};
use std::collections::HashMap;

const URL: &str = "https://example.com/a.png";
const PAYLOAD: &str = "/data/e2/e25f8c5a5c82b277a43c9232af0d16e2ebbf8bf3ea593d1b4d67765d0376e647";
const MEDIA_TYPE: &str =
    "/data/e2/e25f8c5a5c82b277a43c9232af0d16e2ebbf8bf3ea593d1b4d67765d0376e647.mime-type";

/// What the origin answers: a content type, if any, and a body.
#[derive(Clone)]
struct Answer {
    content_type: Option<Vec<u8>>,
    body: Vec<u8>,
}

/// A disk in memory and an origin with fixed answers.
struct World {
    files: HashMap<String, Vec<u8>>,
    direct: Option<Answer>,
    proxied: Option<Answer>,
    body: Vec<u8>,
    requests: Vec<FetchRequest>,
    folders: Vec<String>,
}

fn answer(content_type: &[u8], body: &[u8]) -> Option<Answer> {
    Some(Answer { content_type: Some(content_type.to_vec()), body: body.to_vec() })
}

fn world(direct: Option<Answer>, proxied: Option<Answer>) -> World {
    World {
        files: HashMap::new(),
        direct,
        proxied,
        body: Vec::new(),
        requests: Vec::new(),
        folders: Vec::new(),
    }
}

fn perform(world: &mut World, action: Action) -> Event {
    match action {
        Action::ProbePayload { path } => Event::Probed { exists: world.files.contains_key(&path) },
        Action::EnsureFolder { path } => {
            world.folders.push(path);
            Event::FolderReady
        }
        Action::Fetch(request) => {
            let reply = if request.proxy.is_some() {
                world.proxied.clone()
            } else {
                world.direct.clone()
            };
            world.requests.push(request);
            match reply {
                Some(reply) => {
                    world.body = reply.body;
                    Event::Fetched { content_type: reply.content_type }
                }
                None => Event::Failed(Failure::Transport("unreachable".to_string())),
            }
        }
        Action::StorePayload { path } => {
            world.files.insert(path, world.body.clone());
            Event::PayloadStored
        }
        Action::StoreMediaType { path, value } => {
            world.files.insert(path, value);
            Event::MediaTypeStored
        }
        Action::Publish { from, to } => match world.files.remove(&from) {
            Some(bytes) => {
                world.files.insert(to, bytes);
                Event::Published
            }
            None => Event::Failed(Failure::Storage("nothing to move".to_string())),
        },
        Action::ReadEntry { data_path, mime_type_path } => {
            let data = world.files.get(&data_path).cloned();
            let mime_type =
                world.files.get(&mime_type_path).cloned().and_then(|b| String::from_utf8(b).ok());
            match (data, mime_type) {
                (Some(data), Some(mime_type)) => Event::EntryRead(Entry { data, mime_type }),
                (Some(_), None) => Event::MediaTypeUnreadable { detail: "unreadable".to_string() },
                (None, _) => Event::Failed(Failure::Storage("no payload".to_string())),
            }
        }
        Action::Deliver(_) | Action::Stored | Action::Fail(_) => Event::Begin,
    }
}

fn populate(service: &AppService, world: &mut World) -> Result<(), CacheError> {
    let mut stage = Stage::Start;
    let mut event = Event::Begin;
    for _ in 0..20 {
        let (next, action) = service.save_image(URL, stage, event);
        stage = next;
        event = match action {
            Action::Stored => return Ok(()),
            Action::Fail(error) => return Err(error),
            step => perform(world, step),
        };
    }
    panic!("the storing did not end");
}

fn retrieve(service: &AppService, world: &mut World) -> Result<CachedImage, CacheError> {
    let mut progress = Progress::Start;
    let mut event = Event::Begin;
    for _ in 0..20 {
        let (next, action) = service.get_image(URL, progress, event);
        progress = next;
        event = match action {
            Action::Deliver(image) => return Ok(image),
            Action::Fail(error) => return Err(error),
            step => perform(world, step),
        };
    }
    panic!("the retrieval did not end");
}

fn proxy() -> CloudFlareBypassProxy {
    CloudFlareBypassProxy {
        proxy_url: "http://proxy.example:8080".to_string(),
        proxy_login: "user".to_string(),
        proxy_password: "pass".to_string(),
    }
}

fn plain() -> AppService {
    AppService::new("token".to_string(), "/data".to_string(), false, None)
}

fn with_proxy() -> AppService {
    AppService::new("token".to_string(), "/data".to_string(), false, Some(proxy()))
}

#[test]
fn storing_leaves_the_two_files_and_nothing_else() {
    let mut world = world(answer(b"image/png", b"PNG-bytes"), None);
    assert_eq!(populate(&plain(), &mut world), Ok(()));
    assert_eq!(world.files.len(), 2);
    assert_eq!(world.files.get(PAYLOAD), Some(&b"PNG-bytes".to_vec()));
    assert_eq!(world.files.get(MEDIA_TYPE), Some(&b"image/png".to_vec()));
    assert_eq!(world.folders, vec!["/data/e2".to_string()]);
    assert_eq!(world.requests.len(), 1);
}

#[test]
fn storing_twice_is_idempotent() {
    let mut world = world(answer(b"image/png", b"PNG-bytes"), None);
    assert_eq!(populate(&plain(), &mut world), Ok(()));
    let once = world.files.clone();
    assert_eq!(populate(&plain(), &mut world), Ok(()));
    assert_eq!(world.files, once);
    assert_eq!(world.files.get(PAYLOAD), Some(&b"PNG-bytes".to_vec()));
    assert_eq!(world.files.get(MEDIA_TYPE), Some(&b"image/png".to_vec()));
}

#[test]
fn round_trip_after_storing() {
    let mut world = world(answer(b"image/png", b"PNG-bytes"), None);
    assert_eq!(populate(&plain(), &mut world), Ok(()));
    let image = retrieve(&plain(), &mut world);
    assert_eq!(
        image,
        Ok(CachedImage {
            data: b"PNG-bytes".to_vec(),
            mime_type: "image/png".to_string(),
            extracted_from_cache: true,
        })
    );
    assert_eq!(world.requests.len(), 1);
}

#[test]
fn miss_then_hit() {
    let mut world = world(answer(b"video/mp4", b"frames"), None);
    let first = retrieve(&plain(), &mut world);
    assert_eq!(
        first,
        Ok(CachedImage {
            data: b"frames".to_vec(),
            mime_type: "video/mp4".to_string(),
            extracted_from_cache: false,
        })
    );
    let second = retrieve(&plain(), &mut world);
    assert_eq!(
        second,
        Ok(CachedImage {
            data: b"frames".to_vec(),
            mime_type: "video/mp4".to_string(),
            extracted_from_cache: true,
        })
    );
    assert_eq!(world.requests.len(), 1);
}

#[test]
fn challenge_is_answered_by_one_fetch_through_the_proxy() {
    let mut world =
        world(answer(b"text/html", b"<html>prove it</html>"), answer(b"image/png", b"PNG"));
    assert_eq!(populate(&with_proxy(), &mut world), Ok(()));
    assert_eq!(world.requests.len(), 2);
    assert_eq!(world.requests[0].proxy, None);
    assert!(!world.requests[0].accept_invalid_certs);
    assert_eq!(world.requests[1].proxy, Some(proxy()));
    assert!(world.requests[1].accept_invalid_certs);
    assert_eq!(world.requests[1].url, URL);
    assert_eq!(world.requests[1].user_agent, "curl/7.86.0");
    assert_eq!(world.requests[1].accept, "*/*");
    assert_eq!(world.files.get(PAYLOAD), Some(&b"PNG".to_vec()));
    assert_eq!(world.files.get(MEDIA_TYPE), Some(&b"image/png".to_vec()));
}

#[test]
fn challenge_through_the_proxy_too_fails_after_two_fetches() {
    let mut world = world(answer(b"text/html", b"<html>"), answer(b"text/html", b"<html>"));
    assert_eq!(
        populate(&with_proxy(), &mut world),
        Err(CacheError::Challenge(b"text/html".to_vec()))
    );
    assert_eq!(world.requests.len(), 2);
    assert!(world.files.is_empty());
}

#[test]
fn proxy_that_is_unreachable_fails_after_two_fetches() {
    let mut world = world(answer(b"text/html", b"<html>"), None);
    assert_eq!(
        populate(&with_proxy(), &mut world),
        Err(CacheError::Transport("unreachable".to_string()))
    );
    assert_eq!(world.requests.len(), 2);
    assert!(world.files.is_empty());
}

#[test]
fn challenge_without_a_proxy_fails_after_one_fetch() {
    let mut world = world(answer(b"text/html", b"<html>"), answer(b"image/png", b"PNG"));
    assert_eq!(populate(&plain(), &mut world), Err(CacheError::Challenge(b"text/html".to_vec())));
    assert_eq!(world.requests.len(), 1);
    assert!(world.files.is_empty());
}

#[test]
fn missing_content_type_fails_whatever_the_body() {
    for body in [&b""[..], &b"\x89PNG\r\n"[..], &b"<html>"[..]] {
        let direct = Some(Answer { content_type: None, body: body.to_vec() });
        let mut world = world(direct, answer(b"image/png", b"PNG"));
        assert_eq!(populate(&with_proxy(), &mut world), Err(CacheError::MissingContentType));
        assert_eq!(world.requests.len(), 1);
        assert!(world.files.is_empty());
    }
}

#[test]
fn origin_that_is_unreachable_is_not_tried_through_the_proxy() {
    let mut world = world(None, answer(b"image/png", b"PNG"));
    assert_eq!(
        populate(&with_proxy(), &mut world),
        Err(CacheError::Transport("unreachable".to_string()))
    );
    assert_eq!(world.requests.len(), 1);
}

#[test]
fn retrieval_of_a_challenged_image_delivers_nothing() {
    let mut world = world(answer(b"text/html", b"<html>"), None);
    assert_eq!(retrieve(&plain(), &mut world), Err(CacheError::Challenge(b"text/html".to_vec())));
    assert!(world.files.is_empty());
}

#[test]
fn payload_alone_is_a_hit_that_fails() {
    let mut world = world(answer(b"image/png", b"PNG"), None);
    world.files.insert(PAYLOAD.to_string(), b"old".to_vec());
    assert_eq!(
        retrieve(&plain(), &mut world),
        Err(CacheError::Inconsistent("unreadable".to_string()))
    );
    assert!(world.requests.is_empty());
}

#[test]
fn media_type_alone_is_a_miss() {
    let mut world = world(answer(b"image/png", b"PNG"), None);
    world.files.insert(MEDIA_TYPE.to_string(), b"image/gif".to_vec());
    assert_eq!(
        retrieve(&plain(), &mut world),
        Ok(CachedImage {
            data: b"PNG".to_vec(),
            mime_type: "image/png".to_string(),
            extracted_from_cache: false,
        })
    );
}

#[test]
fn content_type_that_is_no_text_is_stored_but_cannot_be_served() {
    let mut world = world(answer(b"image/\xff", b"PNG"), None);
    assert_eq!(populate(&plain(), &mut world), Ok(()));
    assert_eq!(world.files.get(MEDIA_TYPE), Some(&b"image/\xff".to_vec()));
    assert_eq!(
        retrieve(&plain(), &mut world),
        Err(CacheError::Inconsistent("unreadable".to_string()))
    );
}

#[test]
fn broken_payload_write_leaves_no_entry() {
    let service = plain();
    let mut world = world(answer(b"image/png", b"PNG-bytes"), None);
    let mut stage = Stage::Start;
    let mut event = Event::Begin;
    let outcome = loop {
        let (next, action) = service.save_image(URL, stage, event);
        stage = next;
        event = match action {
            Action::Stored => break Ok(()),
            Action::Fail(error) => break Err(error),
            Action::StorePayload { path } => {
                world.files.insert(path, b"PNG".to_vec());
                Event::Failed(Failure::Storage("disk full".to_string()))
            }
            step => perform(&mut world, step),
        };
    };
    assert_eq!(outcome, Err(CacheError::Storage("disk full".to_string())));
    assert!(!world.files.contains_key(PAYLOAD));
    assert!(!world.files.contains_key(MEDIA_TYPE));
    world.direct = answer(b"image/png", b"PNG-bytes");
    assert_eq!(
        retrieve(&service, &mut world),
        Ok(CachedImage {
            data: b"PNG-bytes".to_vec(),
            mime_type: "image/png".to_string(),
            extracted_from_cache: false,
        })
    );
}
