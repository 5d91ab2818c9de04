use freshrss_image_cache_service_rs::layout::join_path;
use freshrss_image_cache_service_rs::protocol::is_media_type;
use freshrss_image_cache_service_rs::text::{same_bytes, same_text, starts_with};

#[test]
fn image_and_video_types_are_media() {
    assert!(is_media_type(b"image/png"));
    assert!(is_media_type(b"image/"));
    assert!(is_media_type(b"video/mp4"));
    assert!(is_media_type(b"image/svg+xml; charset=utf-8"));
}

#[test]
fn other_types_are_not_media() {
    assert!(!is_media_type(b"text/html"));
    assert!(!is_media_type(b"text/html; charset=UTF-8"));
    assert!(!is_media_type(b"application/octet-stream"));
    assert!(!is_media_type(b""));
}

#[test]
fn media_prefix_is_matched_byte_for_byte() {
    assert!(!is_media_type(b"image"));
    assert!(!is_media_type(b"Image/png"));
    assert!(!is_media_type(b"IMAGE/PNG"));
    assert!(!is_media_type(b" image/png"));
    assert!(!is_media_type(b"video"));
    assert!(!is_media_type(b"videos/mp4"));
}

#[test]
fn media_type_may_hold_bytes_beyond_ascii() {
    assert!(is_media_type(&[0x69, 0x6d, 0x61, 0x67, 0x65, 0x2f, 0xff]));
    assert!(!is_media_type(&[0xff, 0x69, 0x6d, 0x61, 0x67, 0x65, 0x2f]));
}

#[test]
fn prefix_test_on_bytes() {
    assert!(starts_with(b"abcdef", b"abc"));
    assert!(starts_with(b"abc", b"abc"));
    assert!(starts_with(b"abc", b""));
    assert!(!starts_with(b"ab", b"abc"));
    assert!(!starts_with(b"abd", b"abc"));
}

#[test]
fn equality_of_bytes_and_text() {
    assert!(same_bytes(b"abc", b"abc"));
    assert!(!same_bytes(b"abc", b"abcd"));
    assert!(!same_bytes(b"abc", b"abd"));
    assert!(same_bytes(b"", b""));
    assert!(same_text("abc", "abc"));
    assert!(!same_text("abc", "ab"));
}

#[test]
fn join_puts_one_separator() {
    assert_eq!(join_path("a", "b"), "a/b");
    assert_eq!(join_path("a/", "b"), "a/b");
    assert_eq!(join_path("", "b"), "b");
    assert_eq!(join_path("/", "b"), "/b");
    assert_eq!(join_path("/x/y", "z.mime-type"), "/x/y/z.mime-type");
}
