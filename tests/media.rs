use backend::error::ApiError;
use backend::media::{
    capture_root, check_containment, frame_candidate, frame_of_row, image_content_type,
    require_capture_root, unreadable_file, EventTable,
};
use backend::text::{is_within_root, join_paths, split_str, trim_str};

#[test]
fn missing_row_is_not_found() {
    let e = frame_of_row(EventTable::FaceCaptures, None).unwrap_err();
    assert_eq!(e.status_code(), 404);
    assert_eq!(e.message(), "face capture not found");
    let e = frame_of_row(EventTable::PostureEvents, None).unwrap_err();
    assert_eq!(e.message(), "posture event not found");
}

#[test]
fn null_frame_path_is_not_found() {
    let e = frame_of_row(EventTable::FaceCaptures, Some(None)).unwrap_err();
    assert_eq!(e.status_code(), 404);
    assert_eq!(e.message(), "face capture has no associated frame path");
    let e = frame_of_row(EventTable::PostureEvents, Some(None)).unwrap_err();
    assert_eq!(e.message(), "posture event has no associated frame path");
}

#[test]
fn stored_frame_path_is_returned() {
    let p = frame_of_row(EventTable::FaceCaptures, Some(Some("a/b.jpg".to_string()))).unwrap();
    assert_eq!(p, "a/b.jpg");
}

#[test]
fn unconfigured_root_is_internal() {
    let e = require_capture_root(None).unwrap_err();
    assert_eq!(e.status_code(), 500);
    assert_eq!(e.message(), "capture root not configured");
    assert_eq!(require_capture_root(Some("/srv".to_string())).unwrap(), "/srv");
}

#[test]
fn candidate_joins_relative_and_keeps_absolute() {
    assert_eq!(frame_candidate("/srv/captures", "a/b.jpg"), "/srv/captures/a/b.jpg");
    assert_eq!(frame_candidate("/srv/captures", "../etc/passwd"), "/srv/captures/../etc/passwd");
    assert_eq!(frame_candidate("/srv/captures", "/etc/passwd"), "/etc/passwd");
    assert_eq!(frame_candidate("/", "x.png"), "/x.png");
}

#[test]
fn escaping_path_is_bad_request() {
    let e = check_containment(Some("/srv/captures"), Some("/etc/passwd")).unwrap_err();
    assert!(matches!(e, ApiError::BadRequest(_)));
    assert_eq!(e.status_code(), 400);
    assert_eq!(e.message(), "path outside allowed directory");
    let e = check_containment(Some("/srv/captures"), Some("/srv/captures-old/x.jpg")).unwrap_err();
    assert_eq!(e.status_code(), 400);
    let e = check_containment(Some("/srv/captures"), Some("/srv")).unwrap_err();
    assert_eq!(e.status_code(), 400);
}

#[test]
fn contained_path_is_accepted() {
    let p = check_containment(Some("/srv/captures"), Some("/srv/captures/a/b.jpg")).unwrap();
    assert_eq!(p, "/srv/captures/a/b.jpg");
    assert!(check_containment(Some("/srv/captures"), Some("/srv/captures")).is_ok());
    assert!(check_containment(Some("/"), Some("/etc/x")).is_ok());
}

#[test]
fn unresolvable_path_is_not_found() {
    let e = check_containment(Some("/srv/captures"), None).unwrap_err();
    assert_eq!(e.status_code(), 404);
    assert_eq!(e.message(), "capture file not found");
    let e = check_containment(None, Some("/srv/captures/a.jpg")).unwrap_err();
    assert_eq!(e.status_code(), 404);
    assert_eq!(unreadable_file().status_code(), 404);
}

#[test]
fn content_type_from_extension() {
    assert_eq!(image_content_type("/srv/captures/a.png"), "image/png");
    assert_eq!(image_content_type("/srv/captures/a.jpg"), "image/jpeg");
    assert_eq!(image_content_type("/srv/captures/frame"), "application/octet-stream");
    assert_eq!(image_content_type("/srv/x.unknownext"), "application/octet-stream");
}

#[test]
fn capture_root_resolution() {
    assert_eq!(capture_root(false, Some("/abs"), "/repo"), None);
    assert_eq!(capture_root(true, None, "/repo").as_deref(), Some("/repo/data/captures"));
    assert_eq!(capture_root(true, Some("/abs/dir"), "/repo").as_deref(), Some("/abs/dir"));
    assert_eq!(capture_root(true, Some("caps"), "/repo/").as_deref(), Some("/repo/caps"));
}

#[test]
fn error_status_codes() {
    assert_eq!(ApiError::Unauthorized.status_code(), 401);
    assert_eq!(ApiError::NotFound("x".to_string()).status_code(), 404);
    assert_eq!(ApiError::BadRequest("x".to_string()).status_code(), 400);
    let e = ApiError::Internal("db down".to_string());
    assert_eq!(e.status_code(), 500);
    assert_eq!(e.message(), "db down");
}

#[test]
fn text_helpers() {
    assert_eq!(trim_str("  a b \n"), "a b");
    assert_eq!(trim_str("\u{3000}x\u{a0}"), "x");
    assert_eq!(trim_str("   "), "");
    assert_eq!(split_str("a,,b,", ','), vec!["a", "", "b", ""]);
    assert_eq!(split_str("", ','), vec![""]);
    assert_eq!(join_paths("", "a"), "a");
    assert_eq!(join_paths("a", ""), "a/");
    assert!(is_within_root("/a/b", "/a/b/c"));
    assert!(!is_within_root("/a/b", "/a/bc"));
    assert!(!is_within_root("/a/b/c", "/a/b"));
}
