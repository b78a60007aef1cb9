use webview_shell::mime::MimeType;
use webview_shell::response::ResourceError;
use webview_shell::response::ResourceResponse;
use webview_shell::response::STATUS_FAILURE;
use webview_shell::response::STATUS_OK;

#[test]
fn status_codes() {
    assert_eq!(STATUS_OK, 200);
    assert_eq!(STATUS_FAILURE, 500);
}

#[test]
fn success_carries_type_and_bytes() {
    let response = ResourceResponse::success(MimeType::Javascript, vec![1, 2]);
    assert_eq!(response.status, 200);
    assert_eq!(response.content_type, Some("text/javascript".to_string()));
    assert_eq!(response.body, vec![1, 2]);
}

#[test]
fn failure_is_plain_text() {
    let response = ResourceResponse::failure(&ResourceError::ResourceNotFound("no such file".to_string()));
    assert_eq!(response.status, 500);
    assert_eq!(response.content_type, Some("text/plain".to_string()));
    assert_eq!(response.body, b"no such file".to_vec());
}

#[test]
fn degraded_is_empty_and_successful() {
    let response = ResourceResponse::degraded();
    assert_eq!(response.status, 200);
    assert_eq!(response.content_type, None);
    assert_eq!(response.body, Vec::<u8>::new());
}

#[test]
fn error_descriptions() {
    assert_eq!(ResourceError::ResourceNotFound("denied".to_string()).description(), "denied");
    assert_eq!(ResourceError::ResourceNotFound(String::new()).description(), "resource unavailable");
    assert_eq!(ResourceError::UnsupportedMimeType.description(), "unsupported resource type");
}
