use blog::handlers::static_asset;
use blog::response::{Asset, Body, Status};

#[test]
fn resolved_asset_is_sent_unchanged() {
    let bytes = vec![0u8, 159, 146, 150, 255, 10, 13];
    let response = static_asset(Some(Asset {
        bytes: bytes.clone(),
        content_type: "image/png".to_string(),
    }));
    assert_eq!(response.status, Status::Success);
    assert_eq!(response.status.code(), 200);
    assert_eq!(response.content_type, Some("image/png".to_string()));
    assert_eq!(response.body, Body::Bytes(bytes));
}

#[test]
fn empty_asset_is_still_found() {
    let response = static_asset(Some(Asset {
        bytes: Vec::new(),
        content_type: "text/css".to_string(),
    }));
    assert_eq!(response.status.code(), 200);
    assert_eq!(response.content_type, Some("text/css".to_string()));
    assert_eq!(response.body, Body::Bytes(Vec::new()));
}

#[test]
fn absent_asset_is_not_found() {
    let response = static_asset(None);
    assert_eq!(response.status, Status::NotFound);
    assert_eq!(response.status.code(), 404);
    assert_eq!(response.content_type, None);
    assert_eq!(response.body, Body::Bytes(Vec::new()));
}

#[test]
fn status_codes() {
    assert_eq!(Status::Success.code(), 200);
    assert_eq!(Status::NotFound.code(), 404);
    assert_eq!(Status::InternalServerError.code(), 500);
}
