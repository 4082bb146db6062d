use tex::admission::{constant_time_eq, judge, route_request, Route};

const KEY: &[u8] = b"Jefe";
const BODY: &[u8] = b"what do ya want for nothing?";
const TOKEN: &str = "W9zBRr9gdU5qBCQmCJV1x1oAPwidJzmDnexYuWTsOEM";

#[test]
fn valid_token_goes_to_priority() {
    assert_eq!(route_request(KEY, BODY, Some(TOKEN)), Route::Priority);
}

#[test]
fn known_tag_with_url_safe_letters() {
    let key = [0x0b; 20];
    assert_eq!(
        route_request(&key, b"Hi There", Some("sDRMYdjbOFNcqK_OrwvxK4gdwgDJgz2nJuk3bC4yz_c")),
        Route::Priority
    );
    assert_eq!(
        route_request(&key, b"Hi There", Some("sDRMYdjbOFNcqK/OrwvxK4gdwgDJgz2nJuk3bC4yz/c")),
        Route::Rejected
    );
}

#[test]
fn empty_key_and_body_have_a_tag() {
    assert_eq!(
        route_request(b"", b"", Some("thNnmggU2ex3L5XXeMNfxf8Wl8STcVZTxscSFEKSxa0")),
        Route::Priority
    );
}

#[test]
fn request_without_token_goes_to_public() {
    assert_eq!(route_request(KEY, BODY, None), Route::Public);
    assert_eq!(route_request(b"", b"", None), Route::Public);
}

#[test]
fn tampered_body_is_rejected() {
    for i in 0..BODY.len() {
        let mut body = BODY.to_vec();
        body[i] ^= 1;
        assert_eq!(route_request(KEY, &body, Some(TOKEN)), Route::Rejected);
    }
}

#[test]
fn other_key_is_rejected() {
    assert_eq!(route_request(b"jefe", BODY, Some(TOKEN)), Route::Rejected);
}

#[test]
fn token_that_is_the_body_is_rejected() {
    assert_eq!(route_request(b"k", b"abcd", Some("YWJjZA")), Route::Rejected);
}

#[test]
fn malformed_token_is_rejected() {
    assert_eq!(route_request(KEY, BODY, Some("not base64!")), Route::Rejected);
    assert_eq!(route_request(KEY, BODY, Some("")), Route::Rejected);
}

#[test]
fn padded_token_is_rejected() {
    assert_eq!(
        route_request(KEY, BODY, Some("W9zBRr9gdU5qBCQmCJV1x1oAPwidJzmDnexYuWTsOEM=")),
        Route::Rejected
    );
}

#[test]
fn truncated_token_is_rejected() {
    assert_eq!(
        route_request(KEY, BODY, Some("W9zBRr9gdU5qBCQmCJV1x1oAPwidJzmDnexYuWTs")),
        Route::Rejected
    );
}

#[test]
fn judge_compares_token_and_tag() {
    assert_eq!(judge(None, &[1, 2, 3]), Route::Public);
    assert_eq!(judge(Some(None), &[1, 2, 3]), Route::Rejected);
    assert_eq!(judge(Some(Some(vec![1, 2, 3])), &[1, 2, 3]), Route::Priority);
    assert_eq!(judge(Some(Some(vec![1, 2, 4])), &[1, 2, 3]), Route::Rejected);
    assert_eq!(judge(Some(Some(vec![1, 2])), &[1, 2, 3]), Route::Rejected);
    assert_eq!(judge(Some(Some(vec![])), &[]), Route::Priority);
}

#[test]
fn constant_time_eq_is_equality() {
    assert!(constant_time_eq(b"", b""));
    assert!(constant_time_eq(b"abc", b"abc"));
    assert!(!constant_time_eq(b"abc", b"abd"));
    assert!(!constant_time_eq(b"xbc", b"abc"));
    assert!(!constant_time_eq(b"abc", b"abcd"));
    assert!(!constant_time_eq(&[0x80], &[0x00]));
    assert!(!constant_time_eq(&[0x0f, 0xf0], &[0xf0, 0x0f]));
}

#[test]
fn request_routes_by_its_own_token() {
    let priority = tex::admission::RenderRequest {
        body: BODY.to_vec(),
        token: Some(TOKEN.to_string()),
    };
    assert_eq!(priority.route(KEY), Route::Priority);
    let public = tex::admission::RenderRequest { body: BODY.to_vec(), token: None };
    assert_eq!(public.route(KEY), Route::Public);
    let forged = tex::admission::RenderRequest {
        body: b"what do ya want for nothing!".to_vec(),
        token: Some(TOKEN.to_string()),
    };
    assert_eq!(forged.route(KEY), Route::Rejected);
}
