use tex::admission::Route;
use tex::dispatch::Lane;
use tex::pool::{Attempt, Render, RenderError};
use tex::proto::{Code, Response};
use tex::reply::{lane_or_refusal, render_response, Reply};

#[test]
fn image_is_served() {
    let reply = render_response(Ok(vec![1, 2, 3]));
    assert_eq!(reply, Reply::Image(vec![1, 2, 3]));
    assert_eq!(reply.status(), 200);
}

#[test]
fn document_error_is_bad_input_with_transcript() {
    let reply = render_response(Err(RenderError::Tex("undefined control sequence".to_string())));
    assert_eq!(reply, Reply::BadInput("undefined control sequence".to_string()));
    assert_eq!(reply.status(), 400);
}

#[test]
fn timeout_is_bad_input() {
    let reply = render_response(Err(RenderError::Timeout));
    assert_eq!(reply, Reply::BadInput("timeout".to_string()));
    assert_eq!(reply.status(), 400);
}

#[test]
fn everything_else_is_a_fault() {
    for error in [
        RenderError::Backend(Code::ErrMupdf),
        RenderError::Backend(Code::ErrInternal),
        RenderError::TooManyTries,
    ] {
        let reply = render_response(Err(error));
        assert_eq!(reply, Reply::Fault);
        assert_eq!(reply.status(), 500);
    }
}

#[test]
fn admission_failure_is_unauthorized() {
    assert_eq!(Reply::Unauthorized.status(), 401);
}

#[test]
fn document_error_that_is_not_utf8_is_bad_input() {
    let mut render = Render::new(1);
    let result = render
        .settle(Attempt::Replied(Response { code: Code::ErrTex, data: vec![0xff, 0xfe] }))
        .unwrap();
    let reply = render_response(result);
    assert_eq!(reply, Reply::BadInput("\u{fffd}\u{fffd}".to_string()));
    assert_eq!(reply.status(), 400);
}

#[test]
fn rejected_route_is_answered_as_unauthorized() {
    assert_eq!(lane_or_refusal(Route::Rejected), Err(Reply::Unauthorized));
    assert_eq!(lane_or_refusal(Route::Rejected).unwrap_err().status(), 401);
}

#[test]
fn admitted_routes_go_to_their_pool() {
    assert_eq!(lane_or_refusal(Route::Priority), Ok(Lane::Priority));
    assert_eq!(lane_or_refusal(Route::Public), Ok(Lane::Public));
}
