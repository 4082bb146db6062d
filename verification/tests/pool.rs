use std::cell::Cell;
use tex::pool::{interpret, Attempt, Render, RenderError, RenderPool, RENDER_DEADLINE_SECS};
use tex::proto::{Code, Response};

fn replied(code: Code, data: &[u8]) -> Attempt {
    Attempt::Replied(Response { code, data: data.to_vec() })
}

fn filled(size: usize) -> RenderPool<u32> {
    let next = Cell::new(0);
    let connect = |_: &str| {
        let slot = next.get();
        next.set(slot + 1);
        slot
    };
    RenderPool::new(size, "localhost:5000", &connect)
}

/// Runs one render call against `pool`, each attempt ending as `attempts`
/// says; returns the result and the slots that served the attempts.
fn run(
    pool: &mut RenderPool<u32>,
    next_slot: &mut u32,
    attempts: Vec<Attempt>,
) -> (Option<Result<Vec<u8>, RenderError>>, Vec<u32>) {
    let mut render = Render::new(pool.size());
    let mut served = Vec::new();
    for attempt in attempts {
        served.push(pool.checkout(*next_slot));
        *next_slot += 1;
        if let Some(result) = render.settle(attempt) {
            return (Some(result), served);
        }
    }
    (None, served)
}

#[test]
fn new_pool_is_full() {
    let pool: RenderPool<u32> = filled(3);
    assert_eq!(pool.size(), 3);
    assert_eq!(pool.addr(), "localhost:5000");
    assert_eq!(pool.depth(), 3);
}

#[test]
fn new_pool_schedules_each_slot_at_its_address() {
    let calls = Cell::new(0);
    let connect = |addr: &str| {
        calls.set(calls.get() + 1);
        format!("{}#{}", addr, calls.get())
    };
    let mut pool = RenderPool::new(2, "backend:5000", &connect);
    assert_eq!(calls.get(), 2);
    assert_eq!(pool.checkout("later".to_string()), "backend:5000#1");
    assert_eq!(pool.checkout("latest".to_string()), "backend:5000#2");
    assert_eq!(pool.checkout("last".to_string()), "later");
}

#[test]
fn slots_are_served_oldest_first() {
    let mut pool = filled(3);
    assert_eq!(pool.checkout(100), 0);
    assert_eq!(pool.checkout(101), 1);
    assert_eq!(pool.checkout(102), 2);
    assert_eq!(pool.checkout(103), 100);
    assert_eq!(pool.depth(), 3);
}

#[test]
fn empty_pool_serves_the_replacement() {
    let mut pool: RenderPool<u32> = filled(0);
    assert_eq!(pool.checkout(7), 7);
    assert_eq!(pool.depth(), 0);
}

#[test]
fn healthy_pool_renders_once() {
    let mut pool = filled(2);
    let mut next = 100;
    let (result, served) = run(
        &mut pool,
        &mut next,
        vec![replied(Code::Success, b"\x89PNG"), Attempt::Failed, Attempt::TimedOut],
    );
    assert_eq!(result, Some(Ok(b"\x89PNG".to_vec())));
    assert_eq!(served, vec![0]);
}

#[test]
fn document_error_is_surfaced_and_not_retried() {
    let mut pool = filled(4);
    let mut next = 100;
    let (result, served) = run(
        &mut pool,
        &mut next,
        vec![
            replied(Code::ErrTex, b"undefined control sequence"),
            replied(Code::Success, b"late"),
        ],
    );
    assert_eq!(
        result,
        Some(Err(RenderError::Tex("undefined control sequence".to_string())))
    );
    assert_eq!(served.len(), 1);
}

#[test]
fn timeout_is_not_retried() {
    for size in [0usize, 1, 5] {
        let mut pool = filled(size);
        let mut next = 100;
        let (result, served) = run(
            &mut pool,
            &mut next,
            vec![Attempt::TimedOut, replied(Code::Success, b"late")],
        );
        assert_eq!(result, Some(Err(RenderError::Timeout)));
        assert_eq!(served.len(), 1);
    }
    assert_eq!(RENDER_DEADLINE_SECS, 5);
}

#[test]
fn timeout_after_failures_ends_the_call() {
    let mut pool = filled(3);
    let mut next = 100;
    let (result, served) = run(
        &mut pool,
        &mut next,
        vec![Attempt::Failed, Attempt::Failed, Attempt::TimedOut, Attempt::Failed],
    );
    assert_eq!(result, Some(Err(RenderError::Timeout)));
    assert_eq!(served, vec![0, 1, 2]);
}

#[test]
fn last_attempt_after_stale_pool_succeeds() {
    let mut pool = filled(3);
    let mut next = 100;
    let (result, served) = run(
        &mut pool,
        &mut next,
        vec![
            Attempt::Failed,
            Attempt::Failed,
            Attempt::Failed,
            replied(Code::Success, b"image"),
        ],
    );
    assert_eq!(result, Some(Ok(b"image".to_vec())));
    assert_eq!(served, vec![0, 1, 2, 100]);
}

#[test]
fn all_attempts_failing_is_exhaustion() {
    let mut pool = filled(3);
    let mut next = 100;
    let (result, served) = run(
        &mut pool,
        &mut next,
        vec![
            Attempt::Failed,
            Attempt::Failed,
            Attempt::Failed,
            Attempt::Failed,
            replied(Code::Success, b"never read"),
        ],
    );
    assert_eq!(result, Some(Err(RenderError::TooManyTries)));
    assert_eq!(served.len(), 4);
}

#[test]
fn pool_of_size_zero_makes_one_attempt() {
    let mut render = Render::new(0);
    assert_eq!(render.settle(Attempt::Failed), Some(Err(RenderError::TooManyTries)));
}

#[test]
fn call_is_undecided_while_attempts_fail() {
    let mut render = Render::new(2);
    assert_eq!(render.settle(Attempt::Failed), None);
    assert_eq!(render.failed, 1);
    assert_eq!(render.settle(Attempt::Failed), None);
    assert_eq!(render.failed, 2);
    assert_eq!(render.settle(Attempt::Failed), Some(Err(RenderError::TooManyTries)));
    assert_eq!(render.failed, 2);
    assert_eq!(render.size, 2);
}

#[test]
fn depth_returns_to_size_after_every_call() {
    let mut pool = filled(3);
    let mut next = 100;
    let calls = vec![
        vec![replied(Code::Success, b"a")],
        vec![Attempt::Failed, replied(Code::ErrTex, b"bad")],
        vec![Attempt::TimedOut],
        vec![Attempt::Failed, Attempt::Failed, Attempt::Failed, Attempt::Failed],
        vec![replied(Code::ErrInternal, b"boom")],
    ];
    for attempts in calls {
        let (result, _) = run(&mut pool, &mut next, attempts);
        assert!(result.is_some());
        assert_eq!(pool.depth(), 3);
    }
}

#[test]
fn success_hands_out_the_payload() {
    let response = Response { code: Code::Success, data: vec![1, 2, 3] };
    assert_eq!(interpret(response), Ok(vec![1, 2, 3]));
    let empty = Response { code: Code::Success, data: vec![] };
    assert_eq!(interpret(empty), Ok(vec![]));
}

#[test]
fn transcript_is_decoded_as_utf8() {
    let response = Response { code: Code::ErrTex, data: "! Mißing $ inserted".as_bytes().to_vec() };
    assert_eq!(
        interpret(response),
        Err(RenderError::Tex("! Mißing $ inserted".to_string()))
    );
}

#[test]
fn transcript_that_is_not_utf8_is_still_a_document_error() {
    let response = Response { code: Code::ErrTex, data: vec![b'a', 0xff, b'b'] };
    assert_eq!(interpret(response), Err(RenderError::Tex("a\u{fffd}b".to_string())));
    let response = Response { code: Code::ErrTex, data: vec![0xff, 0xfe] };
    assert_eq!(interpret(response), Err(RenderError::Tex("\u{fffd}\u{fffd}".to_string())));
}

#[test]
fn document_error_that_is_not_utf8_is_not_retried() {
    let mut pool = filled(2);
    let mut next = 100;
    let (result, served) = run(
        &mut pool,
        &mut next,
        vec![replied(Code::ErrTex, &[0xff, 0xfe]), replied(Code::Success, b"late")],
    );
    assert_eq!(result, Some(Err(RenderError::Tex("\u{fffd}\u{fffd}".to_string()))));
    assert_eq!(served.len(), 1);
}

#[test]
fn other_codes_are_backend_faults() {
    let raster = Response { code: Code::ErrMupdf, data: b"cannot draw".to_vec() };
    assert_eq!(interpret(raster), Err(RenderError::Backend(Code::ErrMupdf)));
    let internal = Response { code: Code::ErrInternal, data: b"no such file".to_vec() };
    assert_eq!(interpret(internal), Err(RenderError::Backend(Code::ErrInternal)));
}
