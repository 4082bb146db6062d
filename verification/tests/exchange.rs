use tex::exchange::{advance, Action, Event, Phase};
use tex::pool::Attempt;
use tex::proto::{write_response, Code, Response};

fn failed() -> (Phase, Action) {
    (Phase::Finished, Action::Done(Attempt::Failed))
}

#[test]
fn ready_slot_is_sent_the_job() {
    assert_eq!(
        advance(Phase::Connecting, Event::Ready, b"$x$"),
        (Phase::Sending, Action::Send(b"$x$\n\\end{document}\n".to_vec()))
    );
}

#[test]
fn header_is_read_after_the_job_is_sent() {
    assert_eq!(advance(Phase::Sending, Event::Sent, b"$x$"), (Phase::Header, Action::Read(8)));
}

#[test]
fn header_announces_the_payload() {
    assert_eq!(
        advance(Phase::Header, Event::Read(vec![0, 0, 0, 1, 0, 0, 1, 2]), b""),
        (Phase::Payload(Code::ErrTex, 258), Action::Read(258))
    );
}

#[test]
fn payload_completes_the_response() {
    assert_eq!(
        advance(Phase::Payload(Code::ErrTex, 3), Event::Read(b"bad".to_vec()), b""),
        (
            Phase::Finished,
            Action::Done(Attempt::Replied(Response { code: Code::ErrTex, data: b"bad".to_vec() }))
        )
    );
}

#[test]
fn empty_payload_completes_the_response() {
    assert_eq!(
        advance(Phase::Payload(Code::Success, 0), Event::Read(vec![]), b""),
        (
            Phase::Finished,
            Action::Done(Attempt::Replied(Response { code: Code::Success, data: vec![] }))
        )
    );
}

#[test]
fn unknown_code_fails_the_attempt() {
    assert_eq!(
        advance(Phase::Header, Event::Read(vec![0, 0, 0, 7, 0, 0, 0, 0]), b""),
        failed()
    );
}

#[test]
fn header_of_wrong_length_fails_the_attempt() {
    assert_eq!(advance(Phase::Header, Event::Read(vec![0, 0, 0, 0]), b""), failed());
    assert_eq!(advance(Phase::Header, Event::Read(vec![0; 9]), b""), failed());
}

#[test]
fn short_payload_fails_the_attempt() {
    assert_eq!(
        advance(Phase::Payload(Code::Success, 4), Event::Read(vec![1, 2, 3]), b""),
        failed()
    );
}

#[test]
fn broken_connection_fails_the_attempt() {
    for phase in [
        Phase::Connecting,
        Phase::Sending,
        Phase::Header,
        Phase::Payload(Code::Success, 1),
        Phase::Finished,
    ] {
        assert_eq!(advance(phase, Event::Broken, b"x"), failed());
    }
}

#[test]
fn unexpected_event_fails_the_attempt() {
    assert_eq!(advance(Phase::Connecting, Event::Sent, b"x"), failed());
    assert_eq!(advance(Phase::Sending, Event::Ready, b"x"), failed());
    assert_eq!(advance(Phase::Header, Event::Sent, b"x"), failed());
    assert_eq!(advance(Phase::Finished, Event::Ready, b"x"), failed());
}

#[test]
fn whole_exchange_reads_what_was_framed() {
    let response = Response { code: Code::Success, data: b"\x89PNG\r\n".to_vec() };
    let mut frame = Vec::new();
    assert_eq!(write_response(&response, &mut frame), Ok(()));
    let body = b"\\[ e^{i\\pi} + 1 = 0 \\]";

    let (phase, action) = advance(Phase::Connecting, Event::Ready, body);
    assert!(matches!(action, Action::Send(_)));
    let (phase, action) = advance(phase, Event::Sent, body);
    assert_eq!(action, Action::Read(8));
    let (phase, action) = advance(phase, Event::Read(frame[..8].to_vec()), body);
    assert_eq!(action, Action::Read(6));
    let (phase, action) = advance(phase, Event::Read(frame[8..].to_vec()), body);
    assert_eq!(phase, Phase::Finished);
    assert_eq!(action, Action::Done(Attempt::Replied(response)));
}
