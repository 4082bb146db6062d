//! One attempt on one connection, step by step: wait for the slot, send
//! the job, read the header, read the payload. The caller does the waiting,
//! writing and reading, under the deadline; what to do next is decided
//! here.

use crate::connect::{job_bytes, job_of};
use crate::pool::{Attempt, AttemptView};
use crate::proto::{
    be_word, code_number, frame_of, header_of, lemma_word_round_trip, read_header, Code, Response,
    ResponseView, HEADER_LEN,
};
use vstd::prelude::*;

verus! {

/// Where an attempt stands.
#[derive(Clone, Copy, Debug, PartialEq, Eq, Structural)]
pub enum Phase {
    /// Waiting for the slot to become a ready connection.
    Connecting,
    /// The job is being written.
    Sending,
    /// The eight header bytes are being read.
    Header,
    /// The header announced this code and this many payload bytes, which
    /// are being read.
    Payload(Code, u32),
    /// The attempt is over.
    Finished,
}

/// What the caller reports of the step it was asked to do.
#[derive(Clone, Debug, PartialEq, Eq)]
pub enum Event {
    /// The slot is a ready connection.
    Ready,
    /// The bytes were written.
    Sent,
    /// The bytes that were asked for, read to the last one.
    Read(Vec<u8>),
    /// The slot failed to connect, or a write or read failed.
    Broken,
}

/// Mathematical value of an [`Event`].
pub enum EventView {
    Ready,
    Sent,
    Read(Seq<u8>),
    Broken,
}

impl View for Event {
    type V = EventView;

    open spec fn view(&self) -> EventView {
        match self {
            Event::Ready => EventView::Ready,
            Event::Sent => EventView::Sent,
            Event::Read(bytes) => EventView::Read(bytes@),
            Event::Broken => EventView::Broken,
        }
    }
}

/// What the caller does next.
#[derive(Clone, Debug, PartialEq, Eq)]
pub enum Action {
    /// Write these bytes.
    Send(Vec<u8>),
    /// Read exactly this many bytes.
    Read(u32),
    /// Drop the connection; the attempt ended this way.
    Done(Attempt),
}

/// Mathematical value of an [`Action`].
pub enum ActionView {
    Send(Seq<u8>),
    Read(u32),
    Done(AttemptView),
}

impl View for Action {
    type V = ActionView;

    open spec fn view(&self) -> ActionView {
        match self {
            Action::Send(bytes) => ActionView::Send(bytes@),
            Action::Read(count) => ActionView::Read(*count),
            Action::Done(attempt) => ActionView::Done(attempt@),
        }
    }
}

/// The phase and the action that follow `event` in `phase`, for a job
/// with document body `body`. An event that the phase does not wait for,
/// a header with an unknown code and a read of the wrong length all end
/// the attempt as failed.
pub open spec fn next_step(phase: Phase, event: EventView, body: Seq<u8>) -> (Phase, ActionView) {
    let failed = (Phase::Finished, ActionView::Done(AttemptView::Failed));
    match (phase, event) {
        (Phase::Connecting, EventView::Ready) => (Phase::Sending, ActionView::Send(job_of(body))),
        (Phase::Sending, EventView::Sent) => (Phase::Header, ActionView::Read(8)),
        (Phase::Header, EventView::Read(bytes)) => if bytes.len() == HEADER_LEN {
            match header_of(bytes) {
                Ok((code, length)) => (Phase::Payload(code, length), ActionView::Read(length)),
                Err(_) => failed,
            }
        } else {
            failed
        },
        (Phase::Payload(code, length), EventView::Read(bytes)) => if bytes.len() == length {
            (
                Phase::Finished,
                ActionView::Done(AttemptView::Replied(ResponseView { code, data: bytes })),
            )
        } else {
            failed
        },
        _ => failed,
    }
}

/// Decides the next step of an attempt.
pub fn advance(phase: Phase, event: Event, body: &[u8]) -> (next: (Phase, Action))
    ensures
        next.0 == next_step(phase, event@, body@).0,
        next.1@ == next_step(phase, event@, body@).1,
{
    match (phase, event) {
        (Phase::Connecting, Event::Ready) => (Phase::Sending, Action::Send(job_bytes(body))),
        (Phase::Sending, Event::Sent) => (Phase::Header, Action::Read(8)),
        (Phase::Header, Event::Read(bytes)) => {
            if bytes.len() == HEADER_LEN {
                match read_header(bytes.as_slice()) {
                    Ok((code, length)) => (Phase::Payload(code, length), Action::Read(length)),
                    Err(_) => (Phase::Finished, Action::Done(Attempt::Failed)),
                }
            } else {
                (Phase::Finished, Action::Done(Attempt::Failed))
            }
        },
        (Phase::Payload(code, length), Event::Read(bytes)) => {
            if bytes.len() == length as usize {
                (Phase::Finished, Action::Done(Attempt::Replied(Response { code, data: bytes })))
            } else {
                (Phase::Finished, Action::Done(Attempt::Failed))
            }
        },
        _ => (Phase::Finished, Action::Done(Attempt::Failed)),
    }
}

/// On a sound connection an attempt ends with the response that the
/// backend framed: the job goes out as the body and the closing fragment,
/// the header is read first and tells how much payload to read, and the
/// payload comes back as it was sent.
pub proof fn lemma_exchange_reads_frame(body: Seq<u8>, response: ResponseView)
    requires
        response.data.len() <= u32::MAX,
    ensures
        ({
            let frame = frame_of(response);
            let header = frame.subrange(0, HEADER_LEN as int);
            let payload = frame.subrange(HEADER_LEN as int, frame.len() as int);
            let sending = next_step(Phase::Connecting, EventView::Ready, body);
            let reading = next_step(sending.0, EventView::Sent, body);
            let announced = next_step(reading.0, EventView::Read(header), body);
            let done = next_step(announced.0, EventView::Read(payload), body);
            &&& sending.1 == ActionView::Send(job_of(body))
            &&& reading.1 == ActionView::Read(8)
            &&& announced.1 == ActionView::Read(response.data.len() as u32)
            &&& done == (Phase::Finished, ActionView::Done(AttemptView::Replied(response)))
        }),
{
    let code = be_word(code_number(response.code));
    let length = be_word(response.data.len() as u32);
    let frame = frame_of(response);
    let header = frame.subrange(0, HEADER_LEN as int);
    let payload = frame.subrange(HEADER_LEN as int, frame.len() as int);
    assert(header =~= Seq::<u8>::empty() + code + length);
    assert(header =~= code + length + Seq::<u8>::empty());
    lemma_word_round_trip(code_number(response.code), Seq::empty(), length);
    lemma_word_round_trip(response.data.len() as u32, code, Seq::empty());
    assert(payload =~= response.data);
}

} // verus!
