//! The connection pool and the policy of one render call.
//!
//! A pool keeps a first-in, first-out queue of slots, each a connection to
//! a backend that is being established or is ready. A render call takes the
//! oldest slot for each attempt and queues its replacement in the same
//! breath, so the depth of the pool is the same before and after.
//!
//! Establishing connections and talking to a backend is the caller's work.
//! What the pool decides is here: which slot serves an attempt, and what
//! follows from the way an attempt ended.

use crate::proto::{Code, Response, ResponseView};
use std::collections::VecDeque;
use vstd::prelude::*;
use vstd::utf8::{decode_utf8, valid_utf8};

verus! {

/// Seconds granted to one attempt, from waiting for the connection to the
/// last byte of the reply.
pub const RENDER_DEADLINE_SECS: u64 = 5;

/// Why a render call produced no image.
#[derive(Clone, Debug, PartialEq, Eq)]
pub enum RenderError {
    /// The document failed to typeset; the text is the backend's transcript.
    Tex(String),
    /// The backend did not answer within the deadline.
    Timeout,
    /// The backend reported a failure that is not the document's fault.
    Backend(Code),
    /// Every attempt failed before a reply arrived.
    TooManyTries,
}

/// How one attempt ended.
#[derive(Clone, Debug, PartialEq, Eq)]
pub enum Attempt {
    /// The deadline passed first.
    TimedOut,
    /// The connection was never ready, a write or read failed, or the frame
    /// was malformed.
    Failed,
    /// A well-formed response arrived.
    Replied(Response),
}

/// Mathematical value of an [`Attempt`].
pub enum AttemptView {
    TimedOut,
    Failed,
    Replied(ResponseView),
}

impl View for Attempt {
    type V = AttemptView;

    open spec fn view(&self) -> AttemptView {
        match self {
            Attempt::TimedOut => AttemptView::TimedOut,
            Attempt::Failed => AttemptView::Failed,
            Attempt::Replied(response) => AttemptView::Replied(response@),
        }
    }
}

/// Mathematical value of what a render call returns.
pub enum Outcome {
    Image(Seq<u8>),
    Tex(Seq<char>),
    Timeout,
    Backend(Code),
    TooManyTries,
}

/// The outcome that `result` stands for.
pub open spec fn outcome_of(result: Result<Vec<u8>, RenderError>) -> Outcome {
    match result {
        Ok(image) => Outcome::Image(image@),
        Err(RenderError::Tex(text)) => Outcome::Tex(text@),
        Err(RenderError::Timeout) => Outcome::Timeout,
        Err(RenderError::Backend(code)) => Outcome::Backend(code),
        Err(RenderError::TooManyTries) => Outcome::TooManyTries,
    }
}

/// The text that `bytes` stand for when read leniently: each sequence that
/// is not well-formed UTF-8 gives way to the replacement character U+FFFD.
pub uninterp spec fn utf8_lossy(bytes: Seq<u8>) -> Seq<char>;

/// The transcript of a document error as the client reads it: the text
/// that the payload encodes, and its lenient reading where the payload is
/// not well-formed UTF-8.
pub open spec fn transcript_of(data: Seq<u8>) -> Seq<char> {
    if valid_utf8(data) {
        decode_utf8(data)
    } else {
        utf8_lossy(data)
    }
}

/// What a well-formed response means for the caller. A typesetting failure
/// is a document error whatever its transcript holds.
pub open spec fn reply_outcome(response: ResponseView) -> Outcome {
    match response.code {
        Code::Success => Outcome::Image(response.data),
        Code::ErrTex => Outcome::Tex(transcript_of(response.data)),
        Code::ErrMupdf => Outcome::Backend(Code::ErrMupdf),
        Code::ErrInternal => Outcome::Backend(Code::ErrInternal),
    }
}

/// What follows from one attempt of a render call on a pool of `size`
/// slots, `failed` of whose earlier attempts failed: the outcome of the
/// call, or `None` where another attempt is due.
pub open spec fn verdict_of(size: nat, failed: nat, attempt: AttemptView) -> Option<Outcome> {
    match attempt {
        AttemptView::TimedOut => Some(Outcome::Timeout),
        AttemptView::Failed => if failed < size {
            None
        } else {
            Some(Outcome::TooManyTries)
        },
        AttemptView::Replied(response) => Some(reply_outcome(response)),
    }
}

/// The outcome of a render call whose attempts end as `attempts` says, in
/// that order, after `failed` failures; `None` while it is undecided.
pub open spec fn render_outcome(size: nat, failed: nat, attempts: Seq<AttemptView>) -> Option<
    Outcome,
>
    decreases attempts.len(),
{
    if attempts.len() == 0 {
        None
    } else {
        match verdict_of(size, failed, attempts[0]) {
            Some(outcome) => Some(outcome),
            None => render_outcome(size, failed + 1, attempts.drop_first()),
        }
    }
}

/// How many of `attempts` a render call makes: those up to the one that
/// decides it.
pub open spec fn attempts_made(size: nat, failed: nat, attempts: Seq<AttemptView>) -> nat
    decreases attempts.len(),
{
    if attempts.len() == 0 {
        0
    } else {
        match verdict_of(size, failed, attempts[0]) {
            Some(_) => 1,
            None => 1 + attempts_made(size, failed + 1, attempts.drop_first()),
        }
    }
}

/// `String::from_utf8_lossy` of std: the lenient reading of `bytes`, which
/// is the text they encode where they are well-formed UTF-8.
#[verifier::external_body]
fn lossy_text(bytes: &[u8]) -> (text: String)
    ensures
        text@ == utf8_lossy(bytes@),
        valid_utf8(bytes@) ==> text@ == decode_utf8(bytes@),
{
    String::from_utf8_lossy(bytes).into_owned()
}

/// Turns a well-formed response into the result of the render call: the
/// image on success, the transcript as a document error, whether or not it
/// is well-formed UTF-8, and a backend fault for every other code.
pub fn interpret(response: Response) -> (result: Result<Vec<u8>, RenderError>)
    ensures
        outcome_of(result) == reply_outcome(response@),
{
    match response.code {
        Code::Success => Ok(response.data),
        Code::ErrTex => Err(RenderError::Tex(lossy_text(response.data.as_slice()))),
        Code::ErrMupdf => Err(RenderError::Backend(Code::ErrMupdf)),
        Code::ErrInternal => Err(RenderError::Backend(Code::ErrInternal)),
    }
}

/// A render call in progress on a pool of `size` slots.
#[derive(Clone, Copy, Debug, PartialEq, Eq)]
pub struct Render {
    /// Size of the pool that serves the call.
    pub size: usize,
    /// Attempts that failed so far.
    pub failed: usize,
}

impl Render {
    /// A call that has made no attempt yet.
    pub fn new(size: usize) -> (render: Render)
        ensures
            render.size == size,
            render.failed == 0,
    {
        Render { size, failed: 0 }
    }

    /// Takes note of how an attempt ended. Returns the result of the call,
    /// or `None` where the caller is to make another attempt. A timeout
    /// and a response end the call at once; a failed attempt is retried
    /// until `size + 1` attempts have failed.
    pub fn settle(&mut self, attempt: Attempt) -> (result: Option<Result<Vec<u8>, RenderError>>)
        ensures
            final(self).size == old(self).size,
            match verdict_of(old(self).size as nat, old(self).failed as nat, attempt@) {
                Some(outcome) => result.is_some() && outcome_of(result.unwrap()) == outcome
                    && final(self).failed == old(self).failed,
                None => result.is_none() && final(self).failed == old(self).failed + 1,
            },
    {
        match attempt {
            Attempt::TimedOut => Some(Err(RenderError::Timeout)),
            Attempt::Failed => {
                if self.failed < self.size {
                    self.failed = self.failed + 1;
                    None
                } else {
                    Some(Err(RenderError::TooManyTries))
                }
            },
            Attempt::Replied(response) => Some(interpret(response)),
        }
    }
}

/// `count` attempts that all failed.
pub open spec fn failures(count: nat) -> Seq<AttemptView> {
    Seq::new(count, |i: int| AttemptView::Failed)
}

/// While the failures stay within the size of the pool, a call goes on
/// after them as if it had begun there: `count` failed attempts cost
/// `count` attempts and decide nothing.
pub proof fn lemma_failures_are_retried(size: nat, failed: nat, count: nat, then: Seq<AttemptView>)
    requires
        failed + count <= size,
    ensures
        render_outcome(size, failed, failures(count) + then) == render_outcome(
            size,
            failed + count,
            then,
        ),
        attempts_made(size, failed, failures(count) + then) == count + attempts_made(
            size,
            failed + count,
            then,
        ),
    decreases count,
{
    let all = failures(count) + then;
    if count == 0 {
        assert(all =~= then);
    } else {
        assert(all[0] == AttemptView::Failed);
        assert(all.drop_first() =~= failures((count - 1) as nat) + then);
        lemma_failures_are_retried(size, failed + 1, (count - 1) as nat, then);
    }
}

/// An attempt that does not fail decides the call on the spot, after any
/// number of failures within the size of the pool: the call makes no
/// further attempt, whatever would have come of it.
pub proof fn lemma_first_answer_decides(
    size: nat,
    count: nat,
    answer: AttemptView,
    rest: Seq<AttemptView>,
)
    requires
        count <= size,
        answer != AttemptView::Failed,
    ensures
        render_outcome(size, 0, failures(count) + seq![answer] + rest) == verdict_of(
            size,
            count,
            answer,
        ),
        verdict_of(size, count, answer).is_some(),
        attempts_made(size, 0, failures(count) + seq![answer] + rest) == count + 1,
{
    let then = seq![answer] + rest;
    assert(failures(count) + seq![answer] + rest =~= failures(count) + then);
    lemma_failures_are_retried(size, 0, count, then);
    assert(then[0] == answer);
}

/// A healthy pool renders each request once: where the first attempt is
/// answered with success, the call returns exactly the image that the
/// backend sent, after one attempt.
pub proof fn lemma_healthy_pool_renders_once(size: nat, image: Seq<u8>, rest: Seq<AttemptView>)
    ensures
        render_outcome(
            size,
            0,
            seq![AttemptView::Replied(ResponseView { code: Code::Success, data: image })] + rest,
        ) == Some(Outcome::Image(image)),
        attempts_made(
            size,
            0,
            seq![AttemptView::Replied(ResponseView { code: Code::Success, data: image })] + rest,
        ) == 1,
{
    let answer = AttemptView::Replied(ResponseView { code: Code::Success, data: image });
    assert(failures(0) + seq![answer] + rest =~= seq![answer] + rest);
    lemma_first_answer_decides(size, 0, answer, rest);
}

/// A document error is passed on and never retried: where the backend
/// answers the first attempt with a typesetting failure, the call returns
/// the transcript, after one attempt. A transcript that is well-formed
/// UTF-8 comes back as the very text that was sent.
pub proof fn lemma_document_error_is_final(size: nat, transcript: Seq<u8>, rest: Seq<AttemptView>)
    ensures
        render_outcome(
            size,
            0,
            seq![AttemptView::Replied(ResponseView { code: Code::ErrTex, data: transcript })]
                + rest,
        ) == Some(Outcome::Tex(transcript_of(transcript))),
        valid_utf8(transcript) ==> transcript_of(transcript) == decode_utf8(transcript),
        attempts_made(
            size,
            0,
            seq![AttemptView::Replied(ResponseView { code: Code::ErrTex, data: transcript })]
                + rest,
        ) == 1,
{
    let answer = AttemptView::Replied(ResponseView { code: Code::ErrTex, data: transcript });
    assert(failures(0) + seq![answer] + rest =~= seq![answer] + rest);
    lemma_first_answer_decides(size, 0, answer, rest);
}

/// A timeout ends the call at once, whatever the size of the pool and
/// however many attempts are left.
pub proof fn lemma_timeout_is_final(size: nat, count: nat, rest: Seq<AttemptView>)
    requires
        count <= size,
    ensures
        render_outcome(size, 0, failures(count) + seq![AttemptView::TimedOut] + rest) == Some(
            Outcome::Timeout,
        ),
        attempts_made(size, 0, failures(count) + seq![AttemptView::TimedOut] + rest) == count + 1,
{
    lemma_first_answer_decides(size, count, AttemptView::TimedOut, rest);
}

/// Each slot of a stale pool is tried once: after `size` failed attempts
/// the response to the next one still decides the call.
pub proof fn lemma_last_attempt_counts(size: nat, response: ResponseView, rest: Seq<AttemptView>)
    ensures
        render_outcome(size, 0, failures(size) + seq![AttemptView::Replied(response)] + rest)
            == Some(reply_outcome(response)),
        attempts_made(size, 0, failures(size) + seq![AttemptView::Replied(response)] + rest)
            == size + 1,
{
    lemma_first_answer_decides(size, size, AttemptView::Replied(response), rest);
}

/// After `size + 1` failed attempts the call gives up and makes no other.
pub proof fn lemma_exhaustion(size: nat, rest: Seq<AttemptView>)
    ensures
        render_outcome(size, 0, failures(size + 1) + rest) == Some(Outcome::TooManyTries),
        attempts_made(size, 0, failures(size + 1) + rest) == size + 1,
{
    let then = seq![AttemptView::Failed] + rest;
    assert(failures(size + 1) + rest =~= failures(size) + then);
    lemma_failures_are_retried(size, 0, size, then);
    assert(then[0] == AttemptView::Failed);
}

/// No call makes more than `size + 1` attempts, and one that has made
/// that many is decided.
pub proof fn lemma_attempts_are_bounded(size: nat, failed: nat, attempts: Seq<AttemptView>)
    requires
        failed <= size,
    ensures
        attempts_made(size, failed, attempts) <= size + 1 - failed,
        attempts_made(size, failed, attempts) <= attempts.len(),
        attempts_made(size, failed, attempts) < attempts.len() ==> render_outcome(
            size,
            failed,
            attempts,
        ).is_some(),
    decreases attempts.len(),
{
    if attempts.len() > 0 && verdict_of(size, failed, attempts[0]).is_none() {
        lemma_attempts_are_bounded(size, failed + 1, attempts.drop_first());
    }
}


/// The queue of a pool after one attempt has queued `replacement` and
/// taken the oldest slot.
pub open spec fn checked_out<T>(queue: Seq<T>, replacement: T) -> Seq<T> {
    queue.push(replacement).drop_first()
}

/// The queue of a pool after as many attempts as `replacements` has
/// slots, each of which queued its replacement and took the oldest slot.
pub open spec fn after_attempts<T>(queue: Seq<T>, replacements: Seq<T>) -> Seq<T>
    decreases replacements.len(),
{
    if replacements.len() == 0 {
        queue
    } else {
        after_attempts(checked_out(queue, replacements[0]), replacements.drop_first())
    }
}

/// The depth of a pool heals itself: after any number of attempts, of
/// render calls that succeeded or failed, the pool holds as many slots as
/// before, so a full pool is full again and none grows.
pub proof fn lemma_depth_is_kept<T>(queue: Seq<T>, replacements: Seq<T>)
    ensures
        after_attempts(queue, replacements).len() == queue.len(),
    decreases replacements.len(),
{
    if replacements.len() > 0 {
        lemma_depth_is_kept(checked_out(queue, replacements[0]), replacements.drop_first());
    }
}

/// A pool of `size` slots for the backend at `addr`. `T` is the caller's
/// handle on a connection that is being established or is ready. A pool is
/// made full, and every turn at it leaves it as deep as it was.
pub struct RenderPool<T> {
    streams: VecDeque<T>,
    size: usize,
    addr: String,
}

impl<T> View for RenderPool<T> {
    type V = Seq<T>;

    /// The queued slots, oldest first.
    closed spec fn view(&self) -> Seq<T> {
        self.streams@
    }
}

impl<T> RenderPool<T> {
    /// The number of slots that the pool keeps.
    pub closed spec fn spec_size(&self) -> usize {
        self.size
    }

    /// The address of the backend.
    pub closed spec fn spec_addr(&self) -> Seq<char> {
        self.addr@
    }

    /// Every slot of the pool is populated: the pool holds as many
    /// connections, pending or ready, as its size says.
    pub open spec fn wf(&self) -> bool {
        self@.len() == self.spec_size()
    }

    /// A pool of `size` slots for the backend at `addr`. Each slot is
    /// scheduled on the spot by a call of `connect` with the address, and
    /// queued in the order of the calls.
    pub fn new<F: Fn(&str) -> T>(size: usize, addr: &str, connect: &F) -> (pool: Self)
        requires
            connect.requires((addr,)),
        ensures
            pool.spec_size() == size,
            pool.spec_addr() == addr@,
            pool.wf(),
            forall|i: int| 0 <= i < size ==> connect.ensures((addr,), #[trigger] pool@[i]),
    {
        let mut streams: VecDeque<T> = VecDeque::new();
        let mut i: usize = 0;
        while i < size
            invariant
                i <= size,
                streams@.len() == i,
                connect.requires((addr,)),
                forall|j: int| 0 <= j < i ==> connect.ensures((addr,), #[trigger] streams@[j]),
            decreases size - i,
        {
            let slot = connect(addr);
            streams.push_back(slot);
            i += 1;
        }
        RenderPool { streams, size, addr: addr.to_owned() }
    }

    /// The number of slots that the pool keeps.
    #[verifier::when_used_as_spec(spec_size)]
    pub fn size(&self) -> (size: usize)
        ensures
            size == self.spec_size(),
    {
        self.size
    }

    /// The address of the backend.
    pub fn addr(&self) -> (addr: &str)
        ensures
            addr@ == self.spec_addr(),
    {
        self.addr.as_str()
    }

    /// The number of queued slots.
    pub fn depth(&self) -> (depth: usize)
        ensures
            depth == self@.len(),
    {
        self.streams.len()
    }

    /// One attempt's turn at the pool: queues `replacement` and takes the
    /// oldest slot out, which is `replacement` itself where the pool was
    /// empty. The depth of the pool is the same before and after, and the
    /// slots that stay keep their order.
    pub fn checkout(&mut self, replacement: T) -> (slot: T)
        ensures
            final(self).spec_size() == old(self).spec_size(),
            final(self).spec_addr() == old(self).spec_addr(),
            slot == old(self)@.push(replacement)[0],
            final(self)@ == checked_out(old(self)@, replacement),
            final(self)@.len() == old(self)@.len(),
            old(self).wf() ==> final(self).wf(),
    {
        match self.streams.pop_front() {
            Some(slot) => {
                self.streams.push_back(replacement);
                assert(self.streams@ =~= checked_out(old(self)@, replacement));
                slot
            },
            None => {
                assert(self.streams@ =~= checked_out(old(self)@, replacement));
                replacement
            },
        }
    }
}

} // verus!
