//! What the front end answers: the outcome of a request mapped to the
//! category that the client sees.

use crate::admission::Route;
use crate::dispatch::Lane;
use crate::pool::{outcome_of, Outcome, RenderError};
use vstd::prelude::*;

verus! {

/// The answer to a request.
#[derive(Clone, Debug, PartialEq, Eq)]
pub enum Reply {
    /// The rendered image, served as `image/png`.
    Image(Vec<u8>),
    /// The client's input is at fault; the text says how.
    BadInput(String),
    /// The admission check failed. Nothing tells which part of it.
    Unauthorized,
    /// The service is at fault; no diagnostic is given out.
    Fault,
}

/// Mathematical value of a [`Reply`].
pub enum ReplyView {
    Image(Seq<u8>),
    BadInput(Seq<char>),
    Unauthorized,
    Fault,
}

impl View for Reply {
    type V = ReplyView;

    open spec fn view(&self) -> ReplyView {
        match self {
            Reply::Image(image) => ReplyView::Image(image@),
            Reply::BadInput(text) => ReplyView::BadInput(text@),
            Reply::Unauthorized => ReplyView::Unauthorized,
            Reply::Fault => ReplyView::Fault,
        }
    }
}

/// The answer to a render call that ended in `outcome`: the image, the
/// transcript of a document error, the word `timeout` after a timeout, and
/// a bare fault for everything else.
pub open spec fn reply_of(outcome: Outcome) -> ReplyView {
    match outcome {
        Outcome::Image(image) => ReplyView::Image(image),
        Outcome::Tex(text) => ReplyView::BadInput(text),
        Outcome::Timeout => ReplyView::BadInput("timeout"@),
        Outcome::Backend(_) => ReplyView::Fault,
        Outcome::TooManyTries => ReplyView::Fault,
    }
}

/// The HTTP status that goes with a reply.
pub open spec fn status_of(reply: ReplyView) -> u16 {
    match reply {
        ReplyView::Image(_) => 200,
        ReplyView::BadInput(_) => 400,
        ReplyView::Unauthorized => 401,
        ReplyView::Fault => 500,
    }
}

/// Maps the result of a render call to the answer for the client.
pub fn render_response(result: Result<Vec<u8>, RenderError>) -> (reply: Reply)
    ensures
        reply@ == reply_of(outcome_of(result)),
{
    match result {
        Ok(image) => Reply::Image(image),
        Err(RenderError::Tex(text)) => Reply::BadInput(text),
        Err(RenderError::Timeout) => Reply::BadInput("timeout".to_owned()),
        Err(_) => Reply::Fault,
    }
}

/// What admission makes of a route: the pool that serves the request, or
/// the answer to a request that is turned away.
pub open spec fn admission_of(route: Route) -> Result<Lane, ReplyView> {
    match route {
        Route::Priority => Ok(Lane::Priority),
        Route::Public => Ok(Lane::Public),
        Route::Rejected => Err(ReplyView::Unauthorized),
    }
}

/// Settles admission for a routed request, before any pool is touched: a
/// request that was turned away is answered as unauthorized, and every
/// other goes to the pool of its route.
pub fn lane_or_refusal(route: Route) -> (r: Result<Lane, Reply>)
    ensures
        match r {
            Ok(lane) => admission_of(route) == Ok::<Lane, ReplyView>(lane),
            Err(reply) => admission_of(route) == Err::<Lane, ReplyView>(reply@),
        },
{
    match route {
        Route::Priority => Ok(Lane::Priority),
        Route::Public => Ok(Lane::Public),
        Route::Rejected => Err(Reply::Unauthorized),
    }
}

impl Reply {
    /// The HTTP status of this reply.
    pub fn status(&self) -> (status: u16)
        ensures
            status == status_of(self@),
    {
        match self {
            Reply::Image(_) => 200,
            Reply::BadInput(_) => 400,
            Reply::Unauthorized => 401,
            Reply::Fault => 500,
        }
    }
}

} // verus!
