//! The backend's side of the wire contract: which response reports the
//! way a job went through the typesetter and the rasterizer.

use crate::proto::{Code, Response, ResponseView};
use vstd::prelude::*;

verus! {

/// What a tool left behind when it exited.
#[derive(Clone, Debug, PartialEq, Eq)]
pub struct ToolOutput {
    /// The tool exited with success.
    pub success: bool,
    pub stdout: Vec<u8>,
    pub stderr: Vec<u8>,
}

/// Mathematical value of a [`ToolOutput`].
pub struct ToolOutputView {
    pub success: bool,
    pub stdout: Seq<u8>,
    pub stderr: Seq<u8>,
}

impl View for ToolOutput {
    type V = ToolOutputView;

    open spec fn view(&self) -> ToolOutputView {
        ToolOutputView { success: self.success, stdout: self.stdout@, stderr: self.stderr@ }
    }
}

/// The response after the typesetter has run: none while the job goes on
/// to the rasterizer, and the transcript, standard output first, where
/// typesetting failed.
pub open spec fn typeset_response(typeset: ToolOutputView) -> Option<ResponseView> {
    if typeset.success {
        None
    } else {
        Some(ResponseView { code: Code::ErrTex, data: typeset.stdout + typeset.stderr })
    }
}

/// The response after the rasterizer has run: the image from its standard
/// output, or its diagnostic from standard error.
pub open spec fn raster_response(raster: ToolOutputView) -> ResponseView {
    if raster.success {
        ResponseView { code: Code::Success, data: raster.stdout }
    } else {
        ResponseView { code: Code::ErrMupdf, data: raster.stderr }
    }
}

/// Judges the typesetter's run. `None` tells the backend to rasterize the
/// page; a response ends the job.
pub fn after_typeset(typeset: ToolOutput) -> (response: Option<Response>)
    ensures
        match response {
            Some(r) => typeset_response(typeset@) == Some(r@),
            None => typeset_response(typeset@).is_none(),
        },
{
    if typeset.success {
        None
    } else {
        let mut data = typeset.stdout;
        let mut rest = typeset.stderr;
        data.append(&mut rest);
        Some(Response { code: Code::ErrTex, data })
    }
}

/// Judges the rasterizer's run.
pub fn after_raster(raster: ToolOutput) -> (response: Response)
    ensures
        response@ == raster_response(raster@),
{
    if raster.success {
        Response { code: Code::Success, data: raster.stdout }
    } else {
        Response { code: Code::ErrMupdf, data: raster.stderr }
    }
}

/// The response of a backend that could not run its tools; `message` says
/// why.
pub fn internal_failure(message: Vec<u8>) -> (response: Response)
    ensures
        response@ == (ResponseView { code: Code::ErrInternal, data: message@ }),
{
    Response { code: Code::ErrInternal, data: message }
}

} // verus!
