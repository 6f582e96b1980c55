use vstd::prelude::*;
use crate::buffer::{zeroed, zeros};
use crate::error::{translate_error, CodecError, ErrorKind};
use crate::session::Acquire;

verus! {

/// The geometry and sample depth of an uncompressed image.
#[derive(Clone, Copy, Debug, PartialEq, Eq, Structural)]
pub struct FrameInfo {
    pub width: u32,
    pub height: u32,
    pub bits_per_sample: i32,
    pub component_count: i32,
}

/// The engine call an encode asks for next.
#[derive(Clone, Copy, Debug, PartialEq, Eq, Structural)]
pub enum EncodeCall {
    /// Create the session's encoder handle and report it with `on_handle`.
    CreateHandle,
    /// Register the frame description.
    SetFrameInfo { frame: FrameInfo },
    /// Estimate an upper bound of the compressed size.
    GetEstimatedDestinationSize,
    /// Bind the destination buffer, which holds exactly `size` bytes.
    SetDestinationBuffer { size: usize },
    /// Encode the whole source buffer, `size` bytes, with the natural stride.
    EncodeFromBuffer { size: usize },
    /// Read how many bytes the encode wrote.
    GetBytesWritten,
}

/// Where an encode stands; `capacity` is the estimated size the destination
/// buffer was given.
#[derive(Clone, Copy, Debug)]
pub enum EncodeStage {
    Acquire,
    SetFrame,
    Estimate,
    BindDestination { capacity: usize },
    Transform { capacity: usize },
    CountWritten { capacity: usize },
    /// The encode ended: with the length of the compressed output, or an error.
    Finished(Result<usize, CodecError>),
}

/// The stage an encode reaches after it held a handle, or failed to get one.
pub open spec fn stage_after_handle(handle: Acquire) -> EncodeStage {
    match handle {
        Acquire::Create => EncodeStage::Acquire,
        Acquire::Ready => EncodeStage::SetFrame,
        Acquire::Unavailable => EncodeStage::Finished(
            Err(CodecError { kind: ErrorKind::CodecStart, status: 0 }),
        ),
    }
}

/// One step of the encode pipeline: the stage after the engine answered the
/// current stage's call with `status` and, for the estimate and the byte
/// count, `value`. Each step goes on only on a zero status; any other ends the
/// encode with the error of that step. A byte count past the estimate is
/// refused as a failure to report the bytes written.
pub open spec fn stage_after(stage: EncodeStage, status: i32, value: usize) -> EncodeStage {
    let fail = |kind: ErrorKind| EncodeStage::Finished(Err(CodecError { kind, status }));
    match stage {
        EncodeStage::SetFrame => if status == 0 {
            EncodeStage::Estimate
        } else {
            fail(ErrorKind::FrameInfo)
        },
        EncodeStage::Estimate => if status == 0 {
            EncodeStage::BindDestination { capacity: value }
        } else {
            fail(ErrorKind::SizeEstimation)
        },
        EncodeStage::BindDestination { capacity } => if status == 0 {
            EncodeStage::Transform { capacity }
        } else {
            fail(ErrorKind::DestinationBind)
        },
        EncodeStage::Transform { capacity } => if status == 0 {
            EncodeStage::CountWritten { capacity }
        } else {
            fail(ErrorKind::Encode)
        },
        EncodeStage::CountWritten { capacity } => if status != 0 {
            fail(ErrorKind::BytesWritten)
        } else if value <= capacity {
            EncodeStage::Finished(Ok(value))
        } else {
            fail(ErrorKind::BytesWritten)
        },
        _ => stage,
    }
}

/// One encode operation: register the frame, estimate the output size, bind a
/// buffer of that size, encode, and cut the buffer to the bytes written.
pub struct EncodeRun {
    frame: FrameInfo,
    source_len: usize,
    stage: EncodeStage,
    estimate: Option<usize>,
    written: Option<usize>,
}

impl EncodeRun {
    pub closed spec fn spec_stage(&self) -> EncodeStage {
        self.stage
    }

    pub closed spec fn spec_frame(&self) -> FrameInfo {
        self.frame
    }

    pub closed spec fn spec_source_len(&self) -> usize {
        self.source_len
    }

    /// The engine's estimate of the output size, once it gave one.
    pub closed spec fn estimate(&self) -> Option<usize> {
        self.estimate
    }

    /// The number of bytes the engine reported written, once it did and the
    /// number was accepted.
    pub closed spec fn written(&self) -> Option<usize> {
        self.written
    }

    /// The buffer's capacity is the engine's estimate, and an encode that
    /// succeeded reports the byte count the engine gave, within that estimate.
    pub closed spec fn wf(&self) -> bool {
        match self.stage {
            EncodeStage::Acquire | EncodeStage::SetFrame | EncodeStage::Estimate => {
                &&& self.estimate is None
                &&& self.written is None
            },
            EncodeStage::BindDestination { capacity }
            | EncodeStage::Transform { capacity }
            | EncodeStage::CountWritten { capacity } => {
                &&& self.estimate == Some(capacity)
                &&& self.written is None
            },
            EncodeStage::Finished(Ok(n)) => {
                &&& self.estimate is Some
                &&& n <= self.estimate->0
                &&& self.written == Some(n)
            },
            EncodeStage::Finished(Err(_)) => self.written is None,
        }
    }

    /// Starts an encode of `source_len` bytes of pixels described by `frame`,
    /// given what the session has to do for its encoder handle.
    pub fn new(handle: Acquire, frame: FrameInfo, source_len: usize) -> (r: Self)
        ensures
            r.wf(),
            r.spec_stage() == stage_after_handle(handle),
            r.spec_frame() == frame,
            r.spec_source_len() == source_len,
    {
        let stage = match handle {
            Acquire::Create => EncodeStage::Acquire,
            Acquire::Ready => EncodeStage::SetFrame,
            Acquire::Unavailable => EncodeStage::Finished(
                Err(CodecError { kind: ErrorKind::CodecStart, status: 0 }),
            ),
        };
        EncodeRun { frame, source_len, stage, estimate: None, written: None }
    }

    /// The current stage.
    pub fn stage(&self) -> (r: EncodeStage)
        ensures
            r == self.spec_stage(),
    {
        self.stage
    }

    /// The engine call to make next, or `None` once the encode has ended.
    pub fn next_call(&self) -> (r: Option<EncodeCall>)
        ensures
            r == match self.spec_stage() {
                EncodeStage::Acquire => Some(EncodeCall::CreateHandle),
                EncodeStage::SetFrame => Some(EncodeCall::SetFrameInfo { frame: self.spec_frame() }),
                EncodeStage::Estimate => Some(EncodeCall::GetEstimatedDestinationSize),
                EncodeStage::BindDestination { capacity } => Some(
                    EncodeCall::SetDestinationBuffer { size: capacity },
                ),
                EncodeStage::Transform { .. } => Some(
                    EncodeCall::EncodeFromBuffer { size: self.spec_source_len() },
                ),
                EncodeStage::CountWritten { .. } => Some(EncodeCall::GetBytesWritten),
                EncodeStage::Finished(_) => None,
            },
    {
        match self.stage {
            EncodeStage::Acquire => Some(EncodeCall::CreateHandle),
            EncodeStage::SetFrame => Some(EncodeCall::SetFrameInfo { frame: self.frame }),
            EncodeStage::Estimate => Some(EncodeCall::GetEstimatedDestinationSize),
            EncodeStage::BindDestination { capacity } => Some(
                EncodeCall::SetDestinationBuffer { size: capacity },
            ),
            EncodeStage::Transform { .. } => Some(
                EncodeCall::EncodeFromBuffer { size: self.source_len },
            ),
            EncodeStage::CountWritten { .. } => Some(EncodeCall::GetBytesWritten),
            EncodeStage::Finished(_) => None,
        }
    }

    /// How the encode ended: the length of the compressed output or the error,
    /// or `None` while it still runs.
    pub fn outcome(&self) -> (r: Option<Result<usize, CodecError>>)
        ensures
            r == match self.spec_stage() {
                EncodeStage::Finished(res) => Some(res),
                _ => None,
            },
    {
        match self.stage {
            EncodeStage::Finished(res) => Some(res),
            _ => None,
        }
    }

    /// Reports the session's encoder handle after a `CreateHandle` call: the
    /// encode goes on with a live handle and fails to start otherwise.
    pub fn on_handle(&mut self, handle: Acquire)
        requires
            old(self).wf(),
        ensures
            final(self).wf(),
            final(self).spec_frame() == old(self).spec_frame(),
            final(self).spec_source_len() == old(self).spec_source_len(),
            final(self).estimate() == old(self).estimate(),
            final(self).written() == old(self).written(),
            old(self).spec_stage() is Acquire ==> final(self).spec_stage() == match handle {
                Acquire::Ready => EncodeStage::SetFrame,
                _ => EncodeStage::Finished(
                    Err(CodecError { kind: ErrorKind::CodecStart, status: 0 }),
                ),
            },
            !(old(self).spec_stage() is Acquire) ==> final(self).spec_stage()
                == old(self).spec_stage(),
    {
        if let EncodeStage::Acquire = self.stage {
            self.stage = match handle {
                Acquire::Ready => EncodeStage::SetFrame,
                _ => EncodeStage::Finished(
                    Err(CodecError { kind: ErrorKind::CodecStart, status: 0 }),
                ),
            };
        }
    }

    /// Reports the engine's answer to the current engine call: its status and,
    /// for the estimate and the byte count, the number it gave (ignored
    /// elsewhere). When the estimate is known, `dst` is made exactly that many
    /// zero bytes, the buffer to bind and encode into; once the byte count is
    /// known and accepted, `dst` is cut to it.
    pub fn on_reply(&mut self, status: i32, value: usize, dst: &mut Vec<u8>)
        requires
            old(self).wf(),
            old(self).spec_stage() matches EncodeStage::CountWritten { capacity }
                ==> old(dst)@.len() == capacity,
        ensures
            final(self).wf(),
            final(self).spec_frame() == old(self).spec_frame(),
            final(self).spec_source_len() == old(self).spec_source_len(),
            final(self).spec_stage() == stage_after(old(self).spec_stage(), status, value),
            old(self).spec_stage() is Estimate && status == 0 ==> {
                &&& final(self).estimate() == Some(value)
                &&& final(dst)@ == zeros(value as nat)
            },
            !(old(self).spec_stage() is Estimate && status == 0) ==> final(self).estimate()
                == old(self).estimate(),
            old(self).spec_stage() is CountWritten ==> (final(self).spec_stage() matches
                EncodeStage::Finished(Ok(n)) ==> {
                &&& final(self).written() == Some(value)
                &&& final(dst)@ == old(dst)@.subrange(0, n as int)
            }),
            !(old(self).spec_stage() is Estimate && status == 0) && !(old(self).spec_stage()
                is CountWritten && final(self).spec_stage() is Finished
                && final(self).spec_stage()->Finished_0 is Ok) ==> final(dst)@ == old(dst)@,
    {
        match self.stage {
            EncodeStage::SetFrame => {
                self.stage = match translate_error(status, ErrorKind::FrameInfo) {
                    Ok(()) => EncodeStage::Estimate,
                    Err(e) => EncodeStage::Finished(Err(e)),
                };
            },
            EncodeStage::Estimate => {
                match translate_error(status, ErrorKind::SizeEstimation) {
                    Ok(()) => {
                        *dst = zeroed(value);
                        self.estimate = Some(value);
                        self.stage = EncodeStage::BindDestination { capacity: value };
                    },
                    Err(e) => self.stage = EncodeStage::Finished(Err(e)),
                }
            },
            EncodeStage::BindDestination { capacity } => {
                self.stage = match translate_error(status, ErrorKind::DestinationBind) {
                    Ok(()) => EncodeStage::Transform { capacity },
                    Err(e) => EncodeStage::Finished(Err(e)),
                };
            },
            EncodeStage::Transform { capacity } => {
                self.stage = match translate_error(status, ErrorKind::Encode) {
                    Ok(()) => EncodeStage::CountWritten { capacity },
                    Err(e) => EncodeStage::Finished(Err(e)),
                };
            },
            EncodeStage::CountWritten { capacity } => {
                match translate_error(status, ErrorKind::BytesWritten) {
                    Ok(()) => if value <= capacity {
                        dst.truncate(value);
                        self.written = Some(value);
                        self.stage = EncodeStage::Finished(Ok(value));
                    } else {
                        self.stage = EncodeStage::Finished(
                            Err(CodecError { kind: ErrorKind::BytesWritten, status: 0 }),
                        );
                    },
                    Err(e) => self.stage = EncodeStage::Finished(Err(e)),
                }
            },
            _ => {},
        }
    }
}

/// An encode that succeeded returns exactly the byte count the engine reported
/// after encoding, and that count is within the engine's estimate made before.
pub proof fn lemma_encoded_len_within_estimate(run: EncodeRun)
    requires
        run.wf(),
        run.spec_stage() is Finished,
        run.spec_stage()->Finished_0 is Ok,
    ensures
        run.written() == Some(run.spec_stage()->Finished_0->Ok_0),
        run.estimate() is Some,
        run.spec_stage()->Finished_0->Ok_0 <= run.estimate()->0,
{
}

} // verus!
