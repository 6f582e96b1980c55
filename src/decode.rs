use vstd::prelude::*;
use crate::buffer::{zeroed, zeros};
use crate::error::{translate_error, CodecError, ErrorKind};
use crate::session::Acquire;

verus! {

/// The engine call a decode asks for next.
#[derive(Clone, Copy, Debug, PartialEq, Eq, Structural)]
pub enum DecodeCall {
    /// Create the session's decoder handle and report it with `on_handle`.
    CreateHandle,
    /// Bind the compressed bytes as the decoder's source.
    SetSourceBuffer,
    /// Parse the stream header.
    ReadHeader,
    /// Compute the exact destination size for the stride.
    GetDestinationSize { stride: u32 },
    /// Decode into the destination buffer, which holds exactly `size` bytes.
    DecodeToBuffer { size: usize, stride: u32 },
}

/// Where a decode stands.
#[derive(Clone, Copy, Debug)]
pub enum DecodeStage {
    Acquire,
    BindSource,
    ReadHeader,
    ComputeSize,
    Transform { size: usize },
    /// The decode ended: with the size of the decoded image, or an error.
    Finished(Result<usize, CodecError>),
}

/// The stage a decode reaches after it held a handle, or failed to get one.
pub open spec fn stage_after_handle(handle: Acquire) -> DecodeStage {
    match handle {
        Acquire::Create => DecodeStage::Acquire,
        Acquire::Ready => DecodeStage::BindSource,
        Acquire::Unavailable => DecodeStage::Finished(
            Err(CodecError { kind: ErrorKind::CodecStart, status: 0 }),
        ),
    }
}

/// One step of the decode pipeline: the stage after the engine answered the
/// current stage's call with `status` (and, for the size query, `size`).
/// Each step goes on only on a zero status; any other ends the decode with
/// the error of that step.
pub open spec fn stage_after(stage: DecodeStage, status: i32, size: usize) -> DecodeStage {
    let fail = |kind: ErrorKind| DecodeStage::Finished(Err(CodecError { kind, status }));
    match stage {
        DecodeStage::BindSource => if status == 0 {
            DecodeStage::ReadHeader
        } else {
            fail(ErrorKind::SourceBind)
        },
        DecodeStage::ReadHeader => if status == 0 {
            DecodeStage::ComputeSize
        } else {
            fail(ErrorKind::HeaderRead)
        },
        DecodeStage::ComputeSize => if status == 0 {
            DecodeStage::Transform { size }
        } else {
            fail(ErrorKind::SizeComputation)
        },
        DecodeStage::Transform { size: n } => if status == 0 {
            DecodeStage::Finished(Ok(n))
        } else {
            fail(ErrorKind::Decode)
        },
        _ => stage,
    }
}

/// One decode operation: bind the source, read the header, compute the
/// destination size, size the buffer, decode.
pub struct DecodeRun {
    stride: u32,
    stage: DecodeStage,
    computed: Option<usize>,
}

impl DecodeRun {
    pub closed spec fn spec_stage(&self) -> DecodeStage {
        self.stage
    }

    pub closed spec fn spec_stride(&self) -> u32 {
        self.stride
    }

    /// The destination size the engine computed, once it did.
    pub closed spec fn computed_size(&self) -> Option<usize> {
        self.computed
    }

    /// The size the buffer was given is the one the engine computed, and a
    /// decode that succeeded reports that same size.
    pub closed spec fn wf(&self) -> bool {
        match self.stage {
            DecodeStage::Acquire | DecodeStage::BindSource | DecodeStage::ReadHeader
            | DecodeStage::ComputeSize => self.computed is None,
            DecodeStage::Transform { size } => self.computed == Some(size),
            DecodeStage::Finished(Ok(n)) => self.computed == Some(n),
            DecodeStage::Finished(Err(_)) => true,
        }
    }

    /// Starts a decode with the given row stride (zero lets the engine pick the
    /// natural one), given what the session has to do for its decoder handle.
    pub fn new(handle: Acquire, stride: u32) -> (r: Self)
        ensures
            r.wf(),
            r.spec_stage() == stage_after_handle(handle),
            r.spec_stride() == stride,
            r.computed_size() is None,
    {
        let stage = match handle {
            Acquire::Create => DecodeStage::Acquire,
            Acquire::Ready => DecodeStage::BindSource,
            Acquire::Unavailable => DecodeStage::Finished(
                Err(CodecError { kind: ErrorKind::CodecStart, status: 0 }),
            ),
        };
        DecodeRun { stride, stage, computed: None }
    }

    /// The current stage.
    pub fn stage(&self) -> (r: DecodeStage)
        ensures
            r == self.spec_stage(),
    {
        self.stage
    }

    /// The engine call to make next, or `None` once the decode has ended.
    pub fn next_call(&self) -> (r: Option<DecodeCall>)
        ensures
            r == match self.spec_stage() {
                DecodeStage::Acquire => Some(DecodeCall::CreateHandle),
                DecodeStage::BindSource => Some(DecodeCall::SetSourceBuffer),
                DecodeStage::ReadHeader => Some(DecodeCall::ReadHeader),
                DecodeStage::ComputeSize => Some(
                    DecodeCall::GetDestinationSize { stride: self.spec_stride() },
                ),
                DecodeStage::Transform { size } => Some(
                    DecodeCall::DecodeToBuffer { size, stride: self.spec_stride() },
                ),
                DecodeStage::Finished(_) => None,
            },
    {
        match self.stage {
            DecodeStage::Acquire => Some(DecodeCall::CreateHandle),
            DecodeStage::BindSource => Some(DecodeCall::SetSourceBuffer),
            DecodeStage::ReadHeader => Some(DecodeCall::ReadHeader),
            DecodeStage::ComputeSize => Some(DecodeCall::GetDestinationSize { stride: self.stride }),
            DecodeStage::Transform { size } => Some(
                DecodeCall::DecodeToBuffer { size, stride: self.stride },
            ),
            DecodeStage::Finished(_) => None,
        }
    }

    /// How the decode ended: the size of the decoded image or the error, or
    /// `None` while it still runs.
    pub fn outcome(&self) -> (r: Option<Result<usize, CodecError>>)
        ensures
            r == match self.spec_stage() {
                DecodeStage::Finished(res) => Some(res),
                _ => None,
            },
    {
        match self.stage {
            DecodeStage::Finished(res) => Some(res),
            _ => None,
        }
    }

    /// Reports the session's decoder handle after a `CreateHandle` call: the
    /// decode goes on with a live handle and fails to start otherwise.
    pub fn on_handle(&mut self, handle: Acquire)
        requires
            old(self).wf(),
        ensures
            final(self).wf(),
            final(self).spec_stride() == old(self).spec_stride(),
            final(self).computed_size() == old(self).computed_size(),
            old(self).spec_stage() is Acquire ==> final(self).spec_stage() == match handle {
                Acquire::Ready => DecodeStage::BindSource,
                _ => DecodeStage::Finished(
                    Err(CodecError { kind: ErrorKind::CodecStart, status: 0 }),
                ),
            },
            !(old(self).spec_stage() is Acquire) ==> final(self).spec_stage()
                == old(self).spec_stage(),
    {
        if let DecodeStage::Acquire = self.stage {
            self.stage = match handle {
                Acquire::Ready => DecodeStage::BindSource,
                _ => DecodeStage::Finished(
                    Err(CodecError { kind: ErrorKind::CodecStart, status: 0 }),
                ),
            };
        }
    }

    /// Reports the engine's answer to the current engine call: its status and,
    /// for the size query, the size it computed (ignored elsewhere). When the
    /// size is known, `dst` is made exactly that many zero bytes; the decode
    /// call must then get that same buffer.
    pub fn on_reply(&mut self, status: i32, size: usize, dst: &mut Vec<u8>)
        requires
            old(self).wf(),
            old(self).spec_stage() matches DecodeStage::Transform { size: n }
                ==> old(dst)@.len() == n,
        ensures
            final(self).wf(),
            final(self).spec_stride() == old(self).spec_stride(),
            final(self).spec_stage() == stage_after(old(self).spec_stage(), status, size),
            old(self).spec_stage() is ComputeSize && status == 0 ==> {
                &&& final(self).computed_size() == Some(size)
                &&& final(dst)@ == zeros(size as nat)
            },
            !(old(self).spec_stage() is ComputeSize && status == 0) ==> {
                &&& final(self).computed_size() == old(self).computed_size()
                &&& final(dst)@ == old(dst)@
            },
            old(self).spec_stage() is Transform ==> (final(self).spec_stage() matches
                DecodeStage::Finished(Ok(n)) ==> final(dst)@.len() == n),
    {
        match self.stage {
            DecodeStage::BindSource => {
                self.stage = match translate_error(status, ErrorKind::SourceBind) {
                    Ok(()) => DecodeStage::ReadHeader,
                    Err(e) => DecodeStage::Finished(Err(e)),
                };
            },
            DecodeStage::ReadHeader => {
                self.stage = match translate_error(status, ErrorKind::HeaderRead) {
                    Ok(()) => DecodeStage::ComputeSize,
                    Err(e) => DecodeStage::Finished(Err(e)),
                };
            },
            DecodeStage::ComputeSize => {
                match translate_error(status, ErrorKind::SizeComputation) {
                    Ok(()) => {
                        *dst = zeroed(size);
                        self.computed = Some(size);
                        self.stage = DecodeStage::Transform { size };
                    },
                    Err(e) => self.stage = DecodeStage::Finished(Err(e)),
                }
            },
            DecodeStage::Transform { size: n } => {
                self.stage = match translate_error(status, ErrorKind::Decode) {
                    Ok(()) => DecodeStage::Finished(Ok(n)),
                    Err(e) => DecodeStage::Finished(Err(e)),
                };
            },
            _ => {},
        }
    }
}

/// A decode that succeeded reports exactly the destination size the engine
/// computed from the header and the stride before it decoded.
pub proof fn lemma_decoded_size_is_computed_size(run: DecodeRun)
    requires
        run.wf(),
        run.spec_stage() is Finished,
        run.spec_stage()->Finished_0 is Ok,
    ensures
        run.computed_size() == Some(run.spec_stage()->Finished_0->Ok_0),
{
}

/// An input the engine rejects while reading the header, or while decoding,
/// ends the decode with a header error or a decode error carrying the
/// engine's status, never with a decoded buffer.
pub proof fn lemma_rejected_input_fails(stage: DecodeStage, status: i32, size: usize)
    requires
        status != 0,
        stage is ReadHeader || stage is Transform,
    ensures
        stage_after(stage, status, size) matches DecodeStage::Finished(Err(e)) && e.status
            == status && (if stage is ReadHeader {
            e.kind == ErrorKind::HeaderRead
        } else {
            e.kind == ErrorKind::Decode
        }),
{
}

} // verus!
