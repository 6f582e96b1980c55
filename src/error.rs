use vstd::prelude::*;

verus! {

/// The step of a codec operation at which the engine reported a failure.
#[derive(Clone, Copy, Debug, PartialEq, Eq, Structural)]
pub enum ErrorKind {
    /// The engine could not create an encoder or decoder handle.
    CodecStart,
    /// Binding the compressed input to the decoder failed.
    SourceBind,
    /// Parsing the compressed stream's header failed.
    HeaderRead,
    /// The decoder could not compute the destination size for the stride.
    SizeComputation,
    /// The decode transform failed.
    Decode,
    /// The encoder refused the frame description.
    FrameInfo,
    /// The encoder could not estimate the destination size.
    SizeEstimation,
    /// Binding the destination buffer to the encoder failed.
    DestinationBind,
    /// The encode transform failed.
    Encode,
    /// The encoder could not report, or misreported, the bytes it wrote.
    BytesWritten,
}

/// A failed codec operation: the step that failed and the engine's status code.
#[derive(Clone, Copy, Debug, PartialEq, Eq, Structural)]
pub struct CodecError {
    pub kind: ErrorKind,
    pub status: i32,
}

/// Turns an engine status code into a result: zero is success, anything else
/// is an error of the given kind carrying that code.
pub fn translate_error(status: i32, kind: ErrorKind) -> (r: Result<(), CodecError>)
    ensures
        status == 0 <==> r is Ok,
        r is Err ==> r->Err_0 == (CodecError { kind, status }),
{
    if status != 0 {
        Err(CodecError { kind, status })
    } else {
        Ok(())
    }
}

/// The fixed description of each kind, used where the engine gives no text.
pub open spec fn summary_text(kind: ErrorKind) -> Seq<char> {
    match kind {
        ErrorKind::CodecStart => "Unable to start the codec"@,
        ErrorKind::SourceBind => "Unable to set the source buffer"@,
        ErrorKind::HeaderRead => "Unable to read the stream header"@,
        ErrorKind::SizeComputation => "Unable to compute decompressed size"@,
        ErrorKind::Decode => "Unable to decode the image"@,
        ErrorKind::FrameInfo => "Unable to set the frame info"@,
        ErrorKind::SizeEstimation => "Unable to estimate the destination size"@,
        ErrorKind::DestinationBind => "Unable to set the destination buffer"@,
        ErrorKind::Encode => "Unable to encode the image"@,
        ErrorKind::BytesWritten => "Unable to read the number of bytes written"@,
    }
}

impl ErrorKind {
    /// The fixed description of this kind of failure.
    pub fn summary(&self) -> (r: &'static str)
        ensures
            r@ == summary_text(*self),
    {
        match self {
            ErrorKind::CodecStart => "Unable to start the codec",
            ErrorKind::SourceBind => "Unable to set the source buffer",
            ErrorKind::HeaderRead => "Unable to read the stream header",
            ErrorKind::SizeComputation => "Unable to compute decompressed size",
            ErrorKind::Decode => "Unable to decode the image",
            ErrorKind::FrameInfo => "Unable to set the frame info",
            ErrorKind::SizeEstimation => "Unable to estimate the destination size",
            ErrorKind::DestinationBind => "Unable to set the destination buffer",
            ErrorKind::Encode => "Unable to encode the image",
            ErrorKind::BytesWritten => "Unable to read the number of bytes written",
        }
    }
}

/// The text that describes an error: the engine's own message for its status
/// code where there is a status and the engine's catalog produced a readable
/// entry, the kind's fixed description otherwise.
pub open spec fn message_text(e: CodecError, catalog: Option<Seq<char>>) -> Seq<char> {
    match catalog {
        Some(t) if e.status != 0 => t,
        _ => summary_text(e.kind),
    }
}

impl CodecError {
    /// Describes the error. `catalog` is what the engine's message table gave
    /// for `self.status`, or `None` where the lookup gave nothing readable.
    /// A status of zero means the engine reported no status of its own (a
    /// handle it could not create, a byte count past its own estimate).
    pub fn message<'a>(&self, catalog: Option<&'a str>) -> (r: &'a str)
        ensures
            r@ == message_text(*self, match catalog { Some(t) => Some(t@), None => None }),
    {
        match catalog {
            Some(t) if self.status != 0 => t,
            _ => self.kind.summary(),
        }
    }
}

} // verus!
