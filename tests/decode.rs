use charls::decode::{DecodeCall, DecodeRun, DecodeStage};
use charls::error::{CodecError, ErrorKind};
use charls::session::{Acquire, CharLS};

fn err(kind: ErrorKind, status: i32) -> Option<Result<usize, CodecError>> {
    Some(Err(CodecError { kind, status }))
}

#[test]
fn decode_runs_all_steps_in_order() {
    let mut run = DecodeRun::new(Acquire::Create, 0);
    let mut dst = vec![9u8; 3];
    assert_eq!(run.next_call(), Some(DecodeCall::CreateHandle));
    run.on_handle(Acquire::Ready);
    assert_eq!(run.next_call(), Some(DecodeCall::SetSourceBuffer));
    run.on_reply(0, 0, &mut dst);
    assert_eq!(run.next_call(), Some(DecodeCall::ReadHeader));
    run.on_reply(0, 0, &mut dst);
    assert_eq!(run.next_call(), Some(DecodeCall::GetDestinationSize { stride: 0 }));
    run.on_reply(0, 16, &mut dst);
    assert_eq!(dst, vec![0u8; 16]);
    assert_eq!(run.next_call(), Some(DecodeCall::DecodeToBuffer { size: 16, stride: 0 }));
    run.on_reply(0, 0, &mut dst);
    assert_eq!(run.next_call(), None);
    assert_eq!(run.outcome(), Some(Ok(16)));
    assert_eq!(dst.len(), 16);
}

#[test]
fn decode_passes_stride_to_size_and_decode() {
    let mut run = DecodeRun::new(Acquire::Ready, 12);
    let mut dst = Vec::new();
    run.on_reply(0, 0, &mut dst);
    run.on_reply(0, 0, &mut dst);
    assert_eq!(run.next_call(), Some(DecodeCall::GetDestinationSize { stride: 12 }));
    run.on_reply(0, 48, &mut dst);
    assert_eq!(run.next_call(), Some(DecodeCall::DecodeToBuffer { size: 48, stride: 12 }));
    assert_eq!(dst.len(), 48);
}

#[test]
fn decode_of_empty_image_gives_empty_buffer() {
    let mut run = DecodeRun::new(Acquire::Ready, 0);
    let mut dst = vec![1u8, 2, 3];
    run.on_reply(0, 0, &mut dst);
    run.on_reply(0, 0, &mut dst);
    run.on_reply(0, 0, &mut dst);
    assert!(dst.is_empty());
    run.on_reply(0, 0, &mut dst);
    assert_eq!(run.outcome(), Some(Ok(0)));
}

#[test]
fn decode_without_handle_fails_to_start() {
    let run = DecodeRun::new(Acquire::Unavailable, 0);
    assert_eq!(run.next_call(), None);
    assert_eq!(run.outcome(), err(ErrorKind::CodecStart, 0));
    let mut run = DecodeRun::new(Acquire::Create, 0);
    run.on_handle(Acquire::Unavailable);
    assert_eq!(run.outcome(), err(ErrorKind::CodecStart, 0));
}

#[test]
fn decode_source_bind_failure() {
    let mut run = DecodeRun::new(Acquire::Ready, 0);
    let mut dst = Vec::new();
    run.on_reply(2, 0, &mut dst);
    assert_eq!(run.outcome(), err(ErrorKind::SourceBind, 2));
    assert_eq!(run.next_call(), None);
}

#[test]
fn truncated_input_fails_at_header() {
    let mut run = DecodeRun::new(Acquire::Ready, 0);
    let mut dst = vec![4u8; 2];
    run.on_reply(0, 0, &mut dst);
    run.on_reply(11, 0, &mut dst);
    assert_eq!(run.outcome(), err(ErrorKind::HeaderRead, 11));
    assert_eq!(dst, vec![4u8; 2]);
    run.on_reply(0, 99, &mut dst);
    assert_eq!(run.outcome(), err(ErrorKind::HeaderRead, 11));
}

#[test]
fn corrupted_input_fails_at_decode() {
    let mut run = DecodeRun::new(Acquire::Ready, 0);
    let mut dst = Vec::new();
    run.on_reply(0, 0, &mut dst);
    run.on_reply(0, 0, &mut dst);
    run.on_reply(0, 8, &mut dst);
    run.on_reply(7, 0, &mut dst);
    assert_eq!(run.outcome(), err(ErrorKind::Decode, 7));
}

#[test]
fn size_query_failure_stops_before_decode() {
    let mut run = DecodeRun::new(Acquire::Ready, 0);
    let mut dst = vec![5u8];
    run.on_reply(0, 0, &mut dst);
    run.on_reply(0, 0, &mut dst);
    run.on_reply(6, 1000, &mut dst);
    assert_eq!(run.outcome(), err(ErrorKind::SizeComputation, 6));
    assert_eq!(run.next_call(), None);
    assert_eq!(dst, vec![5u8]);
}

#[test]
fn decode_stage_is_reported() {
    let mut run = DecodeRun::new(Acquire::Ready, 0);
    let mut dst = Vec::new();
    assert!(matches!(run.stage(), DecodeStage::BindSource));
    run.on_reply(0, 0, &mut dst);
    assert!(matches!(run.stage(), DecodeStage::ReadHeader));
}

#[test]
fn decode_reuses_the_session_decoder() {
    let mut s: CharLS<u8, u16> = CharLS::new();
    let run = DecodeRun::new(s.decoder_state(), 0);
    assert_eq!(run.next_call(), Some(DecodeCall::CreateHandle));
    s.store_decoder(Some(1));
    let run = DecodeRun::new(s.decoder_state(), 0);
    assert_eq!(run.next_call(), Some(DecodeCall::SetSourceBuffer));
}
