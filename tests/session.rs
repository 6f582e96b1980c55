use charls::error::{CodecError, ErrorKind};
use charls::session::{Acquire, CharLS};

#[test]
fn fresh_session_releases_nothing() {
    let s: CharLS<u32, u64> = CharLS::new();
    assert_eq!(s.encoder_state(), Acquire::Create);
    assert_eq!(s.decoder_state(), Acquire::Create);
    assert_eq!(s.teardown(), (None, None));
}

#[test]
fn created_handles_are_released_once() {
    let mut s: CharLS<u32, u64> = CharLS::new();
    assert_eq!(s.store_encoder(Some(7)), None);
    assert_eq!(s.store_decoder(Some(9)), None);
    assert_eq!(s.encoder(), Some(&7));
    assert_eq!(s.decoder(), Some(&9));
    assert_eq!(s.teardown(), (Some(7), Some(9)));
}

#[test]
fn only_the_used_handle_is_released() {
    let mut s: CharLS<u32, u64> = CharLS::new();
    assert_eq!(s.store_decoder(Some(3)), None);
    assert_eq!(s.encoder_state(), Acquire::Create);
    assert_eq!(s.decoder_state(), Acquire::Ready);
    assert_eq!(s.teardown(), (None, Some(3)));
}

#[test]
fn failed_creation_is_not_retried_nor_released() {
    let mut s: CharLS<u32, u64> = CharLS::new();
    assert_eq!(s.store_encoder(None), None);
    assert_eq!(s.encoder_state(), Acquire::Unavailable);
    assert_eq!(s.encoder(), None);
    assert_eq!(s.store_encoder(Some(5)), Some(5));
    assert_eq!(s.encoder_state(), Acquire::Unavailable);
    assert_eq!(s.teardown(), (None, None));
}

#[test]
fn live_handle_is_never_replaced() {
    let mut s: CharLS<u32, u64> = CharLS::new();
    assert_eq!(s.store_encoder(Some(1)), None);
    assert_eq!(s.store_encoder(Some(2)), Some(2));
    assert_eq!(s.encoder(), Some(&1));
    assert_eq!(s.teardown(), (Some(1), None));
}

#[test]
fn translate_error_maps_zero_to_ok() {
    assert_eq!(charls::error::translate_error(0, ErrorKind::HeaderRead), Ok(()));
    assert_eq!(
        charls::error::translate_error(-3, ErrorKind::HeaderRead),
        Err(CodecError { kind: ErrorKind::HeaderRead, status: -3 })
    );
}

#[test]
fn message_prefers_engine_catalog() {
    let e = CodecError { kind: ErrorKind::Decode, status: 5 };
    assert_eq!(e.message(Some("Invalid JPEG-LS stream")), "Invalid JPEG-LS stream");
    assert_eq!(e.message(None), "Unable to decode the image");
}

#[test]
fn message_without_status_uses_summary() {
    let e = CodecError { kind: ErrorKind::CodecStart, status: 0 };
    assert_eq!(e.message(Some("ignored")), "Unable to start the codec");
    assert_eq!(ErrorKind::SizeComputation.summary(), "Unable to compute decompressed size");
}
