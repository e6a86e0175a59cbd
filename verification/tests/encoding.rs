use uefi::data_types::{CStr16, Guid};
use uefi::proto::media::file::file_open_name;
use uefi::result::{Completion, Error, Status};
use uefi::ucs2::{encode_ucs2, ucs2_encoder, ucs2_encoder_step, EncoderStep};

#[test]
fn test_ucs2_encoder_codes() {
    let r = ucs2_encoder("a\u{e9}\u{20ac}");
    assert!(matches!(r.result, Ok(Completion::Success(()))));
    assert_eq!(r.codes, vec![0x0061, 0x00e9, 0x20ac]);
    // The codes before a character above U+FFFF are kept.
    let r = ucs2_encoder("a\u{1F600}b");
    assert_eq!(r.codes, vec![0x0061]);
    match r.result {
        Err(e) => assert_eq!(e.status(), Status::UNSUPPORTED()),
        Ok(_) => panic!("an error expected"),
    }
    let r = ucs2_encoder("");
    assert!(r.codes.is_empty());
    assert!(r.result.is_ok());
}

#[test]
fn test_encode_ucs2_buffer() {
    let mut buf = [0u16; 8];
    match encode_ucs2("a\nb", &mut buf) {
        Ok(c) => assert_eq!(c.split(), (Status::SUCCESS(), 4)),
        Err(_) => panic!("a length expected"),
    }
    assert_eq!(buf, [0x61, 0x0a, 0x0d, 0x62, 0, 0, 0, 0]);
    // The rest of the buffer keeps its old codes.
    let mut buf = [7u16; 4];
    assert!(encode_ucs2("ab", &mut buf).is_ok());
    assert_eq!(buf, [0x61, 0x62, 7, 7]);
    // A buffer too small keeps what fits.
    let mut buf = [0u16; 1];
    match encode_ucs2("ab", &mut buf) {
        Err(e) => assert_eq!(e.status(), Status::BUFFER_TOO_SMALL()),
        Ok(_) => panic!("an error expected"),
    }
    assert_eq!(buf, [0x61]);
}

#[test]
fn test_file_open_name() {
    match file_open_name("\\EFI\\boot.efi") {
        Ok(Completion::Success(v)) => {
            let mut expected: Vec<u16> = "\\EFI\\boot.efi".encode_utf16().collect();
            expected.push(0);
            assert_eq!(v, expected);
        }
        _ => panic!("a name expected"),
    }
    // 255 bytes are allowed, 256 are not.
    let long = "x".repeat(255);
    match file_open_name(&long) {
        Ok(Completion::Success(v)) => assert_eq!(v.len(), 256),
        _ => panic!("a name expected"),
    }
    match file_open_name(&"x".repeat(256)) {
        Err(e) => assert_eq!(e.status(), Status::INVALID_PARAMETER()),
        Ok(_) => panic!("an error expected"),
    }
    match file_open_name("a\u{1F600}") {
        Err(e) => assert_eq!(e.status(), Status::UNSUPPORTED()),
        Ok(_) => panic!("an error expected"),
    }
    // Bytes count, not characters: 128 two-byte characters are too many.
    match file_open_name(&"\u{e9}".repeat(128)) {
        Err(e) => assert_eq!(e.status(), Status::INVALID_PARAMETER()),
        Ok(_) => panic!("an error expected"),
    }
}

#[test]
fn test_guid_from_values_distinct() {
    let a = Guid::from_values(1, 2, 3, 4, 5);
    assert_eq!(a, Guid::from_values(1, 2, 3, 4, 5));
    assert_ne!(a, Guid::from_values(1, 2, 3, 4, 6));
    assert_ne!(a, Guid::from_values(1, 2, 3, 5, 5));
    assert_ne!(a, Guid::from_values(0x0100, 2, 3, 4, 5));
}

#[test]
fn test_cstr16_iter_yields_codes() {
    let s = CStr16::from_u16_with_nul(&[104, 105, 0]).unwrap();
    let mut it = s.iter();
    assert_eq!(it.next().map(|c| c.code()), Some(104));
    assert_eq!(it.next().map(|c| c.code()), Some(105));
    assert!(it.next().is_none());
    assert!(it.next().is_none());
}

#[test]
fn test_completion_map_laws() {
    let c = Completion::Warning(3u32, Status::WARN_STALE_DATA());
    assert_eq!(c.map(|x| x), c);
    assert_eq!(c.map(|x| x + 1).map(|x| x * 2), c.map(|x| (x + 1) * 2));
    assert_eq!(Completion::Success(2u32).map(|x| x * 10), Completion::Success(20));
}

#[test]
fn test_ucs2_encoder_step() {
    let ok: uefi::result::Result<()> = Ok(Completion::Success(()));
    match ucs2_encoder_step("a\u{e9}", 0, Ok(Completion::Success(()))) {
        EncoderStep::Output { code, next } => assert_eq!((code, next), (0x61, 1)),
        _ => panic!("a code expected"),
    }
    match ucs2_encoder_step("a\u{e9}", 1, Ok(Completion::Success(()))) {
        EncoderStep::Output { code, next } => assert_eq!((code, next), (0xe9, 3)),
        _ => panic!("a code expected"),
    }
    assert!(matches!(ucs2_encoder_step("a\u{e9}", 3, ok), EncoderStep::Done(Ok(_))));
    // An error of the output ends the encoding with that error.
    match ucs2_encoder_step("ab", 1, Err(Error::new(Status::ABORTED(), ()))) {
        EncoderStep::Done(Err(e)) => assert_eq!(e.status(), Status::ABORTED()),
        _ => panic!("the output's error expected"),
    }
    match ucs2_encoder_step("a\u{1F600}", 1, Ok(Completion::Success(()))) {
        EncoderStep::Done(Err(e)) => assert_eq!(e.status(), Status::UNSUPPORTED()),
        _ => panic!("an error expected"),
    }
}

#[test]
fn test_completion_with_warning_laws() {
    let c = Completion::Success(1u8);
    assert_eq!(c.with_warning(Status::SUCCESS()), c);
    let w1 = Status::WARN_STALE_DATA();
    let w2 = Status::WARN_FILE_SYSTEM();
    assert_eq!(c.with_warning(w1).with_warning(w2), c.with_warning(w2));
    assert_eq!(c.with_warning(w1).with_warning(Status::SUCCESS()), Completion::Warning(1, w1));
}
