use uefi::proto::rng::{algorithm_list_size, get_info_result};
use std::convert::TryFrom;
use uefi::data_types::{Char16, Guid};
use uefi::proto::console::pointer::{read_state_result, PointerMode, PointerState};
use uefi::proto::console::text::input::{read_key_result, Key, RawKey, ScanCode};
use uefi::proto::console::text::output::{current_mode_index, mode_from_query, supported_modes};
use uefi::proto::device_path::text::{AllowShortcuts, DisplayOnly};
use uefi::proto::rng::RngAlgorithmType;
use uefi::proto::shim::Hashes;
use uefi::result::{Completion, Error, Status};

fn state() -> PointerState {
    PointerState {
        relative_movement_x: -3,
        relative_movement_y: 7,
        relative_movement_z: 0,
        left_button: 1,
        right_button: 0,
    }
}

#[test]
fn test_pointer_mode_and_state() {
    let mode = PointerMode { resolution_x: 4, resolution_y: 8, resolution_z: 0, left_button: 1, right_button: 0 };
    assert_eq!(mode.resolution(), (4, 8, 0));
    assert_eq!(mode.has_button(), (true, false));
    assert_eq!(state().relative_movement(), (-3, 7, 0));
    assert_eq!(state().button(), (true, false));
}

#[test]
fn test_read_state_result() {
    match read_state_result(Status::NOT_READY(), state()) {
        Ok(Completion::Success(None)) => {}
        _ => panic!("no state expected"),
    }
    match read_state_result(Status::SUCCESS(), state()) {
        Ok(Completion::Success(Some(s))) => assert_eq!(s, state()),
        _ => panic!("a state expected"),
    }
    match read_state_result(Status::DEVICE_ERROR(), state()) {
        Err(e) => assert_eq!(e.status(), Status::DEVICE_ERROR()),
        _ => panic!("an error expected"),
    }
}

#[test]
fn test_read_key_result() {
    let raw = RawKey { scan_code: ScanCode::NULL(), unicode_char: Char16::try_from('x').unwrap() };
    match read_key_result(Status::SUCCESS(), raw) {
        Ok(Completion::Success(Some(k))) => assert_eq!(k, Key::Printable(Char16::try_from('x').unwrap())),
        _ => panic!("a key expected"),
    }
    let raw = RawKey { scan_code: ScanCode::DOWN(), unicode_char: Char16::try_from('\0').unwrap() };
    match read_key_result(Status::SUCCESS(), raw) {
        Ok(Completion::Success(Some(k))) => assert_eq!(k, Key::Special(ScanCode::DOWN())),
        _ => panic!("a key expected"),
    }
    match read_key_result(Status::NOT_READY(), raw) {
        Ok(Completion::Success(None)) => {}
        _ => panic!("no key expected"),
    }
    match read_key_result(Status::DEVICE_ERROR(), raw) {
        Err(e) => assert_eq!(e.status(), Status::DEVICE_ERROR()),
        _ => panic!("an error expected"),
    }
}

#[test]
fn test_current_mode() {
    assert_eq!(current_mode_index(-1), None);
    assert_eq!(current_mode_index(0), Some(0));
    assert_eq!(current_mode_index(3), Some(3));
    let m = mode_from_query(2, Ok(Completion::Success((100, 31)))).unwrap();
    match m {
        Completion::Success(mode) => assert_eq!((mode.index(), mode.columns(), mode.rows()), (2, 100, 31)),
        _ => panic!("success expected"),
    }
    let warned = mode_from_query(1, Ok(Completion::Warning((80, 50), Status::WARN_UNKNOWN_GLYPH()))).unwrap();
    match warned {
        Completion::Warning(mode, s) => {
            assert_eq!((mode.index(), mode.columns(), mode.rows()), (1, 80, 50));
            assert_eq!(s, Status::WARN_UNKNOWN_GLYPH());
        }
        _ => panic!("warning expected"),
    }
    match mode_from_query(1, Err(Error::new(Status::UNSUPPORTED(), ()))) {
        Err(e) => assert_eq!(e.status(), Status::UNSUPPORTED()),
        _ => panic!("error expected"),
    }
}

#[test]
fn test_supported_modes_skip_failures() {
    let queries = vec![
        Ok(Completion::Success((80, 25))),
        Err(Error::new(Status::UNSUPPORTED(), ())),
        Ok(Completion::Success((100, 31))),
    ];
    let modes = supported_modes(&queries);
    assert_eq!(modes.len(), 2);
    let dims: Vec<(usize, usize, usize)> = modes
        .iter()
        .map(|c| match c {
            Completion::Success(m) => (m.index(), m.columns(), m.rows()),
            Completion::Warning(m, _) => (m.index(), m.columns(), m.rows()),
        })
        .collect();
    assert_eq!(dims, vec![(0, 80, 25), (2, 100, 31)]);
    assert!(supported_modes(&Vec::new()).is_empty());
}

#[test]
fn test_rng_algorithms_and_shim_hashes() {
    assert_eq!(RngAlgorithmType::EMPTY_ALGORITHM().0, Guid::from_values(0, 0, 0, 0, 0));
    assert_eq!(
        RngAlgorithmType::ALGORITHM_RAW().0,
        Guid::from_values(0xe43176d7, 0xb6e8, 0x4827, 0xb784, 0x7ffdc4b68561)
    );
    assert_ne!(RngAlgorithmType::ALGORITHM_X9_31_AES(), RngAlgorithmType::ALGORITHM_X9_31_3DES());
    let h = Hashes { sha256: [1; 32], sha1: [2; 20] };
    assert_eq!(h.sha256.len() + h.sha1.len(), 52);
    assert!(DisplayOnly(true).0);
    assert!(!AllowShortcuts(false).0);
}

#[test]
fn test_rng_get_info_result() {
    assert_eq!(algorithm_list_size(3), 48);
    let list = [
        RngAlgorithmType::ALGORITHM_RAW(),
        RngAlgorithmType::ALGORITHM_X9_31_AES(),
        RngAlgorithmType::EMPTY_ALGORITHM(),
    ];
    match get_info_result(Status::SUCCESS(), &list, 32) {
        Ok(Completion::Success(v)) => {
            assert_eq!(v, vec![RngAlgorithmType::ALGORITHM_RAW(), RngAlgorithmType::ALGORITHM_X9_31_AES()])
        }
        _ => panic!("algorithms expected"),
    }
    match get_info_result(Status::BUFFER_TOO_SMALL(), &list, 80) {
        Err(e) => {
            assert_eq!(e.status(), Status::BUFFER_TOO_SMALL());
            assert_eq!(*e.data(), Some(80));
        }
        _ => panic!("an error expected"),
    }
    match get_info_result(Status::UNSUPPORTED(), &list, 80) {
        Err(e) => assert_eq!(*e.data(), None),
        _ => panic!("an error expected"),
    }
}

#[test]
fn test_status_kinds() {
    for s in [Status::SUCCESS(), Status::WARN_UNKNOWN_GLYPH(), Status::DEVICE_ERROR(), Status::from_raw_api(usize::MAX)] {
        let kinds = [s.is_success(), s.is_warning(), s.is_error()];
        assert_eq!(kinds.iter().filter(|k| **k).count(), 1);
    }
    assert!(Status::WARN_UNKNOWN_GLYPH().is_warning());
    assert!(Status::from_raw_api(usize::MAX).is_error());
}
