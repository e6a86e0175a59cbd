use uefi::proto::Identify;
use std::convert::TryFrom;
use uefi::data_types::{Char16, FromSliceWithNulError};
use uefi::proto::console::text::input::{Key, RawKey, ScanCode};
use uefi::proto::debug::exception::ExceptionType;
use uefi::proto::loaded_image::{LoadOptionsError, LoadedImage};
use uefi::proto::media::file::{
    FileAttribute, FileInfo, FileInfoCreationError, FileMode, FileSystemInfo, FileSystemVolumeLabel,
};
use uefi::table::runtime::Time;

fn utf16_le(s: &str) -> Vec<u8> {
    let mut out = Vec::new();
    for u in s.encode_utf16() {
        out.extend_from_slice(&u.to_le_bytes());
    }
    out
}

#[test]
fn test_key_from_raw_key() {
    let printable = RawKey { scan_code: ScanCode::NULL(), unicode_char: Char16::try_from('a').unwrap() };
    assert_eq!(Key::from(printable), Key::Printable(Char16::try_from('a').unwrap()));
    let special = RawKey { scan_code: ScanCode::UP(), unicode_char: Char16::try_from('\0').unwrap() };
    assert_eq!(Key::from(special), Key::Special(ScanCode(1)));
    assert_eq!(special.scan_code(), ScanCode::UP());
    assert_eq!(ScanCode::ESCAPE(), ScanCode(0x17));
}

#[test]
fn test_exception_types() {
    assert_eq!(ExceptionType::EXCEPT_EBC_UNDEFINED(), ExceptionType(0));
    assert_eq!(ExceptionType::EXCEPT_EBC_DIVIDE_ERROR(), ExceptionType(1));
    assert_eq!(ExceptionType::EXCEPT_EBC_BREAKPOINT(), ExceptionType(3));
}

#[test]
fn test_load_options_not_set() {
    let image = LoadedImage { load_options: None, load_options_address: 0x1000 };
    assert_eq!(image.load_options_as_cstr16(), Err(LoadOptionsError::NotSet));
    assert_eq!(image.load_options_as_bytes(), None);
}

#[test]
fn test_load_options_not_aligned() {
    let odd_len = LoadedImage { load_options: Some(vec![b'a', 0, 0]), load_options_address: 0x1000 };
    assert_eq!(odd_len.load_options_as_cstr16(), Err(LoadOptionsError::NotAligned));
    let odd_addr = LoadedImage { load_options: Some(vec![b'a', 0, 0, 0]), load_options_address: 0x1001 };
    assert_eq!(odd_addr.load_options_as_cstr16(), Err(LoadOptionsError::NotAligned));
    assert_eq!(odd_addr.load_options_as_bytes(), Some(&[b'a', 0, 0, 0][..]));
}

#[test]
fn test_load_options_invalid_string() {
    let no_nul = LoadedImage { load_options: Some(utf16_le("ab")), load_options_address: 0x1000 };
    assert_eq!(
        no_nul.load_options_as_cstr16(),
        Err(LoadOptionsError::InvalidString(FromSliceWithNulError::NotNulTerminated))
    );
    let interior = LoadedImage { load_options: Some(utf16_le("a\0b\0")), load_options_address: 0x1000 };
    assert_eq!(
        interior.load_options_as_cstr16(),
        Err(LoadOptionsError::InvalidString(FromSliceWithNulError::InteriorNul(1)))
    );
}

#[test]
fn test_load_options_as_cstr16() {
    let image = LoadedImage { load_options: Some(utf16_le("-v boot\0")), load_options_address: 0x2000 };
    let s = image.load_options_as_cstr16().unwrap();
    assert_eq!(s.to_u16_slice(), "-v boot".encode_utf16().collect::<Vec<u16>>());
    assert_eq!(s.as_string(), "-v boot");
}

#[test]
fn test_file_mode_values() {
    assert_eq!(FileMode::Read.value(), 1);
    assert_eq!(FileMode::ReadWrite.value(), 3);
    assert_eq!(FileMode::CreateReadWrite.value(), 0x8000_0000_0000_0003);
    assert_eq!(FileAttribute::DIRECTORY().bits(), 0x10);
    assert!(FileAttribute::VALID_ATTR().contains(FileAttribute::READ_ONLY()));
}

#[test]
fn test_file_info_new() {
    let attr = FileAttribute::ARCHIVE();
    // The header takes 80 bytes; "kernel" takes 7 codes of 2 bytes.
    let info = FileInfo::new(0x1000, 200, 42, 4096, Time::invalid(), Time::invalid(), Time::invalid(), attr, "kernel")
        .unwrap();
    assert_eq!(info.file_size(), 42);
    assert_eq!(info.physical_size(), 4096);
    assert_eq!(info.attribute(), attr);
    assert_eq!(info.file_name().as_string(), "kernel");
    assert_eq!(info.file_name().to_u16_slice_with_nul(), vec![107, 101, 114, 110, 101, 108, 0]);
}

#[test]
fn test_file_info_insufficient_storage() {
    // 80 + 7 * 2 = 94 bytes; an aligned address skips a whole 8 bytes first.
    let r = FileInfo::new(0x1000, 100, 0, 0, Time::invalid(), Time::invalid(), Time::invalid(), FileAttribute::empty(), "kernel");
    assert_eq!(r.err(), Some(FileInfoCreationError::InsufficientStorage(94)));
    let r = FileInfo::new(0x1000, 102, 0, 0, Time::invalid(), Time::invalid(), Time::invalid(), FileAttribute::empty(), "kernel");
    assert!(r.is_ok());
    // A misaligned address skips less.
    let r = FileInfo::new(0x1003, 99, 0, 0, Time::invalid(), Time::invalid(), Time::invalid(), FileAttribute::empty(), "kernel");
    assert!(r.is_ok());
}

#[test]
fn test_file_info_invalid_char() {
    let r = FileInfo::new(0x1000, 400, 0, 0, Time::invalid(), Time::invalid(), Time::invalid(), FileAttribute::empty(), "a\u{1F600}b\u{1F601}");
    assert_eq!(r.err(), Some(FileInfoCreationError::InvalidChar('\u{1F600}')));
}

#[test]
fn test_file_system_info_new() {
    let info = FileSystemInfo::new(0x1000, 100, true, 1 << 30, 1 << 20, 512, "EFI").unwrap();
    assert!(info.read_only());
    assert_eq!(info.volume_size(), 1 << 30);
    assert_eq!(info.free_space(), 1 << 20);
    assert_eq!(info.block_size(), 512);
    assert_eq!(info.volume_label().as_string(), "EFI");
    let r = FileSystemInfo::new(0x1000, 40, true, 0, 0, 512, "EFI");
    assert_eq!(r.err(), Some(FileInfoCreationError::InsufficientStorage(48)));
}

#[test]
fn test_file_system_volume_label_new() {
    let label = FileSystemVolumeLabel::new(0x1000, 64, "BOOT").unwrap();
    assert_eq!(label.volume_label().as_string(), "BOOT");
    let r = FileSystemVolumeLabel::new(0x1000, 4, "BOOT");
    assert_eq!(r.err(), Some(FileInfoCreationError::InsufficientStorage(10)));
}

#[test]
fn test_loaded_image_guid() {
    assert_eq!(LoadedImage::guid().to_string(), "5b1b31a1-9562-11d2-8e3f-00a0c969723b");
}
