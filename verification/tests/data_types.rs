use std::convert::TryFrom;
use uefi::data_types::chars::nul_16;
use uefi::data_types::unaligned_slice::UnalignedSlice;
use uefi::data_types::{CStr16, CString16, Char16, EqStrUntilNul, FromSliceWithNulError, FromStrError, Guid};

#[test]
fn test_guid_display() {
    assert_eq!(
        Guid::from_values(0x12345678, 0x9abc, 0xdef0, 0x1234, 0x56789abcdef0).to_string(),
        "12345678-9abc-def0-1234-56789abcdef0"
    );
}

#[test]
fn test_cstring16_from_str() {
    assert_eq!(
        CString16::try_from("x").unwrap(),
        CString16::try_from(vec![
            u16::from(Char16::try_from('x').unwrap()),
            u16::from(nul_16())
        ])
        .unwrap()
    );

    assert_eq!(CString16::try_from("😀"), Err(FromStrError::InvalidChar));

    assert_eq!(CString16::try_from("x\0"), Err(FromStrError::InteriorNul));
}

#[test]
fn test_cstring16_from_u16_vec() {
    // Test that invalid inputs are caught.
    assert_eq!(
        CString16::try_from(vec![]),
        Err(FromSliceWithNulError::NotNulTerminated)
    );
    assert_eq!(
        CString16::try_from(vec![b'a'.into(), 0, b'b'.into(), 0]),
        Err(FromSliceWithNulError::InteriorNul(1))
    );
    assert_eq!(
        CString16::try_from(vec![0xd800, 0]),
        Err(FromSliceWithNulError::InvalidChar(0))
    );

    // Test valid input.
    assert_eq!(
        CString16::try_from(vec![b'x'.into(), 0]).unwrap(),
        CString16::try_from("x").unwrap()
    );
}

/// Test `CString16 == CStr16` and `CStr16 == CString16`.
#[test]
fn test_cstring16_cstr16_eq() {
    let abc = [b'a' as u16, b'b' as u16, b'c' as u16, 0];
    assert_eq!(
        CStr16::from_u16_with_nul(&abc).unwrap(),
        CString16::try_from("abc").unwrap()
    );

    assert_eq!(
        CString16::try_from("abc").unwrap(),
        CStr16::from_u16_with_nul(&abc).unwrap()
    );
}

/// Tests the implementations of `EqStrUntilNul`.
#[test]
fn test_cstring16_eq_std_str() {
    let input = CString16::try_from("test").unwrap();

    // test various comparisons with different order (left, right)
    assert!(input.eq_str_until_nul(&"test"));
    assert!(input.eq_str_until_nul(&String::from("test")));

    // now other direction
    assert!(String::from("test").eq_str_until_nul(&input));
    assert!("test".eq_str_until_nul(&input));
}

#[test]
fn test_unaligned_slice() {
    let bytes: [u8; 13] = [
        // Extra byte to make the rest of the data unaligned.
        0,
        // First element.
        0x10, 0x11, 0x12, 0x13,
        // Second element.
        0x20, 0x21, 0x22, 0x23,
        // Third element.
        0x30, 0x31, 0x32, 0x33,
    ];

    // Skip past the first byte.
    let bytes = &bytes[1..];

    let slice: UnalignedSlice<u32> = UnalignedSlice::<u32>::from_le_bytes(bytes, 0);
    assert!(slice.is_empty());

    let slice: UnalignedSlice<u32> = UnalignedSlice::<u32>::from_le_bytes(bytes, 3);
    assert!(!slice.is_empty());
    assert_eq!(slice.len(), 3);

    assert_eq!(slice.get(0), Some(0x13121110));
    assert_eq!(slice.get(1), Some(0x23222120));
    assert_eq!(slice.get(2), Some(0x33323130));
    assert_eq!(slice.get(3), None);

    let mut copy = [0; 3];
    slice.copy_to(&mut copy);
    assert_eq!(copy, [0x13121110, 0x23222120, 0x33323130]);

    let mut collected = Vec::new();
    let mut iter = slice.iter();
    while let Some(x) = iter.next() {
        collected.push(x);
    }
    assert_eq!(collected, [0x13121110, 0x23222120, 0x33323130]);

    let mut collected = Vec::new();
    let mut iter = slice.into_iter();
    while let Some(x) = iter.next() {
        collected.push(x);
    }
    assert_eq!(collected, [0x13121110, 0x23222120, 0x33323130]);
}

#[test]
fn test_char_to_string() {
    assert_eq!(uefi::data_types::Char8::from_code(0xe9).to_string(), "é");
    assert_eq!(uefi::data_types::Char8::from_code(b'A').to_string(), "A");
    assert_eq!(uefi::data_types::Char16::try_from('Ω').unwrap().to_string(), "Ω");
}
