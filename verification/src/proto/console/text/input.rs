//! Text input.
use crate::data_types::Char16;
use crate::result::status::{error_bit, spec_is_success};
use crate::result::{Completion, Error, Result, Status};
use vstd::prelude::*;
use vstd::std_specs::convert::FromSpecImpl;

verus! {

/// A keyboard scan code
///
/// Codes `0x8000..=0xFFFF` are reserved for future OEM extensibility, so
/// the type is an open set of numbers rather than a closed enum.
#[derive(Debug, Copy, Clone, PartialEq, Eq, Structural, PartialOrd, Ord, Hash)]
pub struct ScanCode(pub u16);

#[allow(non_snake_case)]
impl ScanCode {
    /// Null scan code, indicates that the Unicode character should be used.
    pub fn NULL() -> (r: ScanCode)
        ensures
            r.0 == 0x00,
    {
        ScanCode(0x00)
    }

    /// Move cursor up 1 row.
    pub fn UP() -> (r: ScanCode)
        ensures
            r.0 == 0x01,
    {
        ScanCode(0x01)
    }

    /// Move cursor down 1 row.
    pub fn DOWN() -> (r: ScanCode)
        ensures
            r.0 == 0x02,
    {
        ScanCode(0x02)
    }

    /// Move cursor right 1 column.
    pub fn RIGHT() -> (r: ScanCode)
        ensures
            r.0 == 0x03,
    {
        ScanCode(0x03)
    }

    /// Move cursor left 1 column.
    pub fn LEFT() -> (r: ScanCode)
        ensures
            r.0 == 0x04,
    {
        ScanCode(0x04)
    }

    /// The home key.
    pub fn HOME() -> (r: ScanCode)
        ensures
            r.0 == 0x05,
    {
        ScanCode(0x05)
    }

    /// The end key.
    pub fn END() -> (r: ScanCode)
        ensures
            r.0 == 0x06,
    {
        ScanCode(0x06)
    }

    /// The insert key.
    pub fn INSERT() -> (r: ScanCode)
        ensures
            r.0 == 0x07,
    {
        ScanCode(0x07)
    }

    /// The delete key.
    pub fn DELETE() -> (r: ScanCode)
        ensures
            r.0 == 0x08,
    {
        ScanCode(0x08)
    }

    /// The page up key.
    pub fn PAGE_UP() -> (r: ScanCode)
        ensures
            r.0 == 0x09,
    {
        ScanCode(0x09)
    }

    /// The page down key.
    pub fn PAGE_DOWN() -> (r: ScanCode)
        ensures
            r.0 == 0x0A,
    {
        ScanCode(0x0A)
    }

    /// The function 1 key.
    pub fn FUNCTION_1() -> (r: ScanCode)
        ensures
            r.0 == 0x0B,
    {
        ScanCode(0x0B)
    }

    /// The function 2 key.
    pub fn FUNCTION_2() -> (r: ScanCode)
        ensures
            r.0 == 0x0C,
    {
        ScanCode(0x0C)
    }

    /// The function 3 key.
    pub fn FUNCTION_3() -> (r: ScanCode)
        ensures
            r.0 == 0x0D,
    {
        ScanCode(0x0D)
    }

    /// The function 4 key.
    pub fn FUNCTION_4() -> (r: ScanCode)
        ensures
            r.0 == 0x0E,
    {
        ScanCode(0x0E)
    }

    /// The function 5 key.
    pub fn FUNCTION_5() -> (r: ScanCode)
        ensures
            r.0 == 0x0F,
    {
        ScanCode(0x0F)
    }

    /// The function 6 key.
    pub fn FUNCTION_6() -> (r: ScanCode)
        ensures
            r.0 == 0x10,
    {
        ScanCode(0x10)
    }

    /// The function 7 key.
    pub fn FUNCTION_7() -> (r: ScanCode)
        ensures
            r.0 == 0x11,
    {
        ScanCode(0x11)
    }

    /// The function 8 key.
    pub fn FUNCTION_8() -> (r: ScanCode)
        ensures
            r.0 == 0x12,
    {
        ScanCode(0x12)
    }

    /// The function 9 key.
    pub fn FUNCTION_9() -> (r: ScanCode)
        ensures
            r.0 == 0x13,
    {
        ScanCode(0x13)
    }

    /// The function 10 key.
    pub fn FUNCTION_10() -> (r: ScanCode)
        ensures
            r.0 == 0x14,
    {
        ScanCode(0x14)
    }

    /// The function 11 key.
    pub fn FUNCTION_11() -> (r: ScanCode)
        ensures
            r.0 == 0x15,
    {
        ScanCode(0x15)
    }

    /// The function 12 key.
    pub fn FUNCTION_12() -> (r: ScanCode)
        ensures
            r.0 == 0x16,
    {
        ScanCode(0x16)
    }

    /// The escape key.
    pub fn ESCAPE() -> (r: ScanCode)
        ensures
            r.0 == 0x17,
    {
        ScanCode(0x17)
    }

    /// The function 13 key.
    pub fn FUNCTION_13() -> (r: ScanCode)
        ensures
            r.0 == 0x68,
    {
        ScanCode(0x68)
    }

    /// The function 14 key.
    pub fn FUNCTION_14() -> (r: ScanCode)
        ensures
            r.0 == 0x69,
    {
        ScanCode(0x69)
    }

    /// The function 15 key.
    pub fn FUNCTION_15() -> (r: ScanCode)
        ensures
            r.0 == 0x6A,
    {
        ScanCode(0x6A)
    }

    /// The function 16 key.
    pub fn FUNCTION_16() -> (r: ScanCode)
        ensures
            r.0 == 0x6B,
    {
        ScanCode(0x6B)
    }

    /// The function 17 key.
    pub fn FUNCTION_17() -> (r: ScanCode)
        ensures
            r.0 == 0x6C,
    {
        ScanCode(0x6C)
    }

    /// The function 18 key.
    pub fn FUNCTION_18() -> (r: ScanCode)
        ensures
            r.0 == 0x6D,
    {
        ScanCode(0x6D)
    }

    /// The function 19 key.
    pub fn FUNCTION_19() -> (r: ScanCode)
        ensures
            r.0 == 0x6E,
    {
        ScanCode(0x6E)
    }

    /// The function 20 key.
    pub fn FUNCTION_20() -> (r: ScanCode)
        ensures
            r.0 == 0x6F,
    {
        ScanCode(0x6F)
    }

    /// The function 21 key.
    pub fn FUNCTION_21() -> (r: ScanCode)
        ensures
            r.0 == 0x70,
    {
        ScanCode(0x70)
    }

    /// The function 22 key.
    pub fn FUNCTION_22() -> (r: ScanCode)
        ensures
            r.0 == 0x71,
    {
        ScanCode(0x71)
    }

    /// The function 23 key.
    pub fn FUNCTION_23() -> (r: ScanCode)
        ensures
            r.0 == 0x72,
    {
        ScanCode(0x72)
    }

    /// The function 24 key.
    pub fn FUNCTION_24() -> (r: ScanCode)
        ensures
            r.0 == 0x73,
    {
        ScanCode(0x73)
    }

    /// The mute key.
    pub fn MUTE() -> (r: ScanCode)
        ensures
            r.0 == 0x7F,
    {
        ScanCode(0x7F)
    }

    /// The volume up key.
    pub fn VOLUME_UP() -> (r: ScanCode)
        ensures
            r.0 == 0x80,
    {
        ScanCode(0x80)
    }

    /// The volume down key.
    pub fn VOLUME_DOWN() -> (r: ScanCode)
        ensures
            r.0 == 0x81,
    {
        ScanCode(0x81)
    }

    /// The brightness up key.
    pub fn BRIGHTNESS_UP() -> (r: ScanCode)
        ensures
            r.0 == 0x100,
    {
        ScanCode(0x100)
    }

    /// The brightness down key.
    pub fn BRIGHTNESS_DOWN() -> (r: ScanCode)
        ensures
            r.0 == 0x101,
    {
        ScanCode(0x101)
    }

    /// The suspend key.
    pub fn SUSPEND() -> (r: ScanCode)
        ensures
            r.0 == 0x102,
    {
        ScanCode(0x102)
    }

    /// The hibernate key.
    pub fn HIBERNATE() -> (r: ScanCode)
        ensures
            r.0 == 0x103,
    {
        ScanCode(0x103)
    }

    /// The toggle display key.
    pub fn TOGGLE_DISPLAY() -> (r: ScanCode)
        ensures
            r.0 == 0x104,
    {
        ScanCode(0x104)
    }

    /// The recovery key.
    pub fn RECOVERY() -> (r: ScanCode)
        ensures
            r.0 == 0x105,
    {
        ScanCode(0x105)
    }

    /// The eject key.
    pub fn EJECT() -> (r: ScanCode)
        ensures
            r.0 == 0x106,
    {
        ScanCode(0x106)
    }
}

/// A key read from the console (UEFI version): its scan code, `NULL` if it
/// is printable, and its character, null if it is not printable.
#[derive(Debug, Copy, Clone, PartialEq, Eq, Structural)]
pub struct RawKey {
    /// The key's scan code.
    pub scan_code: ScanCode,
    /// Associated Unicode character.
    pub unicode_char: Char16,
}

impl RawKey {
    /// The key's scan code, or 0 if printable.
    pub fn scan_code(&self) -> (r: ScanCode)
        ensures
            r == self.scan_code,
    {
        self.scan_code
    }

    /// Associated Unicode character, or 0 if not printable.
    pub fn unicode_char(&self) -> (r: Char16)
        ensures
            r == self.unicode_char,
    {
        self.unicode_char
    }
}

/// A key read from the console (high-level version)
#[derive(Debug, Copy, Clone, Eq, PartialEq, Structural)]
pub enum Key {
    /// The key is associated with a printable Unicode character
    Printable(Char16),
    /// The key is special (arrow, function, multimedia...)
    Special(ScanCode),
}

/// The high-level key of a raw key: the printable character if the scan
/// code is null, the special key of the scan code otherwise.
pub open spec fn key_of(k: RawKey) -> Key {
    if k.scan_code.0 == 0 {
        Key::Printable(k.unicode_char)
    } else {
        Key::Special(k.scan_code)
    }
}

impl From<RawKey> for Key {
    /// A key with the null scan code is the printable character; any other
    /// is special.
    fn from(k: RawKey) -> (r: Key)
        ensures
            r == key_of(k),
    {
        if k.scan_code().0 == 0 {
            Key::Printable(k.unicode_char())
        } else {
            Key::Special(k.scan_code())
        }
    }
}

impl FromSpecImpl<RawKey> for Key {
    open spec fn obeys_from_spec() -> bool {
        true
    }

    open spec fn from_spec(k: RawKey) -> Key {
        key_of(k)
    }
}

/// The result of reading a key stroke that reported `status` and filled
/// in `key`: no key if none was pending (`NOT_READY`), the key on success,
/// the status as an error otherwise.
pub fn read_key_result(status: Status, key: RawKey) -> (r: Result<Option<Key>>)
    ensures
        status@ == error_bit() + 6 ==> r == Ok::<Completion<Option<Key>>, Error>(
            Completion::Success(None),
        ),
        spec_is_success(status) ==> r == Ok::<Completion<Option<Key>>, Error>(
            Completion::Success(Some(key_of(key))),
        ),
        status@ != error_bit() + 6 && !spec_is_success(status) ==> (r matches Err(e)
            && e.spec_status() == status),
{
    let not_ready = Status::NOT_READY();
    proof {
        Status::lemma_view_injective(status, not_ready);
    }
    if status == not_ready {
        Ok(Completion::Success(None))
    } else if status.is_success() {
        Ok(Completion::Success(Some(Key::from(key))))
    } else {
        Err(Error::new(status, ()))
    }
}

} // verus!
