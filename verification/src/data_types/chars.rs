//! Latin-1 and UCS-2 characters.
use vstd::prelude::*;
use vstd::std_specs::convert::{FromSpecImpl, TryFromSpecImpl};

verus! {

/// The code points that UCS-2 reserves for UTF-16 surrogate halves.
pub open spec fn is_surrogate(code: u32) -> bool {
    0xD800 <= code <= 0xDFFF
}

/// Character conversion error
#[derive(Clone, Copy, Debug, PartialEq, Eq, Structural)]
pub struct CharConversionError;

/// A Latin-1 character
#[derive(Clone, Copy, Debug, PartialEq, Eq, Structural, PartialOrd, Ord, Hash)]
pub struct Char8(u8);

impl View for Char8 {
    type V = u8;

    closed spec fn view(&self) -> u8 {
        self.0
    }
}

impl Char8 {
    /// The character with the given Latin-1 code.
    pub fn from_code(code: u8) -> (c: Char8)
        ensures
            c@ == code,
    {
        Char8(code)
    }

    /// The Latin-1 code of this character.
    pub fn code(&self) -> (r: u8)
        ensures
            r == self@,
    {
        self.0
    }

    /// The text of the character: the one character whose code point is
    /// its Latin-1 code.
    pub fn to_string(&self) -> (s: String)
        ensures
            s@.len() == 1,
            s@[0] as u32 == self@ as u32,
    {
        let mut s = String::new();
        s.push(super::text::ucs2_to_char(self.0 as u16));
        s
    }

    /// Two characters with the same code are the same character.
    pub proof fn lemma_view_injective(a: Char8, b: Char8)
        ensures
            a@ == b@ <==> a == b,
    {
    }
}

/// The null Latin-1 character.
pub fn nul_8() -> (c: Char8)
    ensures
        c@ == 0,
{
    Char8(0)
}

impl TryFrom<char> for Char8 {
    type Error = CharConversionError;

    /// A character is Latin-1 if its code point is at most `0xff`.
    fn try_from(value: char) -> (r: Result<Self, Self::Error>)
        ensures
            r is Ok <==> (value as u32) <= 0xff,
            r matches Ok(c) ==> c@ as u32 == value as u32,
    {
        let code_point = value as u32;
        if code_point <= 0xff {
            Ok(Char8(code_point as u8))
        } else {
            Err(CharConversionError)
        }
    }
}

impl TryFromSpecImpl<char> for Char8 {
    open spec fn obeys_try_from_spec() -> bool {
        true
    }

    closed spec fn try_from_spec(v: char) -> Result<Self, Self::Error> {
        if (v as u32) <= 0xff {
            Ok(Char8((v as u32) as u8))
        } else {
            Err(CharConversionError)
        }
    }
}

impl From<Char8> for u8 {
    fn from(c: Char8) -> (r: u8)
        ensures
            r == c@,
    {
        c.0
    }
}

impl FromSpecImpl<Char8> for u8 {
    open spec fn obeys_from_spec() -> bool {
        true
    }

    closed spec fn from_spec(c: Char8) -> u8 {
        c.0
    }
}

/// An UCS-2 code point
#[derive(Clone, Copy, Debug, PartialEq, Eq, Structural, PartialOrd, Ord, Hash)]
pub struct Char16(u16);

impl Char16 {
    /// UCS-2 has no surrogate halves.
    #[verifier::type_invariant]
    spec fn no_surrogate(self) -> bool {
        !is_surrogate(self.0 as u32)
    }

    /// The UCS-2 code of this character.
    pub fn code(&self) -> (r: u16)
        ensures
            r == self@,
    {
        self.0
    }

    /// A character's code is never a surrogate half.
    pub fn lemma_not_surrogate(&self)
        ensures
            !is_surrogate(self@ as u32),
    {
        proof {
            use_type_invariant(self);
        }
    }

    /// The text of the character: the one character whose code point is
    /// its UCS-2 code.
    pub fn to_string(&self) -> (s: String)
        ensures
            s@.len() == 1,
            s@[0] as u32 == self@ as u32,
    {
        proof {
            use_type_invariant(self);
        }
        let mut s = String::new();
        s.push(super::text::ucs2_to_char(self.0));
        s
    }

    /// Two characters with the same code are the same character.
    pub proof fn lemma_view_injective(a: Char16, b: Char16)
        ensures
            a@ == b@ <==> a == b,
    {
    }
}

impl View for Char16 {
    type V = u16;

    closed spec fn view(&self) -> u16 {
        self.0
    }
}

/// The null UCS-2 character.
pub fn nul_16() -> (c: Char16)
    ensures
        c@ == 0,
{
    Char16(0)
}

impl TryFrom<char> for Char16 {
    type Error = CharConversionError;

    /// A character is UCS-2 if its code point is at most `0xffff`.
    fn try_from(value: char) -> (r: Result<Self, Self::Error>)
        ensures
            r is Ok <==> (value as u32) <= 0xffff,
            r matches Ok(c) ==> c@ as u32 == value as u32,
    {
        let code_point = value as u32;
        if code_point <= 0xffff {
            proof {
                char_is_not_surrogate(value);
            }
            Ok(Char16(code_point as u16))
        } else {
            Err(CharConversionError)
        }
    }
}

impl TryFromSpecImpl<char> for Char16 {
    open spec fn obeys_try_from_spec() -> bool {
        true
    }

    closed spec fn try_from_spec(v: char) -> Result<Self, Self::Error> {
        if (v as u32) <= 0xffff {
            Ok(Char16((v as u32) as u16))
        } else {
            Err(CharConversionError)
        }
    }
}

impl TryFrom<u16> for Char16 {
    type Error = CharConversionError;

    /// Every `u16` but the surrogate halves is a UCS-2 code point.
    fn try_from(value: u16) -> (r: Result<Self, Self::Error>)
        ensures
            r is Ok <==> !is_surrogate(value as u32),
            r matches Ok(c) ==> c@ == value,
    {
        if 0xD800 <= value && value <= 0xDFFF {
            Err(CharConversionError)
        } else {
            Ok(Char16(value))
        }
    }
}

impl TryFromSpecImpl<u16> for Char16 {
    open spec fn obeys_try_from_spec() -> bool {
        true
    }

    closed spec fn try_from_spec(v: u16) -> Result<Self, Self::Error> {
        if 0xD800 <= v <= 0xDFFF {
            Err(CharConversionError)
        } else {
            Ok(Char16(v))
        }
    }
}

impl From<Char16> for u16 {
    fn from(c: Char16) -> (r: u16)
        ensures
            r == c@,
    {
        c.0
    }
}

impl FromSpecImpl<Char16> for u16 {
    open spec fn obeys_from_spec() -> bool {
        true
    }

    closed spec fn from_spec(c: Char16) -> u16 {
        c.0
    }
}

/// A Rust `char` is a Unicode scalar value, never a surrogate half.
pub proof fn char_is_not_surrogate(c: char)
    ensures
        !is_surrogate(c as u32),
        (c as u32) <= 0x10FFFF,
{
}

} // verus!
