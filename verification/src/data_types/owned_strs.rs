//! Owned null-terminated UCS-2 strings.
use super::chars::is_surrogate;
use super::strs::{is_ucs2_cstr, spec_check_cstr16, CStr16, FromSliceWithNulError};
use vstd::prelude::*;
use vstd::std_specs::cmp::PartialEqSpecImpl;

verus! {

/// Error returned by [`CString16::try_from::<&str>`].
#[derive(Clone, Copy, Debug, Eq, PartialEq, Structural)]
pub enum FromStrError {
    /// Character conversion error.
    InvalidChar,
    /// Nul character found in the input.
    InteriorNul,
}

/// A character that stops the conversion of a string: one outside UCS-2 or
/// the null character.
pub open spec fn stops_conversion(c: char) -> bool {
    (c as u32) > 0xffff || (c as u32) == 0
}

/// The UCS-2 string, null-terminated, of a Rust string: the characters are
/// looked at in order; the first one outside UCS-2 is an invalid character,
/// and a null character may not appear.
pub open spec fn spec_cstring16_from_chars(s: Seq<char>) -> Result<Seq<u16>, FromStrError> {
    if forall|i: int| 0 <= i < s.len() ==> !stops_conversion(#[trigger] s[i]) {
        Ok(Seq::new(s.len(), |i: int| (s[i] as u32) as u16).push(0))
    } else {
        let p = choose|p: int|
            0 <= p < s.len() && stops_conversion(s[p]) && forall|j: int|
                0 <= j < p ==> !stops_conversion(#[trigger] s[j]);
        if (s[p] as u32) > 0xffff {
            Err(FromStrError::InvalidChar)
        } else {
            Err(FromStrError::InteriorNul)
        }
    }
}

/// The comparison made by [`EqStrUntilNul`]: the characters of the UCS-2
/// string (without its trailing null) and those of the Rust string agree,
/// position by position, up to the end of either and up to the first null
/// character of the Rust string.
pub open spec fn spec_eq_str_until_nul(codes: Seq<u16>, chars: Seq<char>) -> bool {
    forall|i: int|
        0 <= i < codes.len() - 1 && 0 <= i < chars.len() && (forall|j: int|
            0 <= j <= i ==> (#[trigger] chars[j] as u32) != 0) ==> codes[i] as u32 == chars[i] as u32
}

/// An owned UCS-2 null-terminated string.
///
/// For convenience, a [CString16] is comparable with `&str` and `String` from the standard library
/// through the trait [EqStrUntilNul].
#[derive(Debug)]
pub struct CString16(CStr16);

impl View for CString16 {
    type V = Seq<u16>;

    closed spec fn view(&self) -> Seq<u16> {
        self.0@
    }
}

impl TryFrom<&str> for CString16 {
    type Error = FromStrError;

    /// Converts the characters of `input` to UCS-2, appending the null.
    fn try_from(input: &str) -> (r: Result<Self, Self::Error>)
        ensures
            match spec_cstring16_from_chars(input@) {
                Ok(codes) => r matches Ok(s) && s@ == codes,
                Err(e) => r matches Err(e2) && e2 == e,
            },
    {
        let mut output: Vec<u16> = Vec::new();
        for c in it: input.chars()
            invariant
                it.seq() == input@,
                output@.len() == it.index(),
                forall|j: int| 0 <= j < it.index() ==> !stops_conversion(#[trigger] input@[j]),
                forall|j: int|
                    0 <= j < it.index() ==> #[trigger] output@[j] == (input@[j] as u32) as u16,
        {
            let code = c as u32;
            if code > 0xffff || code == 0 {
                proof {
                    let i = it.index() as int;
                    let p = choose|p: int|
                        0 <= p < input@.len() && stops_conversion(input@[p]) && forall|j: int|
                            0 <= j < p ==> !stops_conversion(#[trigger] input@[j]);
                    assert(stops_conversion(input@[i]));
                    assert(p == i) by {
                        if p < i {
                            assert(!stops_conversion(input@[p]));
                        } else if p > i {
                            assert(!stops_conversion(input@[i]));
                        }
                    }
                }
                if code > 0xffff {
                    return Err(FromStrError::InvalidChar);
                } else {
                    return Err(FromStrError::InteriorNul);
                }
            }
            output.push(code as u16);
        }
        output.push(0);
        proof {
            assert(output@ =~= Seq::new(input@.len(), |i: int| (input@[i] as u32) as u16).push(0));
            assert forall|i: int| 0 <= i < output@.len() implies !is_surrogate(
                #[trigger] output@[i] as u32,
            ) by {
                if i < input@.len() {
                    super::chars::char_is_not_surrogate(input@[i]);
                }
            }
        }
        let s = CStr16::from_u16_with_nul_unchecked(output.as_slice());
        Ok(CString16(s))
    }
}


impl vstd::std_specs::convert::TryFromSpecImpl<&str> for CString16 {
    open spec fn obeys_try_from_spec() -> bool {
        false
    }

    closed spec fn try_from_spec(v: &str) -> Result<Self, Self::Error> {
        arbitrary()
    }
}

impl TryFrom<Vec<u16>> for CString16 {
    type Error = FromSliceWithNulError;

    /// Takes the codes as they are, if they form a valid null-terminated
    /// UCS-2 string.
    fn try_from(input: Vec<u16>) -> (r: Result<Self, Self::Error>)
        ensures
            match spec_check_cstr16(input@) {
                Ok(()) => r matches Ok(s) && s@ == input@,
                Err(e) => r matches Err(e2) && e2 == e,
            },
    {
        match CStr16::from_u16_with_nul(input.as_slice()) {
            Ok(s) => Ok(CString16(s)),
            Err(e) => Err(e),
        }
    }
}


impl vstd::std_specs::convert::TryFromSpecImpl<Vec<u16>> for CString16 {
    open spec fn obeys_try_from_spec() -> bool {
        false
    }

    closed spec fn try_from_spec(v: Vec<u16>) -> Result<Self, Self::Error> {
        arbitrary()
    }
}

impl CString16 {
    /// The borrowed string.
    pub fn as_cstr16(&self) -> (s: &CStr16)
        ensures
            s@ == self@,
    {
        &self.0
    }

    /// The codes, the trailing null included.
    pub fn to_u16_slice_with_nul(&self) -> (r: Vec<u16>)
        ensures
            r@ == self@,
    {
        self.0.to_u16_slice_with_nul()
    }
}

impl AsRef<CStr16> for CString16 {
    fn as_ref(&self) -> &CStr16 {
        &self.0
    }
}

impl PartialEq for CString16 {
    fn eq(&self, other: &Self) -> (r: bool) {
        self.0.eq(&other.0)
    }
}

impl PartialEqSpecImpl for CString16 {
    open spec fn obeys_eq_spec() -> bool {
        true
    }

    open spec fn eq_spec(&self, other: &Self) -> bool {
        self@ == other@
    }
}

impl PartialEq<CStr16> for CString16 {
    fn eq(&self, other: &CStr16) -> (r: bool) {
        self.0.eq(other)
    }
}

impl PartialEqSpecImpl<CStr16> for CString16 {
    open spec fn obeys_eq_spec() -> bool {
        true
    }

    open spec fn eq_spec(&self, other: &CStr16) -> bool {
        self@ == other@
    }
}

impl PartialEq<CString16> for CStr16 {
    fn eq(&self, other: &CString16) -> (r: bool) {
        self.eq(&other.0)
    }
}

impl PartialEqSpecImpl<CString16> for CStr16 {
    open spec fn obeys_eq_spec() -> bool {
        true
    }

    open spec fn eq_spec(&self, other: &CString16) -> bool {
        self@ == other@
    }
}

/// A UCS-2 string converted from a Rust string compares equal to it.
pub proof fn lemma_converted_eq_str_until_nul(s: Seq<char>)
    requires
        spec_cstring16_from_chars(s) is Ok,
    ensures
        spec_eq_str_until_nul(spec_cstring16_from_chars(s)->Ok_0, s),
{
    assert(forall|i: int| 0 <= i < s.len() ==> !stops_conversion(#[trigger] s[i]));
}

/// The trait for comparing a UCS-2 string with a Rust string up to the
/// first null character.
pub trait EqStrUntilNul<StrType: ?Sized> {
    /// True if the strings agree up to the end of either and up to the
    /// first null character.
    fn eq_str_until_nul(&self, other: &StrType) -> bool;
}

/// Compares a UCS-2 string with the characters of a Rust string.
fn cstr16_eq_str_until_nul(a: &CStr16, b: &str) -> (r: bool)
    ensures
        r == spec_eq_str_until_nul(a@, b@),
{
    a.lemma_well_formed();
    let n = a.num_chars();
    let mut i: usize = 0;
    for c in it: b.chars()
        invariant
            it.seq() == b@,
            i == it.index(),
            n == a@.len() - 1,
            forall|k: int| 0 <= k < i ==> (#[trigger] b@[k] as u32) != 0,
            forall|k: int| 0 <= k < i && k < n ==> a@[k] as u32 == b@[k] as u32,
    {
        if c as u32 == 0 || i >= n {
            return true;
        }
        let x = a.char_at(i);
        if x.code() as u32 != c as u32 {
            return false;
        }
        i = i + 1;
    }
    true
}

impl EqStrUntilNul<str> for CStr16 {
    fn eq_str_until_nul(&self, other: &str) -> (r: bool)
        ensures
            r == spec_eq_str_until_nul(self@, other@),
    {
        cstr16_eq_str_until_nul(self, other)
    }
}

impl EqStrUntilNul<&str> for CString16 {
    fn eq_str_until_nul(&self, other: &&str) -> (r: bool)
        ensures
            r == spec_eq_str_until_nul(self@, other@),
    {
        cstr16_eq_str_until_nul(&self.0, *other)
    }
}

impl EqStrUntilNul<String> for CString16 {
    fn eq_str_until_nul(&self, other: &String) -> (r: bool)
        ensures
            r == spec_eq_str_until_nul(self@, other@),
    {
        cstr16_eq_str_until_nul(&self.0, other.as_str())
    }
}

impl EqStrUntilNul<CString16> for str {
    fn eq_str_until_nul(&self, other: &CString16) -> (r: bool)
        ensures
            r == spec_eq_str_until_nul(other@, self@),
    {
        cstr16_eq_str_until_nul(&other.0, self)
    }
}

impl EqStrUntilNul<CString16> for String {
    fn eq_str_until_nul(&self, other: &CString16) -> (r: bool)
        ensures
            r == spec_eq_str_until_nul(other@, self@),
    {
        cstr16_eq_str_until_nul(&other.0, self.as_str())
    }
}

} // verus!
