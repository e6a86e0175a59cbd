//! Null-terminated Latin-1 and UCS-2 strings.
use super::chars::{is_surrogate, Char16, Char8};
use vstd::prelude::*;
use vstd::std_specs::cmp::PartialEqSpecImpl;

verus! {

/// Errors which can occur during checked [uN] -> CStrN conversions
#[derive(Clone, Copy, Debug, PartialEq, Eq, Structural)]
pub enum FromSliceWithNulError {
    /// An invalid character was encountered before the end of the slice
    InvalidChar(usize),
    /// A null character was encountered before the end of the slice
    InteriorNul(usize),
    /// The slice was not null-terminated
    NotNulTerminated,
}

/// `s` ends with its only null byte.
pub open spec fn is_nul_terminated(s: Seq<u8>) -> bool {
    &&& s.len() >= 1
    &&& s.last() == 0
    &&& forall|i: int| 0 <= i < s.len() - 1 ==> s[i] != 0
}

/// `s` is a valid null-terminated UCS-2 string: it has no surrogate halves
/// and ends with its only null code.
pub open spec fn is_ucs2_cstr(s: Seq<u16>) -> bool {
    &&& s.len() >= 1
    &&& s.last() == 0
    &&& forall|i: int| 0 <= i < s.len() - 1 ==> s[i] != 0
    &&& forall|i: int| 0 <= i < s.len() ==> !is_surrogate(#[trigger] s[i] as u32)
}

/// The result of checking `codes` as a null-terminated Latin-1 string:
/// the first null code must be the last code.
pub open spec fn spec_check_cstr8(codes: Seq<u8>) -> Result<(), FromSliceWithNulError> {
    if forall|i: int| 0 <= i < codes.len() ==> codes[i] != 0 {
        Err(FromSliceWithNulError::NotNulTerminated)
    } else {
        let p = choose|p: int|
            0 <= p < codes.len() && codes[p] == 0 && forall|i: int| 0 <= i < p ==> codes[i] != 0;
        if p + 1 != codes.len() {
            Err(FromSliceWithNulError::InteriorNul(p as usize))
        } else {
            Ok(())
        }
    }
}

/// The result of checking `codes` as a null-terminated UCS-2 string: codes
/// are looked at in order; a surrogate half is an invalid character, and the
/// first null code must be the last code.
pub open spec fn spec_check_cstr16(codes: Seq<u16>) -> Result<(), FromSliceWithNulError> {
    if forall|i: int| 0 <= i < codes.len() ==> codes[i] != 0 && !is_surrogate(codes[i] as u32) {
        Err(FromSliceWithNulError::NotNulTerminated)
    } else {
        let p = choose|p: int|
            0 <= p < codes.len() && (codes[p] == 0 || is_surrogate(codes[p] as u32)) && forall|
                i: int,
            |
                0 <= i < p ==> codes[i] != 0 && !is_surrogate(codes[i] as u32);
        if is_surrogate(codes[p] as u32) {
            Err(FromSliceWithNulError::InvalidChar(p as usize))
        } else if p + 1 != codes.len() {
            Err(FromSliceWithNulError::InteriorNul(p as usize))
        } else {
            Ok(())
        }
    }
}

/// A Latin-1 null-terminated string
///
/// The model of the string is the sequence of its codes, the trailing null
/// included.
pub struct CStr8 {
    codes: Vec<u8>,
}

impl View for CStr8 {
    type V = Seq<u8>;

    closed spec fn view(&self) -> Seq<u8> {
        self.codes@
    }
}

impl CStr8 {
    #[verifier::type_invariant]
    spec fn well_formed(self) -> bool {
        is_nul_terminated(self.codes@)
    }

    /// The string ends with its only null code.
    pub fn lemma_well_formed(&self)
        ensures
            is_nul_terminated(self@),
    {
        proof {
            use_type_invariant(self);
        }
    }

    /// Creates a C string from bytes, which must end with their only null
    /// byte.
    pub fn from_bytes_with_nul(chars: &[u8]) -> (r: Result<CStr8, FromSliceWithNulError>)
        ensures
            match spec_check_cstr8(chars@) {
                Ok(()) => r matches Ok(s) && s@ == chars@,
                Err(e) => r == Err::<CStr8, FromSliceWithNulError>(e),
            },
            r is Ok <==> is_nul_terminated(chars@),
    {
        let mut i: usize = 0;
        while i < chars.len()
            invariant
                i <= chars.len(),
                forall|j: int| 0 <= j < i ==> chars@[j] != 0,
            decreases chars.len() - i,
        {
            if chars[i] == 0 {
                proof {
                    let p = choose|p: int|
                        0 <= p < chars@.len() && chars@[p] == 0 && forall|j: int|
                            0 <= j < p ==> chars@[j] != 0;
                    assert(p == i as int) by {
                        if p < i {
                            assert(chars@[p] != 0);
                        } else if p > i {
                            assert(chars@[i as int] != 0);
                        }
                    }
                }
                if i + 1 != chars.len() {
                    proof {
                        assert(chars@[i as int] == 0 && i < chars@.len() - 1);
                    }
                    return Err(FromSliceWithNulError::InteriorNul(i));
                }
                let codes = slice_to_vec(chars);
                return Ok(CStr8 { codes });
            }
            i = i + 1;
        }
        Err(FromSliceWithNulError::NotNulTerminated)
    }

    /// Creates a C string from bytes that are known to end with their only
    /// null byte.
    pub fn from_bytes_with_nul_unchecked(chars: &[u8]) -> (s: CStr8)
        requires
            is_nul_terminated(chars@),
        ensures
            s@ == chars@,
    {
        CStr8 { codes: slice_to_vec(chars) }
    }

    /// Converts this C string to a slice of bytes
    pub fn to_bytes(&self) -> (r: Vec<u8>)
        ensures
            r@ == self@.drop_last(),
    {
        proof {
            use_type_invariant(self);
        }
        let n = self.codes.len() - 1;
        let mut out: Vec<u8> = Vec::new();
        let mut i: usize = 0;
        while i < n
            invariant
                i <= n,
                n == self.codes@.len() - 1,
                out@ =~= self.codes@.subrange(0, i as int),
            decreases n - i,
        {
            out.push(self.codes[i]);
            i = i + 1;
        }
        out
    }

    /// Converts this C string to a slice of bytes containing the trailing 0 char
    pub fn to_bytes_with_nul(&self) -> (r: Vec<u8>)
        ensures
            r@ == self@,
    {
        self.codes.clone()
    }

    /// The characters of this C string, the trailing null included.
    pub fn to_chars_with_nul(&self) -> (r: Vec<Char8>)
        ensures
            r@.len() == self@.len(),
            forall|i: int| 0 <= i < r@.len() ==> #[trigger] r@[i]@ == self@[i],
    {
        let mut out: Vec<Char8> = Vec::new();
        let mut i: usize = 0;
        while i < self.codes.len()
            invariant
                i <= self.codes@.len(),
                out@.len() == i,
                forall|j: int| 0 <= j < i ==> #[trigger] out@[j]@ == self.codes@[j],
            decreases self.codes@.len() - i,
        {
            out.push(Char8::from_code(self.codes[i]));
            i = i + 1;
        }
        out
    }
}

/// A copy of a byte slice.
fn slice_to_vec<T: Copy>(s: &[T]) -> (v: Vec<T>)
    ensures
        v@ == s@,
{
    let mut out: Vec<T> = Vec::new();
    let mut i: usize = 0;
    while i < s.len()
        invariant
            i <= s@.len(),
            out@ =~= s@.subrange(0, i as int),
        decreases s@.len() - i,
    {
        out.push(s[i]);
        i = i + 1;
    }
    proof {
        assert(s@.subrange(0, s@.len() as int) =~= s@);
    }
    out
}

/// An UCS-2 null-terminated string
///
/// The model of the string is the sequence of its codes, the trailing null
/// included.
#[derive(Debug)]
pub struct CStr16 {
    codes: Vec<u16>,
}

impl View for CStr16 {
    type V = Seq<u16>;

    closed spec fn view(&self) -> Seq<u16> {
        self.codes@
    }
}

impl CStr16 {
    #[verifier::type_invariant]
    spec fn well_formed(self) -> bool {
        is_ucs2_cstr(self.codes@)
    }

    /// The codes have no surrogate halves and end with their only null code.
    pub fn lemma_well_formed(&self)
        ensures
            is_ucs2_cstr(self@),
    {
        proof {
            use_type_invariant(self);
        }
    }

    /// Creates a C string wrapper from a u16 slice
    ///
    /// Since not every u16 value is a valid UCS-2 code point, this function
    /// must do a bit more validity checking than `CStr8::from_bytes_with_nul`.
    pub fn from_u16_with_nul(codes: &[u16]) -> (r: Result<CStr16, FromSliceWithNulError>)
        ensures
            match spec_check_cstr16(codes@) {
                Ok(()) => r matches Ok(s) && s@ == codes@,
                Err(e) => r == Err::<CStr16, FromSliceWithNulError>(e),
            },
            r is Ok <==> is_ucs2_cstr(codes@),
    {
        let mut i: usize = 0;
        while i < codes.len()
            invariant
                i <= codes.len(),
                forall|j: int| 0 <= j < i ==> codes@[j] != 0 && !is_surrogate(codes@[j] as u32),
            decreases codes.len() - i,
        {
            let code = codes[i];
            if code == 0 || (0xD800 <= code && code <= 0xDFFF) {
                proof {
                    let p = choose|p: int|
                        0 <= p < codes@.len() && (codes@[p] == 0 || is_surrogate(
                            codes@[p] as u32,
                        )) && forall|j: int|
                            0 <= j < p ==> codes@[j] != 0 && !is_surrogate(codes@[j] as u32);
                    assert(p == i as int) by {
                        if p < i {
                            assert(codes@[p] != 0 && !is_surrogate(codes@[p] as u32));
                        } else if p > i {
                            assert(codes@[i as int] != 0 && !is_surrogate(codes@[i as int] as u32));
                        }
                    }
                }
                if 0xD800 <= code && code <= 0xDFFF {
                    return Err(FromSliceWithNulError::InvalidChar(i));
                }
                if i + 1 != codes.len() {
                    proof {
                        assert(codes@[i as int] == 0 && i < codes@.len() - 1);
                    }
                    return Err(FromSliceWithNulError::InteriorNul(i));
                }
                return Ok(CStr16 { codes: slice_to_vec(codes) });
            }
            i = i + 1;
        }
        proof {
            assert(!is_ucs2_cstr(codes@)) by {
                if codes@.len() >= 1 {
                    assert(codes@[codes@.len() - 1] != 0);
                }
            }
        }
        Err(FromSliceWithNulError::NotNulTerminated)
    }

    /// Creates a C string wrapper from codes known to be a valid
    /// null-terminated UCS-2 string.
    pub fn from_u16_with_nul_unchecked(codes: &[u16]) -> (s: CStr16)
        requires
            is_ucs2_cstr(codes@),
        ensures
            s@ == codes@,
    {
        CStr16 { codes: slice_to_vec(codes) }
    }

    /// Converts this C string to a u16 slice
    pub fn to_u16_slice(&self) -> (r: Vec<u16>)
        ensures
            r@ == self@.drop_last(),
    {
        proof {
            use_type_invariant(self);
        }
        let n = self.codes.len() - 1;
        let mut out: Vec<u16> = Vec::new();
        let mut i: usize = 0;
        while i < n
            invariant
                i <= n,
                n == self.codes@.len() - 1,
                out@ =~= self.codes@.subrange(0, i as int),
            decreases n - i,
        {
            out.push(self.codes[i]);
            i = i + 1;
        }
        out
    }

    /// Converts this C string to a u16 slice containing the trailing 0 char
    pub fn to_u16_slice_with_nul(&self) -> (r: Vec<u16>)
        ensures
            r@ == self@,
    {
        self.codes.clone()
    }

    /// The number of characters before the trailing null.
    pub fn num_chars(&self) -> (n: usize)
        ensures
            n == self@.len() - 1,
    {
        proof {
            use_type_invariant(self);
        }
        self.codes.len() - 1
    }

    /// The character at `index`, which must come before the trailing null.
    pub fn char_at(&self, index: usize) -> (c: Char16)
        requires
            index < self@.len() - 1,
        ensures
            c@ == self@[index as int],
    {
        proof {
            use_type_invariant(self);
        }
        let code = self.codes[index];
        match Char16::try_from(code) {
            Ok(c) => c,
            Err(_) => {
                assert(false);
                unreached()
            },
        }
    }

    /// Returns an iterator over this C string
    pub fn iter(&self) -> (it: CStr16Iter<'_>)
        ensures
            it.spec_pos() == 0,
            it.spec_inner() == self,
    {
        CStr16Iter { inner: self, pos: 0 }
    }

    /// The characters of this C string, without the trailing null, as a
    /// Rust string.
    pub fn as_string(&self) -> (s: String)
        ensures
            s@.len() == self@.len() - 1,
            forall|i: int| 0 <= i < s@.len() ==> #[trigger] s@[i] as u32 == self@[i] as u32,
    {
        proof {
            use_type_invariant(self);
        }
        let n = self.codes.len() - 1;
        let mut out = String::new();
        let mut i: usize = 0;
        while i < n
            invariant
                i <= n,
                n == self.codes@.len() - 1,
                is_ucs2_cstr(self.codes@),
                out@.len() == i,
                forall|j: int| 0 <= j < i ==> #[trigger] out@[j] as u32 == self.codes@[j] as u32,
            decreases n - i,
        {
            let c = super::text::ucs2_to_char(self.codes[i]);
            out.push(c);
            i = i + 1;
        }
        out
    }
}

impl PartialEq for CStr16 {
    /// Two strings are equal when their codes are.
    fn eq(&self, other: &Self) -> (r: bool) {
        codes_eq(&self.codes, &other.codes)
    }
}

impl PartialEqSpecImpl for CStr16 {
    open spec fn obeys_eq_spec() -> bool {
        true
    }

    open spec fn eq_spec(&self, other: &Self) -> bool {
        self@ == other@
    }
}

/// Compares two code sequences element by element.
pub fn codes_eq(a: &Vec<u16>, b: &Vec<u16>) -> (r: bool)
    ensures
        r == (a@ == b@),
{
    if a.len() != b.len() {
        return false;
    }
    let mut i: usize = 0;
    while i < a.len()
        invariant
            a@.len() == b@.len(),
            i <= a@.len(),
            forall|j: int| 0 <= j < i ==> a@[j] == b@[j],
        decreases a@.len() - i,
    {
        if a[i] != b[i] {
            return false;
        }
        i = i + 1;
    }
    proof {
        assert(a@ =~= b@);
    }
    true
}

/// One call of the iterator over the codes `codes` (trailing null included)
/// at position `pos`: the code there, unless it is the trailing null, and
/// the position after the call.
pub open spec fn iter_step(codes: Seq<u16>, pos: nat) -> (Option<u16>, nat) {
    if pos + 1 < codes.len() {
        (Some(codes[pos as int]), pos + 1)
    } else {
        (None, pos)
    }
}

/// What `calls` calls of the iterator give, starting at position `pos`.
pub open spec fn iter_yields(codes: Seq<u16>, pos: nat, calls: nat) -> Seq<Option<u16>>
    decreases calls,
{
    if calls == 0 {
        Seq::empty()
    } else {
        let (r, next) = iter_step(codes, pos);
        seq![r] + iter_yields(codes, next, (calls - 1) as nat)
    }
}

/// An iterator over a C string yields its codes in order, without the
/// trailing null, then nothing on every later call.
pub proof fn lemma_iter_yields(codes: Seq<u16>, pos: nat, calls: nat)
    requires
        codes.len() >= 1,
        pos + 1 <= codes.len(),
    ensures
        iter_yields(codes, pos, calls) == Seq::new(
            calls,
            |i: int|
                if pos + i + 1 < codes.len() {
                    Some(codes[pos + i])
                } else {
                    None
                },
        ),
    decreases calls,
{
    if calls > 0 {
        let (r, next) = iter_step(codes, pos);
        lemma_iter_yields(codes, next, (calls - 1) as nat);
        assert(iter_yields(codes, pos, calls) =~= Seq::new(
            calls,
            |i: int|
                if pos + i + 1 < codes.len() {
                    Some(codes[pos + i])
                } else {
                    None
                },
        ));
    } else {
        assert(iter_yields(codes, pos, calls) =~= Seq::new(
            calls,
            |i: int|
                if pos + i + 1 < codes.len() {
                    Some(codes[pos + i])
                } else {
                    None
                },
        ));
    }
}

/// An iterator over `CStr16`.
pub struct CStr16Iter<'a> {
    inner: &'a CStr16,
    pos: usize,
}

impl<'a> CStr16Iter<'a> {
    /// The string that is iterated over.
    pub closed spec fn spec_inner(&self) -> &'a CStr16 {
        self.inner
    }

    /// The index of the next character.
    pub closed spec fn spec_pos(&self) -> usize {
        self.pos
    }

    /// The next character, if the trailing null has not been reached.
    pub fn next(&mut self) -> (r: Option<Char16>)
        ensures
            final(self).spec_inner() == old(self).spec_inner(),
            iter_step(old(self).spec_inner()@, old(self).spec_pos() as nat) == (
                match r {
                    Some(c) => Some(c@),
                    None => None::<u16>,
                },
                final(self).spec_pos() as nat,
            ),
            old(self).spec_pos() < old(self).spec_inner()@.len() - 1 ==> (r matches Some(c) && c@
                == old(self).spec_inner()@[old(self).spec_pos() as int] && final(self).spec_pos()
                == old(self).spec_pos() + 1),
            old(self).spec_pos() >= old(self).spec_inner()@.len() - 1 ==> (r is None && final(self).spec_pos()
                == old(self).spec_pos()),
    {
        self.inner.lemma_well_formed();
        if self.pos >= self.inner.num_chars() {
            None
        } else {
            let c = self.inner.char_at(self.pos);
            self.pos = self.pos + 1;
            Some(c)
        }
    }
}

} // verus!
