//! Utility functions for the UCS-2 encoding.
//!
//! UEFI primarily uses the UCS-2 encoding, a precursor of UTF-16.
//! Every character is encoded using 2 bytes, but this is a fixed-length,
//! not a multibyte encoding such as UTF-8 / UTF-16.
//! This means UCS-2 does *not* cover the whole Unicode range.
//!
//! UEFI implementations are allowed to not support all of the possible UCS-2
//! characters for printing.
use crate::result::status::error_bit;
use crate::{Completion, Error, Result, Status};
use vstd::prelude::*;
use vstd::string::StringSliceAdditionalSpecFns;
use vstd::utf8::*;

verus! {

/// Status code: the input ended in the middle of a character.
pub open spec fn code_bad_buffer_size() -> int {
    error_bit() + 4
}

/// Status code: the output buffer is too small.
pub open spec fn code_buffer_too_small() -> int {
    error_bit() + 5
}

/// Status code: a character needs more than two bytes of UCS-2.
pub open spec fn code_unsupported() -> int {
    error_bit() + 3
}

/// Status code: the input is not valid UTF-8.
pub open spec fn code_compromised_data() -> int {
    error_bit() + 33
}

/// The first UCS-2 code of UTF-8 `bytes` and the number of bytes it takes,
/// or the status code of the reason why it cannot be decoded.
pub open spec fn spec_decode_first(bytes: Seq<u8>) -> core::result::Result<(u16, int), int>
    recommends
        bytes.len() > 0,
{
    let b = bytes[0];
    if is_leading_byte_width_1(b) {
        Ok((b as u16, 1))
    } else if is_leading_byte_width_2(b) {
        if bytes.len() < 2 {
            Err(code_bad_buffer_size())
        } else if !is_continuation_byte(bytes[1]) {
            Err(code_compromised_data())
        } else {
            Ok((codepoint_width_2(b, bytes[1]) as u16, 2))
        }
    } else if is_leading_byte_width_3(b) {
        if bytes.len() < 3 {
            Err(code_bad_buffer_size())
        } else if !is_continuation_byte(bytes[1]) || !is_continuation_byte(bytes[2]) {
            Err(code_compromised_data())
        } else {
            Ok((codepoint_width_3(b, bytes[1], bytes[2]) as u16, 3))
        }
    } else if b >= 0xf0 {
        Err(code_unsupported())
    } else {
        Err(code_compromised_data())
    }
}

/// Decoding UTF-8 `bytes` into UCS-2, character after character: the codes
/// decoded before the first failure, and the status code of that failure,
/// if any.
pub open spec fn spec_ucs2_scan(bytes: Seq<u8>) -> (Seq<u16>, Option<int>)
    decreases bytes.len(),
{
    if bytes.len() == 0 {
        (Seq::empty(), None)
    } else {
        match spec_decode_first(bytes) {
            Ok((c, n)) => {
                if 0 < n <= bytes.len() {
                    let rest = spec_ucs2_scan(bytes.skip(n));
                    (seq![c] + rest.0, rest.1)
                } else {
                    (Seq::empty(), None)
                }
            },
            Err(code) => (Seq::empty(), Some(code)),
        }
    }
}

/// The codes written for a sequence of UCS-2 codes, where each line feed is
/// followed by a carriage return.
pub open spec fn spec_expand_line_feeds(codes: Seq<u16>) -> Seq<u16>
    decreases codes.len(),
{
    if codes.len() == 0 {
        Seq::empty()
    } else {
        let head = if codes[0] == 0x0a {
            seq![0x0au16, 0x0du16]
        } else {
            seq![codes[0]]
        };
        head + spec_expand_line_feeds(codes.drop_first())
    }
}

/// Decodes the character at byte `i` of `bytes`.
fn decode_at(bytes: &[u8], i: usize) -> (r: core::result::Result<(u16, usize), Status>)
    requires
        i < bytes@.len(),
    ensures
        match spec_decode_first(bytes@.skip(i as int)) {
            Ok((c, n)) => r matches Ok((c2, n2)) && c2 == c && n2 == n,
            Err(code) => r matches Err(e) && e@ == code,
        },
{
    let len = bytes.len();
    let b = bytes[i];
    let ghost s = bytes@.skip(i as int);
    if b <= 0x7f {
        Ok((b as u16, 1))
    } else if 0xc0 <= b && b <= 0xdf {
        if i + 1 == len {
            return Err(Status::BAD_BUFFER_SIZE());
        }
        let b1 = bytes[i + 1];
        if !(0x80 <= b1 && b1 <= 0xbf) {
            return Err(Status::COMPROMISED_DATA());
        }
        let a = (b & 0x1f) as u16;
        let c = (b1 & 0x3f) as u16;
        let ch = a << 6 | c;
        proof {
            assert(ch == codepoint_width_2(b, b1) as u16) by (bit_vector)
                requires
                    a == (b & 0x1f) as u16,
                    c == (b1 & 0x3f) as u16,
                    ch == a << 6 | c,
            ;
        }
        Ok((ch, 2))
    } else if 0xe0 <= b && b <= 0xef {
        if len - i <= 2 {
            return Err(Status::BAD_BUFFER_SIZE());
        }
        let b1 = bytes[i + 1];
        let b2 = bytes[i + 2];
        if !(0x80 <= b1 && b1 <= 0xbf) || !(0x80 <= b2 && b2 <= 0xbf) {
            return Err(Status::COMPROMISED_DATA());
        }
        let a = (b & 0x0f) as u16;
        let c = (b1 & 0x3f) as u16;
        let d = (b2 & 0x3f) as u16;
        let ch = a << 12 | c << 6 | d;
        proof {
            assert(ch == codepoint_width_3(b, b1, b2) as u16) by (bit_vector)
                requires
                    a == (b & 0x0f) as u16,
                    c == (b1 & 0x3f) as u16,
                    d == (b2 & 0x3f) as u16,
                    ch == a << 12 | c << 6 | d,
            ;
        }
        Ok((ch, 3))
    } else if b >= 0xf0 {
        Err(Status::UNSUPPORTED())
    } else {
        Err(Status::COMPROMISED_DATA())
    }
}

/// A character decoded from the front of some bytes takes at least one
/// byte, and no more than there are.
proof fn lemma_decode_first_len(bytes: Seq<u8>)
    requires
        bytes.len() > 0,
    ensures
        spec_decode_first(bytes) matches Ok((c, n)) ==> 0 < n <= bytes.len(),
{
}

/// What the encoder does next.
pub enum EncoderStep {
    /// Hand `code` to the output; the next character starts at byte `next`.
    Output { code: u16, next: usize },
    /// The encoding is over, with this result.
    Done(Result<()>),
}

/// One step of encoding `input` into UCS-2 codes handed to an output, at
/// byte `pos`, once the output answered `answer` for the last code handed
/// to it (`Ok` before the first code).
///
/// An error of the output ends the encoding with that error. Otherwise the
/// end of the input ends it with success, and the character at `pos` is
/// decoded: its code is to be handed to the output, or the status of its
/// failure ends the encoding: `UNSUPPORTED` for one that needs more than
/// two bytes of UCS-2, `BAD_BUFFER_SIZE` for a truncated one and
/// `COMPROMISED_DATA` for an invalid one.
pub fn ucs2_encoder_step(input: &str, pos: usize, answer: Result<()>) -> (r: EncoderStep)
    requires
        pos <= input.spec_bytes().len(),
    ensures
        answer matches Err(e) ==> r == EncoderStep::Done(Err(e)),
        answer is Ok && pos == input.spec_bytes().len() ==> r == EncoderStep::Done(
            Ok::<Completion<()>, Error>(Completion::Success(())),
        ),
        answer is Ok && pos < input.spec_bytes().len() ==> match spec_decode_first(
            input.spec_bytes().skip(pos as int),
        ) {
            Ok((c, n)) => r == EncoderStep::Output { code: c, next: (pos + n) as usize },
            Err(code) => r matches EncoderStep::Done(Err(e)) && e.spec_status()@ == code,
        },
{
    match answer {
        Err(e) => EncoderStep::Done(Err(e)),
        Ok(_) => {
            let bytes = input.as_bytes();
            if pos == bytes.len() {
                EncoderStep::Done(Ok(Completion::Success(())))
            } else {
                proof {
                    lemma_decode_first_len(bytes@.skip(pos as int));
                }
                match decode_at(bytes, pos) {
                    Ok((code, n)) => EncoderStep::Output { code, next: pos + n },
                    Err(e) => EncoderStep::Done(Err(Error::new(e, ()))),
                }
            }
        },
    }
}

/// The UCS-2 codes of a string, decoded in order, and how the decoding
/// ended.
pub struct Ucs2Codes {
    /// The codes of the characters decoded before the first failure, or of
    /// all the characters.
    pub codes: Vec<u16>,
    /// Success, or the status of the first character that could not be
    /// decoded.
    pub result: Result<()>,
}

/// Encode UTF-8 string to UCS-2, handing the codes to an output that takes
/// them all: the codes of the characters, in order, up to the first one
/// that cannot be decoded, and how the encoding ended (see
/// [`ucs2_encoder_step`]).
pub fn ucs2_encoder(input: &str) -> (r: Ucs2Codes)
    ensures
        ({
            let (codes, failure) = spec_ucs2_scan(input.spec_bytes());
            &&& r.codes@ == codes
            &&& match failure {
                None => r.result matches Ok(Completion::Success(())),
                Some(code) => r.result matches Err(e) && e.spec_status()@ == code,
            }
        }),
{
    let exec_bytes = input.as_bytes();
    let byte_len = exec_bytes.len();
    let ghost bytes = exec_bytes@;
    let mut pos: usize = 0;
    let mut out: Vec<u16> = Vec::new();
    proof {
        assert(bytes.skip(0) =~= bytes);
    }
    loop
        invariant
            bytes == input.spec_bytes(),
            bytes.len() == byte_len,
            pos <= bytes.len(),
            ({
                let total = spec_ucs2_scan(bytes);
                let rest = spec_ucs2_scan(bytes.skip(pos as int));
                total.0 == out@ + rest.0 && total.1 == rest.1
            }),
        decreases bytes.len() - pos,
    {
        let ghost s = bytes.skip(pos as int);
        match ucs2_encoder_step(input, pos, Ok(Completion::Success(()))) {
            EncoderStep::Output { code, next } => {
                proof {
                    assert(pos < bytes.len());
                    lemma_decode_first_len(s);
                    match spec_decode_first(s) {
                        Ok((c2, n2)) => {
                            assert(next == pos + n2);
                            assert(s.skip(n2) =~= bytes.skip(next as int));
                        },
                        Err(_) => {
                            assert(false);
                        },
                    }
                }
                out.push(code);
                pos = next;
            },
            EncoderStep::Done(result) => {
                proof {
                    if pos == bytes.len() {
                        assert(s =~= Seq::<u8>::empty());
                    }
                    assert(out@ + Seq::<u16>::empty() =~= out@);
                }
                return Ucs2Codes { codes: out, result };
            },
        }
    }
}

/// Encodes an input UTF-8 string into a UCS-2 string.
///
/// The encoder hands each code to an output that stores it at the next
/// place of the buffer, a line feed followed by a carriage return, and
/// fails with `BUFFER_TOO_SMALL` when the buffer is full, which ends the
/// encoding. The returned `usize` represents the length of the written
/// part of the buffer, measured in 2-byte characters. If the codes do not
/// fit, the buffer holds as many as fit; a character that cannot be
/// decoded gives the status of [`ucs2_encoder_step`]. The rest of the
/// buffer keeps its codes.
pub fn encode_ucs2(input: &str, buffer: &mut [u16]) -> (r: Result<usize>)
    ensures
        ({
            let (codes, failure) = spec_ucs2_scan(input.spec_bytes());
            let written = spec_expand_line_feeds(codes);
            let n = old(buffer)@.len();
            let k = if written.len() > n {
                n as int
            } else {
                written.len() as int
            };
            &&& final(buffer)@.len() == n
            &&& final(buffer)@.subrange(k, n as int) == old(buffer)@.subrange(k, n as int)
            &&& (if written.len() > n {
                &&& final(buffer)@.subrange(0, n as int) == written.subrange(0, n as int)
                &&& r matches Err(e) && e.spec_status()@ == code_buffer_too_small()
            } else {
                &&& final(buffer)@.subrange(0, written.len() as int) == written
                &&& match failure {
                    None => r matches Ok(Completion::Success(k)) && k == written.len(),
                    Some(code) => r matches Err(e) && e.spec_status()@ == code,
                }
            })
        }),
{
    let exec_bytes = input.as_bytes();
    let byte_len = exec_bytes.len();
    let ghost bytes = exec_bytes@;
    let buffer_size = buffer.len();
    let mut i: usize = 0;
    let mut j: usize = 0;
    let ghost mut done: Seq<u16> = Seq::empty();
    proof {
        assert(bytes.skip(0) =~= bytes);
        assert(spec_expand_line_feeds(Seq::<u16>::empty()) =~= Seq::<u16>::empty());
    }
    loop
        invariant
            bytes == input.spec_bytes(),
            bytes.len() == byte_len,
            i <= bytes.len(),
            buffer_size == old(buffer)@.len(),
            buffer@.len() == buffer_size,
            j == spec_expand_line_feeds(done).len(),
            j <= buffer_size,
            buffer@.subrange(0, j as int) == spec_expand_line_feeds(done),
            buffer@.subrange(j as int, buffer_size as int) == old(buffer)@.subrange(
                j as int,
                buffer_size as int,
            ),
            ({
                let total = spec_ucs2_scan(bytes);
                let rest = spec_ucs2_scan(bytes.skip(i as int));
                total.0 == done + rest.0 && total.1 == rest.1
            }),
        decreases bytes.len() - i,
    {
        let ghost s = bytes.skip(i as int);
        let ghost rest = spec_ucs2_scan(bytes.skip(i as int));
        let ghost prev = buffer@;
        let ghost j0 = j as int;
        match ucs2_encoder_step(input, i, Ok(Completion::Success(()))) {
            EncoderStep::Output { code: ch, next } => {
                proof {
                    assert(i < bytes.len());
                    lemma_decode_first_len(s);
                    match spec_decode_first(s) {
                        Ok((c2, n2)) => {
                            assert(next == i + n2);
                            assert(s.skip(n2) =~= bytes.skip(next as int));
                        },
                        Err(_) => {
                            assert(false);
                        },
                    }
                    lemma_expand_snoc(done, ch);
                    lemma_expand_append(done.push(ch), spec_ucs2_scan(bytes.skip(next as int)).0);
                    assert(done + rest.0 =~= done.push(ch) + spec_ucs2_scan(bytes.skip(next as int)).0);
                }
                if j >= buffer_size {
                    proof {
                        lemma_expand_append(done, rest.0);
                    }
                    return stop_full(input, next);
                }
                buffer[j] = ch;
                j = j + 1;
                if ch == 0x0a {
                    if j == buffer_size {
                        proof {
                            lemma_expand_append(done, rest.0);
                            assert(buffer@.subrange(0, buffer_size as int) =~= spec_expand_line_feeds(
                                done.push(ch),
                            ).subrange(0, buffer_size as int));
                            assert(buffer@.subrange(buffer_size as int, buffer_size as int)
                                =~= old(buffer)@.subrange(buffer_size as int, buffer_size as int));
                        }
                        return stop_full(input, next);
                    }
                    buffer[j] = 0x0d;
                    j = j + 1;
                }
                proof {
                    done = done.push(ch);
                    assert(buffer@.subrange(0, j as int) =~= spec_expand_line_feeds(done));
                    assert forall|t: int| j <= t < buffer_size implies buffer@[t] == old(buffer)@[t] by {
                        assert(buffer@[t] == prev[t]);
                        assert(prev.subrange(j0, buffer_size as int)[t - j0] == prev[t]);
                    }
                    assert(buffer@.subrange(j as int, buffer_size as int) =~= old(buffer)@.subrange(
                        j as int,
                        buffer_size as int,
                    ));
                }
                i = next;
            },
            EncoderStep::Done(result) => {
                proof {
                    if i == bytes.len() {
                        assert(s =~= Seq::<u8>::empty());
                    }
                    lemma_expand_append(done, rest.0);
                    assert(done + Seq::<u16>::empty() =~= done);
                }
                return match result {
                    Ok(_) => Ok(Completion::Success(j)),
                    Err(e) => Err(e),
                };
            },
        }
    }
}

/// The end of encoding into a full buffer: the output answers
/// `BUFFER_TOO_SMALL`, and the encoder stops with it.
fn stop_full(input: &str, pos: usize) -> (r: Result<usize>)
    requires
        pos <= input.spec_bytes().len(),
    ensures
        r matches Err(e) && e.spec_status()@ == code_buffer_too_small(),
{
    let answer: Result<()> = Err(Error::new(Status::BUFFER_TOO_SMALL(), ()));
    match ucs2_encoder_step(input, pos, answer) {
        EncoderStep::Done(Err(e)) => Err(e),
        _ => {
            assert(false);
            Err(Error::new(Status::BUFFER_TOO_SMALL(), ()))
        },
    }
}

/// The UCS-2 codes of characters that all fit in two bytes.
pub open spec fn spec_bmp_codes(chars: Seq<char>) -> Seq<u16> {
    Seq::new(chars.len(), |i: int| (chars[i] as u32) as u16)
}

proof fn lemma_width_1(c: u32)
    by (bit_vector)
    requires
        c <= 0x7f,
    ensures
        leading_byte_width_1(c) <= 0x7f,
        leading_byte_width_1(c) as u16 == c as u16,
{
}

proof fn lemma_width_2(c: u32)
    by (bit_vector)
    requires
        0x80 <= c <= 0x7ff,
    ensures
        0xc0 <= leading_byte_width_2(c) <= 0xdf,
        0x80 <= last_continuation_byte(c) <= 0xbf,
        codepoint_width_2(leading_byte_width_2(c), last_continuation_byte(c)) as u16 == c as u16,
{
}

proof fn lemma_width_3(c: u32)
    by (bit_vector)
    requires
        0x800 <= c <= 0xffff,
    ensures
        0xe0 <= leading_byte_width_3(c) <= 0xef,
        0x80 <= second_last_continuation_byte(c) <= 0xbf,
        0x80 <= last_continuation_byte(c) <= 0xbf,
        codepoint_width_3(
            leading_byte_width_3(c),
            second_last_continuation_byte(c),
            last_continuation_byte(c),
        ) as u16 == c as u16,
{
}

proof fn lemma_width_4(c: u32)
    by (bit_vector)
    requires
        0x10000 <= c <= 0x10ffff,
    ensures
        leading_byte_width_4(c) >= 0xf0,
{
}

/// Decoding the UTF-8 encoding of a character followed by more bytes.
proof fn lemma_scan_scalar(c: char, rest: Seq<u8>)
    ensures
        (c as u32) <= 0xffff ==> spec_ucs2_scan(encode_scalar(c as u32) + rest) == (
            seq![(c as u32) as u16] + spec_ucs2_scan(rest).0,
            spec_ucs2_scan(rest).1,
        ),
        (c as u32) > 0xffff ==> spec_ucs2_scan(encode_scalar(c as u32) + rest) == (
            Seq::<u16>::empty(),
            Some(code_unsupported()),
        ),
{
    let v = c as u32;
    let e = encode_scalar(v);
    let bytes = e + rest;
    crate::data_types::chars::char_is_not_surrogate(c);
    if v <= 0x7f {
        lemma_width_1(v);
    } else if v <= 0x7ff {
        lemma_width_2(v);
    } else if v <= 0xffff {
        lemma_width_3(v);
    } else {
        lemma_width_4(v);
    }
    assert(bytes.skip(e.len() as int) =~= rest);
}

/// Decoding the UTF-8 encoding of a Rust string into UCS-2 gives the code
/// of every character, when all of them fit in two bytes.
pub proof fn lemma_scan_bmp_str(chars: Seq<char>)
    requires
        forall|i: int| 0 <= i < chars.len() ==> (#[trigger] chars[i] as u32) <= 0xffff,
    ensures
        spec_ucs2_scan(encode_utf8(chars)) == (spec_bmp_codes(chars), None::<int>),
    decreases chars.len(),
{
    if chars.len() == 0 {
        assert(encode_utf8(chars) =~= Seq::<u8>::empty());
        assert(spec_bmp_codes(chars) =~= Seq::<u16>::empty());
    } else {
        let rest = chars.drop_first();
        assert forall|i: int| 0 <= i < rest.len() implies (#[trigger] rest[i] as u32) <= 0xffff by {
            assert(rest[i] == chars[i + 1]);
        }
        lemma_scan_bmp_str(rest);
        assert(chars[0] as u32 <= 0xffff);
        lemma_scan_scalar(chars[0], encode_utf8(rest));
        assert(spec_bmp_codes(chars) =~= seq![(chars[0] as u32) as u16] + spec_bmp_codes(rest));
    }
}

/// Decoding the UTF-8 encoding of a Rust string into UCS-2 stops at the
/// first character that does not fit in two bytes, with the status
/// `UNSUPPORTED`, after the codes of the characters before it.
pub proof fn lemma_scan_str_unsupported(chars: Seq<char>, p: int)
    requires
        0 <= p < chars.len(),
        (chars[p] as u32) > 0xffff,
        forall|i: int| 0 <= i < p ==> (#[trigger] chars[i] as u32) <= 0xffff,
    ensures
        spec_ucs2_scan(encode_utf8(chars)) == (
            spec_bmp_codes(chars.subrange(0, p)),
            Some(code_unsupported()),
        ),
    decreases p,
{
    let rest = chars.drop_first();
    lemma_scan_scalar(chars[0], encode_utf8(rest));
    if p == 0 {
        assert(spec_bmp_codes(chars.subrange(0, 0)) =~= Seq::<u16>::empty());
    } else {
        assert forall|i: int| 0 <= i < p - 1 implies (#[trigger] rest[i] as u32) <= 0xffff by {
            assert(rest[i] == chars[i + 1]);
        }
        assert(rest[p - 1] == chars[p]);
        lemma_scan_str_unsupported(rest, p - 1);
        assert(chars[0] as u32 <= 0xffff);
        assert(spec_bmp_codes(chars.subrange(0, p)) =~= seq![(chars[0] as u32) as u16]
            + spec_bmp_codes(rest.subrange(0, p - 1)));
    }
}

/// Expanding a sequence with one more code.
proof fn lemma_expand_snoc(codes: Seq<u16>, c: u16)
    ensures
        spec_expand_line_feeds(codes.push(c)) =~= spec_expand_line_feeds(codes) + (if c == 0x0a {
            seq![0x0au16, 0x0du16]
        } else {
            seq![c]
        }),
    decreases codes.len(),
{
    if codes.len() == 0 {
        assert(codes.push(c).drop_first() =~= Seq::<u16>::empty());
        assert(spec_expand_line_feeds(Seq::<u16>::empty()) =~= Seq::<u16>::empty());
    } else {
        assert(codes.push(c).drop_first() =~= codes.drop_first().push(c));
        lemma_expand_snoc(codes.drop_first(), c);
    }
}

/// Expanding a concatenation.
proof fn lemma_expand_append(a: Seq<u16>, b: Seq<u16>)
    ensures
        spec_expand_line_feeds(a + b) =~= spec_expand_line_feeds(a) + spec_expand_line_feeds(b),
    decreases a.len(),
{
    if a.len() == 0 {
        assert(a + b =~= b);
        assert(spec_expand_line_feeds(a) =~= Seq::<u16>::empty());
    } else {
        assert((a + b).drop_first() =~= a.drop_first() + b);
        lemma_expand_append(a.drop_first(), b);
    }
}

} // verus!
