//! The directory listings that a (M)TFTP server sends.
//!
//! A listing is a sequence of null-terminated strings. Each entry is the
//! name of a file, (for MTFTP) the multicast IPv4 address it is served on,
//! and its information `<size> <year>-<month>-<day> <hour>:<minute>:<second>`.
//! A lone null ends the listing.
//!
//! The listing is read in chunks: a chunk runs from where the last one
//! ended up to and including the next null byte, or to the end of the
//! listing if there is none. An entry takes one chunk per string, and is
//! read one at a time: each read gives the entry, or the end of the
//! listing, or an error, and where the next read starts.
use super::pxe::ReadDirParseError;
use super::IpAddress;
use crate::data_types::strs::is_nul_terminated;
use crate::data_types::CStr8;
use vstd::prelude::*;
use vstd::slice::slice_subrange;

verus! {

/// The index of the first byte `c` of `s` at `i` or after, or the length of
/// `s` if there is none.
pub open spec fn find_byte(s: Seq<u8>, c: u8, i: int) -> int
    decreases s.len() - i,
{
    if i < 0 || i >= s.len() {
        s.len() as int
    } else if s[i] == c {
        i
    } else {
        find_byte(s, c, i + 1)
    }
}

/// Where the chunk of `s` that starts at `pos` ends: just after the first
/// null byte from `pos` on, or at the end of `s`.
pub open spec fn chunk_end(s: Seq<u8>, pos: int) -> int {
    let k = find_byte(s, 0, pos);
    if k < s.len() {
        k + 1
    } else {
        s.len() as int
    }
}

/// `s` cut at its first byte `c`: the bytes before it and those after it;
/// `None` if `c` does not occur in `s`.
pub open spec fn split_once(s: Seq<u8>, c: u8) -> Option<(Seq<u8>, Seq<u8>)> {
    let k = find_byte(s, c, 0);
    if k < s.len() {
        Some((s.subrange(0, k), s.subrange(k + 1, s.len() as int)))
    } else {
        None
    }
}

/// `b` is an ASCII decimal digit.
pub open spec fn is_digit(b: u8) -> bool {
    48 <= b <= 57
}

/// The number that the decimal digits `d` stand for.
pub open spec fn decimal_value(d: Seq<u8>) -> nat
    decreases d.len(),
{
    if d.len() == 0 {
        0
    } else {
        decimal_value(d.drop_last()) * 10 + (d.last() - 48) as nat
    }
}

/// Every byte of `d` is a decimal digit.
pub open spec fn all_digits(d: Seq<u8>) -> bool {
    forall|i: int| 0 <= i < d.len() ==> is_digit(#[trigger] d[i])
}

/// The digits of the text of an unsigned integer: the text without its
/// leading `+`, if it has one.
pub open spec fn uint_digits(s: Seq<u8>) -> Seq<u8> {
    if s.len() > 0 && s[0] == 43 {
        s.drop_first()
    } else {
        s
    }
}

/// The number that `s` is the text of, read as Rust reads an unsigned
/// integer: an optional `+`, then one or more decimal digits; `None` if `s`
/// is not such a text or its number is above `max`.
pub open spec fn parse_uint(s: Seq<u8>, max: nat) -> Option<nat> {
    let d = uint_digits(s);
    if d.len() > 0 && all_digits(d) && decimal_value(d) <= max {
        Some(decimal_value(d))
    } else {
        None
    }
}

/// The parts of the information of an entry,
/// `<size> <year>-<month>-<day> <hour>:<minute>:<second>`, in that order;
/// `None` if a separator is missing.
pub open spec fn info_parts(info: Seq<u8>) -> Option<Seq<Seq<u8>>> {
    match split_once(info, 32) {
        None => None,
        Some((size, r)) => match split_once(r, 45) {
            None => None,
            Some((year, r)) => match split_once(r, 45) {
                None => None,
                Some((month, r)) => match split_once(r, 32) {
                    None => None,
                    Some((day, r)) => match split_once(r, 58) {
                        None => None,
                        Some((hour, r)) => match split_once(r, 58) {
                            None => None,
                            Some((minute, second)) => Some(
                                seq![size, year, month, day, hour, minute, second],
                            ),
                        },
                    },
                },
            },
        },
    }
}

/// Every byte of `s` is ASCII.
pub open spec fn is_ascii_bytes(s: Seq<u8>) -> bool {
    forall|i: int| 0 <= i < s.len() ==> #[trigger] s[i] < 128
}

/// The information of an entry can be read: its parts are there, its size
/// fits in a `u64`, its year in a `u16`, its month, day, hour and minute in
/// a `u8`, and its seconds are ASCII text.
pub open spec fn info_ok(info: Seq<u8>) -> bool {
    &&& info_parts(info) is Some
    &&& parse_uint(info_parts(info)->0[0], u64::MAX as nat) is Some
    &&& parse_uint(info_parts(info)->0[1], u16::MAX as nat) is Some
    &&& parse_uint(info_parts(info)->0[2], u8::MAX as nat) is Some
    &&& parse_uint(info_parts(info)->0[3], u8::MAX as nat) is Some
    &&& parse_uint(info_parts(info)->0[4], u8::MAX as nat) is Some
    &&& parse_uint(info_parts(info)->0[5], u8::MAX as nat) is Some
    &&& is_ascii_bytes(info_parts(info)->0[6])
}

/// The parts of a dotted IPv4 address, `<a>.<b>.<c>.<d>`; `None` if it
/// has fewer than four.
pub open spec fn ip_parts(ip: Seq<u8>) -> Option<Seq<Seq<u8>>> {
    match split_once(ip, 46) {
        None => None,
        Some((a, r)) => match split_once(r, 46) {
            None => None,
            Some((b, r)) => match split_once(r, 46) {
                None => None,
                Some((c, d)) => Some(seq![a, b, c, d]),
            },
        },
    }
}

/// The dotted IPv4 address can be read: it has exactly four parts, each
/// a number that fits in a byte.
pub open spec fn ip_ok(ip: Seq<u8>) -> bool {
    &&& ip_parts(ip) is Some
    &&& find_byte(ip_parts(ip)->0[3], 46, 0) == ip_parts(ip)->0[3].len()
    &&& forall|i: int| 0 <= i < 4 ==> parse_uint(#[trigger] ip_parts(ip)->0[i], 255) is Some
}

/// The value of part `i` of a text cut into parts.
pub open spec fn part_value(parts: Option<Seq<Seq<u8>>>, i: int, max: nat) -> nat {
    parse_uint(parts->0[i], max)->0
}

/// A file of a TFTP directory listing.
pub struct TftpFileInfo {
    /// The name of the file.
    pub filename: CStr8,
    /// The size of the file in bytes.
    pub size: u64,
    /// The year it was last modified.
    pub year: u16,
    /// The month it was last modified.
    pub month: u8,
    /// The day it was last modified.
    pub day: u8,
    /// The hour it was last modified.
    pub hour: u8,
    /// The minute it was last modified.
    pub minute: u8,
    /// The seconds it was last modified, as the server wrote them (ASCII
    /// text of a number that may have a fraction).
    pub second: Vec<u8>,
}

/// A file of a MTFTP directory listing.
pub struct MtftpFileInfo {
    /// The name of the file.
    pub filename: CStr8,
    /// The multicast address the file is served on.
    pub ip_address: IpAddress,
    /// The size of the file in bytes.
    pub size: u64,
    /// The year it was last modified.
    pub year: u16,
    /// The month it was last modified.
    pub month: u8,
    /// The day it was last modified.
    pub day: u8,
    /// The hour it was last modified.
    pub hour: u8,
    /// The minute it was last modified.
    pub minute: u8,
    /// The seconds it was last modified, as the server wrote them (ASCII
    /// text of a number that may have a fraction).
    pub second: Vec<u8>,
}

/// The index of the first byte `c` of `s` at `from` or after, or the length
/// of `s`.
fn find_byte_from(s: &[u8], c: u8, from: usize) -> (k: usize)
    requires
        from <= s@.len(),
    ensures
        k == find_byte(s@, c, from as int),
{
    let mut i = from;
    while i < s.len()
        invariant
            from <= i <= s@.len(),
            find_byte(s@, c, from as int) == find_byte(s@, c, i as int),
        decreases s@.len() - i,
    {
        if s[i] == c {
            return i;
        }
        i = i + 1;
    }
    i
}

/// `s` cut at its first byte `c`.
fn split_at_byte(s: &[u8], c: u8) -> (r: Option<(&[u8], &[u8])>)
    ensures
        split_once(s@, c) is None ==> r is None,
        split_once(s@, c) matches Some((a, b)) ==> (r matches Some((x, y)) && x@ == a && y@ == b),
{
    let k = find_byte_from(s, c, 0);
    proof {
        lemma_find_byte_bounds(s@, c, 0);
    }
    if k < s.len() {
        Some((slice_subrange(s, 0, k), slice_subrange(s, k + 1, s.len())))
    } else {
        None
    }
}

/// The first byte `c` from `i` on is at `i` or after, and no later than
/// the length.
proof fn lemma_find_byte_bounds(s: Seq<u8>, c: u8, i: int)
    requires
        0 <= i <= s.len(),
    ensures
        i <= find_byte(s, c, i) <= s.len(),
        find_byte(s, c, i) < s.len() ==> s[find_byte(s, c, i)] == c,
        forall|j: int| i <= j < find_byte(s, c, i) ==> s[j] != c,
    decreases s.len() - i,
{
    if i < s.len() && s[i] != c {
        lemma_find_byte_bounds(s, c, i + 1);
    }
}

/// A prefix of digits stands for no more than the whole.
proof fn lemma_decimal_prefix(d: Seq<u8>, k: int)
    requires
        0 <= k <= d.len(),
        all_digits(d),
    ensures
        decimal_value(d.subrange(0, k)) <= decimal_value(d),
    decreases d.len() - k,
{
    if k < d.len() {
        lemma_decimal_prefix(d, k + 1);
        assert(d.subrange(0, k + 1).drop_last() =~= d.subrange(0, k));
    } else {
        assert(d.subrange(0, k) =~= d);
    }
}

/// The number that `s` is the text of, if it is one and is at most `max`.
fn parse_uint_exec(s: &[u8], max: u64) -> (r: Option<u64>)
    requires
        max >= 9,
    ensures
        r is Some <==> parse_uint(s@, max as nat) is Some,
        r matches Some(v) ==> parse_uint(s@, max as nat) == Some(v as nat),
{
    let d = if s.len() > 0 && s[0] == 43 {
        slice_subrange(s, 1, s.len())
    } else {
        s
    };
    proof {
        if s@.len() > 0 && s@[0] == 43 {
            assert(d@ =~= s@.drop_first());
        }
        assert(d@ == uint_digits(s@));
    }
    if d.len() == 0 {
        return None;
    }
    let mut v: u64 = 0;
    let mut i: usize = 0;
    proof {
        assert(d@.subrange(0, 0) =~= Seq::<u8>::empty());
    }
    while i < d.len()
        invariant
            i <= d@.len(),
            d@.len() > 0,
            d@ == uint_digits(s@),
            forall|j: int| 0 <= j < i ==> is_digit(#[trigger] d@[j]),
            v == decimal_value(d@.subrange(0, i as int)),
            v <= max,
            max >= 9,
        decreases d@.len() - i,
    {
        let b = d[i];
        if b < 48 || b > 57 {
            proof {
                assert(!is_digit(d@[i as int]));
                assert(!all_digits(d@));
            }
            return None;
        }
        let dig: u64 = (b - 48) as u64;
        proof {
            assert(d@.subrange(0, i + 1).drop_last() =~= d@.subrange(0, i as int));
            assert(decimal_value(d@.subrange(0, i + 1)) == v * 10 + dig);
        }
        if v > (max - dig) / 10 {
            proof {
                assert(v * 10 + dig > max) by (nonlinear_arith)
                    requires
                        v > (max - dig) / 10,
                        dig <= 9,
                        max >= 9,
                ;
                if all_digits(d@) {
                    lemma_decimal_prefix(d@, i + 1);
                }
            }
            return None;
        }
        assert(v * 10 + dig <= max) by (nonlinear_arith)
            requires
                v <= (max - dig) / 10,
                dig <= 9,
                max >= 9,
        ;
        v = v * 10 + dig;
        i = i + 1;
    }
    proof {
        assert(d@.subrange(0, d@.len() as int) =~= d@);
    }
    Some(v)
}

/// Every byte of `s` is ASCII.
fn all_ascii(s: &[u8]) -> (r: bool)
    ensures
        r == is_ascii_bytes(s@),
{
    let mut i: usize = 0;
    while i < s.len()
        invariant
            i <= s@.len(),
            forall|j: int| 0 <= j < i ==> #[trigger] s@[j] < 128,
        decreases s@.len() - i,
    {
        if s[i] >= 128 {
            return false;
        }
        i = i + 1;
    }
    true
}

/// The fields of the information of an entry: size, year, month, day,
/// hour, minute and the text of the seconds.
struct InfoFields {
    size: u64,
    year: u16,
    month: u8,
    day: u8,
    hour: u8,
    minute: u8,
    second: Vec<u8>,
}

/// Reads the information of an entry.
fn parse_info(info: &[u8]) -> (r: Option<InfoFields>)
    ensures
        r is Some <==> info_ok(info@),
        r matches Some(f) ==> {
            let p = info_parts(info@);
            &&& f.size == part_value(p, 0, u64::MAX as nat)
            &&& f.year == part_value(p, 1, u16::MAX as nat)
            &&& f.month == part_value(p, 2, u8::MAX as nat)
            &&& f.day == part_value(p, 3, u8::MAX as nat)
            &&& f.hour == part_value(p, 4, u8::MAX as nat)
            &&& f.minute == part_value(p, 5, u8::MAX as nat)
            &&& f.second@ == p->0[6]
        },
{
    let (size, r) = match split_at_byte(info, 32) {
        None => return None,
        Some(x) => x,
    };
    let (year, r) = match split_at_byte(r, 45) {
        None => return None,
        Some(x) => x,
    };
    let (month, r) = match split_at_byte(r, 45) {
        None => return None,
        Some(x) => x,
    };
    let (day, r) = match split_at_byte(r, 32) {
        None => return None,
        Some(x) => x,
    };
    let (hour, r) = match split_at_byte(r, 58) {
        None => return None,
        Some(x) => x,
    };
    let (minute, second) = match split_at_byte(r, 58) {
        None => return None,
        Some(x) => x,
    };
    let ghost p = seq![size@, year@, month@, day@, hour@, minute@, second@];
    assert(info_parts(info@) == Some(p));
    let size = match parse_uint_exec(size, u64::MAX) {
        None => return None,
        Some(v) => v,
    };
    let year = match parse_uint_exec(year, 0xffff) {
        None => return None,
        Some(v) => v as u16,
    };
    let month = match parse_uint_exec(month, 0xff) {
        None => return None,
        Some(v) => v as u8,
    };
    let day = match parse_uint_exec(day, 0xff) {
        None => return None,
        Some(v) => v as u8,
    };
    let hour = match parse_uint_exec(hour, 0xff) {
        None => return None,
        Some(v) => v as u8,
    };
    let minute = match parse_uint_exec(minute, 0xff) {
        None => return None,
        Some(v) => v as u8,
    };
    if !all_ascii(second) {
        return None;
    }
    Some(InfoFields { size, year, month, day, hour, minute, second: vstd::slice::slice_to_vec(second) })
}

/// Reads a dotted IPv4 address.
fn parse_ip(ip: &[u8]) -> (r: Option<IpAddress>)
    ensures
        r is Some <==> ip_ok(ip@),
        r matches Some(a) ==> {
            let p = ip_parts(ip@);
            &&& a.0@.len() == 16
            &&& forall|i: int| 0 <= i < 4 ==> a.0@[i] == part_value(p, i, 255)
            &&& forall|i: int| 4 <= i < 16 ==> a.0@[i] == 0
        },
{
    let (a, r) = match split_at_byte(ip, 46) {
        None => return None,
        Some(x) => x,
    };
    let (b, r) = match split_at_byte(r, 46) {
        None => return None,
        Some(x) => x,
    };
    let (c, d) = match split_at_byte(r, 46) {
        None => return None,
        Some(x) => x,
    };
    let ghost p = seq![a@, b@, c@, d@];
    assert(ip_parts(ip@) == Some(p));
    let a = match parse_uint_exec(a, 0xff) {
        None => return None,
        Some(v) => v as u8,
    };
    let b = match parse_uint_exec(b, 0xff) {
        None => return None,
        Some(v) => v as u8,
    };
    let c = match parse_uint_exec(c, 0xff) {
        None => {
            assert(parse_uint(p[2], 255) is None);
            return None;
        },
        Some(v) => v as u8,
    };
    let last = match parse_uint_exec(d, 0xff) {
        None => {
            assert(parse_uint(p[3], 255) is None);
            return None;
        },
        Some(v) => v as u8,
    };
    let k = find_byte_from(d, 46, 0);
    proof {
        lemma_find_byte_bounds(d@, 46, 0);
    }
    if k < d.len() {
        return None;
    }
    let addr = IpAddress::new_v4([a, b, c, last]);
    proof {
        assert forall|i: int| 0 <= i < 4 implies parse_uint(#[trigger] p[i], 255) is Some by {
            if i == 0 {
            } else if i == 1 {
            } else if i == 2 {
            } else {
            }
        }
    }
    Some(addr)
}

/// Where the chunk of `buffer` that starts at `pos` ends.
fn chunk_end_exec(buffer: &[u8], pos: usize) -> (e: usize)
    requires
        pos <= buffer@.len(),
    ensures
        e == chunk_end(buffer@, pos as int),
        pos <= e <= buffer@.len(),
        pos < buffer@.len() ==> pos < e,
{
    let k = find_byte_from(buffer, 0, pos);
    proof {
        lemma_find_byte_bounds(buffer@, 0, pos as int);
    }
    if k < buffer.len() {
        k + 1
    } else {
        buffer.len()
    }
}

/// The file name of the entry whose chunk is `buffer[pos..end]`.
fn filename_at(buffer: &[u8], pos: usize, end: usize) -> (r: CStr8)
    requires
        pos < end <= buffer@.len(),
        end == chunk_end(buffer@, pos as int),
        find_byte(buffer@, 0, pos as int) < buffer@.len(),
    ensures
        r@ == buffer@.subrange(pos as int, end as int),
{
    proof {
        lemma_find_byte_bounds(buffer@, 0, pos as int);
        let s = buffer@.subrange(pos as int, end as int);
        assert forall|i: int| 0 <= i < s.len() - 1 implies s[i] != 0 by {
            assert(s[i] == buffer@[pos + i]);
        }
        assert(is_nul_terminated(s));
    }
    CStr8::from_bytes_with_nul_unchecked(slice_subrange(buffer, pos, end))
}

/// Reads the entry of a TFTP directory listing whose first chunk starts at
/// `pos`, and gives where the next read starts.
///
/// At the end of the listing, the read fails. A lone null is the end of the
/// listing (`Ok(None)`). Otherwise the entry is the file name (its chunk,
/// null included) and the information (the next chunk, its last byte
/// dropped); the read fails if there is no next chunk or the information
/// cannot be read. The chunk at `pos`, if there is one, must end with a
/// null: a file name without one is not a string.
pub fn tftp_read_dir_entry(buffer: &[u8], pos: usize) -> (r: (
    Result<Option<TftpFileInfo>, ReadDirParseError>,
    usize,
))
    requires
        pos <= buffer@.len(),
        pos < buffer@.len() ==> find_byte(buffer@, 0, pos as int) < buffer@.len(),
    ensures
        pos == buffer@.len() ==> (r.0 is Err && r.1 == pos),
        pos < buffer@.len() && buffer@[pos as int] == 0 ==> (r.0 matches Ok(None) && r.1 == pos + 1),
        pos < buffer@.len() && buffer@[pos as int] != 0 ==> ({
            let e1 = chunk_end(buffer@, pos as int);
            &&& e1 == buffer@.len() ==> (r.0 is Err && r.1 == e1)
            &&& e1 < buffer@.len() ==> {
                let e2 = chunk_end(buffer@, e1);
                let info = buffer@.subrange(e1, e2 - 1);
                let p = info_parts(info);
                &&& r.1 == e2
                &&& r.0 is Ok <==> info_ok(info)
                &&& r.0 matches Ok(x) ==> (x matches Some(f) && {
                    &&& f.filename@ == buffer@.subrange(pos as int, e1)
                    &&& f.size == part_value(p, 0, u64::MAX as nat)
                    &&& f.year == part_value(p, 1, u16::MAX as nat)
                    &&& f.month == part_value(p, 2, u8::MAX as nat)
                    &&& f.day == part_value(p, 3, u8::MAX as nat)
                    &&& f.hour == part_value(p, 4, u8::MAX as nat)
                    &&& f.minute == part_value(p, 5, u8::MAX as nat)
                    &&& f.second@ == p->0[6]
                })
            }
        }),
{
    if pos == buffer.len() {
        return (Err(ReadDirParseError), pos);
    }
    let e1 = chunk_end_exec(buffer, pos);
    if buffer[pos] == 0 {
        proof {
            lemma_find_byte_bounds(buffer@, 0, pos as int);
        }
        return (Ok(None), pos + 1);
    }
    let filename = filename_at(buffer, pos, e1);
    if e1 == buffer.len() {
        return (Err(ReadDirParseError), e1);
    }
    let e2 = chunk_end_exec(buffer, e1);
    let info = slice_subrange(buffer, e1, e2 - 1);
    match parse_info(info) {
        None => (Err(ReadDirParseError), e2),
        Some(f) => (
            Ok(
                Some(
                    TftpFileInfo {
                        filename,
                        size: f.size,
                        year: f.year,
                        month: f.month,
                        day: f.day,
                        hour: f.hour,
                        minute: f.minute,
                        second: f.second,
                    },
                ),
            ),
            e2,
        ),
    }
}

/// Reads the entry of a MTFTP directory listing whose first chunk starts
/// at `pos`, and gives where the next read starts.
///
/// As [`tftp_read_dir_entry`], with the multicast address of the file (its
/// own chunk, last byte dropped) between the file name and the
/// information: the read fails, after that chunk, if there is none or it is
/// not four numbers that fit in a byte, separated by dots.
pub fn mtftp_read_dir_entry(buffer: &[u8], pos: usize) -> (r: (
    Result<Option<MtftpFileInfo>, ReadDirParseError>,
    usize,
))
    requires
        pos <= buffer@.len(),
        pos < buffer@.len() ==> find_byte(buffer@, 0, pos as int) < buffer@.len(),
    ensures
        pos == buffer@.len() ==> (r.0 is Err && r.1 == pos),
        pos < buffer@.len() && buffer@[pos as int] == 0 ==> (r.0 matches Ok(None) && r.1 == pos + 1),
        pos < buffer@.len() && buffer@[pos as int] != 0 ==> ({
            let e1 = chunk_end(buffer@, pos as int);
            &&& e1 == buffer@.len() ==> (r.0 is Err && r.1 == e1)
            &&& e1 < buffer@.len() ==> {
                let e2 = chunk_end(buffer@, e1);
                let ip = buffer@.subrange(e1, e2 - 1);
                &&& !ip_ok(ip) ==> (r.0 is Err && r.1 == e2)
                &&& ip_ok(ip) && e2 == buffer@.len() ==> (r.0 is Err && r.1 == e2)
                &&& ip_ok(ip) && e2 < buffer@.len() ==> {
                    let e3 = chunk_end(buffer@, e2);
                    let info = buffer@.subrange(e2, e3 - 1);
                    let p = info_parts(info);
                    let q = ip_parts(ip);
                    &&& r.1 == e3
                    &&& r.0 is Ok <==> info_ok(info)
                    &&& r.0 matches Ok(x) ==> (x matches Some(f) && {
                        &&& f.filename@ == buffer@.subrange(pos as int, e1)
                        &&& forall|i: int| 0 <= i < 4 ==> f.ip_address.0@[i] == part_value(q, i, 255)
                        &&& forall|i: int| 4 <= i < 16 ==> f.ip_address.0@[i] == 0
                        &&& f.size == part_value(p, 0, u64::MAX as nat)
                        &&& f.year == part_value(p, 1, u16::MAX as nat)
                        &&& f.month == part_value(p, 2, u8::MAX as nat)
                        &&& f.day == part_value(p, 3, u8::MAX as nat)
                        &&& f.hour == part_value(p, 4, u8::MAX as nat)
                        &&& f.minute == part_value(p, 5, u8::MAX as nat)
                        &&& f.second@ == p->0[6]
                    })
                }
            }
        }),
{
    if pos == buffer.len() {
        return (Err(ReadDirParseError), pos);
    }
    let e1 = chunk_end_exec(buffer, pos);
    if buffer[pos] == 0 {
        proof {
            lemma_find_byte_bounds(buffer@, 0, pos as int);
        }
        return (Ok(None), pos + 1);
    }
    let filename = filename_at(buffer, pos, e1);
    if e1 == buffer.len() {
        return (Err(ReadDirParseError), e1);
    }
    let e2 = chunk_end_exec(buffer, e1);
    let ip_address = match parse_ip(slice_subrange(buffer, e1, e2 - 1)) {
        None => return (Err(ReadDirParseError), e2),
        Some(a) => a,
    };
    if e2 == buffer.len() {
        return (Err(ReadDirParseError), e2);
    }
    let e3 = chunk_end_exec(buffer, e2);
    let info = slice_subrange(buffer, e2, e3 - 1);
    match parse_info(info) {
        None => (Err(ReadDirParseError), e3),
        Some(f) => (
            Ok(
                Some(
                    MtftpFileInfo {
                        filename,
                        ip_address,
                        size: f.size,
                        year: f.year,
                        month: f.month,
                        day: f.day,
                        hour: f.hour,
                        minute: f.minute,
                        second: f.second,
                    },
                ),
            ),
            e3,
        ),
    }
}

} // verus!
