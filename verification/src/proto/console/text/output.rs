//! Text output.
//!
//! A text output device takes null-terminated UCS-2 strings. Writing a Rust
//! string to it means encoding the string into UCS-2, turning each line
//! feed into a carriage return and a line feed, and handing the codes to
//! the device in chunks of at most 128 codes, each followed by a null.
use crate::data_types::strs::{is_ucs2_cstr, spec_check_cstr16};
use crate::data_types::CStr16;
use crate::result::ucs2_error::Ucs2Error;
use crate::result::status::{error_bit, spec_is_success};
use crate::result::{Completion, Error, Status};
use vstd::prelude::*;

verus! {

/// The number of codes a device is given at once, the null excluded.
pub open spec fn chunk_size() -> int {
    128
}

/// The number of leading characters of `s` that UCS-2 can represent.
pub open spec fn ucs2_prefix_len(s: Seq<char>) -> nat
    decreases s.len(),
{
    if s.len() == 0 {
        0
    } else if (s[0] as u32) > 0xffff {
        0
    } else {
        1 + ucs2_prefix_len(s.drop_first())
    }
}

/// The UCS-2 codes of characters that UCS-2 can represent.
pub open spec fn ucs2_codes(s: Seq<char>) -> Seq<u16> {
    s.map_values(|c: char| (c as u32) as u16)
}

/// The prefix that UCS-2 can represent is a prefix.
pub proof fn lemma_ucs2_prefix_len(s: Seq<char>)
    ensures
        ucs2_prefix_len(s) <= s.len(),
    decreases s.len(),
{
    if s.len() > 0 {
        lemma_ucs2_prefix_len(s.drop_first());
    }
}

/// Appends the code to `codes`.
fn push_code(codes: &mut Vec<u16>, ch: u16)
    ensures
        final(codes)@ == old(codes)@.push(ch),
{
    codes.push(ch);
}

/// The codes that encoding a string gave, and how the encoding ended.
struct Encoded {
    codes: Vec<u16>,
    result: Result<(), Ucs2Error>,
}

/// Encodes `input` with `ucs2::encode_with`, collecting the codes that it
/// hands out.
///
/// `ucs2::encode_with` decodes the UTF-8 bytes of `input` one character at
/// a time and hands the code of each one- to three-byte character to the
/// callback; at the first four-byte character (a code point above
/// `0xffff`) it stops with `MultiByte`. As `input` is valid UTF-8, its
/// other failures (missing tail, invalid data) cannot occur, and the
/// callback here never fails. So the codes are those of the characters
/// before the first one above `0xffff`.
#[verifier::external_body]
fn ucs2_encode_with(input: &str) -> (encoded: Encoded)
    ensures
        encoded.codes@ == ucs2_codes(input@.subrange(0, ucs2_prefix_len(input@) as int)),
        encoded.result is Ok <== ucs2_prefix_len(input@) == input@.len(),
        encoded.result matches Err(Ucs2Error::MultiByte) <== ucs2_prefix_len(input@) < input@.len(),
{
    let mut codes: Vec<u16> = Vec::new();
    let result = ::ucs2::encode_with(input, |ch| {
        push_code(&mut codes, ch);
        Ok(())
    });
    let result = match result {
        Ok(()) => Ok(()),
        Err(::ucs2::Error::InvalidData) => Err(Ucs2Error::InvalidData),
        Err(::ucs2::Error::BufferUnderflow) => Err(Ucs2Error::BufferUnderflow),
        Err(::ucs2::Error::BufferOverflow) => Err(Ucs2Error::BufferOverflow),
        Err(::ucs2::Error::MultiByte) => Err(Ucs2Error::MultiByte),
    };
    Encoded { codes, result }
}

/// The codes with a carriage return put before each line feed.
pub open spec fn crlf(codes: Seq<u16>) -> Seq<u16>
    decreases codes.len(),
{
    if codes.len() == 0 {
        Seq::empty()
    } else if codes.last() == 10 {
        crlf(codes.drop_last()) + seq![13u16, 10u16]
    } else {
        crlf(codes.drop_last()).push(codes.last())
    }
}

/// The codes that writing `s` hands to the device, in order: those of the
/// characters before the first one that UCS-2 cannot represent, with line
/// feeds turned into a carriage return and a line feed.
pub open spec fn write_stream(s: Seq<char>) -> Seq<u16> {
    crlf(ucs2_codes(s.subrange(0, ucs2_prefix_len(s) as int)))
}

/// Every character of `s` can be represented in UCS-2.
pub open spec fn write_encodes(s: Seq<char>) -> bool {
    ucs2_prefix_len(s) == s.len()
}

/// The number of chunks that writing `s` tries to output: every full chunk,
/// and, if the whole string could be encoded, the rest (possibly empty).
pub open spec fn chunk_count(s: Seq<char>) -> int {
    (write_stream(s).len() as int) / chunk_size() + if write_encodes(s) {
        1int
    } else {
        0int
    }
}

/// Chunk number `k` of writing `s`, with its null.
pub open spec fn chunk(s: Seq<char>, k: int) -> Seq<u16> {
    let stream = write_stream(s);
    let end = if k * chunk_size() + chunk_size() <= stream.len() {
        k * chunk_size() + chunk_size()
    } else {
        stream.len() as int
    };
    stream.subrange(k * chunk_size(), end).push(0u16)
}

/// The codes of the first `n` chunks of writing `s`, nulls removed, one
/// after another.
pub open spec fn chunks_text(s: Seq<char>, n: nat) -> Seq<u16>
    decreases n,
{
    if n == 0 {
        Seq::empty()
    } else {
        chunks_text(s, (n - 1) as nat) + chunk(s, n - 1).drop_last()
    }
}

/// The full chunks of writing `s` hold the start of its stream of codes.
pub proof fn lemma_full_chunks_text(s: Seq<char>, n: nat)
    requires
        n * chunk_size() <= write_stream(s).len(),
    ensures
        chunks_text(s, n) == write_stream(s).subrange(0, n * chunk_size()),
    decreases n,
{
    let stream = write_stream(s);
    if n == 0 {
        assert(chunks_text(s, 0) =~= stream.subrange(0, 0));
    } else {
        let k = n - 1;
        assert(k * chunk_size() + chunk_size() == n * chunk_size()) by (nonlinear_arith)
            requires
                k == n - 1,
                chunk_size() == 128,
        ;
        lemma_full_chunks_text(s, k as nat);
        assert(chunk(s, k).drop_last() =~= stream.subrange(k * 128, (n * 128) as int));
        assert(chunks_text(s, n) =~= stream.subrange(0, n * chunk_size()));
    }
}

/// Writing a string that UCS-2 can represent whole hands the device all of
/// its codes, in order, line feeds turned into a carriage return and a line
/// feed, in chunks of at most 128 codes.
pub proof fn lemma_write_covers_string(s: Seq<char>)
    requires
        write_encodes(s),
    ensures
        chunks_text(s, chunk_count(s) as nat) == write_stream(s),
        forall|k: int| 0 <= k < chunk_count(s) ==> #[trigger] chunk(s, k).len() <= chunk_size() + 1,
{
    let stream = write_stream(s);
    let full = stream.len() / 128;
    assert(full * 128 <= stream.len() < full * 128 + 128) by (nonlinear_arith)
        requires
            full == stream.len() / 128,
    ;
    lemma_full_chunks_text(s, full as nat);
    assert(chunk(s, full as int).drop_last() =~= stream.subrange((full * 128) as int, stream.len() as int));
    assert(chunks_text(s, (full + 1) as nat) =~= stream);
    assert forall|k: int| 0 <= k < chunk_count(s) implies #[trigger] chunk(s, k).len() <= chunk_size() + 1 by {
        assert(k * 128 <= stream.len()) by (nonlinear_arith)
            requires
                0 <= k <= full,
                full * 128 <= stream.len(),
        ;
    }
}

/// What writing a string to a text output device does: the strings handed
/// to the device, in order, and whether the write succeeds once the device
/// took them all.
pub struct WritePlan {
    /// The null-terminated chunks to output.
    pub chunks: Vec<CStr16>,
    /// The string was written whole.
    pub complete: bool,
}

/// Plans writing `s` to a text output device.
///
/// The chunks are output in order. A chunk that is not a valid
/// null-terminated UCS-2 string (the string held a null character) ends the
/// write with an error before it is output; so does a character that UCS-2
/// cannot represent, after the full chunks before it.
pub fn plan_write_str(s: &str) -> (r: WritePlan)
    ensures
        r.chunks@.len() <= chunk_count(s@),
        forall|k: int|
            0 <= k < r.chunks@.len() ==> (#[trigger] r.chunks@[k])@ == chunk(s@, k) && is_ucs2_cstr(
                chunk(s@, k),
            ),
        r.chunks@.len() < chunk_count(s@) ==> !is_ucs2_cstr(chunk(s@, r.chunks@.len() as int)),
        r.complete == (write_encodes(s@) && r.chunks@.len() == chunk_count(s@)),
{
    let Encoded { codes, result: encoded } = ucs2_encode_with(s);
    proof {
        lemma_ucs2_prefix_len(s@);
    }
    let mut stream: Vec<u16> = Vec::new();
    let mut i: usize = 0;
    proof {
        assert(codes@.subrange(0, 0) =~= Seq::<u16>::empty());
    }
    while i < codes.len()
        invariant
            i <= codes@.len(),
            stream@ == crlf(codes@.subrange(0, i as int)),
            stream@.len() <= 2 * i,
        decreases codes@.len() - i,
    {
        proof {
            assert(codes@.subrange(0, i + 1).drop_last() =~= codes@.subrange(0, i as int));
        }
        if codes[i] == 10 {
            stream.push(13);
        }
        stream.push(codes[i]);
        i = i + 1;
    }
    proof {
        assert(codes@.subrange(0, codes@.len() as int) =~= codes@);
    }
    let total = if encoded.is_ok() {
        stream.len() / 128 + 1
    } else {
        stream.len() / 128
    };
    let mut chunks: Vec<CStr16> = Vec::new();
    let mut k: usize = 0;
    while k < total
        invariant
            stream@ == write_stream(s@),
            total == chunk_count(s@),
            encoded is Ok <==> write_encodes(s@),
            k <= total,
            total <= stream@.len() / 128 + 1,
            chunks@.len() == k,
            forall|j: int|
                0 <= j < k ==> (#[trigger] chunks@[j])@ == chunk(s@, j) && is_ucs2_cstr(
                    chunk(s@, j),
                ),
        decreases total - k,
    {
        let n = stream.len();
        assert(128 * k <= n) by (nonlinear_arith)
            requires
                k < total,
                total <= n / 128 + 1,
        ;
        let start = 128 * k;
        let end = if stream.len() - start >= 128 {
            start + 128
        } else {
            stream.len()
        };
        let mut buf = vstd::slice::slice_to_vec(
            vstd::slice::slice_subrange(stream.as_slice(), start, end),
        );
        buf.push(0);
        proof {
            assert(buf@ =~= chunk(s@, k as int));
        }
        match CStr16::from_u16_with_nul(buf.as_slice()) {
            Ok(text) => {
                let ghost before = chunks@;
                chunks.push(text);
                proof {
                    assert(is_ucs2_cstr(chunk(s@, k as int)));
                    assert forall|j: int| 0 <= j < k + 1 implies (#[trigger] chunks@[j])@ == chunk(
                        s@,
                        j,
                    ) && is_ucs2_cstr(chunk(s@, j)) by {
                        if j < k {
                            assert(chunks@[j] == before[j]);
                        }
                    }
                }
            },
            Err(_) => {
                return WritePlan { chunks, complete: false };
            },
        }
        k = k + 1;
    }
    WritePlan { chunks, complete: encoded.is_ok() }
}

/// Whether a chunk was output: a warning counts as a failure.
pub fn chunk_written(status: Status) -> (r: bool)
    ensures
        r == spec_is_success(status),
{
    status.is_success()
}

/// The text mode (resolution) of the output device.
#[derive(Debug, Copy, Clone, PartialEq, Eq, Structural)]
pub struct OutputMode {
    index: usize,
    columns: usize,
    rows: usize,
}

impl OutputMode {
    /// The mode with the given index and size in columns and rows.
    pub fn new(index: usize, columns: usize, rows: usize) -> (r: OutputMode)
        ensures
            r.spec_index() == index,
            r.spec_columns() == columns,
            r.spec_rows() == rows,
    {
        OutputMode { index, columns, rows }
    }

    /// The index of this mode.
    pub closed spec fn spec_index(&self) -> usize {
        self.index
    }

    /// The width in columns.
    pub closed spec fn spec_columns(&self) -> usize {
        self.columns
    }

    /// The height in rows.
    pub closed spec fn spec_rows(&self) -> usize {
        self.rows
    }

    /// Returns the index of this mode.
    pub fn index(&self) -> (r: usize)
        ensures
            r == self.spec_index(),
    {
        self.index
    }

    /// Returns the width in columns.
    pub fn columns(&self) -> (r: usize)
        ensures
            r == self.spec_columns(),
    {
        self.columns
    }

    /// Returns the height in rows.
    pub fn rows(&self) -> (r: usize)
        ensures
            r == self.spec_rows(),
    {
        self.rows
    }
}

/// Colors for the UEFI console.
///
/// All colors can be used as foreground colors.
/// The first 8 colors can also be used as background colors.
#[allow(missing_docs)]
#[derive(Debug, Copy, Clone, PartialEq, Eq, Structural)]
pub enum Color {
    Black,
    Blue,
    Green,
    Cyan,
    Red,
    Magenta,
    Brown,
    LightGray,
    DarkGray,
    LightBlue,
    LightGreen,
    LightCyan,
    LightRed,
    LightMagenta,
    Yellow,
    White,
}

/// The number of each color.
pub open spec fn spec_color_value(c: Color) -> int {
    match c {
        Color::Black => 0,
        Color::Blue => 1,
        Color::Green => 2,
        Color::Cyan => 3,
        Color::Red => 4,
        Color::Magenta => 5,
        Color::Brown => 6,
        Color::LightGray => 7,
        Color::DarkGray => 8,
        Color::LightBlue => 9,
        Color::LightGreen => 10,
        Color::LightCyan => 11,
        Color::LightRed => 12,
        Color::LightMagenta => 13,
        Color::Yellow => 14,
        Color::White => 15,
    }
}

impl Color {
    /// The number of the color.
    pub fn value(self) -> (r: usize)
        ensures
            r == spec_color_value(self),
    {
        match self {
            Color::Black => 0,
            Color::Blue => 1,
            Color::Green => 2,
            Color::Cyan => 3,
            Color::Red => 4,
            Color::Magenta => 5,
            Color::Brown => 6,
            Color::LightGray => 7,
            Color::DarkGray => 8,
            Color::LightBlue => 9,
            Color::LightGreen => 10,
            Color::LightCyan => 11,
            Color::LightRed => 12,
            Color::LightMagenta => 13,
            Color::Yellow => 14,
            Color::White => 15,
        }
    }
}

/// The attribute that sets the given text and background colors: the
/// background color in bits 4 to 6, the text color in bits 0 to 3. Only the
/// first 8 colors can be background colors.
pub fn color_attribute(foreground: Color, background: Color) -> (r: usize)
    requires
        spec_color_value(background) < 8,
    ensures
        r == spec_color_value(background) * 16 + spec_color_value(foreground),
{
    let fgc = foreground.value();
    let bgc = background.value();
    let attr = ((bgc & 0x7) << 4) | (fgc & 0xF);
    proof {
        assert(((bgc & 0x7) << 4) | (fgc & 0xF) == bgc * 16 + fgc) by (bit_vector)
            requires
                bgc < 8,
                fgc < 16,
        ;
    }
    attr
}

/// The result of testing a string: an unsupported string is `false`; any
/// other failure is an error, and success means the string is supported.
pub fn test_string_result(status: Status) -> (r: crate::result::Result<bool>)
    ensures
        status@ == error_bit() + 3 ==> r == Ok::<Completion<bool>, Error>(
            Completion::Success(false),
        ),
        status@ != error_bit() + 3 && spec_is_success(status) ==> r == Ok::<
            Completion<bool>,
            Error,
        >(Completion::Success(true)),
        status@ != error_bit() + 3 && !spec_is_success(status) ==> (r matches Err(e)
            && e.spec_status() == status),
{
    let unsupported = Status::UNSUPPORTED();
    proof {
        Status::lemma_view_injective(status, unsupported);
    }
    if status == unsupported {
        Ok(Completion::Success(false))
    } else {
        status.into_with(|| -> (b: bool)
            ensures
                b,
            { true })
    }
}

/// The index of the current text mode, as the device reports it: `-1`
/// means that no mode is set.
pub fn current_mode_index(mode: i32) -> (r: Option<usize>)
    requires
        mode >= -1,
    ensures
        mode == -1 ==> r is None,
        mode >= 0 ==> r == Some(mode as usize),
{
    if mode == -1 {
        None
    } else {
        Some(mode as usize)
    }
}

/// The mode at `index`, given what querying the device about it gave:
/// its size in columns and rows, with the query's warning if any, or the
/// query's error.
pub fn mode_from_query(index: usize, query: Result<Completion<(usize, usize)>, Error>) -> (r: Result<
    Completion<OutputMode>,
    Error,
>)
    ensures
        query matches Err(e) ==> r == Err::<Completion<OutputMode>, Error>(e),
        query matches Ok(c) ==> (r matches Ok(m) && {
            &&& m.spec_value().spec_index() == index
            &&& m.spec_value().spec_columns() == c.spec_value().0
            &&& m.spec_value().spec_rows() == c.spec_value().1
            &&& m.spec_status() == c.spec_status()
            &&& (m is Success <==> c is Success)
        }),
{
    match query {
        Err(e) => Err(e),
        Ok(Completion::Success((columns, rows))) => Ok(
            Completion::Success(OutputMode { index, columns, rows }),
        ),
        Ok(Completion::Warning((columns, rows), status)) => Ok(
            Completion::Warning(OutputMode { index, columns, rows }, status),
        ),
    }
}

/// The indices below `n` at which a query succeeded, in order.
pub open spec fn answered_indices(queries: Seq<Result<Completion<(usize, usize)>, Error>>, n: nat) -> Seq<
    int,
> {
    Seq::new(n, |j: int| j).filter(|j: int| queries[j] is Ok)
}

/// The text modes of a device, given what querying it about each index,
/// from 0 up, gave: those that the device answered, in order of index,
/// each with the query's warning if any; a query that failed is skipped.
pub fn supported_modes(queries: &Vec<Result<Completion<(usize, usize)>, Error>>) -> (r: Vec<
    Completion<OutputMode>,
>)
    ensures
        r@.len() == answered_indices(queries@, queries@.len()).len(),
        forall|k: int|
            0 <= k < r@.len() ==> {
                let i = #[trigger] answered_indices(queries@, queries@.len())[k];
                &&& 0 <= i < queries@.len()
                &&& queries@[i] matches Ok(c)
                &&& r@[k].spec_value().spec_index() == i
                &&& r@[k].spec_value().spec_columns() == c.spec_value().0
                &&& r@[k].spec_value().spec_rows() == c.spec_value().1
                &&& r@[k].spec_status() == c.spec_status()
                &&& (r@[k] is Success <==> c is Success)
            },
{
    let mut modes: Vec<Completion<OutputMode>> = Vec::new();
    let mut i: usize = 0;
    proof {
        assert(answered_indices(queries@, 0) =~= Seq::<int>::empty());
    }
    while i < queries.len()
        invariant
            i <= queries@.len(),
            modes@.len() == answered_indices(queries@, i as nat).len(),
            forall|k: int|
                0 <= k < modes@.len() ==> {
                    let j = #[trigger] answered_indices(queries@, i as nat)[k];
                    &&& 0 <= j < i
                    &&& queries@[j] matches Ok(c)
                    &&& modes@[k].spec_value().spec_index() == j
                    &&& modes@[k].spec_value().spec_columns() == c.spec_value().0
                    &&& modes@[k].spec_value().spec_rows() == c.spec_value().1
                    &&& modes@[k].spec_status() == c.spec_status()
                    &&& (modes@[k] is Success <==> c is Success)
                },
        decreases queries@.len() - i,
    {
        let ghost ok = |j: int| queries@[j] is Ok;
        let ghost before = Seq::new(i as nat, |j: int| j);
        proof {
            assert(Seq::new((i + 1) as nat, |j: int| j) =~= before.push(i as int));
            before.lemma_filter_push(i as int, ok);
            assert(answered_indices(queries@, (i + 1) as nat) == before.push(i as int).filter(ok));
            assert(answered_indices(queries@, i as nat) == before.filter(ok));
        }
        match &queries[i] {
            Ok(Completion::Success((columns, rows))) => {
                modes.push(Completion::Success(OutputMode { index: i, columns: *columns, rows: *rows }));
            },
            Ok(Completion::Warning((columns, rows), status)) => {
                modes.push(
                    Completion::Warning(OutputMode { index: i, columns: *columns, rows: *rows }, *status),
                );
            },
            Err(_) => {},
        }
        i = i + 1;
    }
    modes
}

/// The colors are numbered as in the UEFI console palette: blue, green and
/// red are the bits 1, 2 and 4, the other dark colors are their mixtures
/// (cyan blue and green, magenta blue and red, brown green and red, light
/// gray all three), and each of the last eight colors is the bright
/// version (bit 8) of the color eight places before it. So the numbers run
/// Black 0, Blue 1, Green 2, Cyan 3, Red 4, Magenta 5, Brown 6, LightGray 7,
/// DarkGray 8, LightBlue 9, LightGreen 10, LightCyan 11, LightRed 12,
/// LightMagenta 13, Yellow 14, White 15; and red text on black is the
/// attribute 0x04, white text on blue 0x1F.
pub proof fn lemma_color_palette()
    ensures
        spec_color_value(Color::Black) == 0,
        spec_color_value(Color::Blue) == 0x01,
        spec_color_value(Color::Green) == 0x02,
        spec_color_value(Color::Red) == 0x04,
        spec_color_value(Color::Cyan) == 0x01 + 0x02,
        spec_color_value(Color::Magenta) == 0x01 + 0x04,
        spec_color_value(Color::Brown) == 0x02 + 0x04,
        spec_color_value(Color::LightGray) == 0x01 + 0x02 + 0x04,
        spec_color_value(Color::DarkGray) == 0x08 + spec_color_value(Color::Black),
        spec_color_value(Color::LightBlue) == 0x08 + spec_color_value(Color::Blue),
        spec_color_value(Color::LightGreen) == 0x08 + spec_color_value(Color::Green),
        spec_color_value(Color::LightCyan) == 0x08 + spec_color_value(Color::Cyan),
        spec_color_value(Color::LightRed) == 0x08 + spec_color_value(Color::Red),
        spec_color_value(Color::LightMagenta) == 0x08 + spec_color_value(Color::Magenta),
        spec_color_value(Color::Yellow) == 0x08 + spec_color_value(Color::Brown),
        spec_color_value(Color::White) == 0x08 + spec_color_value(Color::LightGray),
        spec_color_value(Color::Black) * 16 + spec_color_value(Color::Red) == 0x04,
        spec_color_value(Color::Blue) * 16 + spec_color_value(Color::White) == 0x1F,
        forall|c: Color| 0 <= #[trigger] spec_color_value(c) <= 15,
        forall|a: Color, b: Color|
            #[trigger] spec_color_value(a) == #[trigger] spec_color_value(b) ==> a == b,
{
}

} // verus!
