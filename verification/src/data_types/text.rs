//! Text building blocks: hexadecimal digits and growing strings.
use vstd::prelude::*;
use vstd::string::StrSliceExecFns;

verus! {

pub assume_specification[ String::push ](s: &mut String, ch: char)
    ensures
        final(s)@ == old(s)@.push(ch),
;

pub assume_specification[ char::from_u32 ](i: u32) -> (r: Option<char>)
    ensures
        r is Some <==> (i <= 0x10FFFF && !(0xD800 <= i <= 0xDFFF)),
        r matches Some(c) ==> c as u32 == i,
;

/// The character of an UCS-2 code that is not a surrogate half.
pub fn ucs2_to_char(code: u16) -> (c: char)
    requires
        !(0xD800 <= code <= 0xDFFF),
    ensures
        c as u32 == code as u32,
{
    match char::from_u32(code as u32) {
        Some(c) => c,
        None => {
            assert(false);
            unreached()
        },
    }
}

/// The lower-case hexadecimal digit of a number below 16.
pub open spec fn hex_char(n: nat) -> char {
    if n < 10 {
        (48 + n) as char
    } else {
        (87 + n) as char
    }
}

/// The `n` lower-case hexadecimal digits of `v`, most significant first,
/// padded with zeros.
pub open spec fn hex_digits(v: nat, n: nat) -> Seq<char>
    decreases n,
{
    if n == 0 {
        Seq::empty()
    } else {
        hex_digits(v / 16, (n - 1) as nat).push(hex_char(v % 16))
    }
}

/// `16` raised to the power `n`.
pub open spec fn pow16(n: nat) -> nat
    decreases n,
{
    if n == 0 {
        1
    } else {
        16 * pow16((n - 1) as nat)
    }
}

pub proof fn lemma_hex_digits_len(v: nat, n: nat)
    ensures
        hex_digits(v, n).len() == n,
    decreases n,
{
    if n > 0 {
        lemma_hex_digits_len(v / 16, (n - 1) as nat);
    }
}

pub proof fn lemma_pow16_positive(n: nat)
    ensures
        pow16(n) >= 1,
    decreases n,
{
    if n > 0 {
        lemma_pow16_positive((n - 1) as nat);
    }
}

/// The digits of `hi * 16^m + lo`, for `lo < 16^m`, are those of `hi`
/// followed by those of `lo`.
pub proof fn lemma_hex_digits_split(hi: nat, lo: nat, n: nat, m: nat)
    requires
        lo < pow16(m),
    ensures
        hex_digits(hi * pow16(m) + lo, n + m) =~= hex_digits(hi, n) + hex_digits(lo, m),
    decreases m,
{
    if m == 0 {
        assert(hi * 1 + lo == hi);
        assert(hex_digits(lo, 0) =~= Seq::<char>::empty());
    } else {
        let p = pow16((m - 1) as nat);
        let v = hi * pow16(m) + lo;
        lemma_pow16_positive((m - 1) as nat);
        assert(v == 16 * (hi * p + lo / 16) + lo % 16 && lo / 16 < p) by {
            vstd::arithmetic::div_mod::lemma_fundamental_div_mod(lo as int, 16);
            assert(v == 16 * (hi * p + lo / 16) + lo % 16) by (nonlinear_arith)
                requires
                    v == hi * pow16(m) + lo,
                    pow16(m) == 16 * p,
                    lo == 16 * (lo / 16) + lo % 16,
            ;
            assert(lo / 16 < p) by (nonlinear_arith)
                requires
                    lo < 16 * p,
                    lo == 16 * (lo / 16) + lo % 16,
                    0 <= lo % 16,
            ;
        }
        vstd::arithmetic::div_mod::lemma_fundamental_div_mod_converse(
            v as int,
            16,
            (hi * p + lo / 16) as int,
            (lo % 16) as int,
        );
        lemma_hex_digits_split(hi, lo / 16, n, (m - 1) as nat);
        assert((n + m - 1) as nat == n + (m - 1) as nat);
    }
}

/// The digit character of a number below 16.
pub fn hex_digit(n: u8) -> (c: char)
    requires
        n < 16,
    ensures
        c == hex_char(n as nat),
{
    if n < 10 {
        (48 + n) as char
    } else {
        (87 + n) as char
    }
}

/// Appends the `n` lower-case hexadecimal digits of `v`, most significant
/// first.
pub fn push_hex(out: &mut String, v: u64, n: usize)
    requires
        n <= 16,
    ensures
        final(out)@ =~= old(out)@ + hex_digits(v as nat, n as nat),
    decreases n,
{
    if n > 0 {
        push_hex(out, v / 16, n - 1);
        out.push(hex_digit((v % 16) as u8));
    } else {
        proof {
            assert(hex_digits(v as nat, 0) =~= Seq::<char>::empty());
        }
    }
}

/// `s` right-aligned in `width` columns: `fill` put before it as many times
/// as it is shorter than `width`.
pub open spec fn pad_left(s: Seq<char>, width: nat, fill: char) -> Seq<char> {
    if s.len() >= width {
        s
    } else {
        Seq::new((width - s.len()) as nat, |_i: int| fill) + s
    }
}

/// The decimal digit of a number below 10.
pub open spec fn digit(d: nat) -> char {
    (48 + d) as char
}

/// The decimal digits of `n`, most significant first, without leading
/// zeros.
pub open spec fn decimal(n: nat) -> Seq<char>
    decreases n,
{
    if n < 10 {
        seq![digit(n)]
    } else {
        decimal(n / 10).push(digit(n % 10))
    }
}

/// The characters of `s`, in order.
pub fn chars_of(s: &str) -> (r: Vec<char>)
    ensures
        r@ == s@,
{
    let n = s.unicode_len();
    let mut out: Vec<char> = Vec::new();
    let mut i: usize = 0;
    while i < n
        invariant
            n == s@.len(),
            i <= n,
            out@ == s@.subrange(0, i as int),
        decreases n - i,
    {
        out.push(s.get_char(i));
        i = i + 1;
        proof {
            assert(out@ =~= s@.subrange(0, i as int));
        }
    }
    proof {
        assert(out@ =~= s@);
    }
    out
}

/// Appends `piece` to `out`.
pub fn append(out: &mut Vec<char>, piece: &Vec<char>)
    ensures
        final(out)@ == old(out)@ + piece@,
{
    let mut i: usize = 0;
    while i < piece.len()
        invariant
            i <= piece@.len(),
            out@ == old(out)@ + piece@.subrange(0, i as int),
        decreases piece@.len() - i,
    {
        out.push(piece[i]);
        i = i + 1;
        proof {
            assert(out@ =~= old(out)@ + piece@.subrange(0, i as int));
        }
    }
    proof {
        assert(piece@.subrange(0, piece@.len() as int) =~= piece@);
    }
}

/// Appends `piece` right-aligned in `width` columns, filled with `fill`.
pub fn append_padded(out: &mut Vec<char>, piece: &Vec<char>, width: usize, fill: char)
    ensures
        final(out)@ == old(out)@ + pad_left(piece@, width as nat, fill),
{
    let mut k: usize = piece.len();
    let ghost start = out@;
    while k < width
        invariant
            piece@.len() <= k,
            k <= width || k == piece@.len(),
            out@ == start + Seq::new((k - piece@.len()) as nat, |_i: int| fill),
            start == old(out)@,
        decreases width - k,
    {
        out.push(fill);
        k = k + 1;
        proof {
            assert(out@ =~= start + Seq::new((k - piece@.len()) as nat, |_i: int| fill));
        }
    }
    let ghost padded = out@;
    append(out, piece);
    proof {
        if piece@.len() >= width {
            assert(padded =~= start);
        }
        assert(out@ =~= old(out)@ + pad_left(piece@, width as nat, fill));
    }
}

/// Appends the decimal digits of `n`.
pub fn append_decimal(out: &mut Vec<char>, n: u64)
    ensures
        final(out)@ == old(out)@ + decimal(n as nat),
    decreases n,
{
    if n >= 10 {
        append_decimal(out, n / 10);
    }
    let d: u64 = n % 10;
    let c = ucs2_to_char((48 + d) as u16);
    proof {
        assert(c as u32 == 48 + d);
        assert(c == digit(d as nat));
    }
    out.push(c);
    proof {
        assert(out@ =~= old(out)@ + decimal(n as nat));
    }
}

/// The string of the characters `chars`.
pub fn string_of(chars: &Vec<char>) -> (s: String)
    ensures
        s@ == chars@,
{
    let mut s = String::new();
    let mut i: usize = 0;
    while i < chars.len()
        invariant
            i <= chars@.len(),
            s@ == chars@.subrange(0, i as int),
        decreases chars@.len() - i,
    {
        s.push(chars[i]);
        i = i + 1;
        proof {
            assert(s@ =~= chars@.subrange(0, i as int));
        }
    }
    proof {
        assert(chars@.subrange(0, chars@.len() as int) =~= chars@);
    }
    s
}

} // verus!
