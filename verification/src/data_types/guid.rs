//! Globally unique identifiers.
use super::bytes::{
    le_encode, le_at, lemma_le_encode_len, lemma_le_roundtrip, lemma_pow256_values, pow256,
    push_le,
};
use super::text::{hex_digits, lemma_hex_digits_split, pow16, push_hex};
use vstd::prelude::*;

verus! {

/// A globally unique identifier
///
/// GUIDs are used by UEFI to identify protocols and other objects. They are
/// mostly like variant 2 UUIDs as specified by RFC 4122, but differ from them
/// in that the first 3 fields are little endian instead of big endian.
///
/// The model of a GUID is its 16 bytes in memory order: the low field of the
/// timestamp (4 bytes, little endian), its middle field (2 bytes, little
/// endian), its high field with the version (2 bytes, little endian), then
/// the clock sequence with the variant (2 bytes, big endian) and the node
/// (6 bytes, big endian).
#[derive(Debug, Copy, Clone, Eq, PartialEq)]
pub struct Guid {
    /// The low field of the timestamp.
    a: u32,
    /// The middle field of the timestamp.
    b: u16,
    /// The high field of the timestamp multiplexed with the version number.
    c: u16,
    /// The clock sequence (with the variant) and the node identifier.
    d: [u8; 8],
}

/// The `n` low bytes of `v`, most significant first.
pub open spec fn be_encode(v: nat, n: nat) -> Seq<u8> {
    le_encode(v, n).reverse()
}

/// The 16 bytes of the GUID with the given canonical fields.
pub open spec fn spec_guid_bytes(
    time_low: nat,
    time_mid: nat,
    time_high_and_version: nat,
    clock_seq_and_variant: nat,
    node: nat,
) -> Seq<u8> {
    le_encode(time_low, 4) + le_encode(time_mid, 2) + le_encode(time_high_and_version, 2)
        + be_encode(clock_seq_and_variant, 2) + be_encode(node, 6)
}

/// The canonical text of a GUID given by its 16 bytes:
/// `xxxxxxxx-xxxx-xxxx-xxxx-xxxxxxxxxxxx` in lower-case hexadecimal.
pub open spec fn spec_guid_text(bytes: Seq<u8>) -> Seq<char> {
    hex_digits(le_at(bytes, 0, 4), 8) + seq!['-'] + hex_digits(le_at(bytes, 4, 2), 4)
        + seq!['-'] + hex_digits(le_at(bytes, 6, 2), 4) + seq!['-'] + hex_bytes(
        bytes.subrange(8, 10),
    ) + seq!['-'] + hex_bytes(bytes.subrange(10, 16))
}

/// Two hexadecimal digits per byte, in order.
pub open spec fn hex_bytes(s: Seq<u8>) -> Seq<char>
    decreases s.len(),
{
    if s.len() == 0 {
        Seq::empty()
    } else {
        hex_digits(s[0] as nat, 2) + hex_bytes(s.drop_first())
    }
}

impl View for Guid {
    type V = Seq<u8>;

    closed spec fn view(&self) -> Seq<u8> {
        le_encode(self.a as nat, 4) + le_encode(self.b as nat, 2) + le_encode(self.c as nat, 2)
            + self.d@
    }
}

impl Guid {
    /// A GUID is 16 bytes long.
    pub proof fn lemma_len(self)
        ensures
            self@.len() == 16,
    {
        super::bytes::lemma_le_encode_len(self.a as nat, 4);
        super::bytes::lemma_le_encode_len(self.b as nat, 2);
        super::bytes::lemma_le_encode_len(self.c as nat, 2);
    }

    /// Creates a new GUID from its canonical representation
    ///
    /// The node must be a 48-bit integer.
    pub fn from_values(
        time_low: u32,
        time_mid: u16,
        time_high_and_version: u16,
        clock_seq_and_variant: u16,
        node: u64,
    ) -> (g: Self)
        requires
            node < 0x1_0000_0000_0000,
        ensures
            g@ =~= spec_guid_bytes(
                time_low as nat,
                time_mid as nat,
                time_high_and_version as nat,
                clock_seq_and_variant as nat,
                node as nat,
            ),
    {
        let mut d = [0u8; 8];
        d[0] = (clock_seq_and_variant / 0x100) as u8;
        d[1] = (clock_seq_and_variant % 0x100) as u8;
        d[2] = ((node / 0x100_0000_0000) % 0x100) as u8;
        d[3] = ((node / 0x1_0000_0000) % 0x100) as u8;
        d[4] = ((node / 0x100_0000) % 0x100) as u8;
        d[5] = ((node / 0x1_0000) % 0x100) as u8;
        d[6] = ((node / 0x100) % 0x100) as u8;
        d[7] = (node % 0x100) as u8;
        let g = Guid { a: time_low, b: time_mid, c: time_high_and_version, d };
        proof {
            lemma_be_encode_2(clock_seq_and_variant as nat);
            lemma_be_encode_6(node as nat);
            assert(g.d@ =~= be_encode(clock_seq_and_variant as nat, 2) + be_encode(node as nat, 6));
        }
        g
    }

    /// Creates a GUID from its 16 bytes in memory order.
    pub fn from_bytes(bytes: [u8; 16]) -> (g: Self)
        ensures
            g@ == bytes@,
    {
        proof {
            lemma_pow256_values();
        }
        let a = super::bytes::read_le(&bytes, 0, 4) as u32;
        let b = super::bytes::read_le(&bytes, 4, 2) as u16;
        let c = super::bytes::read_le(&bytes, 6, 2) as u16;
        let d = [
            bytes[8],
            bytes[9],
            bytes[10],
            bytes[11],
            bytes[12],
            bytes[13],
            bytes[14],
            bytes[15],
        ];
        proof {
            lemma_pow256_values();
            lemma_split_le(bytes@, 0, 4);
            lemma_split_le(bytes@, 4, 2);
            lemma_split_le(bytes@, 6, 2);
            assert(bytes@ =~= bytes@.subrange(0, 4) + bytes@.subrange(4, 6) + bytes@.subrange(6, 8)
                + d@);
        }
        Guid { a, b, c, d }
    }

    /// The 16 bytes of this GUID in memory order.
    pub fn to_bytes(&self) -> (bytes: [u8; 16])
        ensures
            bytes@ == self@,
    {
        let mut out: Vec<u8> = Vec::new();
        push_le(&mut out, self.a as u64, 4);
        push_le(&mut out, self.b as u64, 2);
        push_le(&mut out, self.c as u64, 2);
        let mut i: usize = 0;
        let ghost start = out@;
        while i < 8
            invariant
                i <= 8,
                out@ =~= start + self.d@.subrange(0, i as int),
            decreases 8 - i,
        {
            out.push(self.d[i]);
            i = i + 1;
        }
        proof {
            assert(self.d@.subrange(0, 8) =~= self.d@);
            self.lemma_len();
            assert(out@.subrange(0, 16) =~= out@);
        }
        super::bytes::read_array::<16>(out.as_slice(), 0)
    }

    /// The canonical text of this GUID, as defined by RFC 4122 and used by
    /// UEFI: `xxxxxxxx-xxxx-xxxx-xxxx-xxxxxxxxxxxx` in lower-case hexadecimal.
    pub fn to_string(&self) -> (s: String)
        ensures
            s@ =~= spec_guid_text(self@),
    {
        let mut s = String::new();
        push_hex(&mut s, self.a as u64, 8);
        s.push('-');
        push_hex(&mut s, self.b as u64, 4);
        s.push('-');
        push_hex(&mut s, self.c as u64, 4);
        s.push('-');
        let mut i: usize = 0;
        let ghost mid = s@;
        while i < 8
            invariant
                i <= 8,
                s@ =~= mid + (if i <= 2 {
                    hex_bytes(self.d@.subrange(0, i as int))
                } else {
                    hex_bytes(self.d@.subrange(0, 2)) + seq!['-'] + hex_bytes(
                        self.d@.subrange(2, i as int),
                    )
                }),
            decreases 8 - i,
        {
            if i == 2 {
                s.push('-');
                proof {
                    assert(self.d@.subrange(2, 2) =~= Seq::<u8>::empty());
                }
            }
            push_hex(&mut s, self.d[i] as u64, 2);
            proof {
                if i < 2 {
                    lemma_hex_bytes_snoc(self.d@.subrange(0, i as int), self.d@[i as int]);
                    assert(self.d@.subrange(0, i as int).push(self.d@[i as int]) =~= self.d@.subrange(
                        0,
                        i + 1,
                    ));
                } else {
                    lemma_hex_bytes_snoc(self.d@.subrange(2, i as int), self.d@[i as int]);
                    assert(self.d@.subrange(2, i as int).push(self.d@[i as int]) =~= self.d@.subrange(
                        2,
                        i + 1,
                    ));
                }
            }
            i = i + 1;
        }
        proof {
            self.lemma_len();
            lemma_pow256_values();
            let v = self@;
            super::bytes::lemma_le_encode_len(self.a as nat, 4);
            super::bytes::lemma_le_encode_len(self.b as nat, 2);
            super::bytes::lemma_le_encode_len(self.c as nat, 2);
            lemma_le_roundtrip(self.a as nat, 4);
            lemma_le_roundtrip(self.b as nat, 2);
            lemma_le_roundtrip(self.c as nat, 2);
            assert(v.subrange(0, 4) =~= le_encode(self.a as nat, 4));
            assert(v.subrange(4, 6) =~= le_encode(self.b as nat, 2));
            assert(v.subrange(6, 8) =~= le_encode(self.c as nat, 2));
            assert(v.subrange(8, 10) =~= self.d@.subrange(0, 2));
            assert(v.subrange(10, 16) =~= self.d@.subrange(2, 8));
        }
        s
    }
}

/// Splitting a little-endian decoding out of a byte sequence.
proof fn lemma_split_le(s: Seq<u8>, off: int, n: int)
    requires
        0 <= off,
        0 <= n <= 8,
        off + n <= s.len(),
    ensures
        le_encode(le_at(s, off, n), n as nat) =~= s.subrange(off, off + n),
{
    super::bytes::lemma_le_decode_encode(s.subrange(off, off + n));
}

/// Adding a byte at the end adds its two digits at the end.
pub proof fn lemma_hex_bytes_snoc(s: Seq<u8>, b: u8)
    ensures
        hex_bytes(s.push(b)) =~= hex_bytes(s) + hex_digits(b as nat, 2),
    decreases s.len(),
{
    if s.len() == 0 {
        assert(s.push(b).drop_first() =~= Seq::<u8>::empty());
        assert(hex_bytes(Seq::<u8>::empty()) =~= Seq::<char>::empty());
    } else {
        assert(s.push(b).drop_first() =~= s.drop_first().push(b));
        lemma_hex_bytes_snoc(s.drop_first(), b);
    }
}

/// The hexadecimal digits of the big-endian bytes of a value are the
/// hexadecimal digits of the value.
pub proof fn lemma_hex_bytes_be(v: nat, n: nat)
    requires
        v < pow256(n),
    ensures
        hex_bytes(be_encode(v, n)) =~= hex_digits(v, 2 * n),
    decreases n,
{
    if n == 0 {
        assert(be_encode(v, 0) =~= Seq::<u8>::empty());
        assert(hex_digits(v, 0) =~= Seq::<char>::empty());
    } else {
        let hi = v / 256;
        let lo = v % 256;
        let p = pow256((n - 1) as nat);
        vstd::arithmetic::div_mod::lemma_fundamental_div_mod(v as int, 256);
        assert(hi < p) by (nonlinear_arith)
            requires
                v < 256 * p,
                v == 256 * hi + lo,
                0 <= lo,
        ;
        lemma_hex_bytes_be(hi, (n - 1) as nat);
        assert(be_encode(v, n) =~= be_encode(hi, (n - 1) as nat).push(lo as u8));
        lemma_hex_bytes_snoc(be_encode(hi, (n - 1) as nat), lo as u8);
        assert(pow16(2) == 256) by {
            reveal_with_fuel(pow16, 3);
        }
        lemma_hex_digits_split(hi, lo, (2 * (n - 1)) as nat, 2);
        assert(hi * 256 + lo == v);
        assert((2 * (n - 1)) as nat + 2 == 2 * n);
    }
}

/// The canonical text of a GUID made from its canonical fields shows those
/// fields, in order, as 8, 4, 4, 4 and 12 lower-case hexadecimal digits
/// separated by hyphens.
pub proof fn lemma_from_values_text(
    time_low: u32,
    time_mid: u16,
    time_high_and_version: u16,
    clock_seq_and_variant: u16,
    node: u64,
)
    requires
        node < 0x1_0000_0000_0000,
    ensures
        spec_guid_text(
            spec_guid_bytes(
                time_low as nat,
                time_mid as nat,
                time_high_and_version as nat,
                clock_seq_and_variant as nat,
                node as nat,
            ),
        ) =~= hex_digits(time_low as nat, 8) + seq!['-'] + hex_digits(time_mid as nat, 4) + seq![
            '-',
        ] + hex_digits(time_high_and_version as nat, 4) + seq!['-'] + hex_digits(
            clock_seq_and_variant as nat,
            4,
        ) + seq!['-'] + hex_digits(node as nat, 12),
{
    let bytes = spec_guid_bytes(
        time_low as nat,
        time_mid as nat,
        time_high_and_version as nat,
        clock_seq_and_variant as nat,
        node as nat,
    );
    lemma_pow256_values();
    lemma_le_roundtrip(time_low as nat, 4);
    lemma_le_roundtrip(time_mid as nat, 2);
    lemma_le_roundtrip(time_high_and_version as nat, 2);
    super::bytes::lemma_le_encode_len(clock_seq_and_variant as nat, 2);
    super::bytes::lemma_le_encode_len(node as nat, 6);
    assert(bytes.subrange(0, 4) =~= le_encode(time_low as nat, 4));
    assert(bytes.subrange(4, 6) =~= le_encode(time_mid as nat, 2));
    assert(bytes.subrange(6, 8) =~= le_encode(time_high_and_version as nat, 2));
    assert(bytes.subrange(8, 10) =~= be_encode(clock_seq_and_variant as nat, 2));
    assert(bytes.subrange(10, 16) =~= be_encode(node as nat, 6));
    lemma_hex_bytes_be(clock_seq_and_variant as nat, 2);
    lemma_hex_bytes_be(node as nat, 6);
}

proof fn lemma_be_encode_2(v: nat)
    requires
        v < 0x10000,
    ensures
        be_encode(v, 2) =~= seq![(v / 0x100) as u8, (v % 0x100) as u8],
{
    reveal_with_fuel(le_encode, 3);
    assert(v / 256 < 256);
    assert((v / 256) % 256 == v / 256);
}

proof fn lemma_be_encode_6(v: nat)
    requires
        v < 0x1_0000_0000_0000,
    ensures
        be_encode(v, 6) =~= seq![
            ((v / 0x100_0000_0000) % 0x100) as u8,
            ((v / 0x1_0000_0000) % 0x100) as u8,
            ((v / 0x100_0000) % 0x100) as u8,
            ((v / 0x1_0000) % 0x100) as u8,
            ((v / 0x100) % 0x100) as u8,
            (v % 0x100) as u8,
        ],
{
    reveal_with_fuel(le_encode, 7);
    let v1 = v / 256;
    let v2 = v1 / 256;
    let v3 = v2 / 256;
    let v4 = v3 / 256;
    let v5 = v4 / 256;
    vstd::arithmetic::div_mod::lemma_div_denominator(v as int, 256, 256);
    vstd::arithmetic::div_mod::lemma_div_denominator(v as int, 0x1_0000, 256);
    vstd::arithmetic::div_mod::lemma_div_denominator(v as int, 0x100_0000, 256);
    vstd::arithmetic::div_mod::lemma_div_denominator(v as int, 0x1_0000_0000, 256);
}

/// A field encoded in `n` bytes, little-endian or big-endian, is given
/// back by the bytes.
proof fn lemma_field_determined(v1: nat, v2: nat, n: nat, big_endian: bool)
    requires
        v1 < pow256(n),
        v2 < pow256(n),
        (if big_endian {
            be_encode(v1, n)
        } else {
            le_encode(v1, n)
        }) == (if big_endian {
            be_encode(v2, n)
        } else {
            le_encode(v2, n)
        }),
    ensures
        v1 == v2,
{
    lemma_le_roundtrip(v1, n);
    lemma_le_roundtrip(v2, n);
    if big_endian {
        assert(le_encode(v1, n) =~= be_encode(v1, n).reverse());
        assert(le_encode(v2, n) =~= be_encode(v2, n).reverse());
    }
}

/// Two GUIDs made from canonical fields are the same GUID exactly when
/// their fields are the same: `from_values` gives equal GUIDs for equal
/// arguments, and only for them.
pub proof fn lemma_guid_bytes_injective(
    a1: u32,
    b1: u16,
    c1: u16,
    d1: u16,
    n1: u64,
    a2: u32,
    b2: u16,
    c2: u16,
    d2: u16,
    n2: u64,
)
    requires
        n1 < 0x1_0000_0000_0000,
        n2 < 0x1_0000_0000_0000,
    ensures
        spec_guid_bytes(a1 as nat, b1 as nat, c1 as nat, d1 as nat, n1 as nat) == spec_guid_bytes(
            a2 as nat,
            b2 as nat,
            c2 as nat,
            d2 as nat,
            n2 as nat,
        ) <==> (a1 == a2 && b1 == b2 && c1 == c2 && d1 == d2 && n1 == n2),
{
    let g1 = spec_guid_bytes(a1 as nat, b1 as nat, c1 as nat, d1 as nat, n1 as nat);
    let g2 = spec_guid_bytes(a2 as nat, b2 as nat, c2 as nat, d2 as nat, n2 as nat);
    if g1 == g2 {
        lemma_pow256_values();
        lemma_le_encode_len(a1 as nat, 4);
        lemma_le_encode_len(a2 as nat, 4);
        lemma_le_encode_len(b1 as nat, 2);
        lemma_le_encode_len(b2 as nat, 2);
        lemma_le_encode_len(c1 as nat, 2);
        lemma_le_encode_len(c2 as nat, 2);
        lemma_le_encode_len(d1 as nat, 2);
        lemma_le_encode_len(d2 as nat, 2);
        lemma_le_encode_len(n1 as nat, 6);
        lemma_le_encode_len(n2 as nat, 6);
        assert(g1.subrange(0, 4) =~= le_encode(a1 as nat, 4));
        assert(g2.subrange(0, 4) =~= le_encode(a2 as nat, 4));
        assert(g1.subrange(4, 6) =~= le_encode(b1 as nat, 2));
        assert(g2.subrange(4, 6) =~= le_encode(b2 as nat, 2));
        assert(g1.subrange(6, 8) =~= le_encode(c1 as nat, 2));
        assert(g2.subrange(6, 8) =~= le_encode(c2 as nat, 2));
        assert(g1.subrange(8, 10) =~= be_encode(d1 as nat, 2));
        assert(g2.subrange(8, 10) =~= be_encode(d2 as nat, 2));
        assert(g1.subrange(10, 16) =~= be_encode(n1 as nat, 6));
        assert(g2.subrange(10, 16) =~= be_encode(n2 as nat, 6));
        lemma_field_determined(a1 as nat, a2 as nat, 4, false);
        lemma_field_determined(b1 as nat, b2 as nat, 2, false);
        lemma_field_determined(c1 as nat, c2 as nat, 2, false);
        lemma_field_determined(d1 as nat, d2 as nat, 2, true);
        lemma_field_determined(n1 as nat, n2 as nat, 6, true);
    }
}

/// Two GUIDs with the same bytes are the same GUID.
pub proof fn lemma_guid_view_injective(g1: Guid, g2: Guid)
    ensures
        g1@ == g2@ <==> g1 == g2,
{
    if g1@ == g2@ {
        lemma_pow256_values();
        lemma_le_encode_len(g1.a as nat, 4);
        lemma_le_encode_len(g2.a as nat, 4);
        lemma_le_encode_len(g1.b as nat, 2);
        lemma_le_encode_len(g2.b as nat, 2);
        lemma_le_encode_len(g1.c as nat, 2);
        lemma_le_encode_len(g2.c as nat, 2);
        assert(g1@.subrange(0, 4) =~= le_encode(g1.a as nat, 4));
        assert(g2@.subrange(0, 4) =~= le_encode(g2.a as nat, 4));
        assert(g1@.subrange(4, 6) =~= le_encode(g1.b as nat, 2));
        assert(g2@.subrange(4, 6) =~= le_encode(g2.b as nat, 2));
        assert(g1@.subrange(6, 8) =~= le_encode(g1.c as nat, 2));
        assert(g2@.subrange(6, 8) =~= le_encode(g2.c as nat, 2));
        assert(g1@.subrange(8, 16) =~= g1.d@);
        assert(g2@.subrange(8, 16) =~= g2.d@);
        lemma_field_determined(g1.a as nat, g2.a as nat, 4, false);
        lemma_field_determined(g1.b as nat, g2.b as nat, 2, false);
        lemma_field_determined(g1.c as nat, g2.c as nat, 2, false);
        assert forall|i: int| 0 <= i < 8 implies g1.d[i] == g2.d[i] by {
            assert(g1.d@[i] == g2.d@[i]);
        }
        broadcast use vstd::array::axiom_array_ext_equal;
        assert(g1.d =~= g2.d);
    }
}

/// GUIDs made by `from_values` are equal exactly when they were made from
/// the same five fields.
pub proof fn lemma_from_values_injective(
    g1: Guid,
    a1: u32,
    b1: u16,
    c1: u16,
    d1: u16,
    n1: u64,
    g2: Guid,
    a2: u32,
    b2: u16,
    c2: u16,
    d2: u16,
    n2: u64,
)
    requires
        n1 < 0x1_0000_0000_0000,
        n2 < 0x1_0000_0000_0000,
        g1@ == spec_guid_bytes(a1 as nat, b1 as nat, c1 as nat, d1 as nat, n1 as nat),
        g2@ == spec_guid_bytes(a2 as nat, b2 as nat, c2 as nat, d2 as nat, n2 as nat),
    ensures
        g1 == g2 <==> (a1 == a2 && b1 == b2 && c1 == c2 && d1 == d2 && n1 == n2),
{
    lemma_guid_view_injective(g1, g2);
    lemma_guid_bytes_injective(a1, b1, c1, d1, n1, a2, b2, c2, d2, n2);
}

/// The text of a GUID made by `from_values` is its five fields, in order,
/// as 8, 4, 4, 4 and 12 lower-case hexadecimal digits separated by hyphens:
/// displaying it gives back exactly the fields it was made from.
pub proof fn lemma_from_values_display(g: Guid, a: u32, b: u16, c: u16, d: u16, node: u64)
    requires
        node < 0x1_0000_0000_0000,
        g@ == spec_guid_bytes(a as nat, b as nat, c as nat, d as nat, node as nat),
    ensures
        spec_guid_text(g@) == hex_digits(a as nat, 8) + seq!['-'] + hex_digits(b as nat, 4) + seq![
            '-',
        ] + hex_digits(c as nat, 4) + seq!['-'] + hex_digits(d as nat, 4) + seq!['-'] + hex_digits(
            node as nat,
            12,
        ),
        spec_guid_text(g@).len() == 36,
{
    lemma_from_values_text(a, b, c, d, node);
    super::text::lemma_hex_digits_len(a as nat, 8);
    super::text::lemma_hex_digits_len(b as nat, 4);
    super::text::lemma_hex_digits_len(c as nat, 4);
    super::text::lemma_hex_digits_len(d as nat, 4);
    super::text::lemma_hex_digits_len(node as nat, 12);
}

} // verus!
