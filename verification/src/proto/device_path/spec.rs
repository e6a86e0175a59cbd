//! The byte layout of device path nodes, as spec functions.
use crate::data_types::bytes::{le_at, le_encode, lemma_le_roundtrip, lemma_pow256_values, pow256, push_le};
use vstd::prelude::*;

verus! {

/// The length that the header at the start of `s` gives.
pub open spec fn node_len(s: Seq<u8>) -> nat {
    le_at(s, 2, 2)
}

/// `s` holds exactly one node: a four-byte header whose length field is
/// the number of bytes.
pub open spec fn is_node(s: Seq<u8>) -> bool {
    &&& 4 <= s.len()
    &&& node_len(s) == s.len()
}

/// `s` starts with a header whose length is at least a header's and at
/// most the number of bytes in `s`.
pub open spec fn starts_with_node(s: Seq<u8>) -> bool {
    &&& 4 <= s.len()
    &&& 4 <= node_len(s) <= s.len()
}

/// The node at the start of `s` ends the entire path.
pub open spec fn is_end_entire(s: Seq<u8>) -> bool {
    s[0] == 0x7f && s[1] == 0xff
}

/// `s` starts with a device path: well-formed nodes one after another,
/// the last of which ends the entire path.
pub open spec fn is_path(s: Seq<u8>) -> bool
    decreases s.len(),
{
    if !starts_with_node(s) {
        false
    } else if is_end_entire(s) {
        true
    } else {
        is_path(s.skip(node_len(s) as int))
    }
}

/// The four-byte header of a node of the given type, sub-type and length.
pub open spec fn node_header(device_type: u8, sub_type: u8, len: nat) -> Seq<u8> {
    seq![device_type, sub_type] + le_encode(len, 2)
}

/// The first node of `s` is a node of its own.
pub proof fn lemma_node_len_prefix(s: Seq<u8>, len: int)
    requires
        starts_with_node(s),
        len == node_len(s),
    ensures
        is_node(s.subrange(0, len)),
{
    assert(s.subrange(0, len).subrange(2, 4) =~= s.subrange(2, 4));
}

/// The header of a node of `len` bytes is a well-formed header of that
/// length.
pub proof fn lemma_node_header(device_type: u8, sub_type: u8, len: nat, rest: Seq<u8>)
    requires
        4 <= len < 0x10000,
        len == 4 + rest.len(),
    ensures
        is_node(node_header(device_type, sub_type, len) + rest),
        (node_header(device_type, sub_type, len) + rest)[0] == device_type,
        (node_header(device_type, sub_type, len) + rest)[1] == sub_type,
{
    lemma_pow256_values();
    lemma_le_roundtrip(len, 2);
    let s = node_header(device_type, sub_type, len) + rest;
    crate::data_types::bytes::lemma_le_encode_len(len, 2);
    assert(s.subrange(2, 4) =~= le_encode(len, 2));
}

/// Reading back a little-endian field: the `n` bytes at `a.len()` in
/// `a + le_encode(v, n) + b` encode `v`.
pub proof fn lemma_field(a: Seq<u8>, v: nat, n: nat, b: Seq<u8>)
    requires
        v < pow256(n),
    ensures
        le_at(a + le_encode(v, n) + b, a.len() as int, n as int) == v,
{
    crate::data_types::bytes::lemma_le_encode_len(v, n);
    lemma_le_roundtrip(v, n);
    assert((a + le_encode(v, n) + b).subrange(a.len() as int, a.len() + n as int) =~= le_encode(v, n));
}

/// Reading back a run of bytes: the bytes of `m` at `a.len()` in
/// `a + m + b`.
pub proof fn lemma_run(a: Seq<u8>, m: Seq<u8>, b: Seq<u8>)
    ensures
        (a + m + b).subrange(a.len() as int, (a.len() + m.len()) as int) == m,
{
    assert((a + m + b).subrange(a.len() as int, (a.len() + m.len()) as int) =~= m);
}

/// The little-endian bytes of each value, in order.
pub open spec fn u16s_le(s: Seq<u16>) -> Seq<u8>
    decreases s.len(),
{
    if s.len() == 0 {
        Seq::empty()
    } else {
        u16s_le(s.drop_last()) + le_encode(s.last() as nat, 2)
    }
}

/// The little-endian bytes of each value, in order.
pub open spec fn u32s_le(s: Seq<u32>) -> Seq<u8>
    decreases s.len(),
{
    if s.len() == 0 {
        Seq::empty()
    } else {
        u32s_le(s.drop_last()) + le_encode(s.last() as nat, 4)
    }
}

/// The bytes of each address, in order.
pub open spec fn addresses_bytes(s: Seq<crate::proto::network::IpAddress>) -> Seq<u8>
    decreases s.len(),
{
    if s.len() == 0 {
        Seq::empty()
    } else {
        addresses_bytes(s.drop_last()) + s.last().0@
    }
}

/// Two bytes per value.
pub proof fn lemma_u16s_le_len(s: Seq<u16>)
    ensures
        u16s_le(s).len() == 2 * s.len(),
    decreases s.len(),
{
    if s.len() > 0 {
        lemma_u16s_le_len(s.drop_last());
        crate::data_types::bytes::lemma_le_encode_len(s.last() as nat, 2);
    }
}

/// Four bytes per value.
pub proof fn lemma_u32s_le_len(s: Seq<u32>)
    ensures
        u32s_le(s).len() == 4 * s.len(),
    decreases s.len(),
{
    if s.len() > 0 {
        lemma_u32s_le_len(s.drop_last());
        crate::data_types::bytes::lemma_le_encode_len(s.last() as nat, 4);
    }
}

/// Sixteen bytes per address.
pub proof fn lemma_addresses_bytes_len(s: Seq<crate::proto::network::IpAddress>)
    ensures
        addresses_bytes(s).len() == 16 * s.len(),
    decreases s.len(),
{
    if s.len() > 0 {
        lemma_addresses_bytes_len(s.drop_last());
    }
}

/// Appends the little-endian bytes of each value.
pub fn push_u16s(out: &mut Vec<u8>, src: &[u16])
    ensures
        final(out)@ == old(out)@ + u16s_le(src@),
{
    let mut i: usize = 0;
    while i < src.len()
        invariant
            i <= src@.len(),
            out@ =~= old(out)@ + u16s_le(src@.subrange(0, i as int)),
        decreases src@.len() - i,
    {
        push_le(out, src[i] as u64, 2);
        proof {
            assert(src@.subrange(0, i + 1).drop_last() =~= src@.subrange(0, i as int));
        }
        i = i + 1;
    }
    proof {
        assert(src@.subrange(0, src@.len() as int) =~= src@);
    }
}

/// Appends the little-endian bytes of each value.
pub fn push_u32s(out: &mut Vec<u8>, src: &[u32])
    ensures
        final(out)@ == old(out)@ + u32s_le(src@),
{
    let mut i: usize = 0;
    while i < src.len()
        invariant
            i <= src@.len(),
            out@ =~= old(out)@ + u32s_le(src@.subrange(0, i as int)),
        decreases src@.len() - i,
    {
        push_le(out, src[i] as u64, 4);
        proof {
            assert(src@.subrange(0, i + 1).drop_last() =~= src@.subrange(0, i as int));
        }
        i = i + 1;
    }
    proof {
        assert(src@.subrange(0, src@.len() as int) =~= src@);
    }
}

/// Appends the bytes of each address.
pub fn push_addresses(out: &mut Vec<u8>, src: &[crate::proto::network::IpAddress])
    ensures
        final(out)@ == old(out)@ + addresses_bytes(src@),
{
    let mut i: usize = 0;
    while i < src.len()
        invariant
            i <= src@.len(),
            out@ =~= old(out)@ + addresses_bytes(src@.subrange(0, i as int)),
        decreases src@.len() - i,
    {
        let a = src[i];
        crate::data_types::bytes::push_bytes(out, &a.0);
        proof {
            assert(src@.subrange(0, i + 1).drop_last() =~= src@.subrange(0, i as int));
        }
        i = i + 1;
    }
    proof {
        assert(src@.subrange(0, src@.len() as int) =~= src@);
    }
}

/// Appends a node header.
pub fn push_header(out: &mut Vec<u8>, device_type: u8, sub_type: u8, len: u16)
    ensures
        final(out)@ == old(out)@ + node_header(device_type, sub_type, len as nat),
{
    out.push(device_type);
    out.push(sub_type);
    push_le(out, len as u64, 2);
    proof {
        assert(out@ =~= old(out)@ + node_header(device_type, sub_type, len as nat));
    }
}

} // verus!
