//! Device path nodes for [`DeviceType::ACPI`].
#![allow(unused_imports)]
use crate::data_types::bytes::{le_at, lemma_pow256_values, read_array, read_le};
use crate::data_types::guid::spec_guid_bytes;
use crate::data_types::{Guid, UnalignedSlice};
use crate::proto::device_path::{is_node, DevicePathNode, NodeConversionError};
use crate::proto::network::IpAddress;
use crate::table::boot::MemoryType;
use vstd::prelude::*;
use vstd::std_specs::convert::TryFromSpecImpl;

verus! {

/// ACPI device path node.
#[derive(Debug)]
pub struct Acpi {
    bytes: Vec<u8>,
}

impl View for Acpi {
    type V = Seq<u8>;

    closed spec fn view(&self) -> Seq<u8> {
        self.bytes@
    }
}

/// The sizes that a node of this type can have.
pub open spec fn acpi_size_ok(s: Seq<u8>) -> bool {
    s.len() == 12
}

impl Acpi {
    #[verifier::type_invariant]
    spec fn well_formed(self) -> bool {
        is_node(self.bytes@) && acpi_size_ok(self.bytes@)
    }

    /// Device's PnP hardware ID stored in a numeric 32-bit
    /// compressed EISA-type ID.
    pub fn hid(&self) -> (r: u32)
        ensures
            r == le_at(self@, 4, 4),
    {
        proof {
            use_type_invariant(self);
            lemma_pow256_values();
        }
        read_le(self.bytes.as_slice(), 4, 4) as u32
    }

    /// Unique ID that is required by ACPI if two devices have the
    /// same HID.
    pub fn uid(&self) -> (r: u32)
        ensures
            r == le_at(self@, 8, 4),
    {
        proof {
            use_type_invariant(self);
            lemma_pow256_values();
        }
        read_le(self.bytes.as_slice(), 8, 4) as u32
    }
}

impl TryFrom<&DevicePathNode> for Acpi {
    type Error = NodeConversionError;

    /// Succeeds when the node's size is one that this node type can have.
    fn try_from(node: &DevicePathNode) -> (r: Result<Self, Self::Error>)
        ensures
            r is Ok <==> acpi_size_ok(node@),
            r matches Ok(n) ==> n@ == node@,
            r matches Err(e) ==> e == NodeConversionError::InvalidLength,
    {
        let bytes = node.as_bytes();
        if bytes.len() != 12 {
            return Err(NodeConversionError::InvalidLength);
        }
        Ok(Acpi { bytes: vstd::slice::slice_to_vec(bytes) })
    }
}

impl TryFromSpecImpl<&DevicePathNode> for Acpi {
    open spec fn obeys_try_from_spec() -> bool {
        false
    }

    closed spec fn try_from_spec(node: &DevicePathNode) -> Result<Self, Self::Error> {
        arbitrary()
    }
}

/// Expanded ACPI device path node.
#[derive(Debug)]
pub struct Expanded {
    bytes: Vec<u8>,
}

impl View for Expanded {
    type V = Seq<u8>;

    closed spec fn view(&self) -> Seq<u8> {
        self.bytes@
    }
}

/// The sizes that a node of this type can have.
pub open spec fn expanded_size_ok(s: Seq<u8>) -> bool {
    16 <= s.len()
}

impl Expanded {
    #[verifier::type_invariant]
    spec fn well_formed(self) -> bool {
        is_node(self.bytes@) && expanded_size_ok(self.bytes@)
    }

    /// Device's PnP hardware ID stored in a numeric 32-bit compressed
    /// EISA-type ID.
    pub fn hid(&self) -> (r: u32)
        ensures
            r == le_at(self@, 4, 4),
    {
        proof {
            use_type_invariant(self);
            lemma_pow256_values();
        }
        read_le(self.bytes.as_slice(), 4, 4) as u32
    }

    /// Unique ID that is required by ACPI if two devices have the
    /// same HID.
    pub fn uid(&self) -> (r: u32)
        ensures
            r == le_at(self@, 8, 4),
    {
        proof {
            use_type_invariant(self);
            lemma_pow256_values();
        }
        read_le(self.bytes.as_slice(), 8, 4) as u32
    }

    /// Device's compatible PnP hardware ID stored in a numeric 32-bit
    /// compressed EISA-type ID.
    pub fn cid(&self) -> (r: u32)
        ensures
            r == le_at(self@, 12, 4),
    {
        proof {
            use_type_invariant(self);
            lemma_pow256_values();
        }
        read_le(self.bytes.as_slice(), 12, 4) as u32
    }

    /// Device's PnP hardware ID stored as a null-terminated ASCII
    /// string. This value must match the corresponding HID in the
    /// ACPI name space. If the length of this string not including
    /// the null-terminator is 0, then the numeric HID is used.
    pub fn hid_str(&self) -> (r: &[u8])
        ensures
            r@ == acpi_expanded_substr(self@.subrange(16, self@.len() as int), 0),
    {
        self.get_substr(0)
    }

    /// Unique ID that is required by ACPI if two devices have the
    /// same HID. This value is stored as a null-terminated ASCII
    /// string. If the length of this string not including the
    /// null-terminator is 0, then the numeric UID is used.
    pub fn uid_str(&self) -> (r: &[u8])
        ensures
            r@ == acpi_expanded_substr(self@.subrange(16, self@.len() as int), 1),
    {
        self.get_substr(1)
    }

    /// Device's compatible PnP hardware ID stored as a
    /// null-terminated ASCII string. If the length of this string
    /// not including the null-terminator is 0, then the numeric CID
    /// is used.
    pub fn cid_str(&self) -> (r: &[u8])
        ensures
            r@ == acpi_expanded_substr(self@.subrange(16, self@.len() as int), 2),
    {
        self.get_substr(2)
    }

    fn get_substr(&self, string_index: usize) -> (r: &[u8])
        requires
            string_index < 3,
        ensures
            r@ == acpi_expanded_substr(self@.subrange(16, self@.len() as int), string_index as int),
    {
        proof {
            use_type_invariant(self);
        }
        let data = vstd::slice::slice_subrange(self.bytes.as_slice(), 16, self.bytes.len());
        get_acpi_expanded_substr(data, string_index)
    }
}

impl TryFrom<&DevicePathNode> for Expanded {
    type Error = NodeConversionError;

    /// Succeeds when the node's size is one that this node type can have.
    fn try_from(node: &DevicePathNode) -> (r: Result<Self, Self::Error>)
        ensures
            r is Ok <==> expanded_size_ok(node@),
            r matches Ok(n) ==> n@ == node@,
            r matches Err(e) ==> e == NodeConversionError::InvalidLength,
    {
        let bytes = node.as_bytes();
        let len = bytes.len();
        if len < 16 {
            return Err(NodeConversionError::InvalidLength);
        }
        Ok(Expanded { bytes: vstd::slice::slice_to_vec(bytes) })
    }
}

impl TryFromSpecImpl<&DevicePathNode> for Expanded {
    open spec fn obeys_try_from_spec() -> bool {
        false
    }

    closed spec fn try_from_spec(node: &DevicePathNode) -> Result<Self, Self::Error> {
        arbitrary()
    }
}

/// ADR ACPI device path node.
#[derive(Debug)]
pub struct Adr {
    bytes: Vec<u8>,
}

impl View for Adr {
    type V = Seq<u8>;

    closed spec fn view(&self) -> Seq<u8> {
        self.bytes@
    }
}

/// The sizes that a node of this type can have.
pub open spec fn adr_size_ok(s: Seq<u8>) -> bool {
    4 <= s.len() && (s.len() - 4) % 4 == 0
}

impl Adr {
    #[verifier::type_invariant]
    spec fn well_formed(self) -> bool {
        is_node(self.bytes@) && adr_size_ok(self.bytes@)
    }

    /// ADR values. For video output devices the value of this field
    /// comes from Table B-2 ACPI 3.0 specification. At least one
    /// ADR value is required.
    pub fn adr(&self) -> (r: UnalignedSlice<u32>)
        ensures
            r@.len() == (self@.len() - 4) / 4,
            forall|i: int| 0 <= i < r@.len() ==> r@[i] as nat == #[trigger] le_at(self@, 4 + 4 * i, 4),
    {
        proof {
            use_type_invariant(self);
        }
        let tail = vstd::slice::slice_subrange(self.bytes.as_slice(), 4, self.bytes.len());
        let r = UnalignedSlice::<u32>::from_le_bytes(tail, (self.bytes.len() - 4) / 4);
        proof {
            assert forall|i: int| 0 <= i < r@.len() implies r@[i] as nat == #[trigger] le_at(self@, 4 + 4 * i, 4) by {
                assert(tail@.subrange(4 * i, 4 * i + 4) =~= self@.subrange(4 + 4 * i, 4 + 4 * i + 4));
                assert(r@[i] as nat == le_at(tail@, 4 * i, 4));
            }
        }
        r
    }
}

impl TryFrom<&DevicePathNode> for Adr {
    type Error = NodeConversionError;

    /// Succeeds when the node's size is one that this node type can have.
    fn try_from(node: &DevicePathNode) -> (r: Result<Self, Self::Error>)
        ensures
            r is Ok <==> adr_size_ok(node@),
            r matches Ok(n) ==> n@ == node@,
            r matches Err(e) ==> e == NodeConversionError::InvalidLength,
    {
        let bytes = node.as_bytes();
        let len = bytes.len();
        if len < 4 {
            return Err(NodeConversionError::InvalidLength);
        }
        if (len - 4) % 4 != 0 {
            return Err(NodeConversionError::InvalidLength);
        }
        Ok(Adr { bytes: vstd::slice::slice_to_vec(bytes) })
    }
}

impl TryFromSpecImpl<&DevicePathNode> for Adr {
    open spec fn obeys_try_from_spec() -> bool {
        false
    }

    closed spec fn try_from_spec(node: &DevicePathNode) -> Result<Self, Self::Error> {
        arbitrary()
    }
}

/// NVDIMM ACPI device path node.
#[derive(Debug)]
pub struct Nvdimm {
    bytes: Vec<u8>,
}

impl View for Nvdimm {
    type V = Seq<u8>;

    closed spec fn view(&self) -> Seq<u8> {
        self.bytes@
    }
}

/// The sizes that a node of this type can have.
pub open spec fn nvdimm_size_ok(s: Seq<u8>) -> bool {
    s.len() == 8
}

impl Nvdimm {
    #[verifier::type_invariant]
    spec fn well_formed(self) -> bool {
        is_node(self.bytes@) && nvdimm_size_ok(self.bytes@)
    }

    /// NFIT device handle.
    pub fn nfit_device_handle(&self) -> (r: u32)
        ensures
            r == le_at(self@, 4, 4),
    {
        proof {
            use_type_invariant(self);
            lemma_pow256_values();
        }
        read_le(self.bytes.as_slice(), 4, 4) as u32
    }
}

impl TryFrom<&DevicePathNode> for Nvdimm {
    type Error = NodeConversionError;

    /// Succeeds when the node's size is one that this node type can have.
    fn try_from(node: &DevicePathNode) -> (r: Result<Self, Self::Error>)
        ensures
            r is Ok <==> nvdimm_size_ok(node@),
            r matches Ok(n) ==> n@ == node@,
            r matches Err(e) ==> e == NodeConversionError::InvalidLength,
    {
        let bytes = node.as_bytes();
        if bytes.len() != 8 {
            return Err(NodeConversionError::InvalidLength);
        }
        Ok(Nvdimm { bytes: vstd::slice::slice_to_vec(bytes) })
    }
}

impl TryFromSpecImpl<&DevicePathNode> for Nvdimm {
    open spec fn obeys_try_from_spec() -> bool {
        false
    }

    closed spec fn try_from_spec(node: &DevicePathNode) -> Result<Self, Self::Error> {
        arbitrary()
    }
}


/// The indices of the null bytes of `s`, in order.
pub open spec fn null_indices(s: Seq<u8>) -> Seq<int>
    decreases s.len(),
{
    if s.len() == 0 {
        Seq::empty()
    } else if s.last() == 0 {
        null_indices(s.drop_last()).push(s.len() - 1)
    } else {
        null_indices(s.drop_last())
    }
}

/// The index of null byte number `k` (counting from 0) of `s`, if `s` has
/// that many.
pub open spec fn nth_null(s: Seq<u8>, k: int) -> Option<int> {
    if k < null_indices(s).len() {
        Some(null_indices(s)[k])
    } else {
        None
    }
}

/// The hid (`0`), uid (`1`) or cid (`2`) string of the combined data of an
/// expanded ACPI node. It runs from after the null that ends the previous
/// string up to and including its own null; where that null is missing it
/// runs to the end of `data`, and where the previous one is missing it is
/// empty.
pub open spec fn acpi_expanded_substr(data: Seq<u8>, string_index: int) -> Seq<u8> {
    let len = data.len() as int;
    let end_after = |n: Option<int>|
        match n {
            Some(i) => i + 1,
            None => len,
        };
    let (start, end) = if string_index == 0 {
        (0, end_after(nth_null(data, 0)))
    } else if string_index == 1 {
        match nth_null(data, 0) {
            Some(n0) => (n0 + 1, end_after(nth_null(data, 1))),
            None => (len, len),
        }
    } else {
        match nth_null(data, 1) {
            Some(n1) => (n1 + 1, end_after(nth_null(data, 2))),
            None => (len, len),
        }
    };
    if 0 <= start <= end <= len {
        data.subrange(start, end)
    } else {
        Seq::empty()
    }
}

proof fn lemma_null_indices_step(s: Seq<u8>, i: int)
    requires
        0 <= i < s.len(),
    ensures
        null_indices(s.subrange(0, i + 1)) == if s[i] == 0 {
            null_indices(s.subrange(0, i)).push(i)
        } else {
            null_indices(s.subrange(0, i))
        },
{
    assert(s.subrange(0, i + 1).drop_last() =~= s.subrange(0, i));
}

proof fn lemma_null_indices_bounds(s: Seq<u8>)
    ensures
        forall|k: int| 0 <= k < null_indices(s).len() ==> 0 <= #[trigger] null_indices(s)[k] < s.len(),
        forall|j: int, k: int| 0 <= j < k < null_indices(s).len() ==> null_indices(s)[j] < null_indices(s)[k],
    decreases s.len(),
{
    if s.len() > 0 {
        let p = s.drop_last();
        lemma_null_indices_bounds(p);
        let n = null_indices(s);
        let m = null_indices(p);
        assert forall|k: int| 0 <= k < n.len() implies 0 <= #[trigger] n[k] < s.len() by {
            if k < m.len() {
                assert(n[k] == m[k]);
            }
        }
        assert forall|j: int, k: int| 0 <= j < k < n.len() implies n[j] < n[k] by {
            assert(n[j] == m[j]);
            if k < m.len() {
                assert(n[k] == m[k]);
            }
        }
    }
}

/// Get the indices of the three nulls in the combined hid/uid/cid
/// string. This never fails; if some nulls are missing then `None`
/// is returned for those indices. If more than three nulls are
/// present then the extra ones are ignored.
fn acpi_expanded_null_indices(data: &[u8]) -> (r: [Option<usize>; 3])
    ensures
        forall|k: int| 0 <= k < 3 ==> (match #[trigger] r[k] {
            Some(i) => nth_null(data@, k) == Some(i as int),
            None => nth_null(data@, k) is None,
        }),
{
    let mut found: [Option<usize>; 3] = [None, None, None];
    let mut count: usize = 0;
    let mut i: usize = 0;
    proof {
        assert(data@.subrange(0, 0) =~= Seq::<u8>::empty());
    }
    while i < data.len()
        invariant
            i <= data@.len(),
            count <= 3,
            count == null_indices(data@.subrange(0, i as int)).len() || (count == 3
                && null_indices(data@.subrange(0, i as int)).len() >= 3),
            forall|k: int| 0 <= k < count ==> found[k] == Some(
                null_indices(data@.subrange(0, i as int))[k] as usize,
            ),
            forall|k: int| count <= k < 3 ==> found[k] is None,
            forall|k: int| 0 <= k < null_indices(data@.subrange(0, i as int)).len() ==> 0 <= #[trigger] null_indices(data@.subrange(0, i as int))[k] < i,
        decreases data@.len() - i,
    {
        proof {
            lemma_null_indices_step(data@, i as int);
            lemma_null_indices_bounds(data@.subrange(0, i as int));
        }
        if data[i] == 0 && count < 3 {
            found[count] = Some(i);
            count = count + 1;
        }
        i = i + 1;
    }
    proof {
        assert(data@.subrange(0, data@.len() as int) =~= data@);
    }
    found
}

/// Get the hid, uid, or cid string from the combined string. The
/// returned string includes the trailing null if possible; if the
/// substring was not properly null terminated then it ends at the
/// end of `data`.
///
/// This never fails; if there aren't enough nulls in the input
/// string then an empty slice may be returned.
pub fn get_acpi_expanded_substr(data: &[u8], string_index: usize) -> (r: &[u8])
    requires
        string_index < 3,
    ensures
        r@ == acpi_expanded_substr(data@, string_index as int),
{
    let nulls = acpi_expanded_null_indices(data);
    let n0 = nulls[0];
    let n1 = nulls[1];
    let n2 = nulls[2];
    proof {
        lemma_null_indices_bounds(data@);
    }
    let mut start = data.len();
    let mut end = start;
    if string_index == 0 {
        start = 0;
        if let Some(n0) = n0 {
            end = n0 + 1;
        }
    } else if string_index == 1 {
        if let Some(n0) = n0 {
            start = n0 + 1;
            if let Some(n1) = n1 {
                end = n1 + 1;
            }
        }
    } else {
        if let Some(n1) = n1 {
            start = n1 + 1;
            if let Some(n2) = n2 {
                end = n2 + 1;
            }
        }
    }
    if start <= end && end <= data.len() {
        vstd::slice::slice_subrange(data, start, end)
    } else {
        vstd::slice::slice_subrange(data, 0, 0)
    }
}

} // verus!
