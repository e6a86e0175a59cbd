//! Device paths.
//!
//! Device Paths are a packed array of Device Path Nodes. Each Node
//! immediately follows the previous one, and each node may appear on
//! any byte boundary. The array must be terminated with an End of
//! Hardware Device Path Node.
//!
//! Device Path Nodes are variable-length structures that can represent
//! different types of paths. For example, a File Path Media Device
//! Path contains a typical Windows-style path such as
//! "\efi\boot\bootx64.efi", whereas an ACPI Device Path contains
//! numeric ACPI IDs.
//!
//! A Device Path Node always starts with the `DevicePath` header. The
//! `device_type` and `sub_type` fields determine the type of data in
//! the rest of the structure, and the `length` field indicates the
//! total size of the Node including the header.
//!
//! The model of a node, and of a path, is its sequence of bytes.
use crate::data_types::bytes::{lemma_pow256_values, pow256, read_le};
use vstd::prelude::*;
use vstd::std_specs::cmp::PartialEqSpecImpl;

pub mod acpi;
pub mod bios_boot_spec;
pub mod build;
pub mod end;
pub mod hardware;
pub mod media;
pub mod messaging;
mod node_enum;
mod spec;
mod sub_types;
pub mod text;

pub use self::node_enum::{is_known_node_type, node_conversion, node_size_ok, DevicePathNodeEnum};
pub use self::spec::{
    addresses_bytes, is_end_entire, is_node, is_path, lemma_addresses_bytes_len, lemma_field, lemma_node_header, lemma_node_len_prefix,
    lemma_run, lemma_u16s_le_len, lemma_u32s_le_len, node_header, node_len, push_addresses, push_header, push_u16s, push_u32s, starts_with_node,
    u16s_le, u32s_le,
};

verus! {

/// Header that appears at the start of every device path node.
#[derive(Clone, Copy, Debug, PartialEq, Eq, Structural)]
pub struct DevicePathHeader {
    /// Type of device
    pub device_type: DeviceType,
    /// Sub type of device
    pub sub_type: DeviceSubType,
    /// Size (in bytes) of the full node, including this header.
    pub length: u16,
}

/// Type identifier for a device path node.
#[derive(Clone, Copy, Debug, PartialEq, Eq, Structural, PartialOrd, Ord, Hash)]
pub struct DeviceType(pub u8);

#[allow(non_snake_case)]
impl DeviceType {
    /// Hardware Device Path: how a device is attached to the resource domain
    /// of a system.
    pub fn HARDWARE() -> (r: DeviceType)
        ensures
            r.0 == 0x01,
    {
        DeviceType(0x01)
    }

    /// ACPI Device Path: devices described with ACPI AML in the ACPI
    /// namespace.
    pub fn ACPI() -> (r: DeviceType)
        ensures
            r.0 == 0x02,
    {
        DeviceType(0x02)
    }

    /// Messaging Device Path: the connection of devices outside the resource
    /// domain of the system.
    pub fn MESSAGING() -> (r: DeviceType)
        ensures
            r.0 == 0x03,
    {
        DeviceType(0x03)
    }

    /// Media Device Path: the portion of a medium that is being abstracted by
    /// a boot service.
    pub fn MEDIA() -> (r: DeviceType)
        ensures
            r.0 == 0x04,
    {
        DeviceType(0x04)
    }

    /// BIOS Boot Specification Device Path.
    pub fn BIOS_BOOT_SPEC() -> (r: DeviceType)
        ensures
            r.0 == 0x05,
    {
        DeviceType(0x05)
    }

    /// End of Hardware Device Path: ends an instance or the whole path,
    /// depending on the sub-type.
    pub fn END() -> (r: DeviceType)
        ensures
            r.0 == 0x7f,
    {
        DeviceType(0x7f)
    }
}

/// Sub-type identifier for a device path node.
#[derive(Clone, Copy, Debug, PartialEq, Eq, Structural, PartialOrd, Ord, Hash)]
pub struct DeviceSubType(pub u8);

/// Error returned when converting a [`DevicePathNode`] to a more specific
/// node type.
#[derive(Clone, Copy, Debug, PartialEq, Eq, Structural)]
pub enum NodeConversionError {
    /// The length of the node data is not valid for its type.
    InvalidLength,
    /// The node type is not currently supported.
    UnsupportedType,
}

/// A single node of a device path.
///
/// The model is the node's bytes, header included; the length field of the
/// header always gives the number of bytes.
#[derive(Debug)]
pub struct DevicePathNode {
    bytes: Vec<u8>,
}

impl View for DevicePathNode {
    type V = Seq<u8>;

    closed spec fn view(&self) -> Seq<u8> {
        self.bytes@
    }
}

impl DevicePathNode {
    #[verifier::type_invariant]
    spec fn well_formed(self) -> bool {
        is_node(self.bytes@)
    }

    /// Reads the node at the start of `bytes`. Returns `None` if `bytes` is
    /// too short for a header, or for the length that the header gives, or
    /// if that length is shorter than a header.
    pub fn from_bytes(bytes: &[u8]) -> (r: Option<DevicePathNode>)
        ensures
            r is Some <==> starts_with_node(bytes@),
            r matches Some(n) ==> n@ == bytes@.subrange(0, node_len(bytes@) as int),
    {
        if bytes.len() < 4 {
            return None;
        }
        proof {
            lemma_pow256_values();
        }
        let len = read_le(bytes, 2, 2) as usize;
        if len < 4 || len > bytes.len() {
            return None;
        }
        let node_bytes = vstd::slice::slice_to_vec(vstd::slice::slice_subrange(bytes, 0, len));
        proof {
            lemma_node_len_prefix(bytes@, len as int);
        }
        Some(DevicePathNode { bytes: node_bytes })
    }

    /// The bytes of the node, header included.
    pub fn as_bytes(&self) -> (r: &[u8])
        ensures
            r@ == self@,
            is_node(self@),
    {
        proof {
            use_type_invariant(self);
        }
        self.bytes.as_slice()
    }

    /// Type of device
    pub fn device_type(&self) -> (r: DeviceType)
        ensures
            r.0 == self@[0],
    {
        proof {
            use_type_invariant(self);
        }
        DeviceType(self.bytes[0])
    }

    /// Sub type of device
    pub fn sub_type(&self) -> (r: DeviceSubType)
        ensures
            r.0 == self@[1],
    {
        proof {
            use_type_invariant(self);
        }
        DeviceSubType(self.bytes[1])
    }

    /// Tuple of the node's type and subtype.
    pub fn full_type(&self) -> (r: (DeviceType, DeviceSubType))
        ensures
            r.0.0 == self@[0],
            r.1.0 == self@[1],
    {
        (self.device_type(), self.sub_type())
    }

    /// Size (in bytes) of the full node, including the header.
    pub fn length(&self) -> (r: u16)
        ensures
            r == self@.len(),
            is_node(self@),
    {
        proof {
            use_type_invariant(self);
            lemma_pow256_values();
            crate::data_types::bytes::lemma_le_decode_bound(self.bytes@.subrange(2, 4));
        }
        self.bytes.len() as u16
    }

    /// True if this node ends the entire path.
    pub fn is_end_entire(&self) -> (r: bool)
        ensures
            r == is_end_entire(self@),
    {
        proof {
            use_type_invariant(self);
        }
        self.bytes[0] == 0x7f && self.bytes[1] == 0xff
    }

    /// The node as the more specific node type that its type and sub-type
    /// name, or the reason it is not one.
    pub fn as_enum(&self) -> (r: Result<DevicePathNodeEnum, NodeConversionError>)
        ensures
            node_conversion(self@, r),
    {
        DevicePathNodeEnum::try_from(self)
    }

    /// The data of the node: its bytes after the header.
    pub fn data(&self) -> (r: &[u8])
        ensures
            r@ == self@.subrange(4, self@.len() as int),
    {
        proof {
            use_type_invariant(self);
        }
        vstd::slice::slice_subrange(self.bytes.as_slice(), 4, self.bytes.len())
    }
}

/// A device path: nodes one after another, up to a node that ends the
/// entire path.
///
/// The model is the bytes from the first node on. Bytes after the end node
/// may follow; they are not part of the path.
#[derive(Debug)]
pub struct DevicePath {
    bytes: Vec<u8>,
}

impl View for DevicePath {
    type V = Seq<u8>;

    closed spec fn view(&self) -> Seq<u8> {
        self.bytes@
    }
}

impl DevicePath {
    #[verifier::type_invariant]
    spec fn well_formed(self) -> bool {
        is_path(self.bytes@)
    }

    /// Reads the device path at the start of `bytes`. Returns `None` unless
    /// `bytes` holds a chain of well-formed nodes that ends with an
    /// end-entire node.
    pub fn from_bytes(bytes: &[u8]) -> (r: Option<DevicePath>)
        ensures
            r is Some <==> is_path(bytes@),
            r matches Some(p) ==> p@ == bytes@,
    {
        if check_path(bytes) {
            Some(DevicePath { bytes: vstd::slice::slice_to_vec(bytes) })
        } else {
            None
        }
    }

    /// Type of device of the first node.
    pub fn device_type(&self) -> (r: DeviceType)
        ensures
            r.0 == self@[0],
    {
        proof {
            use_type_invariant(self);
        }
        DeviceType(self.bytes[0])
    }

    /// Sub type of device of the first node.
    pub fn sub_type(&self) -> (r: DeviceSubType)
        ensures
            r.0 == self@[1],
    {
        proof {
            use_type_invariant(self);
        }
        DeviceSubType(self.bytes[1])
    }

    /// Size (in bytes) of the first node, including its header.
    pub fn length(&self) -> (r: u16)
        ensures
            r == node_len(self@),
            is_path(self@),
    {
        proof {
            use_type_invariant(self);
            lemma_pow256_values();
        }
        read_le(self.bytes.as_slice(), 2, 2) as u16
    }

    /// True if the first node ends the entire path.
    pub fn is_end_entire(&self) -> (r: bool)
        ensures
            r == is_end_entire(self@),
    {
        proof {
            use_type_invariant(self);
        }
        self.bytes[0] == 0x7f && self.bytes[1] == 0xff
    }

    /// The first node of the path.
    pub fn node(&self) -> (r: DevicePathNode)
        ensures
            r@ == self@.subrange(0, node_len(self@) as int),
    {
        let len = self.length() as usize;
        let node_bytes = vstd::slice::slice_to_vec(
            vstd::slice::slice_subrange(self.bytes.as_slice(), 0, len),
        );
        proof {
            lemma_node_len_prefix(self@, len as int);
        }
        DevicePathNode { bytes: node_bytes }
    }

    /// An iterator over the nodes of the path, each given as the path that
    /// starts at it. Iteration ends at the node that ends the entire path;
    /// that node is not returned.
    pub fn iter(&self) -> (r: DevicePathIterator)
        ensures
            r@ == self@,
    {
        proof {
            use_type_invariant(self);
        }
        DevicePathIterator { path: DevicePath { bytes: vstd::slice::slice_to_vec(self.bytes.as_slice()) } }
    }
}

impl PartialEq for DevicePath {
    /// Two paths are equal when their first nodes have the same bytes.
    fn eq(&self, other: &DevicePath) -> (r: bool) {
        let a = self.length() as usize;
        let b = other.length() as usize;
        proof {
            assert(starts_with_node(self@));
            assert(starts_with_node(other@));
        }
        if a != b {
            proof {
                assert(self@.subrange(0, a as int).len() != other@.subrange(0, b as int).len());
            }
            return false;
        }
        let mut i: usize = 0;
        while i < a
            invariant
                a == node_len(self@),
                a == node_len(other@),
                a <= self@.len(),
                a <= other@.len(),
                i <= a,
                forall|j: int| 0 <= j < i ==> self@[j] == other@[j],
            decreases a - i,
        {
            if self.bytes[i] != other.bytes[i] {
                proof {
                    assert(self@.subrange(0, a as int)[i as int] != other@.subrange(0, a as int)[i as int]);
                }
                return false;
            }
            i = i + 1;
        }
        proof {
            assert(self@.subrange(0, a as int) =~= other@.subrange(0, a as int));
        }
        true
    }
}

impl PartialEqSpecImpl for DevicePath {
    open spec fn obeys_eq_spec() -> bool {
        true
    }

    open spec fn eq_spec(&self, other: &DevicePath) -> bool {
        self@.subrange(0, node_len(self@) as int) == other@.subrange(0, node_len(other@) as int)
    }
}

/// Iterator over the nodes of a [`DevicePath`].
///
/// Iteration ends when a node is reached where
/// [`DevicePath::is_end_entire`] is true. That node is not returned.
///
/// The model is the path that is left.
#[derive(Debug)]
pub struct DevicePathIterator {
    path: DevicePath,
}

impl View for DevicePathIterator {
    type V = Seq<u8>;

    closed spec fn view(&self) -> Seq<u8> {
        self.path@
    }
}

impl DevicePathIterator {
    /// The path that starts at the next node, or `None` once the end node
    /// is reached.
    pub fn next(&mut self) -> (r: Option<DevicePath>)
        ensures
            is_end_entire(old(self)@) ==> r is None && final(self)@ == old(self)@,
            !is_end_entire(old(self)@) ==> {
                &&& r matches Some(p) && p@ == old(self)@
                &&& final(self)@ == old(self)@.skip(node_len(old(self)@) as int)
            },
    {
        if self.path.is_end_entire() {
            return None;
        }
        let len = self.path.length() as usize;
        let total = self.path.bytes.len();
        let rest = vstd::slice::slice_to_vec(
            vstd::slice::slice_subrange(self.path.bytes.as_slice(), len, total),
        );
        proof {
            assert(rest@ =~= self.path.bytes@.skip(len as int));
        }
        let mut cur = DevicePath { bytes: rest };
        core::mem::swap(&mut self.path, &mut cur);
        Some(cur)
    }
}

/// ACPI device path node.
#[derive(Clone, Copy, Debug, PartialEq, Eq, Structural)]
pub struct AcpiDevicePath {
    /// The node's header.
    pub header: DevicePathHeader,
    /// Device's PnP hardware ID stored in a numeric 32-bit compressed
    /// EISA-type ID. This value must match the corresponding _HID in the
    /// ACPI name space.
    pub hid: u32,
    /// Unique ID that is required by ACPI if two devices have the same
    /// _HID. This value must also match the corresponding _UID/_HID pair in
    /// the ACPI name space.
    pub uid: u32,
}

/// Checks that `bytes` starts with a device path.
fn check_path(bytes: &[u8]) -> (r: bool)
    ensures
        r == is_path(bytes@),
{
    let mut off: usize = 0;
    proof {
        lemma_pow256_values();
        assert(bytes@.skip(0) =~= bytes@);
    }
    while off < bytes.len()
        invariant
            off <= bytes@.len(),
            is_path(bytes@) == is_path(bytes@.skip(off as int)),
            pow256(2) == 0x10000,
        decreases bytes@.len() - off,
    {
        let ghost rest = bytes@.skip(off as int);
        if bytes.len() - off < 4 {
            return false;
        }
        let len = read_le(bytes, off + 2, 2) as usize;
        proof {
            assert(rest.subrange(2, 4) =~= bytes@.subrange(off + 2, off + 4));
        }
        if len < 4 || len > bytes.len() - off {
            return false;
        }
        if bytes[off] == 0x7f && bytes[off + 1] == 0xff {
            return true;
        }
        proof {
            assert(rest.skip(len as int) =~= bytes@.skip(off + len));
        }
        off = off + len;
    }
    proof {
        assert(bytes@.skip(off as int).len() == 0);
    }
    false
}

impl crate::proto::Identify for DevicePath {
    open spec fn spec_guid() -> Seq<u8> {
        crate::data_types::guid::spec_guid_bytes(0x9576e91, 0x6d3f, 0x11d2, 0x8e39, 0xa0c969723b)
    }

    fn guid() -> (g: crate::data_types::Guid) {
        crate::data_types::Guid::from_values(0x9576e91, 0x6d3f, 0x11d2, 0x8e39, 0xa0c969723b)
    }
}

impl crate::proto::Protocol for DevicePath {
}

} // verus!
