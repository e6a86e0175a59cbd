//! Device path nodes for [`DeviceType::HARDWARE`].
#![allow(unused_imports)]
use crate::data_types::bytes::{le_at, lemma_pow256_values, read_array, read_le};
use crate::data_types::guid::spec_guid_bytes;
use crate::data_types::{Guid, UnalignedSlice};
use crate::proto::device_path::{is_node, DevicePathNode, NodeConversionError};
use crate::proto::network::IpAddress;
use crate::table::boot::MemoryType;
use vstd::prelude::*;
use vstd::std_specs::convert::TryFromSpecImpl;

verus! {

/// PCI hardware device path node.
#[derive(Debug)]
pub struct Pci {
    bytes: Vec<u8>,
}

impl View for Pci {
    type V = Seq<u8>;

    closed spec fn view(&self) -> Seq<u8> {
        self.bytes@
    }
}

/// The sizes that a node of this type can have.
pub open spec fn pci_size_ok(s: Seq<u8>) -> bool {
    s.len() == 6
}

impl Pci {
    #[verifier::type_invariant]
    spec fn well_formed(self) -> bool {
        is_node(self.bytes@) && pci_size_ok(self.bytes@)
    }

    /// PCI function number.
    pub fn function(&self) -> (r: u8)
        ensures
            r == self@[4],
    {
        proof {
            use_type_invariant(self);
        }
        self.bytes[4]
    }

    /// PCI device number.
    pub fn device(&self) -> (r: u8)
        ensures
            r == self@[5],
    {
        proof {
            use_type_invariant(self);
        }
        self.bytes[5]
    }
}

impl TryFrom<&DevicePathNode> for Pci {
    type Error = NodeConversionError;

    /// Succeeds when the node's size is one that this node type can have.
    fn try_from(node: &DevicePathNode) -> (r: Result<Self, Self::Error>)
        ensures
            r is Ok <==> pci_size_ok(node@),
            r matches Ok(n) ==> n@ == node@,
            r matches Err(e) ==> e == NodeConversionError::InvalidLength,
    {
        let bytes = node.as_bytes();
        if bytes.len() != 6 {
            return Err(NodeConversionError::InvalidLength);
        }
        Ok(Pci { bytes: vstd::slice::slice_to_vec(bytes) })
    }
}

impl TryFromSpecImpl<&DevicePathNode> for Pci {
    open spec fn obeys_try_from_spec() -> bool {
        false
    }

    closed spec fn try_from_spec(node: &DevicePathNode) -> Result<Self, Self::Error> {
        arbitrary()
    }
}

/// PCCARD hardware device path node.
#[derive(Debug)]
pub struct Pccard {
    bytes: Vec<u8>,
}

impl View for Pccard {
    type V = Seq<u8>;

    closed spec fn view(&self) -> Seq<u8> {
        self.bytes@
    }
}

/// The sizes that a node of this type can have.
pub open spec fn pccard_size_ok(s: Seq<u8>) -> bool {
    s.len() == 5
}

impl Pccard {
    #[verifier::type_invariant]
    spec fn well_formed(self) -> bool {
        is_node(self.bytes@) && pccard_size_ok(self.bytes@)
    }

    /// Function number starting from 0.
    pub fn function(&self) -> (r: u8)
        ensures
            r == self@[4],
    {
        proof {
            use_type_invariant(self);
        }
        self.bytes[4]
    }
}

impl TryFrom<&DevicePathNode> for Pccard {
    type Error = NodeConversionError;

    /// Succeeds when the node's size is one that this node type can have.
    fn try_from(node: &DevicePathNode) -> (r: Result<Self, Self::Error>)
        ensures
            r is Ok <==> pccard_size_ok(node@),
            r matches Ok(n) ==> n@ == node@,
            r matches Err(e) ==> e == NodeConversionError::InvalidLength,
    {
        let bytes = node.as_bytes();
        if bytes.len() != 5 {
            return Err(NodeConversionError::InvalidLength);
        }
        Ok(Pccard { bytes: vstd::slice::slice_to_vec(bytes) })
    }
}

impl TryFromSpecImpl<&DevicePathNode> for Pccard {
    open spec fn obeys_try_from_spec() -> bool {
        false
    }

    closed spec fn try_from_spec(node: &DevicePathNode) -> Result<Self, Self::Error> {
        arbitrary()
    }
}

/// Memory mapped hardware device path node.
#[derive(Debug)]
pub struct MemoryMapped {
    bytes: Vec<u8>,
}

impl View for MemoryMapped {
    type V = Seq<u8>;

    closed spec fn view(&self) -> Seq<u8> {
        self.bytes@
    }
}

/// The sizes that a node of this type can have.
pub open spec fn memory_mapped_size_ok(s: Seq<u8>) -> bool {
    s.len() == 24
}

impl MemoryMapped {
    #[verifier::type_invariant]
    spec fn well_formed(self) -> bool {
        is_node(self.bytes@) && memory_mapped_size_ok(self.bytes@)
    }

    /// Memory type.
    pub fn memory_type(&self) -> (r: MemoryType)
        ensures
            r.0 == le_at(self@, 4, 4),
    {
        proof {
            use_type_invariant(self);
            lemma_pow256_values();
        }
        MemoryType(read_le(self.bytes.as_slice(), 4, 4) as u32)
    }

    /// Starting memory address.
    pub fn start_address(&self) -> (r: u64)
        ensures
            r == le_at(self@, 8, 8),
    {
        proof {
            use_type_invariant(self);
            lemma_pow256_values();
        }
        read_le(self.bytes.as_slice(), 8, 8)
    }

    /// Ending memory address.
    pub fn end_address(&self) -> (r: u64)
        ensures
            r == le_at(self@, 16, 8),
    {
        proof {
            use_type_invariant(self);
            lemma_pow256_values();
        }
        read_le(self.bytes.as_slice(), 16, 8)
    }
}

impl TryFrom<&DevicePathNode> for MemoryMapped {
    type Error = NodeConversionError;

    /// Succeeds when the node's size is one that this node type can have.
    fn try_from(node: &DevicePathNode) -> (r: Result<Self, Self::Error>)
        ensures
            r is Ok <==> memory_mapped_size_ok(node@),
            r matches Ok(n) ==> n@ == node@,
            r matches Err(e) ==> e == NodeConversionError::InvalidLength,
    {
        let bytes = node.as_bytes();
        if bytes.len() != 24 {
            return Err(NodeConversionError::InvalidLength);
        }
        Ok(MemoryMapped { bytes: vstd::slice::slice_to_vec(bytes) })
    }
}

impl TryFromSpecImpl<&DevicePathNode> for MemoryMapped {
    open spec fn obeys_try_from_spec() -> bool {
        false
    }

    closed spec fn try_from_spec(node: &DevicePathNode) -> Result<Self, Self::Error> {
        arbitrary()
    }
}

/// Vendor-defined hardware device path node.
#[derive(Debug)]
pub struct Vendor {
    bytes: Vec<u8>,
}

impl View for Vendor {
    type V = Seq<u8>;

    closed spec fn view(&self) -> Seq<u8> {
        self.bytes@
    }
}

/// The sizes that a node of this type can have.
pub open spec fn vendor_size_ok(s: Seq<u8>) -> bool {
    20 <= s.len()
}

impl Vendor {
    #[verifier::type_invariant]
    spec fn well_formed(self) -> bool {
        is_node(self.bytes@) && vendor_size_ok(self.bytes@)
    }

    /// Vendor-assigned GUID that defines the data that follows.
    pub fn vendor_guid(&self) -> (r: Guid)
        ensures
            r@ == self@.subrange(4, 20),
    {
        proof {
            use_type_invariant(self);
        }
        Guid::from_bytes(read_array::<16>(self.bytes.as_slice(), 4))
    }

    /// Vendor-defined data.
    pub fn vendor_defined_data(&self) -> (r: &[u8])
        ensures
            r@ == self@.subrange(20, self@.len() as int),
    {
        proof {
            use_type_invariant(self);
        }
        vstd::slice::slice_subrange(self.bytes.as_slice(), 20, self.bytes.len())
    }
}

impl TryFrom<&DevicePathNode> for Vendor {
    type Error = NodeConversionError;

    /// Succeeds when the node's size is one that this node type can have.
    fn try_from(node: &DevicePathNode) -> (r: Result<Self, Self::Error>)
        ensures
            r is Ok <==> vendor_size_ok(node@),
            r matches Ok(n) ==> n@ == node@,
            r matches Err(e) ==> e == NodeConversionError::InvalidLength,
    {
        let bytes = node.as_bytes();
        let len = bytes.len();
        if len < 20 {
            return Err(NodeConversionError::InvalidLength);
        }
        Ok(Vendor { bytes: vstd::slice::slice_to_vec(bytes) })
    }
}

impl TryFromSpecImpl<&DevicePathNode> for Vendor {
    open spec fn obeys_try_from_spec() -> bool {
        false
    }

    closed spec fn try_from_spec(node: &DevicePathNode) -> Result<Self, Self::Error> {
        arbitrary()
    }
}

/// Controller hardware device path node.
#[derive(Debug)]
pub struct Controller {
    bytes: Vec<u8>,
}

impl View for Controller {
    type V = Seq<u8>;

    closed spec fn view(&self) -> Seq<u8> {
        self.bytes@
    }
}

/// The sizes that a node of this type can have.
pub open spec fn controller_size_ok(s: Seq<u8>) -> bool {
    s.len() == 8
}

impl Controller {
    #[verifier::type_invariant]
    spec fn well_formed(self) -> bool {
        is_node(self.bytes@) && controller_size_ok(self.bytes@)
    }

    /// Controller number.
    pub fn controller_number(&self) -> (r: u32)
        ensures
            r == le_at(self@, 4, 4),
    {
        proof {
            use_type_invariant(self);
            lemma_pow256_values();
        }
        read_le(self.bytes.as_slice(), 4, 4) as u32
    }
}

impl TryFrom<&DevicePathNode> for Controller {
    type Error = NodeConversionError;

    /// Succeeds when the node's size is one that this node type can have.
    fn try_from(node: &DevicePathNode) -> (r: Result<Self, Self::Error>)
        ensures
            r is Ok <==> controller_size_ok(node@),
            r matches Ok(n) ==> n@ == node@,
            r matches Err(e) ==> e == NodeConversionError::InvalidLength,
    {
        let bytes = node.as_bytes();
        if bytes.len() != 8 {
            return Err(NodeConversionError::InvalidLength);
        }
        Ok(Controller { bytes: vstd::slice::slice_to_vec(bytes) })
    }
}

impl TryFromSpecImpl<&DevicePathNode> for Controller {
    open spec fn obeys_try_from_spec() -> bool {
        false
    }

    closed spec fn try_from_spec(node: &DevicePathNode) -> Result<Self, Self::Error> {
        arbitrary()
    }
}

/// Baseboard Management Controller (BMC) host interface hardware
/// device path node.
#[derive(Debug)]
pub struct Bmc {
    bytes: Vec<u8>,
}

impl View for Bmc {
    type V = Seq<u8>;

    closed spec fn view(&self) -> Seq<u8> {
        self.bytes@
    }
}

/// The sizes that a node of this type can have.
pub open spec fn bmc_size_ok(s: Seq<u8>) -> bool {
    s.len() == 13
}

impl Bmc {
    #[verifier::type_invariant]
    spec fn well_formed(self) -> bool {
        is_node(self.bytes@) && bmc_size_ok(self.bytes@)
    }

    /// Host interface type.
    pub fn interface_type(&self) -> (r: BmcInterfaceType)
        ensures
            r.0 == self@[4],
    {
        proof {
            use_type_invariant(self);
        }
        BmcInterfaceType(self.bytes[4])
    }

    /// Base address of the BMC. If the least-significant bit of the
    /// field is a 1 then the address is in I/O space, otherwise the
    /// address is memory-mapped.
    pub fn base_address(&self) -> (r: u64)
        ensures
            r == le_at(self@, 5, 8),
    {
        proof {
            use_type_invariant(self);
            lemma_pow256_values();
        }
        read_le(self.bytes.as_slice(), 5, 8)
    }
}

impl TryFrom<&DevicePathNode> for Bmc {
    type Error = NodeConversionError;

    /// Succeeds when the node's size is one that this node type can have.
    fn try_from(node: &DevicePathNode) -> (r: Result<Self, Self::Error>)
        ensures
            r is Ok <==> bmc_size_ok(node@),
            r matches Ok(n) ==> n@ == node@,
            r matches Err(e) ==> e == NodeConversionError::InvalidLength,
    {
        let bytes = node.as_bytes();
        if bytes.len() != 13 {
            return Err(NodeConversionError::InvalidLength);
        }
        Ok(Bmc { bytes: vstd::slice::slice_to_vec(bytes) })
    }
}

impl TryFromSpecImpl<&DevicePathNode> for Bmc {
    open spec fn obeys_try_from_spec() -> bool {
        false
    }

    closed spec fn try_from_spec(node: &DevicePathNode) -> Result<Self, Self::Error> {
        arbitrary()
    }
}

///  Baseboard Management Controller (BMC) host interface type.
#[derive(Clone, Copy, Debug, PartialEq, Eq, Structural, PartialOrd, Ord, Hash)]
pub struct BmcInterfaceType(pub u8);

#[allow(non_snake_case)]
impl BmcInterfaceType {
    ///  Unknown.
    pub fn UNKNOWN() -> (r: BmcInterfaceType)
        ensures
            r.0 == 0x00,
    {
        BmcInterfaceType(0x00)
    }

    ///  Keyboard controller style.
    pub fn KEYBOARD_CONTROLLER_STYLE() -> (r: BmcInterfaceType)
        ensures
            r.0 == 0x01,
    {
        BmcInterfaceType(0x01)
    }

    ///  Server management interface chip.
    pub fn SERVER_MANAGEMENT_INTERFACE_CHIP() -> (r: BmcInterfaceType)
        ensures
            r.0 == 0x02,
    {
        BmcInterfaceType(0x02)
    }

    ///  Block transfer.
    pub fn BLOCK_TRANSFER() -> (r: BmcInterfaceType)
        ensures
            r.0 == 0x03,
    {
        BmcInterfaceType(0x03)
    }
}

} // verus!
