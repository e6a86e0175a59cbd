//! Device path nodes for [`DeviceType::MESSAGING`].
#![allow(unused_imports)]
use crate::data_types::bytes::{le_at, lemma_pow256_values, read_array, read_le};
use crate::data_types::guid::spec_guid_bytes;
use crate::data_types::{Guid, UnalignedSlice};
use crate::proto::device_path::{is_node, DevicePathNode, NodeConversionError};
use crate::proto::network::IpAddress;
use crate::table::boot::MemoryType;
use vstd::prelude::*;
use vstd::std_specs::convert::TryFromSpecImpl;

verus! {

/// ATAPI messaging device path node.
#[derive(Debug)]
pub struct Atapi {
    bytes: Vec<u8>,
}

impl View for Atapi {
    type V = Seq<u8>;

    closed spec fn view(&self) -> Seq<u8> {
        self.bytes@
    }
}

/// The sizes that a node of this type can have.
pub open spec fn atapi_size_ok(s: Seq<u8>) -> bool {
    s.len() == 8
}

impl Atapi {
    #[verifier::type_invariant]
    spec fn well_formed(self) -> bool {
        is_node(self.bytes@) && atapi_size_ok(self.bytes@)
    }

    /// Whether the ATAPI device is primary or secondary.
    pub fn primary_secondary(&self) -> (r: PrimarySecondary)
        ensures
            r.0 == self@[4],
    {
        proof {
            use_type_invariant(self);
        }
        PrimarySecondary(self.bytes[4])
    }

    /// Whether the ATAPI device is master or slave.
    pub fn master_slave(&self) -> (r: MasterSlave)
        ensures
            r.0 == self@[5],
    {
        proof {
            use_type_invariant(self);
        }
        MasterSlave(self.bytes[5])
    }

    /// Logical Unit Number (LUN).
    pub fn logical_unit_number(&self) -> (r: u16)
        ensures
            r == le_at(self@, 6, 2),
    {
        proof {
            use_type_invariant(self);
            lemma_pow256_values();
        }
        read_le(self.bytes.as_slice(), 6, 2) as u16
    }
}

impl TryFrom<&DevicePathNode> for Atapi {
    type Error = NodeConversionError;

    /// Succeeds when the node's size is one that this node type can have.
    fn try_from(node: &DevicePathNode) -> (r: Result<Self, Self::Error>)
        ensures
            r is Ok <==> atapi_size_ok(node@),
            r matches Ok(n) ==> n@ == node@,
            r matches Err(e) ==> e == NodeConversionError::InvalidLength,
    {
        let bytes = node.as_bytes();
        if bytes.len() != 8 {
            return Err(NodeConversionError::InvalidLength);
        }
        Ok(Atapi { bytes: vstd::slice::slice_to_vec(bytes) })
    }
}

impl TryFromSpecImpl<&DevicePathNode> for Atapi {
    open spec fn obeys_try_from_spec() -> bool {
        false
    }

    closed spec fn try_from_spec(node: &DevicePathNode) -> Result<Self, Self::Error> {
        arbitrary()
    }
}

/// SCSI messaging device path node.
#[derive(Debug)]
pub struct Scsi {
    bytes: Vec<u8>,
}

impl View for Scsi {
    type V = Seq<u8>;

    closed spec fn view(&self) -> Seq<u8> {
        self.bytes@
    }
}

/// The sizes that a node of this type can have.
pub open spec fn scsi_size_ok(s: Seq<u8>) -> bool {
    s.len() == 8
}

impl Scsi {
    #[verifier::type_invariant]
    spec fn well_formed(self) -> bool {
        is_node(self.bytes@) && scsi_size_ok(self.bytes@)
    }

    /// Target ID on the SCSI bus.
    pub fn target_id(&self) -> (r: u16)
        ensures
            r == le_at(self@, 4, 2),
    {
        proof {
            use_type_invariant(self);
            lemma_pow256_values();
        }
        read_le(self.bytes.as_slice(), 4, 2) as u16
    }

    /// Logical Unit Number.
    pub fn logical_unit_number(&self) -> (r: u16)
        ensures
            r == le_at(self@, 6, 2),
    {
        proof {
            use_type_invariant(self);
            lemma_pow256_values();
        }
        read_le(self.bytes.as_slice(), 6, 2) as u16
    }
}

impl TryFrom<&DevicePathNode> for Scsi {
    type Error = NodeConversionError;

    /// Succeeds when the node's size is one that this node type can have.
    fn try_from(node: &DevicePathNode) -> (r: Result<Self, Self::Error>)
        ensures
            r is Ok <==> scsi_size_ok(node@),
            r matches Ok(n) ==> n@ == node@,
            r matches Err(e) ==> e == NodeConversionError::InvalidLength,
    {
        let bytes = node.as_bytes();
        if bytes.len() != 8 {
            return Err(NodeConversionError::InvalidLength);
        }
        Ok(Scsi { bytes: vstd::slice::slice_to_vec(bytes) })
    }
}

impl TryFromSpecImpl<&DevicePathNode> for Scsi {
    open spec fn obeys_try_from_spec() -> bool {
        false
    }

    closed spec fn try_from_spec(node: &DevicePathNode) -> Result<Self, Self::Error> {
        arbitrary()
    }
}

/// Fibre channel messaging device path node.
#[derive(Debug)]
pub struct FibreChannel {
    bytes: Vec<u8>,
}

impl View for FibreChannel {
    type V = Seq<u8>;

    closed spec fn view(&self) -> Seq<u8> {
        self.bytes@
    }
}

/// The sizes that a node of this type can have.
pub open spec fn fibre_channel_size_ok(s: Seq<u8>) -> bool {
    s.len() == 24
}

impl FibreChannel {
    #[verifier::type_invariant]
    spec fn well_formed(self) -> bool {
        is_node(self.bytes@) && fibre_channel_size_ok(self.bytes@)
    }

    /// Fibre Channel World Wide Name.
    pub fn world_wide_name(&self) -> (r: u64)
        ensures
            r == le_at(self@, 8, 8),
    {
        proof {
            use_type_invariant(self);
            lemma_pow256_values();
        }
        read_le(self.bytes.as_slice(), 8, 8)
    }

    /// Fibre Channel Logical Unit Number.
    pub fn logical_unit_number(&self) -> (r: u64)
        ensures
            r == le_at(self@, 16, 8),
    {
        proof {
            use_type_invariant(self);
            lemma_pow256_values();
        }
        read_le(self.bytes.as_slice(), 16, 8)
    }
}

impl TryFrom<&DevicePathNode> for FibreChannel {
    type Error = NodeConversionError;

    /// Succeeds when the node's size is one that this node type can have.
    fn try_from(node: &DevicePathNode) -> (r: Result<Self, Self::Error>)
        ensures
            r is Ok <==> fibre_channel_size_ok(node@),
            r matches Ok(n) ==> n@ == node@,
            r matches Err(e) ==> e == NodeConversionError::InvalidLength,
    {
        let bytes = node.as_bytes();
        if bytes.len() != 24 {
            return Err(NodeConversionError::InvalidLength);
        }
        Ok(FibreChannel { bytes: vstd::slice::slice_to_vec(bytes) })
    }
}

impl TryFromSpecImpl<&DevicePathNode> for FibreChannel {
    open spec fn obeys_try_from_spec() -> bool {
        false
    }

    closed spec fn try_from_spec(node: &DevicePathNode) -> Result<Self, Self::Error> {
        arbitrary()
    }
}

/// Fibre channel extended messaging device path node.
#[derive(Debug)]
pub struct FibreChannelEx {
    bytes: Vec<u8>,
}

impl View for FibreChannelEx {
    type V = Seq<u8>;

    closed spec fn view(&self) -> Seq<u8> {
        self.bytes@
    }
}

/// The sizes that a node of this type can have.
pub open spec fn fibre_channel_ex_size_ok(s: Seq<u8>) -> bool {
    s.len() == 24
}

impl FibreChannelEx {
    #[verifier::type_invariant]
    spec fn well_formed(self) -> bool {
        is_node(self.bytes@) && fibre_channel_ex_size_ok(self.bytes@)
    }

    /// Fibre Channel end device port name (aka World Wide Name).
    pub fn world_wide_name(&self) -> (r: [u8; 8])
        ensures
            r@ == self@.subrange(8, 16),
    {
        proof {
            use_type_invariant(self);
        }
        read_array::<8>(self.bytes.as_slice(), 8)
    }

    /// Fibre Channel Logical Unit Number.
    pub fn logical_unit_number(&self) -> (r: [u8; 8])
        ensures
            r@ == self@.subrange(16, 24),
    {
        proof {
            use_type_invariant(self);
        }
        read_array::<8>(self.bytes.as_slice(), 16)
    }
}

impl TryFrom<&DevicePathNode> for FibreChannelEx {
    type Error = NodeConversionError;

    /// Succeeds when the node's size is one that this node type can have.
    fn try_from(node: &DevicePathNode) -> (r: Result<Self, Self::Error>)
        ensures
            r is Ok <==> fibre_channel_ex_size_ok(node@),
            r matches Ok(n) ==> n@ == node@,
            r matches Err(e) ==> e == NodeConversionError::InvalidLength,
    {
        let bytes = node.as_bytes();
        if bytes.len() != 24 {
            return Err(NodeConversionError::InvalidLength);
        }
        Ok(FibreChannelEx { bytes: vstd::slice::slice_to_vec(bytes) })
    }
}

impl TryFromSpecImpl<&DevicePathNode> for FibreChannelEx {
    open spec fn obeys_try_from_spec() -> bool {
        false
    }

    closed spec fn try_from_spec(node: &DevicePathNode) -> Result<Self, Self::Error> {
        arbitrary()
    }
}

/// 1394 messaging device path node.
#[derive(Debug)]
pub struct Ieee1394 {
    bytes: Vec<u8>,
}

impl View for Ieee1394 {
    type V = Seq<u8>;

    closed spec fn view(&self) -> Seq<u8> {
        self.bytes@
    }
}

/// The sizes that a node of this type can have.
pub open spec fn ieee1394_size_ok(s: Seq<u8>) -> bool {
    s.len() == 16
}

impl Ieee1394 {
    #[verifier::type_invariant]
    spec fn well_formed(self) -> bool {
        is_node(self.bytes@) && ieee1394_size_ok(self.bytes@)
    }

    /// 1394 Global Unique ID. Note that this is not the same as a
    /// UEFI GUID.
    pub fn guid(&self) -> (r: [u8; 8])
        ensures
            r@ == self@.subrange(8, 16),
    {
        proof {
            use_type_invariant(self);
        }
        read_array::<8>(self.bytes.as_slice(), 8)
    }
}

impl TryFrom<&DevicePathNode> for Ieee1394 {
    type Error = NodeConversionError;

    /// Succeeds when the node's size is one that this node type can have.
    fn try_from(node: &DevicePathNode) -> (r: Result<Self, Self::Error>)
        ensures
            r is Ok <==> ieee1394_size_ok(node@),
            r matches Ok(n) ==> n@ == node@,
            r matches Err(e) ==> e == NodeConversionError::InvalidLength,
    {
        let bytes = node.as_bytes();
        if bytes.len() != 16 {
            return Err(NodeConversionError::InvalidLength);
        }
        Ok(Ieee1394 { bytes: vstd::slice::slice_to_vec(bytes) })
    }
}

impl TryFromSpecImpl<&DevicePathNode> for Ieee1394 {
    open spec fn obeys_try_from_spec() -> bool {
        false
    }

    closed spec fn try_from_spec(node: &DevicePathNode) -> Result<Self, Self::Error> {
        arbitrary()
    }
}

/// USB messaging device path node.
#[derive(Debug)]
pub struct Usb {
    bytes: Vec<u8>,
}

impl View for Usb {
    type V = Seq<u8>;

    closed spec fn view(&self) -> Seq<u8> {
        self.bytes@
    }
}

/// The sizes that a node of this type can have.
pub open spec fn usb_size_ok(s: Seq<u8>) -> bool {
    s.len() == 6
}

impl Usb {
    #[verifier::type_invariant]
    spec fn well_formed(self) -> bool {
        is_node(self.bytes@) && usb_size_ok(self.bytes@)
    }

    /// USB parent port number.
    pub fn parent_port_number(&self) -> (r: u8)
        ensures
            r == self@[4],
    {
        proof {
            use_type_invariant(self);
        }
        self.bytes[4]
    }

    /// USB interface number.
    pub fn interface(&self) -> (r: u8)
        ensures
            r == self@[5],
    {
        proof {
            use_type_invariant(self);
        }
        self.bytes[5]
    }
}

impl TryFrom<&DevicePathNode> for Usb {
    type Error = NodeConversionError;

    /// Succeeds when the node's size is one that this node type can have.
    fn try_from(node: &DevicePathNode) -> (r: Result<Self, Self::Error>)
        ensures
            r is Ok <==> usb_size_ok(node@),
            r matches Ok(n) ==> n@ == node@,
            r matches Err(e) ==> e == NodeConversionError::InvalidLength,
    {
        let bytes = node.as_bytes();
        if bytes.len() != 6 {
            return Err(NodeConversionError::InvalidLength);
        }
        Ok(Usb { bytes: vstd::slice::slice_to_vec(bytes) })
    }
}

impl TryFromSpecImpl<&DevicePathNode> for Usb {
    open spec fn obeys_try_from_spec() -> bool {
        false
    }

    closed spec fn try_from_spec(node: &DevicePathNode) -> Result<Self, Self::Error> {
        arbitrary()
    }
}

/// SATA messaging device path node.
#[derive(Debug)]
pub struct Sata {
    bytes: Vec<u8>,
}

impl View for Sata {
    type V = Seq<u8>;

    closed spec fn view(&self) -> Seq<u8> {
        self.bytes@
    }
}

/// The sizes that a node of this type can have.
pub open spec fn sata_size_ok(s: Seq<u8>) -> bool {
    s.len() == 10
}

impl Sata {
    #[verifier::type_invariant]
    spec fn well_formed(self) -> bool {
        is_node(self.bytes@) && sata_size_ok(self.bytes@)
    }

    /// The HBA port number that facilitates the connection to the
    /// device or a port multiplier. The value 0xffff is reserved.
    pub fn hba_port_number(&self) -> (r: u16)
        ensures
            r == le_at(self@, 4, 2),
    {
        proof {
            use_type_invariant(self);
            lemma_pow256_values();
        }
        read_le(self.bytes.as_slice(), 4, 2) as u16
    }

    /// the port multiplier port number that facilitates the
    /// connection to the device. Must be set to 0xffff if the
    /// device is directly connected to the HBA.
    pub fn port_multiplier_port_number(&self) -> (r: u16)
        ensures
            r == le_at(self@, 6, 2),
    {
        proof {
            use_type_invariant(self);
            lemma_pow256_values();
        }
        read_le(self.bytes.as_slice(), 6, 2) as u16
    }

    /// Logical unit number.
    pub fn logical_unit_number(&self) -> (r: u16)
        ensures
            r == le_at(self@, 8, 2),
    {
        proof {
            use_type_invariant(self);
            lemma_pow256_values();
        }
        read_le(self.bytes.as_slice(), 8, 2) as u16
    }
}

impl TryFrom<&DevicePathNode> for Sata {
    type Error = NodeConversionError;

    /// Succeeds when the node's size is one that this node type can have.
    fn try_from(node: &DevicePathNode) -> (r: Result<Self, Self::Error>)
        ensures
            r is Ok <==> sata_size_ok(node@),
            r matches Ok(n) ==> n@ == node@,
            r matches Err(e) ==> e == NodeConversionError::InvalidLength,
    {
        let bytes = node.as_bytes();
        if bytes.len() != 10 {
            return Err(NodeConversionError::InvalidLength);
        }
        Ok(Sata { bytes: vstd::slice::slice_to_vec(bytes) })
    }
}

impl TryFromSpecImpl<&DevicePathNode> for Sata {
    open spec fn obeys_try_from_spec() -> bool {
        false
    }

    closed spec fn try_from_spec(node: &DevicePathNode) -> Result<Self, Self::Error> {
        arbitrary()
    }
}

/// USB World Wide ID (WWID) messaging device path node.
#[derive(Debug)]
pub struct UsbWwid {
    bytes: Vec<u8>,
}

impl View for UsbWwid {
    type V = Seq<u8>;

    closed spec fn view(&self) -> Seq<u8> {
        self.bytes@
    }
}

/// The sizes that a node of this type can have.
pub open spec fn usb_wwid_size_ok(s: Seq<u8>) -> bool {
    10 <= s.len() && (s.len() - 10) % 2 == 0
}

impl UsbWwid {
    #[verifier::type_invariant]
    spec fn well_formed(self) -> bool {
        is_node(self.bytes@) && usb_wwid_size_ok(self.bytes@)
    }

    /// USB interface number.
    pub fn interface_number(&self) -> (r: u16)
        ensures
            r == le_at(self@, 4, 2),
    {
        proof {
            use_type_invariant(self);
            lemma_pow256_values();
        }
        read_le(self.bytes.as_slice(), 4, 2) as u16
    }

    /// USB vendor ID.
    pub fn device_vendor_id(&self) -> (r: u16)
        ensures
            r == le_at(self@, 6, 2),
    {
        proof {
            use_type_invariant(self);
            lemma_pow256_values();
        }
        read_le(self.bytes.as_slice(), 6, 2) as u16
    }

    /// USB product ID.
    pub fn device_product_id(&self) -> (r: u16)
        ensures
            r == le_at(self@, 8, 2),
    {
        proof {
            use_type_invariant(self);
            lemma_pow256_values();
        }
        read_le(self.bytes.as_slice(), 8, 2) as u16
    }

    /// Serial number.
    pub fn serial_number(&self) -> (r: UnalignedSlice<u16>)
        ensures
            r@.len() == (self@.len() - 10) / 2,
            forall|i: int| 0 <= i < r@.len() ==> r@[i] as nat == #[trigger] le_at(self@, 10 + 2 * i, 2),
    {
        proof {
            use_type_invariant(self);
        }
        let tail = vstd::slice::slice_subrange(self.bytes.as_slice(), 10, self.bytes.len());
        let r = UnalignedSlice::<u16>::from_le_bytes(tail, (self.bytes.len() - 10) / 2);
        proof {
            assert forall|i: int| 0 <= i < r@.len() implies r@[i] as nat == #[trigger] le_at(self@, 10 + 2 * i, 2) by {
                assert(tail@.subrange(2 * i, 2 * i + 2) =~= self@.subrange(10 + 2 * i, 10 + 2 * i + 2));
                assert(r@[i] as nat == le_at(tail@, 2 * i, 2));
            }
        }
        r
    }
}

impl TryFrom<&DevicePathNode> for UsbWwid {
    type Error = NodeConversionError;

    /// Succeeds when the node's size is one that this node type can have.
    fn try_from(node: &DevicePathNode) -> (r: Result<Self, Self::Error>)
        ensures
            r is Ok <==> usb_wwid_size_ok(node@),
            r matches Ok(n) ==> n@ == node@,
            r matches Err(e) ==> e == NodeConversionError::InvalidLength,
    {
        let bytes = node.as_bytes();
        let len = bytes.len();
        if len < 10 {
            return Err(NodeConversionError::InvalidLength);
        }
        if (len - 10) % 2 != 0 {
            return Err(NodeConversionError::InvalidLength);
        }
        Ok(UsbWwid { bytes: vstd::slice::slice_to_vec(bytes) })
    }
}

impl TryFromSpecImpl<&DevicePathNode> for UsbWwid {
    open spec fn obeys_try_from_spec() -> bool {
        false
    }

    closed spec fn try_from_spec(node: &DevicePathNode) -> Result<Self, Self::Error> {
        arbitrary()
    }
}

/// Device logical unit messaging device path node.
#[derive(Debug)]
pub struct DeviceLogicalUnit {
    bytes: Vec<u8>,
}

impl View for DeviceLogicalUnit {
    type V = Seq<u8>;

    closed spec fn view(&self) -> Seq<u8> {
        self.bytes@
    }
}

/// The sizes that a node of this type can have.
pub open spec fn device_logical_unit_size_ok(s: Seq<u8>) -> bool {
    s.len() == 5
}

impl DeviceLogicalUnit {
    #[verifier::type_invariant]
    spec fn well_formed(self) -> bool {
        is_node(self.bytes@) && device_logical_unit_size_ok(self.bytes@)
    }

    /// Logical Unit Number.
    pub fn logical_unit_number(&self) -> (r: u8)
        ensures
            r == self@[4],
    {
        proof {
            use_type_invariant(self);
        }
        self.bytes[4]
    }
}

impl TryFrom<&DevicePathNode> for DeviceLogicalUnit {
    type Error = NodeConversionError;

    /// Succeeds when the node's size is one that this node type can have.
    fn try_from(node: &DevicePathNode) -> (r: Result<Self, Self::Error>)
        ensures
            r is Ok <==> device_logical_unit_size_ok(node@),
            r matches Ok(n) ==> n@ == node@,
            r matches Err(e) ==> e == NodeConversionError::InvalidLength,
    {
        let bytes = node.as_bytes();
        if bytes.len() != 5 {
            return Err(NodeConversionError::InvalidLength);
        }
        Ok(DeviceLogicalUnit { bytes: vstd::slice::slice_to_vec(bytes) })
    }
}

impl TryFromSpecImpl<&DevicePathNode> for DeviceLogicalUnit {
    open spec fn obeys_try_from_spec() -> bool {
        false
    }

    closed spec fn try_from_spec(node: &DevicePathNode) -> Result<Self, Self::Error> {
        arbitrary()
    }
}

/// USB class messaging device path node.
#[derive(Debug)]
pub struct UsbClass {
    bytes: Vec<u8>,
}

impl View for UsbClass {
    type V = Seq<u8>;

    closed spec fn view(&self) -> Seq<u8> {
        self.bytes@
    }
}

/// The sizes that a node of this type can have.
pub open spec fn usb_class_size_ok(s: Seq<u8>) -> bool {
    s.len() == 11
}

impl UsbClass {
    #[verifier::type_invariant]
    spec fn well_formed(self) -> bool {
        is_node(self.bytes@) && usb_class_size_ok(self.bytes@)
    }

    /// USB vendor ID.
    pub fn vendor_id(&self) -> (r: u16)
        ensures
            r == le_at(self@, 4, 2),
    {
        proof {
            use_type_invariant(self);
            lemma_pow256_values();
        }
        read_le(self.bytes.as_slice(), 4, 2) as u16
    }

    /// USB product ID.
    pub fn product_id(&self) -> (r: u16)
        ensures
            r == le_at(self@, 6, 2),
    {
        proof {
            use_type_invariant(self);
            lemma_pow256_values();
        }
        read_le(self.bytes.as_slice(), 6, 2) as u16
    }

    /// USB device class.
    pub fn device_class(&self) -> (r: u8)
        ensures
            r == self@[8],
    {
        proof {
            use_type_invariant(self);
        }
        self.bytes[8]
    }

    /// USB device subclass.
    pub fn device_subclass(&self) -> (r: u8)
        ensures
            r == self@[9],
    {
        proof {
            use_type_invariant(self);
        }
        self.bytes[9]
    }

    /// USB device protocol.
    pub fn device_protocol(&self) -> (r: u8)
        ensures
            r == self@[10],
    {
        proof {
            use_type_invariant(self);
        }
        self.bytes[10]
    }
}

impl TryFrom<&DevicePathNode> for UsbClass {
    type Error = NodeConversionError;

    /// Succeeds when the node's size is one that this node type can have.
    fn try_from(node: &DevicePathNode) -> (r: Result<Self, Self::Error>)
        ensures
            r is Ok <==> usb_class_size_ok(node@),
            r matches Ok(n) ==> n@ == node@,
            r matches Err(e) ==> e == NodeConversionError::InvalidLength,
    {
        let bytes = node.as_bytes();
        if bytes.len() != 11 {
            return Err(NodeConversionError::InvalidLength);
        }
        Ok(UsbClass { bytes: vstd::slice::slice_to_vec(bytes) })
    }
}

impl TryFromSpecImpl<&DevicePathNode> for UsbClass {
    open spec fn obeys_try_from_spec() -> bool {
        false
    }

    closed spec fn try_from_spec(node: &DevicePathNode) -> Result<Self, Self::Error> {
        arbitrary()
    }
}

/// I2O messaging device path node.
#[derive(Debug)]
pub struct I2o {
    bytes: Vec<u8>,
}

impl View for I2o {
    type V = Seq<u8>;

    closed spec fn view(&self) -> Seq<u8> {
        self.bytes@
    }
}

/// The sizes that a node of this type can have.
pub open spec fn i2o_size_ok(s: Seq<u8>) -> bool {
    s.len() == 8
}

impl I2o {
    #[verifier::type_invariant]
    spec fn well_formed(self) -> bool {
        is_node(self.bytes@) && i2o_size_ok(self.bytes@)
    }

    /// Target ID (TID).
    pub fn target_id(&self) -> (r: u32)
        ensures
            r == le_at(self@, 4, 4),
    {
        proof {
            use_type_invariant(self);
            lemma_pow256_values();
        }
        read_le(self.bytes.as_slice(), 4, 4) as u32
    }
}

impl TryFrom<&DevicePathNode> for I2o {
    type Error = NodeConversionError;

    /// Succeeds when the node's size is one that this node type can have.
    fn try_from(node: &DevicePathNode) -> (r: Result<Self, Self::Error>)
        ensures
            r is Ok <==> i2o_size_ok(node@),
            r matches Ok(n) ==> n@ == node@,
            r matches Err(e) ==> e == NodeConversionError::InvalidLength,
    {
        let bytes = node.as_bytes();
        if bytes.len() != 8 {
            return Err(NodeConversionError::InvalidLength);
        }
        Ok(I2o { bytes: vstd::slice::slice_to_vec(bytes) })
    }
}

impl TryFromSpecImpl<&DevicePathNode> for I2o {
    open spec fn obeys_try_from_spec() -> bool {
        false
    }

    closed spec fn try_from_spec(node: &DevicePathNode) -> Result<Self, Self::Error> {
        arbitrary()
    }
}

/// MAC address messaging device path node.
#[derive(Debug)]
pub struct MacAddress {
    bytes: Vec<u8>,
}

impl View for MacAddress {
    type V = Seq<u8>;

    closed spec fn view(&self) -> Seq<u8> {
        self.bytes@
    }
}

/// The sizes that a node of this type can have.
pub open spec fn mac_address_size_ok(s: Seq<u8>) -> bool {
    s.len() == 37
}

impl MacAddress {
    #[verifier::type_invariant]
    spec fn well_formed(self) -> bool {
        is_node(self.bytes@) && mac_address_size_ok(self.bytes@)
    }

    /// MAC address for a network interface, padded with zeros.
    pub fn mac_address(&self) -> (r: [u8; 32])
        ensures
            r@ == self@.subrange(4, 36),
    {
        proof {
            use_type_invariant(self);
        }
        read_array::<32>(self.bytes.as_slice(), 4)
    }

    /// Network interface type. See
    /// <https://www.iana.org/assignments/smi-numbers/smi-numbers.xhtml#smi-numbers-5>
    pub fn interface_type(&self) -> (r: u8)
        ensures
            r == self@[36],
    {
        proof {
            use_type_invariant(self);
        }
        self.bytes[36]
    }
}

impl TryFrom<&DevicePathNode> for MacAddress {
    type Error = NodeConversionError;

    /// Succeeds when the node's size is one that this node type can have.
    fn try_from(node: &DevicePathNode) -> (r: Result<Self, Self::Error>)
        ensures
            r is Ok <==> mac_address_size_ok(node@),
            r matches Ok(n) ==> n@ == node@,
            r matches Err(e) ==> e == NodeConversionError::InvalidLength,
    {
        let bytes = node.as_bytes();
        if bytes.len() != 37 {
            return Err(NodeConversionError::InvalidLength);
        }
        Ok(MacAddress { bytes: vstd::slice::slice_to_vec(bytes) })
    }
}

impl TryFromSpecImpl<&DevicePathNode> for MacAddress {
    open spec fn obeys_try_from_spec() -> bool {
        false
    }

    closed spec fn try_from_spec(node: &DevicePathNode) -> Result<Self, Self::Error> {
        arbitrary()
    }
}

/// IPv4 messaging device path node.
#[derive(Debug)]
pub struct Ipv4 {
    bytes: Vec<u8>,
}

impl View for Ipv4 {
    type V = Seq<u8>;

    closed spec fn view(&self) -> Seq<u8> {
        self.bytes@
    }
}

/// The sizes that a node of this type can have.
pub open spec fn ipv4_size_ok(s: Seq<u8>) -> bool {
    s.len() == 27
}

impl Ipv4 {
    #[verifier::type_invariant]
    spec fn well_formed(self) -> bool {
        is_node(self.bytes@) && ipv4_size_ok(self.bytes@)
    }

    /// Local IPv4 address.
    pub fn local_ip_address(&self) -> (r: [u8; 4])
        ensures
            r@ == self@.subrange(4, 8),
    {
        proof {
            use_type_invariant(self);
        }
        read_array::<4>(self.bytes.as_slice(), 4)
    }

    /// Remote IPv4 address.
    pub fn remote_ip_address(&self) -> (r: [u8; 4])
        ensures
            r@ == self@.subrange(8, 12),
    {
        proof {
            use_type_invariant(self);
        }
        read_array::<4>(self.bytes.as_slice(), 8)
    }

    /// Local port number.
    pub fn local_port(&self) -> (r: u16)
        ensures
            r == le_at(self@, 12, 2),
    {
        proof {
            use_type_invariant(self);
            lemma_pow256_values();
        }
        read_le(self.bytes.as_slice(), 12, 2) as u16
    }

    /// Remote port number.
    pub fn remote_port(&self) -> (r: u16)
        ensures
            r == le_at(self@, 14, 2),
    {
        proof {
            use_type_invariant(self);
            lemma_pow256_values();
        }
        read_le(self.bytes.as_slice(), 14, 2) as u16
    }

    /// Network protocol. See
    /// <https://www.iana.org/assignments/protocol-numbers/protocol-numbers.xhtml>
    pub fn protocol(&self) -> (r: u16)
        ensures
            r == le_at(self@, 16, 2),
    {
        proof {
            use_type_invariant(self);
            lemma_pow256_values();
        }
        read_le(self.bytes.as_slice(), 16, 2) as u16
    }

    /// Whether the source IP address is static or assigned via DHCP.
    pub fn ip_address_origin(&self) -> (r: Ipv4AddressOrigin)
        ensures
            r.0 == self@[18],
    {
        proof {
            use_type_invariant(self);
        }
        Ipv4AddressOrigin(self.bytes[18])
    }

    /// Gateway IP address.
    pub fn gateway_ip_address(&self) -> (r: [u8; 4])
        ensures
            r@ == self@.subrange(19, 23),
    {
        proof {
            use_type_invariant(self);
        }
        read_array::<4>(self.bytes.as_slice(), 19)
    }

    /// Subnet mask.
    pub fn subnet_mask(&self) -> (r: [u8; 4])
        ensures
            r@ == self@.subrange(23, 27),
    {
        proof {
            use_type_invariant(self);
        }
        read_array::<4>(self.bytes.as_slice(), 23)
    }
}

impl TryFrom<&DevicePathNode> for Ipv4 {
    type Error = NodeConversionError;

    /// Succeeds when the node's size is one that this node type can have.
    fn try_from(node: &DevicePathNode) -> (r: Result<Self, Self::Error>)
        ensures
            r is Ok <==> ipv4_size_ok(node@),
            r matches Ok(n) ==> n@ == node@,
            r matches Err(e) ==> e == NodeConversionError::InvalidLength,
    {
        let bytes = node.as_bytes();
        if bytes.len() != 27 {
            return Err(NodeConversionError::InvalidLength);
        }
        Ok(Ipv4 { bytes: vstd::slice::slice_to_vec(bytes) })
    }
}

impl TryFromSpecImpl<&DevicePathNode> for Ipv4 {
    open spec fn obeys_try_from_spec() -> bool {
        false
    }

    closed spec fn try_from_spec(node: &DevicePathNode) -> Result<Self, Self::Error> {
        arbitrary()
    }
}

/// IPv6 messaging device path node.
#[derive(Debug)]
pub struct Ipv6 {
    bytes: Vec<u8>,
}

impl View for Ipv6 {
    type V = Seq<u8>;

    closed spec fn view(&self) -> Seq<u8> {
        self.bytes@
    }
}

/// The sizes that a node of this type can have.
pub open spec fn ipv6_size_ok(s: Seq<u8>) -> bool {
    s.len() == 60
}

impl Ipv6 {
    #[verifier::type_invariant]
    spec fn well_formed(self) -> bool {
        is_node(self.bytes@) && ipv6_size_ok(self.bytes@)
    }

    /// Local Ipv6 address.
    pub fn local_ip_address(&self) -> (r: [u8; 16])
        ensures
            r@ == self@.subrange(4, 20),
    {
        proof {
            use_type_invariant(self);
        }
        read_array::<16>(self.bytes.as_slice(), 4)
    }

    /// Remote Ipv6 address.
    pub fn remote_ip_address(&self) -> (r: [u8; 16])
        ensures
            r@ == self@.subrange(20, 36),
    {
        proof {
            use_type_invariant(self);
        }
        read_array::<16>(self.bytes.as_slice(), 20)
    }

    /// Local port number.
    pub fn local_port(&self) -> (r: u16)
        ensures
            r == le_at(self@, 36, 2),
    {
        proof {
            use_type_invariant(self);
            lemma_pow256_values();
        }
        read_le(self.bytes.as_slice(), 36, 2) as u16
    }

    /// Remote port number.
    pub fn remote_port(&self) -> (r: u16)
        ensures
            r == le_at(self@, 38, 2),
    {
        proof {
            use_type_invariant(self);
            lemma_pow256_values();
        }
        read_le(self.bytes.as_slice(), 38, 2) as u16
    }

    /// Network protocol. See
    /// <https://www.iana.org/assignments/protocol-numbers/protocol-numbers.xhtml>
    pub fn protocol(&self) -> (r: u16)
        ensures
            r == le_at(self@, 40, 2),
    {
        proof {
            use_type_invariant(self);
            lemma_pow256_values();
        }
        read_le(self.bytes.as_slice(), 40, 2) as u16
    }

    /// Origin of the local IP address.
    pub fn ip_address_origin(&self) -> (r: Ipv6AddressOrigin)
        ensures
            r.0 == self@[42],
    {
        proof {
            use_type_invariant(self);
        }
        Ipv6AddressOrigin(self.bytes[42])
    }

    /// Prefix length.
    pub fn prefix_length(&self) -> (r: u8)
        ensures
            r == self@[43],
    {
        proof {
            use_type_invariant(self);
        }
        self.bytes[43]
    }

    /// Gateway IP address.
    pub fn gateway_ip_address(&self) -> (r: [u8; 16])
        ensures
            r@ == self@.subrange(44, 60),
    {
        proof {
            use_type_invariant(self);
        }
        read_array::<16>(self.bytes.as_slice(), 44)
    }
}

impl TryFrom<&DevicePathNode> for Ipv6 {
    type Error = NodeConversionError;

    /// Succeeds when the node's size is one that this node type can have.
    fn try_from(node: &DevicePathNode) -> (r: Result<Self, Self::Error>)
        ensures
            r is Ok <==> ipv6_size_ok(node@),
            r matches Ok(n) ==> n@ == node@,
            r matches Err(e) ==> e == NodeConversionError::InvalidLength,
    {
        let bytes = node.as_bytes();
        if bytes.len() != 60 {
            return Err(NodeConversionError::InvalidLength);
        }
        Ok(Ipv6 { bytes: vstd::slice::slice_to_vec(bytes) })
    }
}

impl TryFromSpecImpl<&DevicePathNode> for Ipv6 {
    open spec fn obeys_try_from_spec() -> bool {
        false
    }

    closed spec fn try_from_spec(node: &DevicePathNode) -> Result<Self, Self::Error> {
        arbitrary()
    }
}

/// VLAN messaging device path node.
#[derive(Debug)]
pub struct Vlan {
    bytes: Vec<u8>,
}

impl View for Vlan {
    type V = Seq<u8>;

    closed spec fn view(&self) -> Seq<u8> {
        self.bytes@
    }
}

/// The sizes that a node of this type can have.
pub open spec fn vlan_size_ok(s: Seq<u8>) -> bool {
    s.len() == 6
}

impl Vlan {
    #[verifier::type_invariant]
    spec fn well_formed(self) -> bool {
        is_node(self.bytes@) && vlan_size_ok(self.bytes@)
    }

    /// VLAN identifier (0-4094).
    pub fn vlan_id(&self) -> (r: u16)
        ensures
            r == le_at(self@, 4, 2),
    {
        proof {
            use_type_invariant(self);
            lemma_pow256_values();
        }
        read_le(self.bytes.as_slice(), 4, 2) as u16
    }
}

impl TryFrom<&DevicePathNode> for Vlan {
    type Error = NodeConversionError;

    /// Succeeds when the node's size is one that this node type can have.
    fn try_from(node: &DevicePathNode) -> (r: Result<Self, Self::Error>)
        ensures
            r is Ok <==> vlan_size_ok(node@),
            r matches Ok(n) ==> n@ == node@,
            r matches Err(e) ==> e == NodeConversionError::InvalidLength,
    {
        let bytes = node.as_bytes();
        if bytes.len() != 6 {
            return Err(NodeConversionError::InvalidLength);
        }
        Ok(Vlan { bytes: vstd::slice::slice_to_vec(bytes) })
    }
}

impl TryFromSpecImpl<&DevicePathNode> for Vlan {
    open spec fn obeys_try_from_spec() -> bool {
        false
    }

    closed spec fn try_from_spec(node: &DevicePathNode) -> Result<Self, Self::Error> {
        arbitrary()
    }
}

/// InfiniBand messaging device path node.
#[derive(Debug)]
pub struct Infiniband {
    bytes: Vec<u8>,
}

impl View for Infiniband {
    type V = Seq<u8>;

    closed spec fn view(&self) -> Seq<u8> {
        self.bytes@
    }
}

/// The sizes that a node of this type can have.
pub open spec fn infiniband_size_ok(s: Seq<u8>) -> bool {
    s.len() == 48
}

impl Infiniband {
    #[verifier::type_invariant]
    spec fn well_formed(self) -> bool {
        is_node(self.bytes@) && infiniband_size_ok(self.bytes@)
    }

    /// Flags to identify/manage InfiniBand elements.
    pub fn resource_flags(&self) -> (r: InfinibandResourceFlags)
        ensures
            r@ == le_at(self@, 4, 4),
    {
        proof {
            use_type_invariant(self);
            lemma_pow256_values();
        }
        InfinibandResourceFlags { bits: read_le(self.bytes.as_slice(), 4, 4) as u32 }
    }

    /// 128-bit Global Identifier for remote fabric port. Note that
    /// this is not the same as a UEFI GUID.
    pub fn port_gid(&self) -> (r: [u8; 16])
        ensures
            r@ == self@.subrange(8, 24),
    {
        proof {
            use_type_invariant(self);
        }
        read_array::<16>(self.bytes.as_slice(), 8)
    }

    /// IOC GUID if bit 0 of `resource_flags` is unset, or Service
    /// ID if bit 0 of `resource_flags` is set.
    pub fn ioc_guid_or_service_id(&self) -> (r: u64)
        ensures
            r == le_at(self@, 24, 8),
    {
        proof {
            use_type_invariant(self);
            lemma_pow256_values();
        }
        read_le(self.bytes.as_slice(), 24, 8)
    }

    /// 64-bit persistent ID of remote IOC port.
    pub fn target_port_id(&self) -> (r: u64)
        ensures
            r == le_at(self@, 32, 8),
    {
        proof {
            use_type_invariant(self);
            lemma_pow256_values();
        }
        read_le(self.bytes.as_slice(), 32, 8)
    }

    /// 64-bit persistent ID of remote device..
    pub fn device_id(&self) -> (r: u64)
        ensures
            r == le_at(self@, 40, 8),
    {
        proof {
            use_type_invariant(self);
            lemma_pow256_values();
        }
        read_le(self.bytes.as_slice(), 40, 8)
    }
}

impl TryFrom<&DevicePathNode> for Infiniband {
    type Error = NodeConversionError;

    /// Succeeds when the node's size is one that this node type can have.
    fn try_from(node: &DevicePathNode) -> (r: Result<Self, Self::Error>)
        ensures
            r is Ok <==> infiniband_size_ok(node@),
            r matches Ok(n) ==> n@ == node@,
            r matches Err(e) ==> e == NodeConversionError::InvalidLength,
    {
        let bytes = node.as_bytes();
        if bytes.len() != 48 {
            return Err(NodeConversionError::InvalidLength);
        }
        Ok(Infiniband { bytes: vstd::slice::slice_to_vec(bytes) })
    }
}

impl TryFromSpecImpl<&DevicePathNode> for Infiniband {
    open spec fn obeys_try_from_spec() -> bool {
        false
    }

    closed spec fn try_from_spec(node: &DevicePathNode) -> Result<Self, Self::Error> {
        arbitrary()
    }
}

/// UART messaging device path node.
#[derive(Debug)]
pub struct Uart {
    bytes: Vec<u8>,
}

impl View for Uart {
    type V = Seq<u8>;

    closed spec fn view(&self) -> Seq<u8> {
        self.bytes@
    }
}

/// The sizes that a node of this type can have.
pub open spec fn uart_size_ok(s: Seq<u8>) -> bool {
    s.len() == 19
}

impl Uart {
    #[verifier::type_invariant]
    spec fn well_formed(self) -> bool {
        is_node(self.bytes@) && uart_size_ok(self.bytes@)
    }

    /// Baud rate setting, or 0 to use the device's default.
    pub fn baud_rate(&self) -> (r: u64)
        ensures
            r == le_at(self@, 8, 8),
    {
        proof {
            use_type_invariant(self);
            lemma_pow256_values();
        }
        read_le(self.bytes.as_slice(), 8, 8)
    }

    /// Number of data bits, or 0 to use the device's default.
    pub fn data_bits(&self) -> (r: u8)
        ensures
            r == self@[16],
    {
        proof {
            use_type_invariant(self);
        }
        self.bytes[16]
    }

    /// Parity setting.
    pub fn parity(&self) -> (r: Parity)
        ensures
            r.0 == self@[17],
    {
        proof {
            use_type_invariant(self);
        }
        Parity(self.bytes[17])
    }

    /// Number of stop bits.
    pub fn stop_bits(&self) -> (r: StopBits)
        ensures
            r.0 == self@[18],
    {
        proof {
            use_type_invariant(self);
        }
        StopBits(self.bytes[18])
    }
}

impl TryFrom<&DevicePathNode> for Uart {
    type Error = NodeConversionError;

    /// Succeeds when the node's size is one that this node type can have.
    fn try_from(node: &DevicePathNode) -> (r: Result<Self, Self::Error>)
        ensures
            r is Ok <==> uart_size_ok(node@),
            r matches Ok(n) ==> n@ == node@,
            r matches Err(e) ==> e == NodeConversionError::InvalidLength,
    {
        let bytes = node.as_bytes();
        if bytes.len() != 19 {
            return Err(NodeConversionError::InvalidLength);
        }
        Ok(Uart { bytes: vstd::slice::slice_to_vec(bytes) })
    }
}

impl TryFromSpecImpl<&DevicePathNode> for Uart {
    open spec fn obeys_try_from_spec() -> bool {
        false
    }

    closed spec fn try_from_spec(node: &DevicePathNode) -> Result<Self, Self::Error> {
        arbitrary()
    }
}

/// Vendor-defined messaging device path node.
#[derive(Debug)]
pub struct Vendor {
    bytes: Vec<u8>,
}

impl View for Vendor {
    type V = Seq<u8>;

    closed spec fn view(&self) -> Seq<u8> {
        self.bytes@
    }
}

/// The sizes that a node of this type can have.
pub open spec fn vendor_size_ok(s: Seq<u8>) -> bool {
    20 <= s.len()
}

impl Vendor {
    #[verifier::type_invariant]
    spec fn well_formed(self) -> bool {
        is_node(self.bytes@) && vendor_size_ok(self.bytes@)
    }

    /// Vendor-assigned GUID that defines the data that follows.
    pub fn vendor_guid(&self) -> (r: Guid)
        ensures
            r@ == self@.subrange(4, 20),
    {
        proof {
            use_type_invariant(self);
        }
        Guid::from_bytes(read_array::<16>(self.bytes.as_slice(), 4))
    }

    /// Vendor-defined data.
    pub fn vendor_defined_data(&self) -> (r: &[u8])
        ensures
            r@ == self@.subrange(20, self@.len() as int),
    {
        proof {
            use_type_invariant(self);
        }
        vstd::slice::slice_subrange(self.bytes.as_slice(), 20, self.bytes.len())
    }
}

impl TryFrom<&DevicePathNode> for Vendor {
    type Error = NodeConversionError;

    /// Succeeds when the node's size is one that this node type can have.
    fn try_from(node: &DevicePathNode) -> (r: Result<Self, Self::Error>)
        ensures
            r is Ok <==> vendor_size_ok(node@),
            r matches Ok(n) ==> n@ == node@,
            r matches Err(e) ==> e == NodeConversionError::InvalidLength,
    {
        let bytes = node.as_bytes();
        let len = bytes.len();
        if len < 20 {
            return Err(NodeConversionError::InvalidLength);
        }
        Ok(Vendor { bytes: vstd::slice::slice_to_vec(bytes) })
    }
}

impl TryFromSpecImpl<&DevicePathNode> for Vendor {
    open spec fn obeys_try_from_spec() -> bool {
        false
    }

    closed spec fn try_from_spec(node: &DevicePathNode) -> Result<Self, Self::Error> {
        arbitrary()
    }
}

/// Serial Attached SCSI (SAS) extended messaging device path node.
#[derive(Debug)]
pub struct SasEx {
    bytes: Vec<u8>,
}

impl View for SasEx {
    type V = Seq<u8>;

    closed spec fn view(&self) -> Seq<u8> {
        self.bytes@
    }
}

/// The sizes that a node of this type can have.
pub open spec fn sas_ex_size_ok(s: Seq<u8>) -> bool {
    s.len() == 24
}

impl SasEx {
    #[verifier::type_invariant]
    spec fn well_formed(self) -> bool {
        is_node(self.bytes@) && sas_ex_size_ok(self.bytes@)
    }

    /// SAS address.
    pub fn sas_address(&self) -> (r: [u8; 8])
        ensures
            r@ == self@.subrange(4, 12),
    {
        proof {
            use_type_invariant(self);
        }
        read_array::<8>(self.bytes.as_slice(), 4)
    }

    /// Logical Unit Number.
    pub fn logical_unit_number(&self) -> (r: [u8; 8])
        ensures
            r@ == self@.subrange(12, 20),
    {
        proof {
            use_type_invariant(self);
        }
        read_array::<8>(self.bytes.as_slice(), 12)
    }

    /// Information about the device and its interconnect.
    pub fn info(&self) -> (r: u16)
        ensures
            r == le_at(self@, 20, 2),
    {
        proof {
            use_type_invariant(self);
            lemma_pow256_values();
        }
        read_le(self.bytes.as_slice(), 20, 2) as u16
    }

    /// Relative Target Port (RTP).
    pub fn relative_target_port(&self) -> (r: u16)
        ensures
            r == le_at(self@, 22, 2),
    {
        proof {
            use_type_invariant(self);
            lemma_pow256_values();
        }
        read_le(self.bytes.as_slice(), 22, 2) as u16
    }
}

impl TryFrom<&DevicePathNode> for SasEx {
    type Error = NodeConversionError;

    /// Succeeds when the node's size is one that this node type can have.
    fn try_from(node: &DevicePathNode) -> (r: Result<Self, Self::Error>)
        ensures
            r is Ok <==> sas_ex_size_ok(node@),
            r matches Ok(n) ==> n@ == node@,
            r matches Err(e) ==> e == NodeConversionError::InvalidLength,
    {
        let bytes = node.as_bytes();
        if bytes.len() != 24 {
            return Err(NodeConversionError::InvalidLength);
        }
        Ok(SasEx { bytes: vstd::slice::slice_to_vec(bytes) })
    }
}

impl TryFromSpecImpl<&DevicePathNode> for SasEx {
    open spec fn obeys_try_from_spec() -> bool {
        false
    }

    closed spec fn try_from_spec(node: &DevicePathNode) -> Result<Self, Self::Error> {
        arbitrary()
    }
}

/// iSCSI messaging device path node.
#[derive(Debug)]
pub struct Iscsi {
    bytes: Vec<u8>,
}

impl View for Iscsi {
    type V = Seq<u8>;

    closed spec fn view(&self) -> Seq<u8> {
        self.bytes@
    }
}

/// The sizes that a node of this type can have.
pub open spec fn iscsi_size_ok(s: Seq<u8>) -> bool {
    18 <= s.len()
}

impl Iscsi {
    #[verifier::type_invariant]
    spec fn well_formed(self) -> bool {
        is_node(self.bytes@) && iscsi_size_ok(self.bytes@)
    }

    /// Network protocol.
    pub fn protocol(&self) -> (r: IscsiProtocol)
        ensures
            r.0 == le_at(self@, 4, 2),
    {
        proof {
            use_type_invariant(self);
            lemma_pow256_values();
        }
        IscsiProtocol(read_le(self.bytes.as_slice(), 4, 2) as u16)
    }

    /// iSCSI login options (bitfield).
    pub fn options(&self) -> (r: IscsiLoginOptions)
        ensures
            r@ == le_at(self@, 6, 2),
    {
        proof {
            use_type_invariant(self);
            lemma_pow256_values();
        }
        IscsiLoginOptions { bits: read_le(self.bytes.as_slice(), 6, 2) as u16 }
    }

    /// iSCSI Logical Unit Number.
    pub fn logical_unit_number(&self) -> (r: [u8; 8])
        ensures
            r@ == self@.subrange(8, 16),
    {
        proof {
            use_type_invariant(self);
        }
        read_array::<8>(self.bytes.as_slice(), 8)
    }

    /// iSCSI Target Portal group tag the initiator intends to
    /// establish a session with.
    pub fn target_portal_group_tag(&self) -> (r: u16)
        ensures
            r == le_at(self@, 16, 2),
    {
        proof {
            use_type_invariant(self);
            lemma_pow256_values();
        }
        read_le(self.bytes.as_slice(), 16, 2) as u16
    }

    /// iSCSI Node Target name.
    ///
    /// The UEFI Specification does not specify how the string is
    /// encoded, but gives one example that appears to be
    /// null-terminated ASCII.
    pub fn iscsi_target_name(&self) -> (r: &[u8])
        ensures
            r@ == self@.subrange(18, self@.len() as int),
    {
        proof {
            use_type_invariant(self);
        }
        vstd::slice::slice_subrange(self.bytes.as_slice(), 18, self.bytes.len())
    }
}

impl TryFrom<&DevicePathNode> for Iscsi {
    type Error = NodeConversionError;

    /// Succeeds when the node's size is one that this node type can have.
    fn try_from(node: &DevicePathNode) -> (r: Result<Self, Self::Error>)
        ensures
            r is Ok <==> iscsi_size_ok(node@),
            r matches Ok(n) ==> n@ == node@,
            r matches Err(e) ==> e == NodeConversionError::InvalidLength,
    {
        let bytes = node.as_bytes();
        let len = bytes.len();
        if len < 18 {
            return Err(NodeConversionError::InvalidLength);
        }
        Ok(Iscsi { bytes: vstd::slice::slice_to_vec(bytes) })
    }
}

impl TryFromSpecImpl<&DevicePathNode> for Iscsi {
    open spec fn obeys_try_from_spec() -> bool {
        false
    }

    closed spec fn try_from_spec(node: &DevicePathNode) -> Result<Self, Self::Error> {
        arbitrary()
    }
}

/// NVM Express namespace messaging device path node.
#[derive(Debug)]
pub struct NvmeNamespace {
    bytes: Vec<u8>,
}

impl View for NvmeNamespace {
    type V = Seq<u8>;

    closed spec fn view(&self) -> Seq<u8> {
        self.bytes@
    }
}

/// The sizes that a node of this type can have.
pub open spec fn nvme_namespace_size_ok(s: Seq<u8>) -> bool {
    s.len() == 16
}

impl NvmeNamespace {
    #[verifier::type_invariant]
    spec fn well_formed(self) -> bool {
        is_node(self.bytes@) && nvme_namespace_size_ok(self.bytes@)
    }

    /// Namespace identifier (NSID). The values 0 and 0xffff_ffff
    /// are invalid.
    pub fn namespace_identifier(&self) -> (r: u32)
        ensures
            r == le_at(self@, 4, 4),
    {
        proof {
            use_type_invariant(self);
            lemma_pow256_values();
        }
        read_le(self.bytes.as_slice(), 4, 4) as u32
    }

    /// IEEE Extended Unique Identifier (EUI-64), or 0 if the device
    /// does not have a EUI-64.
    pub fn ieee_extended_unique_identifier(&self) -> (r: u64)
        ensures
            r == le_at(self@, 8, 8),
    {
        proof {
            use_type_invariant(self);
            lemma_pow256_values();
        }
        read_le(self.bytes.as_slice(), 8, 8)
    }
}

impl TryFrom<&DevicePathNode> for NvmeNamespace {
    type Error = NodeConversionError;

    /// Succeeds when the node's size is one that this node type can have.
    fn try_from(node: &DevicePathNode) -> (r: Result<Self, Self::Error>)
        ensures
            r is Ok <==> nvme_namespace_size_ok(node@),
            r matches Ok(n) ==> n@ == node@,
            r matches Err(e) ==> e == NodeConversionError::InvalidLength,
    {
        let bytes = node.as_bytes();
        if bytes.len() != 16 {
            return Err(NodeConversionError::InvalidLength);
        }
        Ok(NvmeNamespace { bytes: vstd::slice::slice_to_vec(bytes) })
    }
}

impl TryFromSpecImpl<&DevicePathNode> for NvmeNamespace {
    open spec fn obeys_try_from_spec() -> bool {
        false
    }

    closed spec fn try_from_spec(node: &DevicePathNode) -> Result<Self, Self::Error> {
        arbitrary()
    }
}

/// Uniform Resource Identifier (URI) messaging device path node.
#[derive(Debug)]
pub struct Uri {
    bytes: Vec<u8>,
}

impl View for Uri {
    type V = Seq<u8>;

    closed spec fn view(&self) -> Seq<u8> {
        self.bytes@
    }
}

/// The sizes that a node of this type can have.
pub open spec fn uri_size_ok(s: Seq<u8>) -> bool {
    4 <= s.len()
}

impl Uri {
    #[verifier::type_invariant]
    spec fn well_formed(self) -> bool {
        is_node(self.bytes@) && uri_size_ok(self.bytes@)
    }

    /// URI as defined by [RFC 3986](https://www.rfc-editor.org/rfc/rfc3986).
    pub fn value(&self) -> (r: &[u8])
        ensures
            r@ == self@.subrange(4, self@.len() as int),
    {
        proof {
            use_type_invariant(self);
        }
        vstd::slice::slice_subrange(self.bytes.as_slice(), 4, self.bytes.len())
    }
}

impl TryFrom<&DevicePathNode> for Uri {
    type Error = NodeConversionError;

    /// Succeeds when the node's size is one that this node type can have.
    fn try_from(node: &DevicePathNode) -> (r: Result<Self, Self::Error>)
        ensures
            r is Ok <==> uri_size_ok(node@),
            r matches Ok(n) ==> n@ == node@,
            r matches Err(e) ==> e == NodeConversionError::InvalidLength,
    {
        let bytes = node.as_bytes();
        let len = bytes.len();
        if len < 4 {
            return Err(NodeConversionError::InvalidLength);
        }
        Ok(Uri { bytes: vstd::slice::slice_to_vec(bytes) })
    }
}

impl TryFromSpecImpl<&DevicePathNode> for Uri {
    open spec fn obeys_try_from_spec() -> bool {
        false
    }

    closed spec fn try_from_spec(node: &DevicePathNode) -> Result<Self, Self::Error> {
        arbitrary()
    }
}

/// Universal Flash Storage (UFS) messaging device path node.
#[derive(Debug)]
pub struct Ufs {
    bytes: Vec<u8>,
}

impl View for Ufs {
    type V = Seq<u8>;

    closed spec fn view(&self) -> Seq<u8> {
        self.bytes@
    }
}

/// The sizes that a node of this type can have.
pub open spec fn ufs_size_ok(s: Seq<u8>) -> bool {
    s.len() == 6
}

impl Ufs {
    #[verifier::type_invariant]
    spec fn well_formed(self) -> bool {
        is_node(self.bytes@) && ufs_size_ok(self.bytes@)
    }

    /// Target ID on the UFS interface (PUN).
    pub fn target_id(&self) -> (r: u8)
        ensures
            r == self@[4],
    {
        proof {
            use_type_invariant(self);
        }
        self.bytes[4]
    }

    /// Logical Unit Number (LUN).
    pub fn logical_unit_number(&self) -> (r: u8)
        ensures
            r == self@[5],
    {
        proof {
            use_type_invariant(self);
        }
        self.bytes[5]
    }
}

impl TryFrom<&DevicePathNode> for Ufs {
    type Error = NodeConversionError;

    /// Succeeds when the node's size is one that this node type can have.
    fn try_from(node: &DevicePathNode) -> (r: Result<Self, Self::Error>)
        ensures
            r is Ok <==> ufs_size_ok(node@),
            r matches Ok(n) ==> n@ == node@,
            r matches Err(e) ==> e == NodeConversionError::InvalidLength,
    {
        let bytes = node.as_bytes();
        if bytes.len() != 6 {
            return Err(NodeConversionError::InvalidLength);
        }
        Ok(Ufs { bytes: vstd::slice::slice_to_vec(bytes) })
    }
}

impl TryFromSpecImpl<&DevicePathNode> for Ufs {
    open spec fn obeys_try_from_spec() -> bool {
        false
    }

    closed spec fn try_from_spec(node: &DevicePathNode) -> Result<Self, Self::Error> {
        arbitrary()
    }
}

/// Secure Digital (SD) messaging device path node.
#[derive(Debug)]
pub struct Sd {
    bytes: Vec<u8>,
}

impl View for Sd {
    type V = Seq<u8>;

    closed spec fn view(&self) -> Seq<u8> {
        self.bytes@
    }
}

/// The sizes that a node of this type can have.
pub open spec fn sd_size_ok(s: Seq<u8>) -> bool {
    s.len() == 5
}

impl Sd {
    #[verifier::type_invariant]
    spec fn well_formed(self) -> bool {
        is_node(self.bytes@) && sd_size_ok(self.bytes@)
    }

    /// Slot number.
    pub fn slot_number(&self) -> (r: u8)
        ensures
            r == self@[4],
    {
        proof {
            use_type_invariant(self);
        }
        self.bytes[4]
    }
}

impl TryFrom<&DevicePathNode> for Sd {
    type Error = NodeConversionError;

    /// Succeeds when the node's size is one that this node type can have.
    fn try_from(node: &DevicePathNode) -> (r: Result<Self, Self::Error>)
        ensures
            r is Ok <==> sd_size_ok(node@),
            r matches Ok(n) ==> n@ == node@,
            r matches Err(e) ==> e == NodeConversionError::InvalidLength,
    {
        let bytes = node.as_bytes();
        if bytes.len() != 5 {
            return Err(NodeConversionError::InvalidLength);
        }
        Ok(Sd { bytes: vstd::slice::slice_to_vec(bytes) })
    }
}

impl TryFromSpecImpl<&DevicePathNode> for Sd {
    open spec fn obeys_try_from_spec() -> bool {
        false
    }

    closed spec fn try_from_spec(node: &DevicePathNode) -> Result<Self, Self::Error> {
        arbitrary()
    }
}

/// Bluetooth messaging device path node.
#[derive(Debug)]
pub struct Bluetooth {
    bytes: Vec<u8>,
}

impl View for Bluetooth {
    type V = Seq<u8>;

    closed spec fn view(&self) -> Seq<u8> {
        self.bytes@
    }
}

/// The sizes that a node of this type can have.
pub open spec fn bluetooth_size_ok(s: Seq<u8>) -> bool {
    s.len() == 10
}

impl Bluetooth {
    #[verifier::type_invariant]
    spec fn well_formed(self) -> bool {
        is_node(self.bytes@) && bluetooth_size_ok(self.bytes@)
    }

    /// 48-bit bluetooth device address.
    pub fn device_address(&self) -> (r: [u8; 6])
        ensures
            r@ == self@.subrange(4, 10),
    {
        proof {
            use_type_invariant(self);
        }
        read_array::<6>(self.bytes.as_slice(), 4)
    }
}

impl TryFrom<&DevicePathNode> for Bluetooth {
    type Error = NodeConversionError;

    /// Succeeds when the node's size is one that this node type can have.
    fn try_from(node: &DevicePathNode) -> (r: Result<Self, Self::Error>)
        ensures
            r is Ok <==> bluetooth_size_ok(node@),
            r matches Ok(n) ==> n@ == node@,
            r matches Err(e) ==> e == NodeConversionError::InvalidLength,
    {
        let bytes = node.as_bytes();
        if bytes.len() != 10 {
            return Err(NodeConversionError::InvalidLength);
        }
        Ok(Bluetooth { bytes: vstd::slice::slice_to_vec(bytes) })
    }
}

impl TryFromSpecImpl<&DevicePathNode> for Bluetooth {
    open spec fn obeys_try_from_spec() -> bool {
        false
    }

    closed spec fn try_from_spec(node: &DevicePathNode) -> Result<Self, Self::Error> {
        arbitrary()
    }
}

/// Wi-Fi messaging device path node.
#[derive(Debug)]
pub struct Wifi {
    bytes: Vec<u8>,
}

impl View for Wifi {
    type V = Seq<u8>;

    closed spec fn view(&self) -> Seq<u8> {
        self.bytes@
    }
}

/// The sizes that a node of this type can have.
pub open spec fn wifi_size_ok(s: Seq<u8>) -> bool {
    s.len() == 36
}

impl Wifi {
    #[verifier::type_invariant]
    spec fn well_formed(self) -> bool {
        is_node(self.bytes@) && wifi_size_ok(self.bytes@)
    }

    /// Service set identifier (SSID).
    pub fn ssid(&self) -> (r: [u8; 32])
        ensures
            r@ == self@.subrange(4, 36),
    {
        proof {
            use_type_invariant(self);
        }
        read_array::<32>(self.bytes.as_slice(), 4)
    }
}

impl TryFrom<&DevicePathNode> for Wifi {
    type Error = NodeConversionError;

    /// Succeeds when the node's size is one that this node type can have.
    fn try_from(node: &DevicePathNode) -> (r: Result<Self, Self::Error>)
        ensures
            r is Ok <==> wifi_size_ok(node@),
            r matches Ok(n) ==> n@ == node@,
            r matches Err(e) ==> e == NodeConversionError::InvalidLength,
    {
        let bytes = node.as_bytes();
        if bytes.len() != 36 {
            return Err(NodeConversionError::InvalidLength);
        }
        Ok(Wifi { bytes: vstd::slice::slice_to_vec(bytes) })
    }
}

impl TryFromSpecImpl<&DevicePathNode> for Wifi {
    open spec fn obeys_try_from_spec() -> bool {
        false
    }

    closed spec fn try_from_spec(node: &DevicePathNode) -> Result<Self, Self::Error> {
        arbitrary()
    }
}

/// Embedded Multi-Media Card (eMMC) messaging device path node.
#[derive(Debug)]
pub struct Emmc {
    bytes: Vec<u8>,
}

impl View for Emmc {
    type V = Seq<u8>;

    closed spec fn view(&self) -> Seq<u8> {
        self.bytes@
    }
}

/// The sizes that a node of this type can have.
pub open spec fn emmc_size_ok(s: Seq<u8>) -> bool {
    s.len() == 5
}

impl Emmc {
    #[verifier::type_invariant]
    spec fn well_formed(self) -> bool {
        is_node(self.bytes@) && emmc_size_ok(self.bytes@)
    }

    /// Slot number.
    pub fn slot_number(&self) -> (r: u8)
        ensures
            r == self@[4],
    {
        proof {
            use_type_invariant(self);
        }
        self.bytes[4]
    }
}

impl TryFrom<&DevicePathNode> for Emmc {
    type Error = NodeConversionError;

    /// Succeeds when the node's size is one that this node type can have.
    fn try_from(node: &DevicePathNode) -> (r: Result<Self, Self::Error>)
        ensures
            r is Ok <==> emmc_size_ok(node@),
            r matches Ok(n) ==> n@ == node@,
            r matches Err(e) ==> e == NodeConversionError::InvalidLength,
    {
        let bytes = node.as_bytes();
        if bytes.len() != 5 {
            return Err(NodeConversionError::InvalidLength);
        }
        Ok(Emmc { bytes: vstd::slice::slice_to_vec(bytes) })
    }
}

impl TryFromSpecImpl<&DevicePathNode> for Emmc {
    open spec fn obeys_try_from_spec() -> bool {
        false
    }

    closed spec fn try_from_spec(node: &DevicePathNode) -> Result<Self, Self::Error> {
        arbitrary()
    }
}

/// BluetoothLE messaging device path node.
#[derive(Debug)]
pub struct BluetoothLe {
    bytes: Vec<u8>,
}

impl View for BluetoothLe {
    type V = Seq<u8>;

    closed spec fn view(&self) -> Seq<u8> {
        self.bytes@
    }
}

/// The sizes that a node of this type can have.
pub open spec fn bluetooth_le_size_ok(s: Seq<u8>) -> bool {
    s.len() == 11
}

impl BluetoothLe {
    #[verifier::type_invariant]
    spec fn well_formed(self) -> bool {
        is_node(self.bytes@) && bluetooth_le_size_ok(self.bytes@)
    }

    /// 48-bit bluetooth device address.
    pub fn device_address(&self) -> (r: [u8; 6])
        ensures
            r@ == self@.subrange(4, 10),
    {
        proof {
            use_type_invariant(self);
        }
        read_array::<6>(self.bytes.as_slice(), 4)
    }

    /// Address type.
    pub fn address_type(&self) -> (r: BluetoothLeAddressType)
        ensures
            r.0 == self@[10],
    {
        proof {
            use_type_invariant(self);
        }
        BluetoothLeAddressType(self.bytes[10])
    }
}

impl TryFrom<&DevicePathNode> for BluetoothLe {
    type Error = NodeConversionError;

    /// Succeeds when the node's size is one that this node type can have.
    fn try_from(node: &DevicePathNode) -> (r: Result<Self, Self::Error>)
        ensures
            r is Ok <==> bluetooth_le_size_ok(node@),
            r matches Ok(n) ==> n@ == node@,
            r matches Err(e) ==> e == NodeConversionError::InvalidLength,
    {
        let bytes = node.as_bytes();
        if bytes.len() != 11 {
            return Err(NodeConversionError::InvalidLength);
        }
        Ok(BluetoothLe { bytes: vstd::slice::slice_to_vec(bytes) })
    }
}

impl TryFromSpecImpl<&DevicePathNode> for BluetoothLe {
    open spec fn obeys_try_from_spec() -> bool {
        false
    }

    closed spec fn try_from_spec(node: &DevicePathNode) -> Result<Self, Self::Error> {
        arbitrary()
    }
}

/// DNS messaging device path node.
#[derive(Debug)]
pub struct Dns {
    bytes: Vec<u8>,
}

impl View for Dns {
    type V = Seq<u8>;

    closed spec fn view(&self) -> Seq<u8> {
        self.bytes@
    }
}

/// The sizes that a node of this type can have.
pub open spec fn dns_size_ok(s: Seq<u8>) -> bool {
    5 <= s.len() && (s.len() - 5) % 16 == 0
}

impl Dns {
    #[verifier::type_invariant]
    spec fn well_formed(self) -> bool {
        is_node(self.bytes@) && dns_size_ok(self.bytes@)
    }

    /// Whether the addresses are IPv4 or IPv6.
    pub fn address_type(&self) -> (r: DnsAddressType)
        ensures
            r.0 == self@[4],
    {
        proof {
            use_type_invariant(self);
        }
        DnsAddressType(self.bytes[4])
    }

    /// One or more instances of the DNS server address.
    pub fn addresses(&self) -> (r: UnalignedSlice<IpAddress>)
        ensures
            r@.len() == (self@.len() - 5) / 16,
            forall|i: int| 0 <= i < r@.len() ==> (#[trigger] r@[i]).0@ == self@.subrange(5 + 16 * i, 5 + 16 * i + 16),
    {
        proof {
            use_type_invariant(self);
        }
        let count = (self.bytes.len() - 5) / 16;
        let mut v: Vec<IpAddress> = Vec::new();
        let mut i: usize = 0;
        while i < count
            invariant
                count == (self@.len() - 5) / 16,
                5 + 16 * count <= self.bytes.len(),
                self@ == self.bytes@,
                i <= count,
                v@.len() == i,
                forall|j: int| 0 <= j < i ==> (#[trigger] v@[j]).0@ == self@.subrange(5 + 16 * j, 5 + 16 * j + 16),
            decreases count - i,
        {
            let a = read_array::<16>(self.bytes.as_slice(), 5 + 16 * i);
            v.push(IpAddress(a));
            i = i + 1;
        }
        UnalignedSlice::from_elements(v)
    }
}

impl TryFrom<&DevicePathNode> for Dns {
    type Error = NodeConversionError;

    /// Succeeds when the node's size is one that this node type can have.
    fn try_from(node: &DevicePathNode) -> (r: Result<Self, Self::Error>)
        ensures
            r is Ok <==> dns_size_ok(node@),
            r matches Ok(n) ==> n@ == node@,
            r matches Err(e) ==> e == NodeConversionError::InvalidLength,
    {
        let bytes = node.as_bytes();
        let len = bytes.len();
        if len < 5 {
            return Err(NodeConversionError::InvalidLength);
        }
        if (len - 5) % 16 != 0 {
            return Err(NodeConversionError::InvalidLength);
        }
        Ok(Dns { bytes: vstd::slice::slice_to_vec(bytes) })
    }
}

impl TryFromSpecImpl<&DevicePathNode> for Dns {
    open spec fn obeys_try_from_spec() -> bool {
        false
    }

    closed spec fn try_from_spec(node: &DevicePathNode) -> Result<Self, Self::Error> {
        arbitrary()
    }
}

/// NVDIMM namespace messaging device path node.
#[derive(Debug)]
pub struct NvdimmNamespace {
    bytes: Vec<u8>,
}

impl View for NvdimmNamespace {
    type V = Seq<u8>;

    closed spec fn view(&self) -> Seq<u8> {
        self.bytes@
    }
}

/// The sizes that a node of this type can have.
pub open spec fn nvdimm_namespace_size_ok(s: Seq<u8>) -> bool {
    s.len() == 20
}

impl NvdimmNamespace {
    #[verifier::type_invariant]
    spec fn well_formed(self) -> bool {
        is_node(self.bytes@) && nvdimm_namespace_size_ok(self.bytes@)
    }

    /// Namespace unique label identifier.
    pub fn uuid(&self) -> (r: [u8; 16])
        ensures
            r@ == self@.subrange(4, 20),
    {
        proof {
            use_type_invariant(self);
        }
        read_array::<16>(self.bytes.as_slice(), 4)
    }
}

impl TryFrom<&DevicePathNode> for NvdimmNamespace {
    type Error = NodeConversionError;

    /// Succeeds when the node's size is one that this node type can have.
    fn try_from(node: &DevicePathNode) -> (r: Result<Self, Self::Error>)
        ensures
            r is Ok <==> nvdimm_namespace_size_ok(node@),
            r matches Ok(n) ==> n@ == node@,
            r matches Err(e) ==> e == NodeConversionError::InvalidLength,
    {
        let bytes = node.as_bytes();
        if bytes.len() != 20 {
            return Err(NodeConversionError::InvalidLength);
        }
        Ok(NvdimmNamespace { bytes: vstd::slice::slice_to_vec(bytes) })
    }
}

impl TryFromSpecImpl<&DevicePathNode> for NvdimmNamespace {
    open spec fn obeys_try_from_spec() -> bool {
        false
    }

    closed spec fn try_from_spec(node: &DevicePathNode) -> Result<Self, Self::Error> {
        arbitrary()
    }
}

/// REST service messaging device path node.
#[derive(Debug)]
pub struct RestService {
    bytes: Vec<u8>,
}

impl View for RestService {
    type V = Seq<u8>;

    closed spec fn view(&self) -> Seq<u8> {
        self.bytes@
    }
}

/// The sizes that a node of this type can have.
pub open spec fn rest_service_size_ok(s: Seq<u8>) -> bool {
    6 <= s.len()
}

impl RestService {
    #[verifier::type_invariant]
    spec fn well_formed(self) -> bool {
        is_node(self.bytes@) && rest_service_size_ok(self.bytes@)
    }

    /// Type of REST service.
    pub fn service_type(&self) -> (r: RestServiceType)
        ensures
            r.0 == self@[4],
    {
        proof {
            use_type_invariant(self);
        }
        RestServiceType(self.bytes[4])
    }

    /// Whether the service is in-band or out-of-band.
    pub fn access_mode(&self) -> (r: RestServiceAccessMode)
        ensures
            r.0 == self@[5],
    {
        proof {
            use_type_invariant(self);
        }
        RestServiceAccessMode(self.bytes[5])
    }

    /// Get the vendor GUID and vendor data. Only used if the
    /// service type is [`RestServiceType::VENDOR`], otherwise returns None.
    pub fn vendor_guid_and_data(&self) -> (r: Option<(Guid, &[u8])>)
        ensures
            r is Some <==> self@[4] == 0xff && self@.len() >= 22,
            r matches Some((g, d)) ==> g@ == self@.subrange(6, 22) && d@ == self@.subrange(
                22,
                self@.len() as int,
            ),
    {
        proof {
            use_type_invariant(self);
        }
        if self.bytes[4] == 0xff && self.bytes.len() >= 22 {
            let guid = Guid::from_bytes(read_array::<16>(self.bytes.as_slice(), 6));
            let data = vstd::slice::slice_subrange(self.bytes.as_slice(), 22, self.bytes.len());
            Some((guid, data))
        } else {
            None
        }
    }
}

impl TryFrom<&DevicePathNode> for RestService {
    type Error = NodeConversionError;

    /// Succeeds when the node's size is one that this node type can have.
    fn try_from(node: &DevicePathNode) -> (r: Result<Self, Self::Error>)
        ensures
            r is Ok <==> rest_service_size_ok(node@),
            r matches Ok(n) ==> n@ == node@,
            r matches Err(e) ==> e == NodeConversionError::InvalidLength,
    {
        let bytes = node.as_bytes();
        let len = bytes.len();
        if len < 6 {
            return Err(NodeConversionError::InvalidLength);
        }
        Ok(RestService { bytes: vstd::slice::slice_to_vec(bytes) })
    }
}

impl TryFromSpecImpl<&DevicePathNode> for RestService {
    open spec fn obeys_try_from_spec() -> bool {
        false
    }

    closed spec fn try_from_spec(node: &DevicePathNode) -> Result<Self, Self::Error> {
        arbitrary()
    }
}

/// NVME over Fabric (NVMe-oF) namespace messaging device path node.
#[derive(Debug)]
pub struct NvmeOfNamespace {
    bytes: Vec<u8>,
}

impl View for NvmeOfNamespace {
    type V = Seq<u8>;

    closed spec fn view(&self) -> Seq<u8> {
        self.bytes@
    }
}

/// The sizes that a node of this type can have.
pub open spec fn nvme_of_namespace_size_ok(s: Seq<u8>) -> bool {
    21 <= s.len()
}

impl NvmeOfNamespace {
    #[verifier::type_invariant]
    spec fn well_formed(self) -> bool {
        is_node(self.bytes@) && nvme_of_namespace_size_ok(self.bytes@)
    }

    /// Namespace Identifier Type (NIDT).
    pub fn nidt(&self) -> (r: u8)
        ensures
            r == self@[4],
    {
        proof {
            use_type_invariant(self);
        }
        self.bytes[4]
    }

    /// Namespace Identifier (NID).
    pub fn nid(&self) -> (r: [u8; 16])
        ensures
            r@ == self@.subrange(5, 21),
    {
        proof {
            use_type_invariant(self);
        }
        read_array::<16>(self.bytes.as_slice(), 5)
    }

    /// Unique identifier of an NVM subsystem stored as a
    /// null-terminated UTF-8 string. Maximum length of 224 bytes.
    pub fn subsystem_nqn(&self) -> (r: &[u8])
        ensures
            r@ == self@.subrange(21, self@.len() as int),
    {
        proof {
            use_type_invariant(self);
        }
        vstd::slice::slice_subrange(self.bytes.as_slice(), 21, self.bytes.len())
    }
}

impl TryFrom<&DevicePathNode> for NvmeOfNamespace {
    type Error = NodeConversionError;

    /// Succeeds when the node's size is one that this node type can have.
    fn try_from(node: &DevicePathNode) -> (r: Result<Self, Self::Error>)
        ensures
            r is Ok <==> nvme_of_namespace_size_ok(node@),
            r matches Ok(n) ==> n@ == node@,
            r matches Err(e) ==> e == NodeConversionError::InvalidLength,
    {
        let bytes = node.as_bytes();
        let len = bytes.len();
        if len < 21 {
            return Err(NodeConversionError::InvalidLength);
        }
        Ok(NvmeOfNamespace { bytes: vstd::slice::slice_to_vec(bytes) })
    }
}

impl TryFromSpecImpl<&DevicePathNode> for NvmeOfNamespace {
    open spec fn obeys_try_from_spec() -> bool {
        false
    }

    closed spec fn try_from_spec(node: &DevicePathNode) -> Result<Self, Self::Error> {
        arbitrary()
    }
}

///  Whether the ATAPI device is primary or secondary.
#[derive(Clone, Copy, Debug, PartialEq, Eq, Structural, PartialOrd, Ord, Hash)]
pub struct PrimarySecondary(pub u8);

#[allow(non_snake_case)]
impl PrimarySecondary {
    ///  Primary.
    pub fn PRIMARY() -> (r: PrimarySecondary)
        ensures
            r.0 == 0x00,
    {
        PrimarySecondary(0x00)
    }

    ///  Secondary.
    pub fn SECONDARY() -> (r: PrimarySecondary)
        ensures
            r.0 == 0x01,
    {
        PrimarySecondary(0x01)
    }
}

///  Whether the ATAPI device is master or slave.
#[derive(Clone, Copy, Debug, PartialEq, Eq, Structural, PartialOrd, Ord, Hash)]
pub struct MasterSlave(pub u8);

#[allow(non_snake_case)]
impl MasterSlave {
    ///  Master mode.
    pub fn MASTER() -> (r: MasterSlave)
        ensures
            r.0 == 0x00,
    {
        MasterSlave(0x00)
    }

    ///  Slave mode.
    pub fn SLAVE() -> (r: MasterSlave)
        ensures
            r.0 == 0x01,
    {
        MasterSlave(0x01)
    }
}

///  Origin of the source IP address.
#[derive(Clone, Copy, Debug, PartialEq, Eq, Structural, PartialOrd, Ord, Hash)]
pub struct Ipv4AddressOrigin(pub u8);

#[allow(non_snake_case)]
impl Ipv4AddressOrigin {
    ///  Source IP address was assigned through DHCP.
    pub fn DHCP() -> (r: Ipv4AddressOrigin)
        ensures
            r.0 == 0x00,
    {
        Ipv4AddressOrigin(0x00)
    }

    ///  Source IP address is statically bound.
    pub fn STATIC() -> (r: Ipv4AddressOrigin)
        ensures
            r.0 == 0x01,
    {
        Ipv4AddressOrigin(0x01)
    }
}

///  Origin of the local IP address.
#[derive(Clone, Copy, Debug, PartialEq, Eq, Structural, PartialOrd, Ord, Hash)]
pub struct Ipv6AddressOrigin(pub u8);

#[allow(non_snake_case)]
impl Ipv6AddressOrigin {
    ///  Local IP address was manually configured.
    pub fn MANUAL() -> (r: Ipv6AddressOrigin)
        ensures
            r.0 == 0x00,
    {
        Ipv6AddressOrigin(0x00)
    }

    ///  Local IP address assigned through IPv6 stateless
    ///  auto-configuration.
    pub fn STATELESS_AUTO_CONFIGURATION() -> (r: Ipv6AddressOrigin)
        ensures
            r.0 == 0x01,
    {
        Ipv6AddressOrigin(0x01)
    }

    ///  Local IP address assigned through IPv6 stateful
    ///  configuration.
    pub fn STATEFUL_CONFIGURATION() -> (r: Ipv6AddressOrigin)
        ensures
            r.0 == 0x02,
    {
        Ipv6AddressOrigin(0x02)
    }
}

///  UART parity setting.
#[derive(Clone, Copy, Debug, PartialEq, Eq, Structural, PartialOrd, Ord, Hash)]
pub struct Parity(pub u8);

#[allow(non_snake_case)]
impl Parity {
    ///  Default parity.
    pub fn DEFAULT() -> (r: Parity)
        ensures
            r.0 == 0x00,
    {
        Parity(0x00)
    }

    ///  No parity.
    pub fn NO() -> (r: Parity)
        ensures
            r.0 == 0x01,
    {
        Parity(0x01)
    }

    ///  Even parity.
    pub fn EVEN() -> (r: Parity)
        ensures
            r.0 == 0x02,
    {
        Parity(0x02)
    }

    ///  Odd parity.
    pub fn ODD() -> (r: Parity)
        ensures
            r.0 == 0x03,
    {
        Parity(0x03)
    }

    ///  Mark parity.
    pub fn MARK() -> (r: Parity)
        ensures
            r.0 == 0x04,
    {
        Parity(0x04)
    }

    ///  Space parity.
    pub fn SPACE() -> (r: Parity)
        ensures
            r.0 == 0x05,
    {
        Parity(0x05)
    }
}

///  UART number of stop bits.
#[derive(Clone, Copy, Debug, PartialEq, Eq, Structural, PartialOrd, Ord, Hash)]
pub struct StopBits(pub u8);

#[allow(non_snake_case)]
impl StopBits {
    ///  Default number of stop bits.
    pub fn DEFAULT() -> (r: StopBits)
        ensures
            r.0 == 0x00,
    {
        StopBits(0x00)
    }

    ///  1 stop bit.
    pub fn ONE() -> (r: StopBits)
        ensures
            r.0 == 0x01,
    {
        StopBits(0x01)
    }

    ///  1.5 stop bits.
    pub fn ONE_POINT_FIVE() -> (r: StopBits)
        ensures
            r.0 == 0x02,
    {
        StopBits(0x02)
    }

    ///  2 stop bits.
    pub fn TWO() -> (r: StopBits)
        ensures
            r.0 == 0x03,
    {
        StopBits(0x03)
    }
}

///  iSCSI network protocol.
#[derive(Clone, Copy, Debug, PartialEq, Eq, Structural, PartialOrd, Ord, Hash)]
pub struct IscsiProtocol(pub u16);

#[allow(non_snake_case)]
impl IscsiProtocol {
    ///  TCP.
    pub fn TCP() -> (r: IscsiProtocol)
        ensures
            r.0 == 0x0000,
    {
        IscsiProtocol(0x0000)
    }
}

///  BluetoothLE address type.
#[derive(Clone, Copy, Debug, PartialEq, Eq, Structural, PartialOrd, Ord, Hash)]
pub struct BluetoothLeAddressType(pub u8);

#[allow(non_snake_case)]
impl BluetoothLeAddressType {
    ///  Public device address.
    pub fn PUBLIC() -> (r: BluetoothLeAddressType)
        ensures
            r.0 == 0x00,
    {
        BluetoothLeAddressType(0x00)
    }

    ///  Random device address.
    pub fn RANDOM() -> (r: BluetoothLeAddressType)
        ensures
            r.0 == 0x01,
    {
        BluetoothLeAddressType(0x01)
    }
}

///  Whether the address is IPv4 or IPv6.
#[derive(Clone, Copy, Debug, PartialEq, Eq, Structural, PartialOrd, Ord, Hash)]
pub struct DnsAddressType(pub u8);

#[allow(non_snake_case)]
impl DnsAddressType {
    ///  DNS server address is IPv4.
    pub fn IPV4() -> (r: DnsAddressType)
        ensures
            r.0 == 0x00,
    {
        DnsAddressType(0x00)
    }

    ///  DNS server address is IPv6.
    pub fn IPV6() -> (r: DnsAddressType)
        ensures
            r.0 == 0x01,
    {
        DnsAddressType(0x01)
    }
}

///  Type of REST service.
#[derive(Clone, Copy, Debug, PartialEq, Eq, Structural, PartialOrd, Ord, Hash)]
pub struct RestServiceType(pub u8);

#[allow(non_snake_case)]
impl RestServiceType {
    ///  Redfish REST service.
    pub fn REDFISH() -> (r: RestServiceType)
        ensures
            r.0 == 0x01,
    {
        RestServiceType(0x01)
    }

    ///  OData REST service.
    pub fn ODATA() -> (r: RestServiceType)
        ensures
            r.0 == 0x02,
    {
        RestServiceType(0x02)
    }

    ///  Vendor-specific REST service.
    pub fn VENDOR() -> (r: RestServiceType)
        ensures
            r.0 == 0xff,
    {
        RestServiceType(0xff)
    }
}

///  Whether the service is in-band or out-of-band.
#[derive(Clone, Copy, Debug, PartialEq, Eq, Structural, PartialOrd, Ord, Hash)]
pub struct RestServiceAccessMode(pub u8);

#[allow(non_snake_case)]
impl RestServiceAccessMode {
    ///  In-band REST service.
    pub fn IN_BAND() -> (r: RestServiceAccessMode)
        ensures
            r.0 == 0x01,
    {
        RestServiceAccessMode(0x01)
    }

    ///  Out-of-band REST service.
    pub fn OUT_OF_BAND() -> (r: RestServiceAccessMode)
        ensures
            r.0 == 0x02,
    {
        RestServiceAccessMode(0x02)
    }
}

///  Flags to identify/manage InfiniBand elements.
///
/// The model is the set of bits, as a number. A value read from a node may
/// hold bits that no flag names.
#[derive(Clone, Copy, Debug, PartialEq, Eq, Structural, PartialOrd, Ord, Hash)]
pub struct InfinibandResourceFlags {
    bits: u32,
}

impl View for InfinibandResourceFlags {
    type V = u32;

    closed spec fn view(&self) -> u32 {
        self.bits
    }
}

#[allow(non_snake_case)]
impl InfinibandResourceFlags {
    ///  Set = service, unset = IOC.
    pub fn SERVICE() -> (r: InfinibandResourceFlags)
        ensures
            r@ == 0x0000_0001,
    {
        InfinibandResourceFlags { bits: 0x0000_0001 }
    }

    ///  Extended boot environment.
    pub fn EXTENDED_BOOT_ENVIRONMENT() -> (r: InfinibandResourceFlags)
        ensures
            r@ == 0x0000_0002,
    {
        InfinibandResourceFlags { bits: 0x0000_0002 }
    }

    ///  Console protocol.
    pub fn CONSOLE_PROTOCOL() -> (r: InfinibandResourceFlags)
        ensures
            r@ == 0x0000_0004,
    {
        InfinibandResourceFlags { bits: 0x0000_0004 }
    }

    ///  Storage protocol.
    pub fn STORAGE_PROTOCOL() -> (r: InfinibandResourceFlags)
        ensures
            r@ == 0x0000_0008,
    {
        InfinibandResourceFlags { bits: 0x0000_0008 }
    }

    ///  Network protocol.
    pub fn NETWORK_PROTOCOL() -> (r: InfinibandResourceFlags)
        ensures
            r@ == 0x0000_0010,
    {
        InfinibandResourceFlags { bits: 0x0000_0010 }
    }

    /// No flag set.
    pub fn empty() -> (r: InfinibandResourceFlags)
        ensures
            r@ == 0,
    {
        InfinibandResourceFlags { bits: 0 }
    }

    /// Every defined flag set.
    pub fn all() -> (r: InfinibandResourceFlags)
        ensures
            r@ == 0x1f,
    {
        InfinibandResourceFlags { bits: 0x1f }
    }

    /// The raw bits.
    pub fn bits(&self) -> (r: u32)
        ensures
            r == self@,
    {
        self.bits
    }

    /// The flags whose bits are set in `bits`; bits that no flag names are
    /// dropped.
    pub fn from_bits_truncate(bits: u32) -> (r: InfinibandResourceFlags)
        ensures
            r@ == bits & 0x1f,
    {
        InfinibandResourceFlags { bits: bits & 0x1f }
    }

    /// True if every flag set in `other` is set in `self`.
    pub fn contains(&self, other: InfinibandResourceFlags) -> (r: bool)
        ensures
            r == (self@ & other@ == other@),
    {
        self.bits & other.bits == other.bits
    }
}

///  iSCSI login options.
///
/// The model is the set of bits, as a number. A value read from a node may
/// hold bits that no flag names.
#[derive(Clone, Copy, Debug, PartialEq, Eq, Structural, PartialOrd, Ord, Hash)]
pub struct IscsiLoginOptions {
    bits: u16,
}

impl View for IscsiLoginOptions {
    type V = u16;

    closed spec fn view(&self) -> u16 {
        self.bits
    }
}

#[allow(non_snake_case)]
impl IscsiLoginOptions {
    ///  Header digest using CRC32. If not set, no header digest.
    pub fn HEADER_DIGEST_USING_CRC32() -> (r: IscsiLoginOptions)
        ensures
            r@ == 0x0002,
    {
        IscsiLoginOptions { bits: 0x0002 }
    }

    ///  Data digest using CRC32. If not set, no data digest.
    pub fn DATA_DIGEST_USING_CRC32() -> (r: IscsiLoginOptions)
        ensures
            r@ == 0x0008,
    {
        IscsiLoginOptions { bits: 0x0008 }
    }

    ///  Auth method none. If not set, auth method CHAP.
    pub fn AUTH_METHOD_NONE() -> (r: IscsiLoginOptions)
        ensures
            r@ == 0x0800,
    {
        IscsiLoginOptions { bits: 0x0800 }
    }

    ///  CHAP UNI. If not set, CHAP BI.
    pub fn CHAP_UNI() -> (r: IscsiLoginOptions)
        ensures
            r@ == 0x1000,
    {
        IscsiLoginOptions { bits: 0x1000 }
    }

    /// No flag set.
    pub fn empty() -> (r: IscsiLoginOptions)
        ensures
            r@ == 0,
    {
        IscsiLoginOptions { bits: 0 }
    }

    /// Every defined flag set.
    pub fn all() -> (r: IscsiLoginOptions)
        ensures
            r@ == 0x180a,
    {
        IscsiLoginOptions { bits: 0x180a }
    }

    /// The raw bits.
    pub fn bits(&self) -> (r: u16)
        ensures
            r == self@,
    {
        self.bits
    }

    /// The flags whose bits are set in `bits`; bits that no flag names are
    /// dropped.
    pub fn from_bits_truncate(bits: u16) -> (r: IscsiLoginOptions)
        ensures
            r@ == bits & 0x180a,
    {
        IscsiLoginOptions { bits: bits & 0x180a }
    }

    /// True if every flag set in `other` is set in `self`.
    pub fn contains(&self, other: IscsiLoginOptions) -> (r: bool)
        ensures
            r == (self@ & other@ == other@),
    {
        self.bits & other.bits == other.bits
    }
}

} // verus!
