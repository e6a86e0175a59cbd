//! Device path build nodes for [`DeviceType::MESSAGING`].
#![allow(unused_imports)]
use crate::data_types::bytes::{
    le_at, le_encode, lemma_le_encode_len, lemma_le_roundtrip, lemma_pow256_values, push_bytes, push_le,
};
use crate::data_types::{CStr16, Guid};
use crate::proto::device_path::build::{BuildError, BuildNode};
use crate::proto::device_path::hardware::BmcInterfaceType;
use crate::proto::device_path::media::{
    lemma_signature_bytes_len, spec_signature_bytes, spec_signature_type, PartitionFormat,
    PartitionSignature, RamDiskType,
};
use crate::proto::device_path::messaging::{
    BluetoothLeAddressType, DnsAddressType, InfinibandResourceFlags, Ipv4AddressOrigin,
    Ipv6AddressOrigin, IscsiLoginOptions, IscsiProtocol, MasterSlave, Parity, PrimarySecondary,
    RestServiceAccessMode, RestServiceType, StopBits,
};
use crate::proto::device_path::{
    addresses_bytes, is_node, lemma_addresses_bytes_len, lemma_u16s_le_len, lemma_u32s_le_len,
    node_header, push_addresses, push_header, push_u16s, push_u32s, u16s_le, u32s_le,
};
use crate::proto::network::IpAddress;
use crate::table::boot::MemoryType;
use vstd::prelude::*;

verus! {

/// ATAPI messaging device path node.
pub struct Atapi {
    /// Whether the ATAPI device is primary or secondary.
    pub primary_secondary: PrimarySecondary,
    /// Whether the ATAPI device is master or slave.
    pub master_slave: MasterSlave,
    /// Logical Unit Number (LUN).
    pub logical_unit_number: u16,
}

impl Atapi {
    /// The length of the node's bytes.
    proof fn lemma_len(&self)
        ensures
            self.spec_node().len() == 8,
    {
        lemma_le_encode_len((8) as nat, 2);
        lemma_le_encode_len(self.logical_unit_number as nat, 2);
    }

    /// The node's bytes are a well-formed node of its type, and hold each
    /// field at its offset: a node of this type read from them gives back
    /// the fields.
    pub proof fn lemma_layout(&self)
        requires
            self.spec_node().len() <= 0xffff,
        ensures
            is_node(self.spec_node()),
            crate::proto::device_path::messaging::atapi_size_ok(self.spec_node()),
            self.spec_node()[0] == 0x03,
            self.spec_node()[1] == 0x01,
            self.spec_node()[(4) as int] == self.primary_secondary.0,
            self.spec_node()[(5) as int] == self.master_slave.0,
            le_at(self.spec_node(), (6) as int, 2) == self.logical_unit_number as nat,
    {
        self.lemma_len();
        lemma_le_encode_len((8) as nat, 2);
        lemma_le_encode_len(self.logical_unit_number as nat, 2);
        lemma_pow256_values();
        let len: nat = (8) as nat;
        assert(self.spec_node().subrange(2, 4) =~= le_encode(len, 2));
        lemma_le_roundtrip(len, 2);
        assert(self.spec_node().subrange((6) as int, (6 + 2) as int) =~= le_encode(self.logical_unit_number as nat, 2));
        lemma_le_roundtrip(self.logical_unit_number as nat, 2);
    }
}

impl BuildNode for Atapi {
    open spec fn spec_node(&self) -> Seq<u8> {
        node_header(0x03, 0x01, (8) as nat)
            + seq![self.primary_secondary.0]
            + seq![self.master_slave.0]
            + le_encode(self.logical_unit_number as nat, 2)
    }

    open spec fn spec_buildable(&self) -> bool {
        true
    }

    fn size_in_bytes(&self) -> (r: Result<u16, BuildError>) {
        proof {
            self.lemma_len();
        }
        Ok(8)
    }

    fn write_data(&self, out: &mut Vec<u8>) {
        proof {
            self.lemma_len();
        }
        let size: u16 = 8;
        push_header(out, 0x03, 0x01, size);
        out.push(self.primary_secondary.0);
        out.push(self.master_slave.0);
        push_le(out, self.logical_unit_number as u64, 2);
        proof {
            assert(out@ =~= old(out)@ + self.spec_node());
        }
    }
}

/// SCSI messaging device path node.
pub struct Scsi {
    /// Target ID on the SCSI bus.
    pub target_id: u16,
    /// Logical Unit Number.
    pub logical_unit_number: u16,
}

impl Scsi {
    /// The length of the node's bytes.
    proof fn lemma_len(&self)
        ensures
            self.spec_node().len() == 8,
    {
        lemma_le_encode_len((8) as nat, 2);
        lemma_le_encode_len(self.target_id as nat, 2);
        lemma_le_encode_len(self.logical_unit_number as nat, 2);
    }

    /// The node's bytes are a well-formed node of its type, and hold each
    /// field at its offset: a node of this type read from them gives back
    /// the fields.
    pub proof fn lemma_layout(&self)
        requires
            self.spec_node().len() <= 0xffff,
        ensures
            is_node(self.spec_node()),
            crate::proto::device_path::messaging::scsi_size_ok(self.spec_node()),
            self.spec_node()[0] == 0x03,
            self.spec_node()[1] == 0x02,
            le_at(self.spec_node(), (4) as int, 2) == self.target_id as nat,
            le_at(self.spec_node(), (6) as int, 2) == self.logical_unit_number as nat,
    {
        self.lemma_len();
        lemma_le_encode_len((8) as nat, 2);
        lemma_le_encode_len(self.target_id as nat, 2);
        lemma_le_encode_len(self.logical_unit_number as nat, 2);
        lemma_pow256_values();
        let len: nat = (8) as nat;
        assert(self.spec_node().subrange(2, 4) =~= le_encode(len, 2));
        lemma_le_roundtrip(len, 2);
        assert(self.spec_node().subrange((4) as int, (4 + 2) as int) =~= le_encode(self.target_id as nat, 2));
        lemma_le_roundtrip(self.target_id as nat, 2);
        assert(self.spec_node().subrange((6) as int, (6 + 2) as int) =~= le_encode(self.logical_unit_number as nat, 2));
        lemma_le_roundtrip(self.logical_unit_number as nat, 2);
    }
}

impl BuildNode for Scsi {
    open spec fn spec_node(&self) -> Seq<u8> {
        node_header(0x03, 0x02, (8) as nat)
            + le_encode(self.target_id as nat, 2)
            + le_encode(self.logical_unit_number as nat, 2)
    }

    open spec fn spec_buildable(&self) -> bool {
        true
    }

    fn size_in_bytes(&self) -> (r: Result<u16, BuildError>) {
        proof {
            self.lemma_len();
        }
        Ok(8)
    }

    fn write_data(&self, out: &mut Vec<u8>) {
        proof {
            self.lemma_len();
        }
        let size: u16 = 8;
        push_header(out, 0x03, 0x02, size);
        push_le(out, self.target_id as u64, 2);
        push_le(out, self.logical_unit_number as u64, 2);
        proof {
            assert(out@ =~= old(out)@ + self.spec_node());
        }
    }
}

/// Fibre channel messaging device path node.
pub struct FibreChannel {
    /// Fibre Channel World Wide Name.
    pub world_wide_name: u64,
    /// Fibre Channel Logical Unit Number.
    pub logical_unit_number: u64,
}

impl FibreChannel {
    /// The length of the node's bytes.
    proof fn lemma_len(&self)
        ensures
            self.spec_node().len() == 24,
    {
        lemma_le_encode_len((24) as nat, 2);
        lemma_le_encode_len(0nat, 4);
        lemma_le_encode_len(self.world_wide_name as nat, 8);
        lemma_le_encode_len(self.logical_unit_number as nat, 8);
    }

    /// The node's bytes are a well-formed node of its type, and hold each
    /// field at its offset: a node of this type read from them gives back
    /// the fields.
    pub proof fn lemma_layout(&self)
        requires
            self.spec_node().len() <= 0xffff,
        ensures
            is_node(self.spec_node()),
            crate::proto::device_path::messaging::fibre_channel_size_ok(self.spec_node()),
            self.spec_node()[0] == 0x03,
            self.spec_node()[1] == 0x03,
            le_at(self.spec_node(), (4) as int, 4) == 0nat,
            le_at(self.spec_node(), (8) as int, 8) == self.world_wide_name as nat,
            le_at(self.spec_node(), (16) as int, 8) == self.logical_unit_number as nat,
    {
        self.lemma_len();
        lemma_le_encode_len((24) as nat, 2);
        lemma_le_encode_len(0nat, 4);
        lemma_le_encode_len(self.world_wide_name as nat, 8);
        lemma_le_encode_len(self.logical_unit_number as nat, 8);
        lemma_pow256_values();
        let len: nat = (24) as nat;
        assert(self.spec_node().subrange(2, 4) =~= le_encode(len, 2));
        lemma_le_roundtrip(len, 2);
        assert(self.spec_node().subrange((4) as int, (4 + 4) as int) =~= le_encode(0nat, 4));
        lemma_le_roundtrip(0nat, 4);
        assert(self.spec_node().subrange((8) as int, (8 + 8) as int) =~= le_encode(self.world_wide_name as nat, 8));
        lemma_le_roundtrip(self.world_wide_name as nat, 8);
        assert(self.spec_node().subrange((16) as int, (16 + 8) as int) =~= le_encode(self.logical_unit_number as nat, 8));
        lemma_le_roundtrip(self.logical_unit_number as nat, 8);
    }
}

impl BuildNode for FibreChannel {
    open spec fn spec_node(&self) -> Seq<u8> {
        node_header(0x03, 0x03, (24) as nat)
            + le_encode(0nat, 4)
            + le_encode(self.world_wide_name as nat, 8)
            + le_encode(self.logical_unit_number as nat, 8)
    }

    open spec fn spec_buildable(&self) -> bool {
        true
    }

    fn size_in_bytes(&self) -> (r: Result<u16, BuildError>) {
        proof {
            self.lemma_len();
        }
        Ok(24)
    }

    fn write_data(&self, out: &mut Vec<u8>) {
        proof {
            self.lemma_len();
        }
        let size: u16 = 24;
        push_header(out, 0x03, 0x03, size);
        push_le(out, 0, 4);
        push_le(out, self.world_wide_name as u64, 8);
        push_le(out, self.logical_unit_number as u64, 8);
        proof {
            assert(out@ =~= old(out)@ + self.spec_node());
        }
    }
}

/// Fibre channel extended messaging device path node.
pub struct FibreChannelEx {
    /// Fibre Channel end device port name (aka World Wide Name).
    pub world_wide_name: [u8; 8usize],
    /// Fibre Channel Logical Unit Number.
    pub logical_unit_number: [u8; 8usize],
}

impl FibreChannelEx {
    /// The length of the node's bytes.
    proof fn lemma_len(&self)
        ensures
            self.spec_node().len() == 24,
    {
        lemma_le_encode_len((24) as nat, 2);
        lemma_le_encode_len(0nat, 4);
    }

    /// The node's bytes are a well-formed node of its type, and hold each
    /// field at its offset: a node of this type read from them gives back
    /// the fields.
    pub proof fn lemma_layout(&self)
        requires
            self.spec_node().len() <= 0xffff,
        ensures
            is_node(self.spec_node()),
            crate::proto::device_path::messaging::fibre_channel_ex_size_ok(self.spec_node()),
            self.spec_node()[0] == 0x03,
            self.spec_node()[1] == 0x15,
            le_at(self.spec_node(), (4) as int, 4) == 0nat,
            self.spec_node().subrange((8) as int, (8 + 8) as int) == self.world_wide_name@,
            self.spec_node().subrange((16) as int, (16 + 8) as int) == self.logical_unit_number@,
    {
        self.lemma_len();
        lemma_le_encode_len((24) as nat, 2);
        lemma_le_encode_len(0nat, 4);
        lemma_pow256_values();
        let len: nat = (24) as nat;
        assert(self.spec_node().subrange(2, 4) =~= le_encode(len, 2));
        lemma_le_roundtrip(len, 2);
        assert(self.spec_node().subrange((4) as int, (4 + 4) as int) =~= le_encode(0nat, 4));
        lemma_le_roundtrip(0nat, 4);
        assert(self.spec_node().subrange((8) as int, (8 + 8) as int) =~= self.world_wide_name@);
        assert(self.spec_node().subrange((16) as int, (16 + 8) as int) =~= self.logical_unit_number@);
    }
}

impl BuildNode for FibreChannelEx {
    open spec fn spec_node(&self) -> Seq<u8> {
        node_header(0x03, 0x15, (24) as nat)
            + le_encode(0nat, 4)
            + self.world_wide_name@
            + self.logical_unit_number@
    }

    open spec fn spec_buildable(&self) -> bool {
        true
    }

    fn size_in_bytes(&self) -> (r: Result<u16, BuildError>) {
        proof {
            self.lemma_len();
        }
        Ok(24)
    }

    fn write_data(&self, out: &mut Vec<u8>) {
        proof {
            self.lemma_len();
        }
        let size: u16 = 24;
        push_header(out, 0x03, 0x15, size);
        push_le(out, 0, 4);
        push_bytes(out, self.world_wide_name.as_slice());
        push_bytes(out, self.logical_unit_number.as_slice());
        proof {
            assert(out@ =~= old(out)@ + self.spec_node());
        }
    }
}

/// 1394 messaging device path node.
pub struct Ieee1394 {
    /// 1394 Global Unique ID. Note that this is not the same as a
    /// UEFI GUID.
    pub guid: [u8; 8usize],
}

impl Ieee1394 {
    /// The length of the node's bytes.
    proof fn lemma_len(&self)
        ensures
            self.spec_node().len() == 16,
    {
        lemma_le_encode_len((16) as nat, 2);
        lemma_le_encode_len(0nat, 4);
    }

    /// The node's bytes are a well-formed node of its type, and hold each
    /// field at its offset: a node of this type read from them gives back
    /// the fields.
    pub proof fn lemma_layout(&self)
        requires
            self.spec_node().len() <= 0xffff,
        ensures
            is_node(self.spec_node()),
            crate::proto::device_path::messaging::ieee1394_size_ok(self.spec_node()),
            self.spec_node()[0] == 0x03,
            self.spec_node()[1] == 0x04,
            le_at(self.spec_node(), (4) as int, 4) == 0nat,
            self.spec_node().subrange((8) as int, (8 + 8) as int) == self.guid@,
    {
        self.lemma_len();
        lemma_le_encode_len((16) as nat, 2);
        lemma_le_encode_len(0nat, 4);
        lemma_pow256_values();
        let len: nat = (16) as nat;
        assert(self.spec_node().subrange(2, 4) =~= le_encode(len, 2));
        lemma_le_roundtrip(len, 2);
        assert(self.spec_node().subrange((4) as int, (4 + 4) as int) =~= le_encode(0nat, 4));
        lemma_le_roundtrip(0nat, 4);
        assert(self.spec_node().subrange((8) as int, (8 + 8) as int) =~= self.guid@);
    }
}

impl BuildNode for Ieee1394 {
    open spec fn spec_node(&self) -> Seq<u8> {
        node_header(0x03, 0x04, (16) as nat)
            + le_encode(0nat, 4)
            + self.guid@
    }

    open spec fn spec_buildable(&self) -> bool {
        true
    }

    fn size_in_bytes(&self) -> (r: Result<u16, BuildError>) {
        proof {
            self.lemma_len();
        }
        Ok(16)
    }

    fn write_data(&self, out: &mut Vec<u8>) {
        proof {
            self.lemma_len();
        }
        let size: u16 = 16;
        push_header(out, 0x03, 0x04, size);
        push_le(out, 0, 4);
        push_bytes(out, self.guid.as_slice());
        proof {
            assert(out@ =~= old(out)@ + self.spec_node());
        }
    }
}

/// USB messaging device path node.
pub struct Usb {
    /// USB parent port number.
    pub parent_port_number: u8,
    /// USB interface number.
    pub interface: u8,
}

impl Usb {
    /// The length of the node's bytes.
    proof fn lemma_len(&self)
        ensures
            self.spec_node().len() == 6,
    {
        lemma_le_encode_len((6) as nat, 2);
    }

    /// The node's bytes are a well-formed node of its type, and hold each
    /// field at its offset: a node of this type read from them gives back
    /// the fields.
    pub proof fn lemma_layout(&self)
        requires
            self.spec_node().len() <= 0xffff,
        ensures
            is_node(self.spec_node()),
            crate::proto::device_path::messaging::usb_size_ok(self.spec_node()),
            self.spec_node()[0] == 0x03,
            self.spec_node()[1] == 0x05,
            self.spec_node()[(4) as int] == self.parent_port_number,
            self.spec_node()[(5) as int] == self.interface,
    {
        self.lemma_len();
        lemma_le_encode_len((6) as nat, 2);
        lemma_pow256_values();
        let len: nat = (6) as nat;
        assert(self.spec_node().subrange(2, 4) =~= le_encode(len, 2));
        lemma_le_roundtrip(len, 2);
    }
}

/// A USB node built from its fields is six bytes: the four-byte header
/// (type 3, sub-type 5, length 6), the parent port and the interface. Those
/// are the bytes of a well-formed node of a size that a USB node can have,
/// so the node read back from them converts to a USB node with the same
/// parent port and interface.
pub proof fn lemma_usb_node_converts(b: &Usb)
    ensures
        b.spec_node().len() == 6,
        is_node(b.spec_node()),
        crate::proto::device_path::messaging::usb_size_ok(b.spec_node()),
        b.spec_node()[0] == 0x03,
        b.spec_node()[1] == 0x05,
        b.spec_node()[4] == b.parent_port_number,
        b.spec_node()[5] == b.interface,
{
    b.lemma_len();
    b.lemma_layout();
}

impl BuildNode for Usb {
    open spec fn spec_node(&self) -> Seq<u8> {
        node_header(0x03, 0x05, (6) as nat)
            + seq![self.parent_port_number]
            + seq![self.interface]
    }

    open spec fn spec_buildable(&self) -> bool {
        true
    }

    fn size_in_bytes(&self) -> (r: Result<u16, BuildError>) {
        proof {
            self.lemma_len();
        }
        Ok(6)
    }

    fn write_data(&self, out: &mut Vec<u8>) {
        proof {
            self.lemma_len();
        }
        let size: u16 = 6;
        push_header(out, 0x03, 0x05, size);
        out.push(self.parent_port_number);
        out.push(self.interface);
        proof {
            assert(out@ =~= old(out)@ + self.spec_node());
        }
    }
}

/// SATA messaging device path node.
pub struct Sata {
    /// The HBA port number that facilitates the connection to the
    /// device or a port multiplier. The value 0xffff is reserved.
    pub hba_port_number: u16,
    /// the port multiplier port number that facilitates the
    /// connection to the device. Must be set to 0xffff if the
    /// device is directly connected to the HBA.
    pub port_multiplier_port_number: u16,
    /// Logical unit number.
    pub logical_unit_number: u16,
}

impl Sata {
    /// The length of the node's bytes.
    proof fn lemma_len(&self)
        ensures
            self.spec_node().len() == 10,
    {
        lemma_le_encode_len((10) as nat, 2);
        lemma_le_encode_len(self.hba_port_number as nat, 2);
        lemma_le_encode_len(self.port_multiplier_port_number as nat, 2);
        lemma_le_encode_len(self.logical_unit_number as nat, 2);
    }

    /// The node's bytes are a well-formed node of its type, and hold each
    /// field at its offset: a node of this type read from them gives back
    /// the fields.
    pub proof fn lemma_layout(&self)
        requires
            self.spec_node().len() <= 0xffff,
        ensures
            is_node(self.spec_node()),
            crate::proto::device_path::messaging::sata_size_ok(self.spec_node()),
            self.spec_node()[0] == 0x03,
            self.spec_node()[1] == 0x12,
            le_at(self.spec_node(), (4) as int, 2) == self.hba_port_number as nat,
            le_at(self.spec_node(), (6) as int, 2) == self.port_multiplier_port_number as nat,
            le_at(self.spec_node(), (8) as int, 2) == self.logical_unit_number as nat,
    {
        self.lemma_len();
        lemma_le_encode_len((10) as nat, 2);
        lemma_le_encode_len(self.hba_port_number as nat, 2);
        lemma_le_encode_len(self.port_multiplier_port_number as nat, 2);
        lemma_le_encode_len(self.logical_unit_number as nat, 2);
        lemma_pow256_values();
        let len: nat = (10) as nat;
        assert(self.spec_node().subrange(2, 4) =~= le_encode(len, 2));
        lemma_le_roundtrip(len, 2);
        assert(self.spec_node().subrange((4) as int, (4 + 2) as int) =~= le_encode(self.hba_port_number as nat, 2));
        lemma_le_roundtrip(self.hba_port_number as nat, 2);
        assert(self.spec_node().subrange((6) as int, (6 + 2) as int) =~= le_encode(self.port_multiplier_port_number as nat, 2));
        lemma_le_roundtrip(self.port_multiplier_port_number as nat, 2);
        assert(self.spec_node().subrange((8) as int, (8 + 2) as int) =~= le_encode(self.logical_unit_number as nat, 2));
        lemma_le_roundtrip(self.logical_unit_number as nat, 2);
    }
}

impl BuildNode for Sata {
    open spec fn spec_node(&self) -> Seq<u8> {
        node_header(0x03, 0x12, (10) as nat)
            + le_encode(self.hba_port_number as nat, 2)
            + le_encode(self.port_multiplier_port_number as nat, 2)
            + le_encode(self.logical_unit_number as nat, 2)
    }

    open spec fn spec_buildable(&self) -> bool {
        true
    }

    fn size_in_bytes(&self) -> (r: Result<u16, BuildError>) {
        proof {
            self.lemma_len();
        }
        Ok(10)
    }

    fn write_data(&self, out: &mut Vec<u8>) {
        proof {
            self.lemma_len();
        }
        let size: u16 = 10;
        push_header(out, 0x03, 0x12, size);
        push_le(out, self.hba_port_number as u64, 2);
        push_le(out, self.port_multiplier_port_number as u64, 2);
        push_le(out, self.logical_unit_number as u64, 2);
        proof {
            assert(out@ =~= old(out)@ + self.spec_node());
        }
    }
}

/// USB World Wide ID (WWID) messaging device path node.
pub struct UsbWwid<'a> {
    /// USB interface number.
    pub interface_number: u16,
    /// USB vendor ID.
    pub device_vendor_id: u16,
    /// USB product ID.
    pub device_product_id: u16,
    /// Last 64 (or fewer) characters of the USB Serial number.
    pub serial_number: &'a [u16],
}

impl<'a> UsbWwid<'a> {
    /// The length of the node's bytes.
    proof fn lemma_len(&self)
        ensures
            self.spec_node().len() == 10 + 2 * self.serial_number@.len(),
    {
        lemma_le_encode_len((10 + 2 * self.serial_number@.len()) as nat, 2);
        lemma_le_encode_len(self.interface_number as nat, 2);
        lemma_le_encode_len(self.device_vendor_id as nat, 2);
        lemma_le_encode_len(self.device_product_id as nat, 2);
        lemma_u16s_le_len(self.serial_number@);
    }

    /// The node's bytes are a well-formed node of its type, and hold each
    /// field at its offset: a node of this type read from them gives back
    /// the fields.
    pub proof fn lemma_layout(&self)
        requires
            self.spec_node().len() <= 0xffff,
        ensures
            is_node(self.spec_node()),
            crate::proto::device_path::messaging::usb_wwid_size_ok(self.spec_node()),
            self.spec_node()[0] == 0x03,
            self.spec_node()[1] == 0x10,
            le_at(self.spec_node(), (4) as int, 2) == self.interface_number as nat,
            le_at(self.spec_node(), (6) as int, 2) == self.device_vendor_id as nat,
            le_at(self.spec_node(), (8) as int, 2) == self.device_product_id as nat,
            self.spec_node().subrange((10) as int, (10 + 2 * self.serial_number@.len()) as int) == u16s_le(self.serial_number@),
    {
        self.lemma_len();
        lemma_le_encode_len((10 + 2 * self.serial_number@.len()) as nat, 2);
        lemma_le_encode_len(self.interface_number as nat, 2);
        lemma_le_encode_len(self.device_vendor_id as nat, 2);
        lemma_le_encode_len(self.device_product_id as nat, 2);
        lemma_u16s_le_len(self.serial_number@);
        lemma_pow256_values();
        let len: nat = (10 + 2 * self.serial_number@.len()) as nat;
        assert(self.spec_node().subrange(2, 4) =~= le_encode(len, 2));
        lemma_le_roundtrip(len, 2);
        assert(self.spec_node().subrange((4) as int, (4 + 2) as int) =~= le_encode(self.interface_number as nat, 2));
        lemma_le_roundtrip(self.interface_number as nat, 2);
        assert(self.spec_node().subrange((6) as int, (6 + 2) as int) =~= le_encode(self.device_vendor_id as nat, 2));
        lemma_le_roundtrip(self.device_vendor_id as nat, 2);
        assert(self.spec_node().subrange((8) as int, (8 + 2) as int) =~= le_encode(self.device_product_id as nat, 2));
        lemma_le_roundtrip(self.device_product_id as nat, 2);
        assert(self.spec_node().subrange((10) as int, (10 + 2 * self.serial_number@.len()) as int) =~= u16s_le(self.serial_number@));
    }
}

impl<'a> BuildNode for UsbWwid<'a> {
    open spec fn spec_node(&self) -> Seq<u8> {
        node_header(0x03, 0x10, (10 + 2 * self.serial_number@.len()) as nat)
            + le_encode(self.interface_number as nat, 2)
            + le_encode(self.device_vendor_id as nat, 2)
            + le_encode(self.device_product_id as nat, 2)
            + u16s_le(self.serial_number@)
    }

    open spec fn spec_buildable(&self) -> bool {
        true
    }

    fn size_in_bytes(&self) -> (r: Result<u16, BuildError>) {
        proof {
            self.lemma_len();
        }
        if self.serial_number.len() > 0xffff {
            return Err(BuildError::NodeTooBig);
        }
        let size: usize = 10 + 2 * self.serial_number.len();
        if size > 0xffff {
            Err(BuildError::NodeTooBig)
        } else {
            Ok(size as u16)
        }
    }

    fn write_data(&self, out: &mut Vec<u8>) {
        proof {
            self.lemma_len();
        }
        let size: u16 = (10 + 2 * self.serial_number.len()) as u16;
        push_header(out, 0x03, 0x10, size);
        push_le(out, self.interface_number as u64, 2);
        push_le(out, self.device_vendor_id as u64, 2);
        push_le(out, self.device_product_id as u64, 2);
        push_u16s(out, self.serial_number);
        proof {
            assert(out@ =~= old(out)@ + self.spec_node());
        }
    }
}

/// Device logical unit messaging device path node.
pub struct DeviceLogicalUnit {
    /// Logical Unit Number.
    pub logical_unit_number: u8,
}

impl DeviceLogicalUnit {
    /// The length of the node's bytes.
    proof fn lemma_len(&self)
        ensures
            self.spec_node().len() == 5,
    {
        lemma_le_encode_len((5) as nat, 2);
    }

    /// The node's bytes are a well-formed node of its type, and hold each
    /// field at its offset: a node of this type read from them gives back
    /// the fields.
    pub proof fn lemma_layout(&self)
        requires
            self.spec_node().len() <= 0xffff,
        ensures
            is_node(self.spec_node()),
            crate::proto::device_path::messaging::device_logical_unit_size_ok(self.spec_node()),
            self.spec_node()[0] == 0x03,
            self.spec_node()[1] == 0x11,
            self.spec_node()[(4) as int] == self.logical_unit_number,
    {
        self.lemma_len();
        lemma_le_encode_len((5) as nat, 2);
        lemma_pow256_values();
        let len: nat = (5) as nat;
        assert(self.spec_node().subrange(2, 4) =~= le_encode(len, 2));
        lemma_le_roundtrip(len, 2);
    }
}

impl BuildNode for DeviceLogicalUnit {
    open spec fn spec_node(&self) -> Seq<u8> {
        node_header(0x03, 0x11, (5) as nat)
            + seq![self.logical_unit_number]
    }

    open spec fn spec_buildable(&self) -> bool {
        true
    }

    fn size_in_bytes(&self) -> (r: Result<u16, BuildError>) {
        proof {
            self.lemma_len();
        }
        Ok(5)
    }

    fn write_data(&self, out: &mut Vec<u8>) {
        proof {
            self.lemma_len();
        }
        let size: u16 = 5;
        push_header(out, 0x03, 0x11, size);
        out.push(self.logical_unit_number);
        proof {
            assert(out@ =~= old(out)@ + self.spec_node());
        }
    }
}

/// USB class messaging device path node.
pub struct UsbClass {
    /// USB vendor ID.
    pub vendor_id: u16,
    /// USB product ID.
    pub product_id: u16,
    /// USB device class.
    pub device_class: u8,
    /// USB device subclass.
    pub device_subclass: u8,
    /// USB device protocol.
    pub device_protocol: u8,
}

impl UsbClass {
    /// The length of the node's bytes.
    proof fn lemma_len(&self)
        ensures
            self.spec_node().len() == 11,
    {
        lemma_le_encode_len((11) as nat, 2);
        lemma_le_encode_len(self.vendor_id as nat, 2);
        lemma_le_encode_len(self.product_id as nat, 2);
    }

    /// The node's bytes are a well-formed node of its type, and hold each
    /// field at its offset: a node of this type read from them gives back
    /// the fields.
    pub proof fn lemma_layout(&self)
        requires
            self.spec_node().len() <= 0xffff,
        ensures
            is_node(self.spec_node()),
            crate::proto::device_path::messaging::usb_class_size_ok(self.spec_node()),
            self.spec_node()[0] == 0x03,
            self.spec_node()[1] == 0x0f,
            le_at(self.spec_node(), (4) as int, 2) == self.vendor_id as nat,
            le_at(self.spec_node(), (6) as int, 2) == self.product_id as nat,
            self.spec_node()[(8) as int] == self.device_class,
            self.spec_node()[(9) as int] == self.device_subclass,
            self.spec_node()[(10) as int] == self.device_protocol,
    {
        self.lemma_len();
        lemma_le_encode_len((11) as nat, 2);
        lemma_le_encode_len(self.vendor_id as nat, 2);
        lemma_le_encode_len(self.product_id as nat, 2);
        lemma_pow256_values();
        let len: nat = (11) as nat;
        assert(self.spec_node().subrange(2, 4) =~= le_encode(len, 2));
        lemma_le_roundtrip(len, 2);
        assert(self.spec_node().subrange((4) as int, (4 + 2) as int) =~= le_encode(self.vendor_id as nat, 2));
        lemma_le_roundtrip(self.vendor_id as nat, 2);
        assert(self.spec_node().subrange((6) as int, (6 + 2) as int) =~= le_encode(self.product_id as nat, 2));
        lemma_le_roundtrip(self.product_id as nat, 2);
    }
}

impl BuildNode for UsbClass {
    open spec fn spec_node(&self) -> Seq<u8> {
        node_header(0x03, 0x0f, (11) as nat)
            + le_encode(self.vendor_id as nat, 2)
            + le_encode(self.product_id as nat, 2)
            + seq![self.device_class]
            + seq![self.device_subclass]
            + seq![self.device_protocol]
    }

    open spec fn spec_buildable(&self) -> bool {
        true
    }

    fn size_in_bytes(&self) -> (r: Result<u16, BuildError>) {
        proof {
            self.lemma_len();
        }
        Ok(11)
    }

    fn write_data(&self, out: &mut Vec<u8>) {
        proof {
            self.lemma_len();
        }
        let size: u16 = 11;
        push_header(out, 0x03, 0x0f, size);
        push_le(out, self.vendor_id as u64, 2);
        push_le(out, self.product_id as u64, 2);
        out.push(self.device_class);
        out.push(self.device_subclass);
        out.push(self.device_protocol);
        proof {
            assert(out@ =~= old(out)@ + self.spec_node());
        }
    }
}

/// I2O messaging device path node.
pub struct I2o {
    /// Target ID (TID).
    pub target_id: u32,
}

impl I2o {
    /// The length of the node's bytes.
    proof fn lemma_len(&self)
        ensures
            self.spec_node().len() == 8,
    {
        lemma_le_encode_len((8) as nat, 2);
        lemma_le_encode_len(self.target_id as nat, 4);
    }

    /// The node's bytes are a well-formed node of its type, and hold each
    /// field at its offset: a node of this type read from them gives back
    /// the fields.
    pub proof fn lemma_layout(&self)
        requires
            self.spec_node().len() <= 0xffff,
        ensures
            is_node(self.spec_node()),
            crate::proto::device_path::messaging::i2o_size_ok(self.spec_node()),
            self.spec_node()[0] == 0x03,
            self.spec_node()[1] == 0x06,
            le_at(self.spec_node(), (4) as int, 4) == self.target_id as nat,
    {
        self.lemma_len();
        lemma_le_encode_len((8) as nat, 2);
        lemma_le_encode_len(self.target_id as nat, 4);
        lemma_pow256_values();
        let len: nat = (8) as nat;
        assert(self.spec_node().subrange(2, 4) =~= le_encode(len, 2));
        lemma_le_roundtrip(len, 2);
        assert(self.spec_node().subrange((4) as int, (4 + 4) as int) =~= le_encode(self.target_id as nat, 4));
        lemma_le_roundtrip(self.target_id as nat, 4);
    }
}

impl BuildNode for I2o {
    open spec fn spec_node(&self) -> Seq<u8> {
        node_header(0x03, 0x06, (8) as nat)
            + le_encode(self.target_id as nat, 4)
    }

    open spec fn spec_buildable(&self) -> bool {
        true
    }

    fn size_in_bytes(&self) -> (r: Result<u16, BuildError>) {
        proof {
            self.lemma_len();
        }
        Ok(8)
    }

    fn write_data(&self, out: &mut Vec<u8>) {
        proof {
            self.lemma_len();
        }
        let size: u16 = 8;
        push_header(out, 0x03, 0x06, size);
        push_le(out, self.target_id as u64, 4);
        proof {
            assert(out@ =~= old(out)@ + self.spec_node());
        }
    }
}

/// MAC address messaging device path node.
pub struct MacAddress {
    /// MAC address for a network interface, padded with zeros.
    pub mac_address: [u8; 32usize],
    /// Network interface type. See
    /// <https://www.iana.org/assignments/smi-numbers/smi-numbers.xhtml#smi-numbers-5>
    pub interface_type: u8,
}

impl MacAddress {
    /// The length of the node's bytes.
    proof fn lemma_len(&self)
        ensures
            self.spec_node().len() == 37,
    {
        lemma_le_encode_len((37) as nat, 2);
    }

    /// The node's bytes are a well-formed node of its type, and hold each
    /// field at its offset: a node of this type read from them gives back
    /// the fields.
    pub proof fn lemma_layout(&self)
        requires
            self.spec_node().len() <= 0xffff,
        ensures
            is_node(self.spec_node()),
            crate::proto::device_path::messaging::mac_address_size_ok(self.spec_node()),
            self.spec_node()[0] == 0x03,
            self.spec_node()[1] == 0x0b,
            self.spec_node().subrange((4) as int, (4 + 32) as int) == self.mac_address@,
            self.spec_node()[(36) as int] == self.interface_type,
    {
        self.lemma_len();
        lemma_le_encode_len((37) as nat, 2);
        lemma_pow256_values();
        let len: nat = (37) as nat;
        assert(self.spec_node().subrange(2, 4) =~= le_encode(len, 2));
        lemma_le_roundtrip(len, 2);
        assert(self.spec_node().subrange((4) as int, (4 + 32) as int) =~= self.mac_address@);
    }
}

impl BuildNode for MacAddress {
    open spec fn spec_node(&self) -> Seq<u8> {
        node_header(0x03, 0x0b, (37) as nat)
            + self.mac_address@
            + seq![self.interface_type]
    }

    open spec fn spec_buildable(&self) -> bool {
        true
    }

    fn size_in_bytes(&self) -> (r: Result<u16, BuildError>) {
        proof {
            self.lemma_len();
        }
        Ok(37)
    }

    fn write_data(&self, out: &mut Vec<u8>) {
        proof {
            self.lemma_len();
        }
        let size: u16 = 37;
        push_header(out, 0x03, 0x0b, size);
        push_bytes(out, self.mac_address.as_slice());
        out.push(self.interface_type);
        proof {
            assert(out@ =~= old(out)@ + self.spec_node());
        }
    }
}

/// IPv4 messaging device path node.
pub struct Ipv4 {
    /// Local IPv4 address.
    pub local_ip_address: [u8; 4usize],
    /// Remote IPv4 address.
    pub remote_ip_address: [u8; 4usize],
    /// Local port number.
    pub local_port: u16,
    /// Remote port number.
    pub remote_port: u16,
    /// Network protocol. See
    /// <https://www.iana.org/assignments/protocol-numbers/protocol-numbers.xhtml>
    pub protocol: u16,
    /// Whether the source IP address is static or assigned via DHCP.
    pub ip_address_origin: Ipv4AddressOrigin,
    /// Gateway IP address.
    pub gateway_ip_address: [u8; 4usize],
    /// Subnet mask.
    pub subnet_mask: [u8; 4usize],
}

impl Ipv4 {
    /// The length of the node's bytes.
    proof fn lemma_len(&self)
        ensures
            self.spec_node().len() == 27,
    {
        lemma_le_encode_len((27) as nat, 2);
        lemma_le_encode_len(self.local_port as nat, 2);
        lemma_le_encode_len(self.remote_port as nat, 2);
        lemma_le_encode_len(self.protocol as nat, 2);
    }

    /// The node's bytes are a well-formed node of its type, and hold each
    /// field at its offset: a node of this type read from them gives back
    /// the fields.
    pub proof fn lemma_layout(&self)
        requires
            self.spec_node().len() <= 0xffff,
        ensures
            is_node(self.spec_node()),
            crate::proto::device_path::messaging::ipv4_size_ok(self.spec_node()),
            self.spec_node()[0] == 0x03,
            self.spec_node()[1] == 0x0c,
            self.spec_node().subrange((4) as int, (4 + 4) as int) == self.local_ip_address@,
            self.spec_node().subrange((8) as int, (8 + 4) as int) == self.remote_ip_address@,
            le_at(self.spec_node(), (12) as int, 2) == self.local_port as nat,
            le_at(self.spec_node(), (14) as int, 2) == self.remote_port as nat,
            le_at(self.spec_node(), (16) as int, 2) == self.protocol as nat,
            self.spec_node()[(18) as int] == self.ip_address_origin.0,
            self.spec_node().subrange((19) as int, (19 + 4) as int) == self.gateway_ip_address@,
            self.spec_node().subrange((23) as int, (23 + 4) as int) == self.subnet_mask@,
    {
        self.lemma_len();
        lemma_le_encode_len((27) as nat, 2);
        lemma_le_encode_len(self.local_port as nat, 2);
        lemma_le_encode_len(self.remote_port as nat, 2);
        lemma_le_encode_len(self.protocol as nat, 2);
        lemma_pow256_values();
        let len: nat = (27) as nat;
        assert(self.spec_node().subrange(2, 4) =~= le_encode(len, 2));
        lemma_le_roundtrip(len, 2);
        assert(self.spec_node().subrange((4) as int, (4 + 4) as int) =~= self.local_ip_address@);
        assert(self.spec_node().subrange((8) as int, (8 + 4) as int) =~= self.remote_ip_address@);
        assert(self.spec_node().subrange((12) as int, (12 + 2) as int) =~= le_encode(self.local_port as nat, 2));
        lemma_le_roundtrip(self.local_port as nat, 2);
        assert(self.spec_node().subrange((14) as int, (14 + 2) as int) =~= le_encode(self.remote_port as nat, 2));
        lemma_le_roundtrip(self.remote_port as nat, 2);
        assert(self.spec_node().subrange((16) as int, (16 + 2) as int) =~= le_encode(self.protocol as nat, 2));
        lemma_le_roundtrip(self.protocol as nat, 2);
        assert(self.spec_node().subrange((19) as int, (19 + 4) as int) =~= self.gateway_ip_address@);
        assert(self.spec_node().subrange((23) as int, (23 + 4) as int) =~= self.subnet_mask@);
    }
}

impl BuildNode for Ipv4 {
    open spec fn spec_node(&self) -> Seq<u8> {
        node_header(0x03, 0x0c, (27) as nat)
            + self.local_ip_address@
            + self.remote_ip_address@
            + le_encode(self.local_port as nat, 2)
            + le_encode(self.remote_port as nat, 2)
            + le_encode(self.protocol as nat, 2)
            + seq![self.ip_address_origin.0]
            + self.gateway_ip_address@
            + self.subnet_mask@
    }

    open spec fn spec_buildable(&self) -> bool {
        true
    }

    fn size_in_bytes(&self) -> (r: Result<u16, BuildError>) {
        proof {
            self.lemma_len();
        }
        Ok(27)
    }

    fn write_data(&self, out: &mut Vec<u8>) {
        proof {
            self.lemma_len();
        }
        let size: u16 = 27;
        push_header(out, 0x03, 0x0c, size);
        push_bytes(out, self.local_ip_address.as_slice());
        push_bytes(out, self.remote_ip_address.as_slice());
        push_le(out, self.local_port as u64, 2);
        push_le(out, self.remote_port as u64, 2);
        push_le(out, self.protocol as u64, 2);
        out.push(self.ip_address_origin.0);
        push_bytes(out, self.gateway_ip_address.as_slice());
        push_bytes(out, self.subnet_mask.as_slice());
        proof {
            assert(out@ =~= old(out)@ + self.spec_node());
        }
    }
}

/// IPv6 messaging device path node.
pub struct Ipv6 {
    /// Local Ipv6 address.
    pub local_ip_address: [u8; 16usize],
    /// Remote Ipv6 address.
    pub remote_ip_address: [u8; 16usize],
    /// Local port number.
    pub local_port: u16,
    /// Remote port number.
    pub remote_port: u16,
    /// Network protocol. See
    /// <https://www.iana.org/assignments/protocol-numbers/protocol-numbers.xhtml>
    pub protocol: u16,
    /// Origin of the local IP address.
    pub ip_address_origin: Ipv6AddressOrigin,
    /// Prefix length.
    pub prefix_length: u8,
    /// Gateway IP address.
    pub gateway_ip_address: [u8; 16usize],
}

impl Ipv6 {
    /// The length of the node's bytes.
    proof fn lemma_len(&self)
        ensures
            self.spec_node().len() == 60,
    {
        lemma_le_encode_len((60) as nat, 2);
        lemma_le_encode_len(self.local_port as nat, 2);
        lemma_le_encode_len(self.remote_port as nat, 2);
        lemma_le_encode_len(self.protocol as nat, 2);
    }

    /// The node's bytes are a well-formed node of its type, and hold each
    /// field at its offset: a node of this type read from them gives back
    /// the fields.
    pub proof fn lemma_layout(&self)
        requires
            self.spec_node().len() <= 0xffff,
        ensures
            is_node(self.spec_node()),
            crate::proto::device_path::messaging::ipv6_size_ok(self.spec_node()),
            self.spec_node()[0] == 0x03,
            self.spec_node()[1] == 0x0d,
            self.spec_node().subrange((4) as int, (4 + 16) as int) == self.local_ip_address@,
            self.spec_node().subrange((20) as int, (20 + 16) as int) == self.remote_ip_address@,
            le_at(self.spec_node(), (36) as int, 2) == self.local_port as nat,
            le_at(self.spec_node(), (38) as int, 2) == self.remote_port as nat,
            le_at(self.spec_node(), (40) as int, 2) == self.protocol as nat,
            self.spec_node()[(42) as int] == self.ip_address_origin.0,
            self.spec_node()[(43) as int] == self.prefix_length,
            self.spec_node().subrange((44) as int, (44 + 16) as int) == self.gateway_ip_address@,
    {
        self.lemma_len();
        lemma_le_encode_len((60) as nat, 2);
        lemma_le_encode_len(self.local_port as nat, 2);
        lemma_le_encode_len(self.remote_port as nat, 2);
        lemma_le_encode_len(self.protocol as nat, 2);
        lemma_pow256_values();
        let len: nat = (60) as nat;
        assert(self.spec_node().subrange(2, 4) =~= le_encode(len, 2));
        lemma_le_roundtrip(len, 2);
        assert(self.spec_node().subrange((4) as int, (4 + 16) as int) =~= self.local_ip_address@);
        assert(self.spec_node().subrange((20) as int, (20 + 16) as int) =~= self.remote_ip_address@);
        assert(self.spec_node().subrange((36) as int, (36 + 2) as int) =~= le_encode(self.local_port as nat, 2));
        lemma_le_roundtrip(self.local_port as nat, 2);
        assert(self.spec_node().subrange((38) as int, (38 + 2) as int) =~= le_encode(self.remote_port as nat, 2));
        lemma_le_roundtrip(self.remote_port as nat, 2);
        assert(self.spec_node().subrange((40) as int, (40 + 2) as int) =~= le_encode(self.protocol as nat, 2));
        lemma_le_roundtrip(self.protocol as nat, 2);
        assert(self.spec_node().subrange((44) as int, (44 + 16) as int) =~= self.gateway_ip_address@);
    }
}

impl BuildNode for Ipv6 {
    open spec fn spec_node(&self) -> Seq<u8> {
        node_header(0x03, 0x0d, (60) as nat)
            + self.local_ip_address@
            + self.remote_ip_address@
            + le_encode(self.local_port as nat, 2)
            + le_encode(self.remote_port as nat, 2)
            + le_encode(self.protocol as nat, 2)
            + seq![self.ip_address_origin.0]
            + seq![self.prefix_length]
            + self.gateway_ip_address@
    }

    open spec fn spec_buildable(&self) -> bool {
        true
    }

    fn size_in_bytes(&self) -> (r: Result<u16, BuildError>) {
        proof {
            self.lemma_len();
        }
        Ok(60)
    }

    fn write_data(&self, out: &mut Vec<u8>) {
        proof {
            self.lemma_len();
        }
        let size: u16 = 60;
        push_header(out, 0x03, 0x0d, size);
        push_bytes(out, self.local_ip_address.as_slice());
        push_bytes(out, self.remote_ip_address.as_slice());
        push_le(out, self.local_port as u64, 2);
        push_le(out, self.remote_port as u64, 2);
        push_le(out, self.protocol as u64, 2);
        out.push(self.ip_address_origin.0);
        out.push(self.prefix_length);
        push_bytes(out, self.gateway_ip_address.as_slice());
        proof {
            assert(out@ =~= old(out)@ + self.spec_node());
        }
    }
}

/// VLAN messaging device path node.
pub struct Vlan {
    /// VLAN identifier (0-4094).
    pub vlan_id: u16,
}

impl Vlan {
    /// The length of the node's bytes.
    proof fn lemma_len(&self)
        ensures
            self.spec_node().len() == 6,
    {
        lemma_le_encode_len((6) as nat, 2);
        lemma_le_encode_len(self.vlan_id as nat, 2);
    }

    /// The node's bytes are a well-formed node of its type, and hold each
    /// field at its offset: a node of this type read from them gives back
    /// the fields.
    pub proof fn lemma_layout(&self)
        requires
            self.spec_node().len() <= 0xffff,
        ensures
            is_node(self.spec_node()),
            crate::proto::device_path::messaging::vlan_size_ok(self.spec_node()),
            self.spec_node()[0] == 0x03,
            self.spec_node()[1] == 0x14,
            le_at(self.spec_node(), (4) as int, 2) == self.vlan_id as nat,
    {
        self.lemma_len();
        lemma_le_encode_len((6) as nat, 2);
        lemma_le_encode_len(self.vlan_id as nat, 2);
        lemma_pow256_values();
        let len: nat = (6) as nat;
        assert(self.spec_node().subrange(2, 4) =~= le_encode(len, 2));
        lemma_le_roundtrip(len, 2);
        assert(self.spec_node().subrange((4) as int, (4 + 2) as int) =~= le_encode(self.vlan_id as nat, 2));
        lemma_le_roundtrip(self.vlan_id as nat, 2);
    }
}

impl BuildNode for Vlan {
    open spec fn spec_node(&self) -> Seq<u8> {
        node_header(0x03, 0x14, (6) as nat)
            + le_encode(self.vlan_id as nat, 2)
    }

    open spec fn spec_buildable(&self) -> bool {
        true
    }

    fn size_in_bytes(&self) -> (r: Result<u16, BuildError>) {
        proof {
            self.lemma_len();
        }
        Ok(6)
    }

    fn write_data(&self, out: &mut Vec<u8>) {
        proof {
            self.lemma_len();
        }
        let size: u16 = 6;
        push_header(out, 0x03, 0x14, size);
        push_le(out, self.vlan_id as u64, 2);
        proof {
            assert(out@ =~= old(out)@ + self.spec_node());
        }
    }
}

/// InfiniBand messaging device path node.
pub struct Infiniband {
    /// Flags to identify/manage InfiniBand elements.
    pub resource_flags: InfinibandResourceFlags,
    /// 128-bit Global Identifier for remote fabric port. Note that
    /// this is not the same as a UEFI GUID.
    pub port_gid: [u8; 16usize],
    /// IOC GUID if bit 0 of `resource_flags` is unset, or Service
    /// ID if bit 0 of `resource_flags` is set.
    pub ioc_guid_or_service_id: u64,
    /// 64-bit persistent ID of remote IOC port.
    pub target_port_id: u64,
    /// 64-bit persistent ID of remote device..
    pub device_id: u64,
}

impl Infiniband {
    /// The length of the node's bytes.
    proof fn lemma_len(&self)
        ensures
            self.spec_node().len() == 48,
    {
        lemma_le_encode_len((48) as nat, 2);
        lemma_le_encode_len(self.resource_flags@ as nat, 4);
        lemma_le_encode_len(self.ioc_guid_or_service_id as nat, 8);
        lemma_le_encode_len(self.target_port_id as nat, 8);
        lemma_le_encode_len(self.device_id as nat, 8);
    }

    /// The node's bytes are a well-formed node of its type, and hold each
    /// field at its offset: a node of this type read from them gives back
    /// the fields.
    pub proof fn lemma_layout(&self)
        requires
            self.spec_node().len() <= 0xffff,
        ensures
            is_node(self.spec_node()),
            crate::proto::device_path::messaging::infiniband_size_ok(self.spec_node()),
            self.spec_node()[0] == 0x03,
            self.spec_node()[1] == 0x09,
            le_at(self.spec_node(), (4) as int, 4) == self.resource_flags@ as nat,
            self.spec_node().subrange((8) as int, (8 + 16) as int) == self.port_gid@,
            le_at(self.spec_node(), (24) as int, 8) == self.ioc_guid_or_service_id as nat,
            le_at(self.spec_node(), (32) as int, 8) == self.target_port_id as nat,
            le_at(self.spec_node(), (40) as int, 8) == self.device_id as nat,
    {
        self.lemma_len();
        lemma_le_encode_len((48) as nat, 2);
        lemma_le_encode_len(self.resource_flags@ as nat, 4);
        lemma_le_encode_len(self.ioc_guid_or_service_id as nat, 8);
        lemma_le_encode_len(self.target_port_id as nat, 8);
        lemma_le_encode_len(self.device_id as nat, 8);
        lemma_pow256_values();
        let len: nat = (48) as nat;
        assert(self.spec_node().subrange(2, 4) =~= le_encode(len, 2));
        lemma_le_roundtrip(len, 2);
        assert(self.spec_node().subrange((4) as int, (4 + 4) as int) =~= le_encode(self.resource_flags@ as nat, 4));
        lemma_le_roundtrip(self.resource_flags@ as nat, 4);
        assert(self.spec_node().subrange((8) as int, (8 + 16) as int) =~= self.port_gid@);
        assert(self.spec_node().subrange((24) as int, (24 + 8) as int) =~= le_encode(self.ioc_guid_or_service_id as nat, 8));
        lemma_le_roundtrip(self.ioc_guid_or_service_id as nat, 8);
        assert(self.spec_node().subrange((32) as int, (32 + 8) as int) =~= le_encode(self.target_port_id as nat, 8));
        lemma_le_roundtrip(self.target_port_id as nat, 8);
        assert(self.spec_node().subrange((40) as int, (40 + 8) as int) =~= le_encode(self.device_id as nat, 8));
        lemma_le_roundtrip(self.device_id as nat, 8);
    }
}

impl BuildNode for Infiniband {
    open spec fn spec_node(&self) -> Seq<u8> {
        node_header(0x03, 0x09, (48) as nat)
            + le_encode(self.resource_flags@ as nat, 4)
            + self.port_gid@
            + le_encode(self.ioc_guid_or_service_id as nat, 8)
            + le_encode(self.target_port_id as nat, 8)
            + le_encode(self.device_id as nat, 8)
    }

    open spec fn spec_buildable(&self) -> bool {
        true
    }

    fn size_in_bytes(&self) -> (r: Result<u16, BuildError>) {
        proof {
            self.lemma_len();
        }
        Ok(48)
    }

    fn write_data(&self, out: &mut Vec<u8>) {
        proof {
            self.lemma_len();
        }
        let size: u16 = 48;
        push_header(out, 0x03, 0x09, size);
        push_le(out, self.resource_flags.bits() as u64, 4);
        push_bytes(out, self.port_gid.as_slice());
        push_le(out, self.ioc_guid_or_service_id as u64, 8);
        push_le(out, self.target_port_id as u64, 8);
        push_le(out, self.device_id as u64, 8);
        proof {
            assert(out@ =~= old(out)@ + self.spec_node());
        }
    }
}

/// UART messaging device path node.
pub struct Uart {
    /// Baud rate setting, or 0 to use the device's default.
    pub baud_rate: u64,
    /// Number of data bits, or 0 to use the device's default.
    pub data_bits: u8,
    /// Parity setting.
    pub parity: Parity,
    /// Number of stop bits.
    pub stop_bits: StopBits,
}

impl Uart {
    /// The length of the node's bytes.
    proof fn lemma_len(&self)
        ensures
            self.spec_node().len() == 19,
    {
        lemma_le_encode_len((19) as nat, 2);
        lemma_le_encode_len(0nat, 4);
        lemma_le_encode_len(self.baud_rate as nat, 8);
    }

    /// The node's bytes are a well-formed node of its type, and hold each
    /// field at its offset: a node of this type read from them gives back
    /// the fields.
    pub proof fn lemma_layout(&self)
        requires
            self.spec_node().len() <= 0xffff,
        ensures
            is_node(self.spec_node()),
            crate::proto::device_path::messaging::uart_size_ok(self.spec_node()),
            self.spec_node()[0] == 0x03,
            self.spec_node()[1] == 0x0e,
            le_at(self.spec_node(), (4) as int, 4) == 0nat,
            le_at(self.spec_node(), (8) as int, 8) == self.baud_rate as nat,
            self.spec_node()[(16) as int] == self.data_bits,
            self.spec_node()[(17) as int] == self.parity.0,
            self.spec_node()[(18) as int] == self.stop_bits.0,
    {
        self.lemma_len();
        lemma_le_encode_len((19) as nat, 2);
        lemma_le_encode_len(0nat, 4);
        lemma_le_encode_len(self.baud_rate as nat, 8);
        lemma_pow256_values();
        let len: nat = (19) as nat;
        assert(self.spec_node().subrange(2, 4) =~= le_encode(len, 2));
        lemma_le_roundtrip(len, 2);
        assert(self.spec_node().subrange((4) as int, (4 + 4) as int) =~= le_encode(0nat, 4));
        lemma_le_roundtrip(0nat, 4);
        assert(self.spec_node().subrange((8) as int, (8 + 8) as int) =~= le_encode(self.baud_rate as nat, 8));
        lemma_le_roundtrip(self.baud_rate as nat, 8);
    }
}

impl BuildNode for Uart {
    open spec fn spec_node(&self) -> Seq<u8> {
        node_header(0x03, 0x0e, (19) as nat)
            + le_encode(0nat, 4)
            + le_encode(self.baud_rate as nat, 8)
            + seq![self.data_bits]
            + seq![self.parity.0]
            + seq![self.stop_bits.0]
    }

    open spec fn spec_buildable(&self) -> bool {
        true
    }

    fn size_in_bytes(&self) -> (r: Result<u16, BuildError>) {
        proof {
            self.lemma_len();
        }
        Ok(19)
    }

    fn write_data(&self, out: &mut Vec<u8>) {
        proof {
            self.lemma_len();
        }
        let size: u16 = 19;
        push_header(out, 0x03, 0x0e, size);
        push_le(out, 0, 4);
        push_le(out, self.baud_rate as u64, 8);
        out.push(self.data_bits);
        out.push(self.parity.0);
        out.push(self.stop_bits.0);
        proof {
            assert(out@ =~= old(out)@ + self.spec_node());
        }
    }
}

/// Vendor-defined messaging device path node.
pub struct Vendor<'a> {
    /// Vendor-assigned GUID that defines the data that follows.
    pub vendor_guid: Guid,
    /// Vendor-defined data.
    pub vendor_defined_data: &'a [u8],
}

impl<'a> Vendor<'a> {
    /// The length of the node's bytes.
    proof fn lemma_len(&self)
        ensures
            self.spec_node().len() == 20 + self.vendor_defined_data@.len(),
    {
        lemma_le_encode_len((20 + self.vendor_defined_data@.len()) as nat, 2);
        self.vendor_guid.lemma_len();
    }

    /// The node's bytes are a well-formed node of its type, and hold each
    /// field at its offset: a node of this type read from them gives back
    /// the fields.
    pub proof fn lemma_layout(&self)
        requires
            self.spec_node().len() <= 0xffff,
        ensures
            is_node(self.spec_node()),
            crate::proto::device_path::messaging::vendor_size_ok(self.spec_node()),
            self.spec_node()[0] == 0x03,
            self.spec_node()[1] == 0x0a,
            self.spec_node().subrange((4) as int, (4 + 16) as int) == self.vendor_guid@,
            self.spec_node().subrange((20) as int, (20 + self.vendor_defined_data@.len()) as int) == self.vendor_defined_data@,
    {
        self.lemma_len();
        lemma_le_encode_len((20 + self.vendor_defined_data@.len()) as nat, 2);
        self.vendor_guid.lemma_len();
        lemma_pow256_values();
        let len: nat = (20 + self.vendor_defined_data@.len()) as nat;
        assert(self.spec_node().subrange(2, 4) =~= le_encode(len, 2));
        lemma_le_roundtrip(len, 2);
        assert(self.spec_node().subrange((4) as int, (4 + 16) as int) =~= self.vendor_guid@);
        assert(self.spec_node().subrange((20) as int, (20 + self.vendor_defined_data@.len()) as int) =~= self.vendor_defined_data@);
    }
}

impl<'a> BuildNode for Vendor<'a> {
    open spec fn spec_node(&self) -> Seq<u8> {
        node_header(0x03, 0x0a, (20 + self.vendor_defined_data@.len()) as nat)
            + self.vendor_guid@
            + self.vendor_defined_data@
    }

    open spec fn spec_buildable(&self) -> bool {
        true
    }

    fn size_in_bytes(&self) -> (r: Result<u16, BuildError>) {
        proof {
            self.lemma_len();
        }
        if self.vendor_defined_data.len() > 0xffff {
            return Err(BuildError::NodeTooBig);
        }
        let size: usize = 20 + self.vendor_defined_data.len();
        if size > 0xffff {
            Err(BuildError::NodeTooBig)
        } else {
            Ok(size as u16)
        }
    }

    fn write_data(&self, out: &mut Vec<u8>) {
        proof {
            self.lemma_len();
        }
        let size: u16 = (20 + self.vendor_defined_data.len()) as u16;
        push_header(out, 0x03, 0x0a, size);
        push_bytes(out, self.vendor_guid.to_bytes().as_slice());
        push_bytes(out, self.vendor_defined_data);
        proof {
            assert(out@ =~= old(out)@ + self.spec_node());
        }
    }
}

/// Serial Attached SCSI (SAS) extended messaging device path node.
pub struct SasEx {
    /// SAS address.
    pub sas_address: [u8; 8usize],
    /// Logical Unit Number.
    pub logical_unit_number: [u8; 8usize],
    /// Information about the device and its interconnect.
    pub info: u16,
    /// Relative Target Port (RTP).
    pub relative_target_port: u16,
}

impl SasEx {
    /// The length of the node's bytes.
    proof fn lemma_len(&self)
        ensures
            self.spec_node().len() == 24,
    {
        lemma_le_encode_len((24) as nat, 2);
        lemma_le_encode_len(self.info as nat, 2);
        lemma_le_encode_len(self.relative_target_port as nat, 2);
    }

    /// The node's bytes are a well-formed node of its type, and hold each
    /// field at its offset: a node of this type read from them gives back
    /// the fields.
    pub proof fn lemma_layout(&self)
        requires
            self.spec_node().len() <= 0xffff,
        ensures
            is_node(self.spec_node()),
            crate::proto::device_path::messaging::sas_ex_size_ok(self.spec_node()),
            self.spec_node()[0] == 0x03,
            self.spec_node()[1] == 0x16,
            self.spec_node().subrange((4) as int, (4 + 8) as int) == self.sas_address@,
            self.spec_node().subrange((12) as int, (12 + 8) as int) == self.logical_unit_number@,
            le_at(self.spec_node(), (20) as int, 2) == self.info as nat,
            le_at(self.spec_node(), (22) as int, 2) == self.relative_target_port as nat,
    {
        self.lemma_len();
        lemma_le_encode_len((24) as nat, 2);
        lemma_le_encode_len(self.info as nat, 2);
        lemma_le_encode_len(self.relative_target_port as nat, 2);
        lemma_pow256_values();
        let len: nat = (24) as nat;
        assert(self.spec_node().subrange(2, 4) =~= le_encode(len, 2));
        lemma_le_roundtrip(len, 2);
        assert(self.spec_node().subrange((4) as int, (4 + 8) as int) =~= self.sas_address@);
        assert(self.spec_node().subrange((12) as int, (12 + 8) as int) =~= self.logical_unit_number@);
        assert(self.spec_node().subrange((20) as int, (20 + 2) as int) =~= le_encode(self.info as nat, 2));
        lemma_le_roundtrip(self.info as nat, 2);
        assert(self.spec_node().subrange((22) as int, (22 + 2) as int) =~= le_encode(self.relative_target_port as nat, 2));
        lemma_le_roundtrip(self.relative_target_port as nat, 2);
    }
}

impl BuildNode for SasEx {
    open spec fn spec_node(&self) -> Seq<u8> {
        node_header(0x03, 0x16, (24) as nat)
            + self.sas_address@
            + self.logical_unit_number@
            + le_encode(self.info as nat, 2)
            + le_encode(self.relative_target_port as nat, 2)
    }

    open spec fn spec_buildable(&self) -> bool {
        true
    }

    fn size_in_bytes(&self) -> (r: Result<u16, BuildError>) {
        proof {
            self.lemma_len();
        }
        Ok(24)
    }

    fn write_data(&self, out: &mut Vec<u8>) {
        proof {
            self.lemma_len();
        }
        let size: u16 = 24;
        push_header(out, 0x03, 0x16, size);
        push_bytes(out, self.sas_address.as_slice());
        push_bytes(out, self.logical_unit_number.as_slice());
        push_le(out, self.info as u64, 2);
        push_le(out, self.relative_target_port as u64, 2);
        proof {
            assert(out@ =~= old(out)@ + self.spec_node());
        }
    }
}

/// iSCSI messaging device path node.
pub struct Iscsi<'a> {
    /// Network protocol.
    pub protocol: IscsiProtocol,
    /// iSCSI login options (bitfield).
    pub options: IscsiLoginOptions,
    /// iSCSI Logical Unit Number.
    pub logical_unit_number: [u8; 8usize],
    /// iSCSI Target Portal group tag the initiator intends to
    /// establish a session with.
    pub target_portal_group_tag: u16,
    /// iSCSI Node Target name.
    ///
    /// The UEFI Specification does not specify how the string is
    /// encoded, but gives one example that appears to be
    /// null-terminated ASCII.
    pub iscsi_target_name: &'a [u8],
}

impl<'a> Iscsi<'a> {
    /// The length of the node's bytes.
    proof fn lemma_len(&self)
        ensures
            self.spec_node().len() == 18 + self.iscsi_target_name@.len(),
    {
        lemma_le_encode_len((18 + self.iscsi_target_name@.len()) as nat, 2);
        lemma_le_encode_len(self.protocol.0 as nat, 2);
        lemma_le_encode_len(self.options@ as nat, 2);
        lemma_le_encode_len(self.target_portal_group_tag as nat, 2);
    }

    /// The node's bytes are a well-formed node of its type, and hold each
    /// field at its offset: a node of this type read from them gives back
    /// the fields.
    pub proof fn lemma_layout(&self)
        requires
            self.spec_node().len() <= 0xffff,
        ensures
            is_node(self.spec_node()),
            crate::proto::device_path::messaging::iscsi_size_ok(self.spec_node()),
            self.spec_node()[0] == 0x03,
            self.spec_node()[1] == 0x13,
            le_at(self.spec_node(), (4) as int, 2) == self.protocol.0 as nat,
            le_at(self.spec_node(), (6) as int, 2) == self.options@ as nat,
            self.spec_node().subrange((8) as int, (8 + 8) as int) == self.logical_unit_number@,
            le_at(self.spec_node(), (16) as int, 2) == self.target_portal_group_tag as nat,
            self.spec_node().subrange((18) as int, (18 + self.iscsi_target_name@.len()) as int) == self.iscsi_target_name@,
    {
        self.lemma_len();
        lemma_le_encode_len((18 + self.iscsi_target_name@.len()) as nat, 2);
        lemma_le_encode_len(self.protocol.0 as nat, 2);
        lemma_le_encode_len(self.options@ as nat, 2);
        lemma_le_encode_len(self.target_portal_group_tag as nat, 2);
        lemma_pow256_values();
        let len: nat = (18 + self.iscsi_target_name@.len()) as nat;
        assert(self.spec_node().subrange(2, 4) =~= le_encode(len, 2));
        lemma_le_roundtrip(len, 2);
        assert(self.spec_node().subrange((4) as int, (4 + 2) as int) =~= le_encode(self.protocol.0 as nat, 2));
        lemma_le_roundtrip(self.protocol.0 as nat, 2);
        assert(self.spec_node().subrange((6) as int, (6 + 2) as int) =~= le_encode(self.options@ as nat, 2));
        lemma_le_roundtrip(self.options@ as nat, 2);
        assert(self.spec_node().subrange((8) as int, (8 + 8) as int) =~= self.logical_unit_number@);
        assert(self.spec_node().subrange((16) as int, (16 + 2) as int) =~= le_encode(self.target_portal_group_tag as nat, 2));
        lemma_le_roundtrip(self.target_portal_group_tag as nat, 2);
        assert(self.spec_node().subrange((18) as int, (18 + self.iscsi_target_name@.len()) as int) =~= self.iscsi_target_name@);
    }
}

impl<'a> BuildNode for Iscsi<'a> {
    open spec fn spec_node(&self) -> Seq<u8> {
        node_header(0x03, 0x13, (18 + self.iscsi_target_name@.len()) as nat)
            + le_encode(self.protocol.0 as nat, 2)
            + le_encode(self.options@ as nat, 2)
            + self.logical_unit_number@
            + le_encode(self.target_portal_group_tag as nat, 2)
            + self.iscsi_target_name@
    }

    open spec fn spec_buildable(&self) -> bool {
        true
    }

    fn size_in_bytes(&self) -> (r: Result<u16, BuildError>) {
        proof {
            self.lemma_len();
        }
        if self.iscsi_target_name.len() > 0xffff {
            return Err(BuildError::NodeTooBig);
        }
        let size: usize = 18 + self.iscsi_target_name.len();
        if size > 0xffff {
            Err(BuildError::NodeTooBig)
        } else {
            Ok(size as u16)
        }
    }

    fn write_data(&self, out: &mut Vec<u8>) {
        proof {
            self.lemma_len();
        }
        let size: u16 = (18 + self.iscsi_target_name.len()) as u16;
        push_header(out, 0x03, 0x13, size);
        push_le(out, self.protocol.0 as u64, 2);
        push_le(out, self.options.bits() as u64, 2);
        push_bytes(out, self.logical_unit_number.as_slice());
        push_le(out, self.target_portal_group_tag as u64, 2);
        push_bytes(out, self.iscsi_target_name);
        proof {
            assert(out@ =~= old(out)@ + self.spec_node());
        }
    }
}

/// NVM Express namespace messaging device path node.
pub struct NvmeNamespace {
    /// Namespace identifier (NSID). The values 0 and 0xffff_ffff
    /// are invalid.
    pub namespace_identifier: u32,
    /// IEEE Extended Unique Identifier (EUI-64), or 0 if the device
    /// does not have a EUI-64.
    pub ieee_extended_unique_identifier: u64,
}

impl NvmeNamespace {
    /// The length of the node's bytes.
    proof fn lemma_len(&self)
        ensures
            self.spec_node().len() == 16,
    {
        lemma_le_encode_len((16) as nat, 2);
        lemma_le_encode_len(self.namespace_identifier as nat, 4);
        lemma_le_encode_len(self.ieee_extended_unique_identifier as nat, 8);
    }

    /// The node's bytes are a well-formed node of its type, and hold each
    /// field at its offset: a node of this type read from them gives back
    /// the fields.
    pub proof fn lemma_layout(&self)
        requires
            self.spec_node().len() <= 0xffff,
        ensures
            is_node(self.spec_node()),
            crate::proto::device_path::messaging::nvme_namespace_size_ok(self.spec_node()),
            self.spec_node()[0] == 0x03,
            self.spec_node()[1] == 0x17,
            le_at(self.spec_node(), (4) as int, 4) == self.namespace_identifier as nat,
            le_at(self.spec_node(), (8) as int, 8) == self.ieee_extended_unique_identifier as nat,
    {
        self.lemma_len();
        lemma_le_encode_len((16) as nat, 2);
        lemma_le_encode_len(self.namespace_identifier as nat, 4);
        lemma_le_encode_len(self.ieee_extended_unique_identifier as nat, 8);
        lemma_pow256_values();
        let len: nat = (16) as nat;
        assert(self.spec_node().subrange(2, 4) =~= le_encode(len, 2));
        lemma_le_roundtrip(len, 2);
        assert(self.spec_node().subrange((4) as int, (4 + 4) as int) =~= le_encode(self.namespace_identifier as nat, 4));
        lemma_le_roundtrip(self.namespace_identifier as nat, 4);
        assert(self.spec_node().subrange((8) as int, (8 + 8) as int) =~= le_encode(self.ieee_extended_unique_identifier as nat, 8));
        lemma_le_roundtrip(self.ieee_extended_unique_identifier as nat, 8);
    }
}

impl BuildNode for NvmeNamespace {
    open spec fn spec_node(&self) -> Seq<u8> {
        node_header(0x03, 0x17, (16) as nat)
            + le_encode(self.namespace_identifier as nat, 4)
            + le_encode(self.ieee_extended_unique_identifier as nat, 8)
    }

    open spec fn spec_buildable(&self) -> bool {
        true
    }

    fn size_in_bytes(&self) -> (r: Result<u16, BuildError>) {
        proof {
            self.lemma_len();
        }
        Ok(16)
    }

    fn write_data(&self, out: &mut Vec<u8>) {
        proof {
            self.lemma_len();
        }
        let size: u16 = 16;
        push_header(out, 0x03, 0x17, size);
        push_le(out, self.namespace_identifier as u64, 4);
        push_le(out, self.ieee_extended_unique_identifier as u64, 8);
        proof {
            assert(out@ =~= old(out)@ + self.spec_node());
        }
    }
}

/// Uniform Resource Identifier (URI) messaging device path node.
pub struct Uri<'a> {
    /// URI as defined by [RFC 3986](https://www.rfc-editor.org/rfc/rfc3986).
    pub value: &'a [u8],
}

impl<'a> Uri<'a> {
    /// The length of the node's bytes.
    proof fn lemma_len(&self)
        ensures
            self.spec_node().len() == 4 + self.value@.len(),
    {
        lemma_le_encode_len((4 + self.value@.len()) as nat, 2);
    }

    /// The node's bytes are a well-formed node of its type, and hold each
    /// field at its offset: a node of this type read from them gives back
    /// the fields.
    pub proof fn lemma_layout(&self)
        requires
            self.spec_node().len() <= 0xffff,
        ensures
            is_node(self.spec_node()),
            crate::proto::device_path::messaging::uri_size_ok(self.spec_node()),
            self.spec_node()[0] == 0x03,
            self.spec_node()[1] == 0x18,
            self.spec_node().subrange((4) as int, (4 + self.value@.len()) as int) == self.value@,
    {
        self.lemma_len();
        lemma_le_encode_len((4 + self.value@.len()) as nat, 2);
        lemma_pow256_values();
        let len: nat = (4 + self.value@.len()) as nat;
        assert(self.spec_node().subrange(2, 4) =~= le_encode(len, 2));
        lemma_le_roundtrip(len, 2);
        assert(self.spec_node().subrange((4) as int, (4 + self.value@.len()) as int) =~= self.value@);
    }
}

impl<'a> BuildNode for Uri<'a> {
    open spec fn spec_node(&self) -> Seq<u8> {
        node_header(0x03, 0x18, (4 + self.value@.len()) as nat)
            + self.value@
    }

    open spec fn spec_buildable(&self) -> bool {
        true
    }

    fn size_in_bytes(&self) -> (r: Result<u16, BuildError>) {
        proof {
            self.lemma_len();
        }
        if self.value.len() > 0xffff {
            return Err(BuildError::NodeTooBig);
        }
        let size: usize = 4 + self.value.len();
        if size > 0xffff {
            Err(BuildError::NodeTooBig)
        } else {
            Ok(size as u16)
        }
    }

    fn write_data(&self, out: &mut Vec<u8>) {
        proof {
            self.lemma_len();
        }
        let size: u16 = (4 + self.value.len()) as u16;
        push_header(out, 0x03, 0x18, size);
        push_bytes(out, self.value);
        proof {
            assert(out@ =~= old(out)@ + self.spec_node());
        }
    }
}

/// Universal Flash Storage (UFS) messaging device path node.
pub struct Ufs {
    /// Target ID on the UFS interface (PUN).
    pub target_id: u8,
    /// Logical Unit Number (LUN).
    pub logical_unit_number: u8,
}

impl Ufs {
    /// The length of the node's bytes.
    proof fn lemma_len(&self)
        ensures
            self.spec_node().len() == 6,
    {
        lemma_le_encode_len((6) as nat, 2);
    }

    /// The node's bytes are a well-formed node of its type, and hold each
    /// field at its offset: a node of this type read from them gives back
    /// the fields.
    pub proof fn lemma_layout(&self)
        requires
            self.spec_node().len() <= 0xffff,
        ensures
            is_node(self.spec_node()),
            crate::proto::device_path::messaging::ufs_size_ok(self.spec_node()),
            self.spec_node()[0] == 0x03,
            self.spec_node()[1] == 0x19,
            self.spec_node()[(4) as int] == self.target_id,
            self.spec_node()[(5) as int] == self.logical_unit_number,
    {
        self.lemma_len();
        lemma_le_encode_len((6) as nat, 2);
        lemma_pow256_values();
        let len: nat = (6) as nat;
        assert(self.spec_node().subrange(2, 4) =~= le_encode(len, 2));
        lemma_le_roundtrip(len, 2);
    }
}

impl BuildNode for Ufs {
    open spec fn spec_node(&self) -> Seq<u8> {
        node_header(0x03, 0x19, (6) as nat)
            + seq![self.target_id]
            + seq![self.logical_unit_number]
    }

    open spec fn spec_buildable(&self) -> bool {
        true
    }

    fn size_in_bytes(&self) -> (r: Result<u16, BuildError>) {
        proof {
            self.lemma_len();
        }
        Ok(6)
    }

    fn write_data(&self, out: &mut Vec<u8>) {
        proof {
            self.lemma_len();
        }
        let size: u16 = 6;
        push_header(out, 0x03, 0x19, size);
        out.push(self.target_id);
        out.push(self.logical_unit_number);
        proof {
            assert(out@ =~= old(out)@ + self.spec_node());
        }
    }
}

/// Secure Digital (SD) messaging device path node.
pub struct Sd {
    /// Slot number.
    pub slot_number: u8,
}

impl Sd {
    /// The length of the node's bytes.
    proof fn lemma_len(&self)
        ensures
            self.spec_node().len() == 5,
    {
        lemma_le_encode_len((5) as nat, 2);
    }

    /// The node's bytes are a well-formed node of its type, and hold each
    /// field at its offset: a node of this type read from them gives back
    /// the fields.
    pub proof fn lemma_layout(&self)
        requires
            self.spec_node().len() <= 0xffff,
        ensures
            is_node(self.spec_node()),
            crate::proto::device_path::messaging::sd_size_ok(self.spec_node()),
            self.spec_node()[0] == 0x03,
            self.spec_node()[1] == 0x1a,
            self.spec_node()[(4) as int] == self.slot_number,
    {
        self.lemma_len();
        lemma_le_encode_len((5) as nat, 2);
        lemma_pow256_values();
        let len: nat = (5) as nat;
        assert(self.spec_node().subrange(2, 4) =~= le_encode(len, 2));
        lemma_le_roundtrip(len, 2);
    }
}

impl BuildNode for Sd {
    open spec fn spec_node(&self) -> Seq<u8> {
        node_header(0x03, 0x1a, (5) as nat)
            + seq![self.slot_number]
    }

    open spec fn spec_buildable(&self) -> bool {
        true
    }

    fn size_in_bytes(&self) -> (r: Result<u16, BuildError>) {
        proof {
            self.lemma_len();
        }
        Ok(5)
    }

    fn write_data(&self, out: &mut Vec<u8>) {
        proof {
            self.lemma_len();
        }
        let size: u16 = 5;
        push_header(out, 0x03, 0x1a, size);
        out.push(self.slot_number);
        proof {
            assert(out@ =~= old(out)@ + self.spec_node());
        }
    }
}

/// Bluetooth messaging device path node.
pub struct Bluetooth {
    /// 48-bit bluetooth device address.
    pub device_address: [u8; 6usize],
}

impl Bluetooth {
    /// The length of the node's bytes.
    proof fn lemma_len(&self)
        ensures
            self.spec_node().len() == 10,
    {
        lemma_le_encode_len((10) as nat, 2);
    }

    /// The node's bytes are a well-formed node of its type, and hold each
    /// field at its offset: a node of this type read from them gives back
    /// the fields.
    pub proof fn lemma_layout(&self)
        requires
            self.spec_node().len() <= 0xffff,
        ensures
            is_node(self.spec_node()),
            crate::proto::device_path::messaging::bluetooth_size_ok(self.spec_node()),
            self.spec_node()[0] == 0x03,
            self.spec_node()[1] == 0x1b,
            self.spec_node().subrange((4) as int, (4 + 6) as int) == self.device_address@,
    {
        self.lemma_len();
        lemma_le_encode_len((10) as nat, 2);
        lemma_pow256_values();
        let len: nat = (10) as nat;
        assert(self.spec_node().subrange(2, 4) =~= le_encode(len, 2));
        lemma_le_roundtrip(len, 2);
        assert(self.spec_node().subrange((4) as int, (4 + 6) as int) =~= self.device_address@);
    }
}

impl BuildNode for Bluetooth {
    open spec fn spec_node(&self) -> Seq<u8> {
        node_header(0x03, 0x1b, (10) as nat)
            + self.device_address@
    }

    open spec fn spec_buildable(&self) -> bool {
        true
    }

    fn size_in_bytes(&self) -> (r: Result<u16, BuildError>) {
        proof {
            self.lemma_len();
        }
        Ok(10)
    }

    fn write_data(&self, out: &mut Vec<u8>) {
        proof {
            self.lemma_len();
        }
        let size: u16 = 10;
        push_header(out, 0x03, 0x1b, size);
        push_bytes(out, self.device_address.as_slice());
        proof {
            assert(out@ =~= old(out)@ + self.spec_node());
        }
    }
}

/// Wi-Fi messaging device path node.
pub struct Wifi {
    /// Service set identifier (SSID).
    pub ssid: [u8; 32usize],
}

impl Wifi {
    /// The length of the node's bytes.
    proof fn lemma_len(&self)
        ensures
            self.spec_node().len() == 36,
    {
        lemma_le_encode_len((36) as nat, 2);
    }

    /// The node's bytes are a well-formed node of its type, and hold each
    /// field at its offset: a node of this type read from them gives back
    /// the fields.
    pub proof fn lemma_layout(&self)
        requires
            self.spec_node().len() <= 0xffff,
        ensures
            is_node(self.spec_node()),
            crate::proto::device_path::messaging::wifi_size_ok(self.spec_node()),
            self.spec_node()[0] == 0x03,
            self.spec_node()[1] == 0x1c,
            self.spec_node().subrange((4) as int, (4 + 32) as int) == self.ssid@,
    {
        self.lemma_len();
        lemma_le_encode_len((36) as nat, 2);
        lemma_pow256_values();
        let len: nat = (36) as nat;
        assert(self.spec_node().subrange(2, 4) =~= le_encode(len, 2));
        lemma_le_roundtrip(len, 2);
        assert(self.spec_node().subrange((4) as int, (4 + 32) as int) =~= self.ssid@);
    }
}

impl BuildNode for Wifi {
    open spec fn spec_node(&self) -> Seq<u8> {
        node_header(0x03, 0x1c, (36) as nat)
            + self.ssid@
    }

    open spec fn spec_buildable(&self) -> bool {
        true
    }

    fn size_in_bytes(&self) -> (r: Result<u16, BuildError>) {
        proof {
            self.lemma_len();
        }
        Ok(36)
    }

    fn write_data(&self, out: &mut Vec<u8>) {
        proof {
            self.lemma_len();
        }
        let size: u16 = 36;
        push_header(out, 0x03, 0x1c, size);
        push_bytes(out, self.ssid.as_slice());
        proof {
            assert(out@ =~= old(out)@ + self.spec_node());
        }
    }
}

/// Embedded Multi-Media Card (eMMC) messaging device path node.
pub struct Emmc {
    /// Slot number.
    pub slot_number: u8,
}

impl Emmc {
    /// The length of the node's bytes.
    proof fn lemma_len(&self)
        ensures
            self.spec_node().len() == 5,
    {
        lemma_le_encode_len((5) as nat, 2);
    }

    /// The node's bytes are a well-formed node of its type, and hold each
    /// field at its offset: a node of this type read from them gives back
    /// the fields.
    pub proof fn lemma_layout(&self)
        requires
            self.spec_node().len() <= 0xffff,
        ensures
            is_node(self.spec_node()),
            crate::proto::device_path::messaging::emmc_size_ok(self.spec_node()),
            self.spec_node()[0] == 0x03,
            self.spec_node()[1] == 0x1d,
            self.spec_node()[(4) as int] == self.slot_number,
    {
        self.lemma_len();
        lemma_le_encode_len((5) as nat, 2);
        lemma_pow256_values();
        let len: nat = (5) as nat;
        assert(self.spec_node().subrange(2, 4) =~= le_encode(len, 2));
        lemma_le_roundtrip(len, 2);
    }
}

impl BuildNode for Emmc {
    open spec fn spec_node(&self) -> Seq<u8> {
        node_header(0x03, 0x1d, (5) as nat)
            + seq![self.slot_number]
    }

    open spec fn spec_buildable(&self) -> bool {
        true
    }

    fn size_in_bytes(&self) -> (r: Result<u16, BuildError>) {
        proof {
            self.lemma_len();
        }
        Ok(5)
    }

    fn write_data(&self, out: &mut Vec<u8>) {
        proof {
            self.lemma_len();
        }
        let size: u16 = 5;
        push_header(out, 0x03, 0x1d, size);
        out.push(self.slot_number);
        proof {
            assert(out@ =~= old(out)@ + self.spec_node());
        }
    }
}

/// BluetoothLE messaging device path node.
pub struct BluetoothLe {
    /// 48-bit bluetooth device address.
    pub device_address: [u8; 6usize],
    /// Address type.
    pub address_type: BluetoothLeAddressType,
}

impl BluetoothLe {
    /// The length of the node's bytes.
    proof fn lemma_len(&self)
        ensures
            self.spec_node().len() == 11,
    {
        lemma_le_encode_len((11) as nat, 2);
    }

    /// The node's bytes are a well-formed node of its type, and hold each
    /// field at its offset: a node of this type read from them gives back
    /// the fields.
    pub proof fn lemma_layout(&self)
        requires
            self.spec_node().len() <= 0xffff,
        ensures
            is_node(self.spec_node()),
            crate::proto::device_path::messaging::bluetooth_le_size_ok(self.spec_node()),
            self.spec_node()[0] == 0x03,
            self.spec_node()[1] == 0x1e,
            self.spec_node().subrange((4) as int, (4 + 6) as int) == self.device_address@,
            self.spec_node()[(10) as int] == self.address_type.0,
    {
        self.lemma_len();
        lemma_le_encode_len((11) as nat, 2);
        lemma_pow256_values();
        let len: nat = (11) as nat;
        assert(self.spec_node().subrange(2, 4) =~= le_encode(len, 2));
        lemma_le_roundtrip(len, 2);
        assert(self.spec_node().subrange((4) as int, (4 + 6) as int) =~= self.device_address@);
    }
}

impl BuildNode for BluetoothLe {
    open spec fn spec_node(&self) -> Seq<u8> {
        node_header(0x03, 0x1e, (11) as nat)
            + self.device_address@
            + seq![self.address_type.0]
    }

    open spec fn spec_buildable(&self) -> bool {
        true
    }

    fn size_in_bytes(&self) -> (r: Result<u16, BuildError>) {
        proof {
            self.lemma_len();
        }
        Ok(11)
    }

    fn write_data(&self, out: &mut Vec<u8>) {
        proof {
            self.lemma_len();
        }
        let size: u16 = 11;
        push_header(out, 0x03, 0x1e, size);
        push_bytes(out, self.device_address.as_slice());
        out.push(self.address_type.0);
        proof {
            assert(out@ =~= old(out)@ + self.spec_node());
        }
    }
}

/// DNS messaging device path node.
pub struct Dns<'a> {
    /// Whether the addresses are IPv4 or IPv6.
    pub address_type: DnsAddressType,
    /// One or more instances of the DNS server address.
    pub addresses: &'a [IpAddress],
}

impl<'a> Dns<'a> {
    /// The length of the node's bytes.
    proof fn lemma_len(&self)
        ensures
            self.spec_node().len() == 5 + 16 * self.addresses@.len(),
    {
        lemma_le_encode_len((5 + 16 * self.addresses@.len()) as nat, 2);
        lemma_addresses_bytes_len(self.addresses@);
    }

    /// The node's bytes are a well-formed node of its type, and hold each
    /// field at its offset: a node of this type read from them gives back
    /// the fields.
    pub proof fn lemma_layout(&self)
        requires
            self.spec_node().len() <= 0xffff,
        ensures
            is_node(self.spec_node()),
            crate::proto::device_path::messaging::dns_size_ok(self.spec_node()),
            self.spec_node()[0] == 0x03,
            self.spec_node()[1] == 0x1f,
            self.spec_node()[(4) as int] == self.address_type.0,
            self.spec_node().subrange((5) as int, (5 + 16 * self.addresses@.len()) as int) == addresses_bytes(self.addresses@),
    {
        self.lemma_len();
        lemma_le_encode_len((5 + 16 * self.addresses@.len()) as nat, 2);
        lemma_addresses_bytes_len(self.addresses@);
        lemma_pow256_values();
        let len: nat = (5 + 16 * self.addresses@.len()) as nat;
        assert(self.spec_node().subrange(2, 4) =~= le_encode(len, 2));
        lemma_le_roundtrip(len, 2);
        assert(self.spec_node().subrange((5) as int, (5 + 16 * self.addresses@.len()) as int) =~= addresses_bytes(self.addresses@));
    }
}

impl<'a> BuildNode for Dns<'a> {
    open spec fn spec_node(&self) -> Seq<u8> {
        node_header(0x03, 0x1f, (5 + 16 * self.addresses@.len()) as nat)
            + seq![self.address_type.0]
            + addresses_bytes(self.addresses@)
    }

    open spec fn spec_buildable(&self) -> bool {
        true
    }

    fn size_in_bytes(&self) -> (r: Result<u16, BuildError>) {
        proof {
            self.lemma_len();
        }
        if self.addresses.len() > 0xffff {
            return Err(BuildError::NodeTooBig);
        }
        let size: usize = 5 + 16 * self.addresses.len();
        if size > 0xffff {
            Err(BuildError::NodeTooBig)
        } else {
            Ok(size as u16)
        }
    }

    fn write_data(&self, out: &mut Vec<u8>) {
        proof {
            self.lemma_len();
        }
        let size: u16 = (5 + 16 * self.addresses.len()) as u16;
        push_header(out, 0x03, 0x1f, size);
        out.push(self.address_type.0);
        push_addresses(out, self.addresses);
        proof {
            assert(out@ =~= old(out)@ + self.spec_node());
        }
    }
}

/// NVDIMM namespace messaging device path node.
pub struct NvdimmNamespace {
    /// Namespace unique label identifier.
    pub uuid: [u8; 16usize],
}

impl NvdimmNamespace {
    /// The length of the node's bytes.
    proof fn lemma_len(&self)
        ensures
            self.spec_node().len() == 20,
    {
        lemma_le_encode_len((20) as nat, 2);
    }

    /// The node's bytes are a well-formed node of its type, and hold each
    /// field at its offset: a node of this type read from them gives back
    /// the fields.
    pub proof fn lemma_layout(&self)
        requires
            self.spec_node().len() <= 0xffff,
        ensures
            is_node(self.spec_node()),
            crate::proto::device_path::messaging::nvdimm_namespace_size_ok(self.spec_node()),
            self.spec_node()[0] == 0x03,
            self.spec_node()[1] == 0x20,
            self.spec_node().subrange((4) as int, (4 + 16) as int) == self.uuid@,
    {
        self.lemma_len();
        lemma_le_encode_len((20) as nat, 2);
        lemma_pow256_values();
        let len: nat = (20) as nat;
        assert(self.spec_node().subrange(2, 4) =~= le_encode(len, 2));
        lemma_le_roundtrip(len, 2);
        assert(self.spec_node().subrange((4) as int, (4 + 16) as int) =~= self.uuid@);
    }
}

impl BuildNode for NvdimmNamespace {
    open spec fn spec_node(&self) -> Seq<u8> {
        node_header(0x03, 0x20, (20) as nat)
            + self.uuid@
    }

    open spec fn spec_buildable(&self) -> bool {
        true
    }

    fn size_in_bytes(&self) -> (r: Result<u16, BuildError>) {
        proof {
            self.lemma_len();
        }
        Ok(20)
    }

    fn write_data(&self, out: &mut Vec<u8>) {
        proof {
            self.lemma_len();
        }
        let size: u16 = 20;
        push_header(out, 0x03, 0x20, size);
        push_bytes(out, self.uuid.as_slice());
        proof {
            assert(out@ =~= old(out)@ + self.spec_node());
        }
    }
}

/// REST service messaging device path node.
pub struct RestService<'a> {
    /// Type of REST service.
    pub service_type: RestServiceType,
    /// Whether the service is in-band or out-of-band.
    pub access_mode: RestServiceAccessMode,
    /// Vendor-specific data. Only used if the service type is [`VENDOR`].
    ///
    /// [`VENDOR`]: uefi::proto::device_path::messaging::RestServiceType
    pub vendor_guid_and_data: Option<RestServiceVendorData<'a>>,
}

/// The vendor GUID and data that a REST service node stores after its
/// fixed fields.
pub open spec fn spec_vendor_bytes(v: Option<RestServiceVendorData<'_>>) -> Seq<u8> {
    match v {
        Some(src) => src.vendor_guid@ + src.vendor_defined_data@,
        None => Seq::empty(),
    }
}

impl<'a> RestService<'a> {
    /// The length of the node's bytes.
    proof fn lemma_len(&self)
        ensures
            self.spec_node().len() == 6 + spec_vendor_bytes(self.vendor_guid_and_data).len(),
    {
        lemma_le_encode_len((6 + spec_vendor_bytes(self.vendor_guid_and_data).len()) as nat, 2);
        match self.vendor_guid_and_data {
            Some(src) => src.vendor_guid.lemma_len(),
            None => {},
        }
    }

    /// The node's bytes are a well-formed node of its type, and hold each
    /// field at its offset: a node of this type read from them gives back
    /// the fields.
    pub proof fn lemma_layout(&self)
        requires
            self.spec_node().len() <= 0xffff,
        ensures
            is_node(self.spec_node()),
            crate::proto::device_path::messaging::rest_service_size_ok(self.spec_node()),
            self.spec_node()[0] == 0x03,
            self.spec_node()[1] == 0x21,
            self.spec_node()[4] == self.service_type.0,
            self.spec_node()[5] == self.access_mode.0,
            self.spec_node().subrange(6, self.spec_node().len() as int) == spec_vendor_bytes(
                self.vendor_guid_and_data,
            ),
    {
        self.lemma_len();
        lemma_pow256_values();
        let len: nat = (6 + spec_vendor_bytes(self.vendor_guid_and_data).len()) as nat;
        assert(self.spec_node().subrange(2, 4) =~= le_encode(len, 2));
        lemma_le_roundtrip(len, 2);
        assert(self.spec_node().subrange(6, self.spec_node().len() as int) =~= spec_vendor_bytes(
            self.vendor_guid_and_data,
        ));
    }

    fn build_size_vendor_guid_and_data(&self) -> (r: usize)
        requires
            self.spec_buildable(),
        ensures
            r == spec_vendor_bytes(self.vendor_guid_and_data).len() || (r > 0xffff
                && spec_vendor_bytes(self.vendor_guid_and_data).len() > 0xffff),
    {
        if let Some(src) = &self.vendor_guid_and_data {
            proof {
                src.vendor_guid.lemma_len();
            }
            if src.vendor_defined_data.len() > 0xffff {
                0x10000
            } else {
                16 + src.vendor_defined_data.len()
            }
        } else {
            0
        }
    }

    fn build_vendor_guid_and_data(&self, out: &mut Vec<u8>)
        requires
            self.spec_buildable(),
        ensures
            final(out)@ == old(out)@ + spec_vendor_bytes(self.vendor_guid_and_data),
    {
        if let Some(src) = &self.vendor_guid_and_data {
            push_bytes(out, src.vendor_guid.to_bytes().as_slice());
            push_bytes(out, src.vendor_defined_data);
            proof {
                assert(out@ =~= old(out)@ + spec_vendor_bytes(self.vendor_guid_and_data));
            }
        } else {
            proof {
                assert(out@ =~= old(out)@ + spec_vendor_bytes(self.vendor_guid_and_data));
            }
        }
    }
}

impl<'a> BuildNode for RestService<'a> {
    open spec fn spec_node(&self) -> Seq<u8> {
        node_header(0x03, 0x21, (6 + spec_vendor_bytes(self.vendor_guid_and_data).len()) as nat)
            + seq![self.service_type.0] + seq![self.access_mode.0] + spec_vendor_bytes(
            self.vendor_guid_and_data,
        )
    }

    /// Vendor data is only given for the vendor service type.
    open spec fn spec_buildable(&self) -> bool {
        self.vendor_guid_and_data is Some ==> self.service_type.0 == 0xff
    }

    fn size_in_bytes(&self) -> (r: Result<u16, BuildError>) {
        proof {
            self.lemma_len();
        }
        let extra = self.build_size_vendor_guid_and_data();
        if extra > 0xffff - 6 {
            Err(BuildError::NodeTooBig)
        } else {
            Ok((6 + extra) as u16)
        }
    }

    fn write_data(&self, out: &mut Vec<u8>) {
        proof {
            self.lemma_len();
        }
        let size: u16 = (6 + self.build_size_vendor_guid_and_data()) as u16;
        push_header(out, 0x03, 0x21, size);
        out.push(self.service_type.0);
        out.push(self.access_mode.0);
        self.build_vendor_guid_and_data(out);
        proof {
            assert(out@ =~= old(out)@ + self.spec_node());
        }
    }
}

/// NVME over Fabric (NVMe-oF) namespace messaging device path node.
pub struct NvmeOfNamespace<'a> {
    /// Namespace Identifier Type (NIDT).
    pub nidt: u8,
    /// Namespace Identifier (NID).
    pub nid: [u8; 16usize],
    /// Unique identifier of an NVM subsystem stored as a
    /// null-terminated UTF-8 string. Maximum length of 224 bytes.
    pub subsystem_nqn: &'a [u8],
}

impl<'a> NvmeOfNamespace<'a> {
    /// The length of the node's bytes.
    proof fn lemma_len(&self)
        ensures
            self.spec_node().len() == 21 + self.subsystem_nqn@.len(),
    {
        lemma_le_encode_len((21 + self.subsystem_nqn@.len()) as nat, 2);
    }

    /// The node's bytes are a well-formed node of its type, and hold each
    /// field at its offset: a node of this type read from them gives back
    /// the fields.
    pub proof fn lemma_layout(&self)
        requires
            self.spec_node().len() <= 0xffff,
        ensures
            is_node(self.spec_node()),
            crate::proto::device_path::messaging::nvme_of_namespace_size_ok(self.spec_node()),
            self.spec_node()[0] == 0x03,
            self.spec_node()[1] == 0x22,
            self.spec_node()[(4) as int] == self.nidt,
            self.spec_node().subrange((5) as int, (5 + 16) as int) == self.nid@,
            self.spec_node().subrange((21) as int, (21 + self.subsystem_nqn@.len()) as int) == self.subsystem_nqn@,
    {
        self.lemma_len();
        lemma_le_encode_len((21 + self.subsystem_nqn@.len()) as nat, 2);
        lemma_pow256_values();
        let len: nat = (21 + self.subsystem_nqn@.len()) as nat;
        assert(self.spec_node().subrange(2, 4) =~= le_encode(len, 2));
        lemma_le_roundtrip(len, 2);
        assert(self.spec_node().subrange((5) as int, (5 + 16) as int) =~= self.nid@);
        assert(self.spec_node().subrange((21) as int, (21 + self.subsystem_nqn@.len()) as int) =~= self.subsystem_nqn@);
    }
}

impl<'a> BuildNode for NvmeOfNamespace<'a> {
    open spec fn spec_node(&self) -> Seq<u8> {
        node_header(0x03, 0x22, (21 + self.subsystem_nqn@.len()) as nat)
            + seq![self.nidt]
            + self.nid@
            + self.subsystem_nqn@
    }

    open spec fn spec_buildable(&self) -> bool {
        true
    }

    fn size_in_bytes(&self) -> (r: Result<u16, BuildError>) {
        proof {
            self.lemma_len();
        }
        if self.subsystem_nqn.len() > 0xffff {
            return Err(BuildError::NodeTooBig);
        }
        let size: usize = 21 + self.subsystem_nqn.len();
        if size > 0xffff {
            Err(BuildError::NodeTooBig)
        } else {
            Ok(size as u16)
        }
    }

    fn write_data(&self, out: &mut Vec<u8>) {
        proof {
            self.lemma_len();
        }
        let size: u16 = (21 + self.subsystem_nqn.len()) as u16;
        push_header(out, 0x03, 0x22, size);
        out.push(self.nidt);
        push_bytes(out, self.nid.as_slice());
        push_bytes(out, self.subsystem_nqn);
        proof {
            assert(out@ =~= old(out)@ + self.spec_node());
        }
    }
}

/// Vendor-specific REST service data. Only used for service type [`VENDOR`].
///
/// [`VENDOR`]: uefi::proto::device_path::messaging::RestServiceType
pub struct RestServiceVendorData<'a> {
    /// Vendor GUID.
    pub vendor_guid: Guid,
    /// Vendor-defined data.
    pub vendor_defined_data: &'a [u8],
}

} // verus!
