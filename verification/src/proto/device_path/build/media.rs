//! Device path build nodes for [`DeviceType::MEDIA`].
#![allow(unused_imports)]
use crate::data_types::bytes::{
    le_at, le_encode, lemma_le_encode_len, lemma_le_roundtrip, lemma_pow256_values, push_bytes, push_le,
};
use crate::data_types::{CStr16, Guid};
use crate::proto::device_path::build::{BuildError, BuildNode};
use crate::proto::device_path::hardware::BmcInterfaceType;
use crate::proto::device_path::media::{
    lemma_signature_bytes_len, spec_signature_bytes, spec_signature_type, PartitionFormat,
    PartitionSignature, RamDiskType,
};
use crate::proto::device_path::messaging::{
    BluetoothLeAddressType, DnsAddressType, InfinibandResourceFlags, Ipv4AddressOrigin,
    Ipv6AddressOrigin, IscsiLoginOptions, IscsiProtocol, MasterSlave, Parity, PrimarySecondary,
    RestServiceAccessMode, RestServiceType, StopBits,
};
use crate::proto::device_path::{
    addresses_bytes, is_node, lemma_addresses_bytes_len, lemma_u16s_le_len, lemma_u32s_le_len,
    node_header, push_addresses, push_header, push_u16s, push_u32s, u16s_le, u32s_le,
};
use crate::proto::network::IpAddress;
use crate::table::boot::MemoryType;
use vstd::prelude::*;

verus! {

/// Hard drive media device path node.
pub struct HardDrive {
    /// Index of the partition, starting from 1.
    pub partition_number: u32,
    /// Starting LBA (logical block address) of the partition.
    pub partition_start: u64,
    /// Size of the partition in blocks.
    pub partition_size: u64,
    /// Partition signature.
    pub partition_signature: PartitionSignature,
    /// Partition format.
    pub partition_format: PartitionFormat,
}

impl HardDrive {
    /// The length of the node's bytes.
    proof fn lemma_len(&self)
        ensures
            self.spec_node().len() == 42,
    {
        lemma_le_encode_len((42) as nat, 2);
        lemma_le_encode_len(self.partition_number as nat, 4);
        lemma_le_encode_len(self.partition_start as nat, 8);
        lemma_le_encode_len(self.partition_size as nat, 8);
        lemma_signature_bytes_len(self.partition_signature);
    }

    /// The node's bytes are a well-formed node of its type, and hold each
    /// field at its offset: a node of this type read from them gives back
    /// the fields.
    pub proof fn lemma_layout(&self)
        requires
            self.spec_node().len() <= 0xffff,
        ensures
            is_node(self.spec_node()),
            crate::proto::device_path::media::hard_drive_size_ok(self.spec_node()),
            self.spec_node()[0] == 0x04,
            self.spec_node()[1] == 0x01,
            le_at(self.spec_node(), (4) as int, 4) == self.partition_number as nat,
            le_at(self.spec_node(), (8) as int, 8) == self.partition_start as nat,
            le_at(self.spec_node(), (16) as int, 8) == self.partition_size as nat,
            self.spec_node().subrange((24) as int, (24 + 16) as int) == spec_signature_bytes(self.partition_signature),
            self.spec_node()[(40) as int] == self.partition_format.0,
            self.spec_node()[(41) as int] == spec_signature_type(self.partition_signature),
    {
        self.lemma_len();
        lemma_le_encode_len((42) as nat, 2);
        lemma_le_encode_len(self.partition_number as nat, 4);
        lemma_le_encode_len(self.partition_start as nat, 8);
        lemma_le_encode_len(self.partition_size as nat, 8);
        lemma_signature_bytes_len(self.partition_signature);
        lemma_pow256_values();
        let len: nat = (42) as nat;
        assert(self.spec_node().subrange(2, 4) =~= le_encode(len, 2));
        lemma_le_roundtrip(len, 2);
        assert(self.spec_node().subrange((4) as int, (4 + 4) as int) =~= le_encode(self.partition_number as nat, 4));
        lemma_le_roundtrip(self.partition_number as nat, 4);
        assert(self.spec_node().subrange((8) as int, (8 + 8) as int) =~= le_encode(self.partition_start as nat, 8));
        lemma_le_roundtrip(self.partition_start as nat, 8);
        assert(self.spec_node().subrange((16) as int, (16 + 8) as int) =~= le_encode(self.partition_size as nat, 8));
        lemma_le_roundtrip(self.partition_size as nat, 8);
        assert(self.spec_node().subrange((24) as int, (24 + 16) as int) =~= spec_signature_bytes(self.partition_signature));
    }

    fn build_partition_signature(&self) -> (r: [u8; 16])
        ensures
            r@ == spec_signature_bytes(self.partition_signature),
    {
        match self.partition_signature {
            PartitionSignature::NoSignature => {
                let r = [0u8; 16];
                proof {
                    assert(r@ =~= spec_signature_bytes(self.partition_signature));
                }
                r
            },
            PartitionSignature::Mbr(mbr) => {
                let mut sig = [0u8; 16];
                sig[0] = mbr[0];
                sig[1] = mbr[1];
                sig[2] = mbr[2];
                sig[3] = mbr[3];
                proof {
                    assert(sig@ =~= spec_signature_bytes(self.partition_signature));
                }
                sig
            },
            PartitionSignature::Guid(guid) => guid.to_bytes(),
            PartitionSignature::Unknown { signature, .. } => signature,
        }
    }

    fn build_signature_type(&self) -> (r: u8)
        ensures
            r == spec_signature_type(self.partition_signature),
    {
        match self.partition_signature {
            PartitionSignature::NoSignature => 0,
            PartitionSignature::Mbr(_) => 1,
            PartitionSignature::Guid(_) => 2,
            PartitionSignature::Unknown { signature_type, .. } => signature_type,
        }
    }
}

impl BuildNode for HardDrive {
    open spec fn spec_node(&self) -> Seq<u8> {
        node_header(0x04, 0x01, (42) as nat)
            + le_encode(self.partition_number as nat, 4)
            + le_encode(self.partition_start as nat, 8)
            + le_encode(self.partition_size as nat, 8)
            + spec_signature_bytes(self.partition_signature)
            + seq![self.partition_format.0]
            + seq![spec_signature_type(self.partition_signature)]
    }

    open spec fn spec_buildable(&self) -> bool {
        true
    }

    fn size_in_bytes(&self) -> (r: Result<u16, BuildError>) {
        proof {
            self.lemma_len();
        }
        Ok(42)
    }

    fn write_data(&self, out: &mut Vec<u8>) {
        proof {
            self.lemma_len();
        }
        let size: u16 = 42;
        push_header(out, 0x04, 0x01, size);
        push_le(out, self.partition_number as u64, 4);
        push_le(out, self.partition_start as u64, 8);
        push_le(out, self.partition_size as u64, 8);
        push_bytes(out, self.build_partition_signature().as_slice());
        out.push(self.partition_format.0);
        out.push(self.build_signature_type());
        proof {
            assert(out@ =~= old(out)@ + self.spec_node());
        }
    }
}

/// CD-ROM media device path node.
pub struct CdRom {
    /// Boot entry number from the boot catalog, or 0 for the
    /// default entry.
    pub boot_entry: u32,
    /// Starting RBA (Relative logical Block Address).
    pub partition_start: u64,
    /// Size of the partition in blocks.
    pub partition_size: u64,
}

impl CdRom {
    /// The length of the node's bytes.
    proof fn lemma_len(&self)
        ensures
            self.spec_node().len() == 24,
    {
        lemma_le_encode_len((24) as nat, 2);
        lemma_le_encode_len(self.boot_entry as nat, 4);
        lemma_le_encode_len(self.partition_start as nat, 8);
        lemma_le_encode_len(self.partition_size as nat, 8);
    }

    /// The node's bytes are a well-formed node of its type, and hold each
    /// field at its offset: a node of this type read from them gives back
    /// the fields.
    pub proof fn lemma_layout(&self)
        requires
            self.spec_node().len() <= 0xffff,
        ensures
            is_node(self.spec_node()),
            crate::proto::device_path::media::cd_rom_size_ok(self.spec_node()),
            self.spec_node()[0] == 0x04,
            self.spec_node()[1] == 0x02,
            le_at(self.spec_node(), (4) as int, 4) == self.boot_entry as nat,
            le_at(self.spec_node(), (8) as int, 8) == self.partition_start as nat,
            le_at(self.spec_node(), (16) as int, 8) == self.partition_size as nat,
    {
        self.lemma_len();
        lemma_le_encode_len((24) as nat, 2);
        lemma_le_encode_len(self.boot_entry as nat, 4);
        lemma_le_encode_len(self.partition_start as nat, 8);
        lemma_le_encode_len(self.partition_size as nat, 8);
        lemma_pow256_values();
        let len: nat = (24) as nat;
        assert(self.spec_node().subrange(2, 4) =~= le_encode(len, 2));
        lemma_le_roundtrip(len, 2);
        assert(self.spec_node().subrange((4) as int, (4 + 4) as int) =~= le_encode(self.boot_entry as nat, 4));
        lemma_le_roundtrip(self.boot_entry as nat, 4);
        assert(self.spec_node().subrange((8) as int, (8 + 8) as int) =~= le_encode(self.partition_start as nat, 8));
        lemma_le_roundtrip(self.partition_start as nat, 8);
        assert(self.spec_node().subrange((16) as int, (16 + 8) as int) =~= le_encode(self.partition_size as nat, 8));
        lemma_le_roundtrip(self.partition_size as nat, 8);
    }
}

impl BuildNode for CdRom {
    open spec fn spec_node(&self) -> Seq<u8> {
        node_header(0x04, 0x02, (24) as nat)
            + le_encode(self.boot_entry as nat, 4)
            + le_encode(self.partition_start as nat, 8)
            + le_encode(self.partition_size as nat, 8)
    }

    open spec fn spec_buildable(&self) -> bool {
        true
    }

    fn size_in_bytes(&self) -> (r: Result<u16, BuildError>) {
        proof {
            self.lemma_len();
        }
        Ok(24)
    }

    fn write_data(&self, out: &mut Vec<u8>) {
        proof {
            self.lemma_len();
        }
        let size: u16 = 24;
        push_header(out, 0x04, 0x02, size);
        push_le(out, self.boot_entry as u64, 4);
        push_le(out, self.partition_start as u64, 8);
        push_le(out, self.partition_size as u64, 8);
        proof {
            assert(out@ =~= old(out)@ + self.spec_node());
        }
    }
}

/// Vendor-defined media device path node.
pub struct Vendor<'a> {
    /// Vendor-assigned GUID that defines the data that follows.
    pub vendor_guid: Guid,
    /// Vendor-defined data.
    pub vendor_defined_data: &'a [u8],
}

impl<'a> Vendor<'a> {
    /// The length of the node's bytes.
    proof fn lemma_len(&self)
        ensures
            self.spec_node().len() == 20 + self.vendor_defined_data@.len(),
    {
        lemma_le_encode_len((20 + self.vendor_defined_data@.len()) as nat, 2);
        self.vendor_guid.lemma_len();
    }

    /// The node's bytes are a well-formed node of its type, and hold each
    /// field at its offset: a node of this type read from them gives back
    /// the fields.
    pub proof fn lemma_layout(&self)
        requires
            self.spec_node().len() <= 0xffff,
        ensures
            is_node(self.spec_node()),
            crate::proto::device_path::media::vendor_size_ok(self.spec_node()),
            self.spec_node()[0] == 0x04,
            self.spec_node()[1] == 0x03,
            self.spec_node().subrange((4) as int, (4 + 16) as int) == self.vendor_guid@,
            self.spec_node().subrange((20) as int, (20 + self.vendor_defined_data@.len()) as int) == self.vendor_defined_data@,
    {
        self.lemma_len();
        lemma_le_encode_len((20 + self.vendor_defined_data@.len()) as nat, 2);
        self.vendor_guid.lemma_len();
        lemma_pow256_values();
        let len: nat = (20 + self.vendor_defined_data@.len()) as nat;
        assert(self.spec_node().subrange(2, 4) =~= le_encode(len, 2));
        lemma_le_roundtrip(len, 2);
        assert(self.spec_node().subrange((4) as int, (4 + 16) as int) =~= self.vendor_guid@);
        assert(self.spec_node().subrange((20) as int, (20 + self.vendor_defined_data@.len()) as int) =~= self.vendor_defined_data@);
    }
}

impl<'a> BuildNode for Vendor<'a> {
    open spec fn spec_node(&self) -> Seq<u8> {
        node_header(0x04, 0x03, (20 + self.vendor_defined_data@.len()) as nat)
            + self.vendor_guid@
            + self.vendor_defined_data@
    }

    open spec fn spec_buildable(&self) -> bool {
        true
    }

    fn size_in_bytes(&self) -> (r: Result<u16, BuildError>) {
        proof {
            self.lemma_len();
        }
        if self.vendor_defined_data.len() > 0xffff {
            return Err(BuildError::NodeTooBig);
        }
        let size: usize = 20 + self.vendor_defined_data.len();
        if size > 0xffff {
            Err(BuildError::NodeTooBig)
        } else {
            Ok(size as u16)
        }
    }

    fn write_data(&self, out: &mut Vec<u8>) {
        proof {
            self.lemma_len();
        }
        let size: u16 = (20 + self.vendor_defined_data.len()) as u16;
        push_header(out, 0x04, 0x03, size);
        push_bytes(out, self.vendor_guid.to_bytes().as_slice());
        push_bytes(out, self.vendor_defined_data);
        proof {
            assert(out@ =~= old(out)@ + self.spec_node());
        }
    }
}

/// File path media device path node.
pub struct FilePath<'a> {
    /// Null-terminated path.
    pub path_name: &'a CStr16,
}

impl<'a> FilePath<'a> {
    /// The length of the node's bytes.
    proof fn lemma_len(&self)
        ensures
            self.spec_node().len() == 4 + 2 * self.path_name@.len(),
    {
        lemma_le_encode_len((4 + 2 * self.path_name@.len()) as nat, 2);
        lemma_u16s_le_len(self.path_name@);
    }

    /// The node's bytes are a well-formed node of its type, and hold each
    /// field at its offset: a node of this type read from them gives back
    /// the fields.
    pub proof fn lemma_layout(&self)
        requires
            self.spec_node().len() <= 0xffff,
        ensures
            is_node(self.spec_node()),
            crate::proto::device_path::media::file_path_size_ok(self.spec_node()),
            self.spec_node()[0] == 0x04,
            self.spec_node()[1] == 0x04,
            self.spec_node().subrange((4) as int, (4 + 2 * self.path_name@.len()) as int) == u16s_le(self.path_name@),
    {
        self.lemma_len();
        lemma_le_encode_len((4 + 2 * self.path_name@.len()) as nat, 2);
        lemma_u16s_le_len(self.path_name@);
        lemma_pow256_values();
        let len: nat = (4 + 2 * self.path_name@.len()) as nat;
        assert(self.spec_node().subrange(2, 4) =~= le_encode(len, 2));
        lemma_le_roundtrip(len, 2);
        assert(self.spec_node().subrange((4) as int, (4 + 2 * self.path_name@.len()) as int) =~= u16s_le(self.path_name@));
    }
}

impl<'a> BuildNode for FilePath<'a> {
    open spec fn spec_node(&self) -> Seq<u8> {
        node_header(0x04, 0x04, (4 + 2 * self.path_name@.len()) as nat)
            + u16s_le(self.path_name@)
    }

    open spec fn spec_buildable(&self) -> bool {
        true
    }

    fn size_in_bytes(&self) -> (r: Result<u16, BuildError>) {
        proof {
            self.lemma_len();
        }
        if self.path_name.to_u16_slice_with_nul().len() > 0xffff {
            return Err(BuildError::NodeTooBig);
        }
        let size: usize = 4 + 2 * self.path_name.to_u16_slice_with_nul().len();
        if size > 0xffff {
            Err(BuildError::NodeTooBig)
        } else {
            Ok(size as u16)
        }
    }

    fn write_data(&self, out: &mut Vec<u8>) {
        proof {
            self.lemma_len();
        }
        let size: u16 = (4 + 2 * self.path_name.to_u16_slice_with_nul().len()) as u16;
        push_header(out, 0x04, 0x04, size);
        push_u16s(out, self.path_name.to_u16_slice_with_nul().as_slice());
        proof {
            assert(out@ =~= old(out)@ + self.spec_node());
        }
    }
}

/// Media protocol media device path node.
pub struct Protocol {
    /// The ID of the protocol.
    pub protocol_guid: Guid,
}

impl Protocol {
    /// The length of the node's bytes.
    proof fn lemma_len(&self)
        ensures
            self.spec_node().len() == 20,
    {
        lemma_le_encode_len((20) as nat, 2);
        self.protocol_guid.lemma_len();
    }

    /// The node's bytes are a well-formed node of its type, and hold each
    /// field at its offset: a node of this type read from them gives back
    /// the fields.
    pub proof fn lemma_layout(&self)
        requires
            self.spec_node().len() <= 0xffff,
        ensures
            is_node(self.spec_node()),
            crate::proto::device_path::media::protocol_size_ok(self.spec_node()),
            self.spec_node()[0] == 0x04,
            self.spec_node()[1] == 0x05,
            self.spec_node().subrange((4) as int, (4 + 16) as int) == self.protocol_guid@,
    {
        self.lemma_len();
        lemma_le_encode_len((20) as nat, 2);
        self.protocol_guid.lemma_len();
        lemma_pow256_values();
        let len: nat = (20) as nat;
        assert(self.spec_node().subrange(2, 4) =~= le_encode(len, 2));
        lemma_le_roundtrip(len, 2);
        assert(self.spec_node().subrange((4) as int, (4 + 16) as int) =~= self.protocol_guid@);
    }
}

impl BuildNode for Protocol {
    open spec fn spec_node(&self) -> Seq<u8> {
        node_header(0x04, 0x05, (20) as nat)
            + self.protocol_guid@
    }

    open spec fn spec_buildable(&self) -> bool {
        true
    }

    fn size_in_bytes(&self) -> (r: Result<u16, BuildError>) {
        proof {
            self.lemma_len();
        }
        Ok(20)
    }

    fn write_data(&self, out: &mut Vec<u8>) {
        proof {
            self.lemma_len();
        }
        let size: u16 = 20;
        push_header(out, 0x04, 0x05, size);
        push_bytes(out, self.protocol_guid.to_bytes().as_slice());
        proof {
            assert(out@ =~= old(out)@ + self.spec_node());
        }
    }
}

/// PIWG firmware file media device path node.
pub struct PiwgFirmwareFile<'a> {
    /// Contents are defined in the UEFI PI Specification.
    pub data: &'a [u8],
}

impl<'a> PiwgFirmwareFile<'a> {
    /// The length of the node's bytes.
    proof fn lemma_len(&self)
        ensures
            self.spec_node().len() == 4 + self.data@.len(),
    {
        lemma_le_encode_len((4 + self.data@.len()) as nat, 2);
    }

    /// The node's bytes are a well-formed node of its type, and hold each
    /// field at its offset: a node of this type read from them gives back
    /// the fields.
    pub proof fn lemma_layout(&self)
        requires
            self.spec_node().len() <= 0xffff,
        ensures
            is_node(self.spec_node()),
            crate::proto::device_path::media::piwg_firmware_file_size_ok(self.spec_node()),
            self.spec_node()[0] == 0x04,
            self.spec_node()[1] == 0x06,
            self.spec_node().subrange((4) as int, (4 + self.data@.len()) as int) == self.data@,
    {
        self.lemma_len();
        lemma_le_encode_len((4 + self.data@.len()) as nat, 2);
        lemma_pow256_values();
        let len: nat = (4 + self.data@.len()) as nat;
        assert(self.spec_node().subrange(2, 4) =~= le_encode(len, 2));
        lemma_le_roundtrip(len, 2);
        assert(self.spec_node().subrange((4) as int, (4 + self.data@.len()) as int) =~= self.data@);
    }
}

impl<'a> BuildNode for PiwgFirmwareFile<'a> {
    open spec fn spec_node(&self) -> Seq<u8> {
        node_header(0x04, 0x06, (4 + self.data@.len()) as nat)
            + self.data@
    }

    open spec fn spec_buildable(&self) -> bool {
        true
    }

    fn size_in_bytes(&self) -> (r: Result<u16, BuildError>) {
        proof {
            self.lemma_len();
        }
        if self.data.len() > 0xffff {
            return Err(BuildError::NodeTooBig);
        }
        let size: usize = 4 + self.data.len();
        if size > 0xffff {
            Err(BuildError::NodeTooBig)
        } else {
            Ok(size as u16)
        }
    }

    fn write_data(&self, out: &mut Vec<u8>) {
        proof {
            self.lemma_len();
        }
        let size: u16 = (4 + self.data.len()) as u16;
        push_header(out, 0x04, 0x06, size);
        push_bytes(out, self.data);
        proof {
            assert(out@ =~= old(out)@ + self.spec_node());
        }
    }
}

/// PIWG firmware volume media device path node.
pub struct PiwgFirmwareVolume<'a> {
    /// Contents are defined in the UEFI PI Specification.
    pub data: &'a [u8],
}

impl<'a> PiwgFirmwareVolume<'a> {
    /// The length of the node's bytes.
    proof fn lemma_len(&self)
        ensures
            self.spec_node().len() == 4 + self.data@.len(),
    {
        lemma_le_encode_len((4 + self.data@.len()) as nat, 2);
    }

    /// The node's bytes are a well-formed node of its type, and hold each
    /// field at its offset: a node of this type read from them gives back
    /// the fields.
    pub proof fn lemma_layout(&self)
        requires
            self.spec_node().len() <= 0xffff,
        ensures
            is_node(self.spec_node()),
            crate::proto::device_path::media::piwg_firmware_volume_size_ok(self.spec_node()),
            self.spec_node()[0] == 0x04,
            self.spec_node()[1] == 0x07,
            self.spec_node().subrange((4) as int, (4 + self.data@.len()) as int) == self.data@,
    {
        self.lemma_len();
        lemma_le_encode_len((4 + self.data@.len()) as nat, 2);
        lemma_pow256_values();
        let len: nat = (4 + self.data@.len()) as nat;
        assert(self.spec_node().subrange(2, 4) =~= le_encode(len, 2));
        lemma_le_roundtrip(len, 2);
        assert(self.spec_node().subrange((4) as int, (4 + self.data@.len()) as int) =~= self.data@);
    }
}

impl<'a> BuildNode for PiwgFirmwareVolume<'a> {
    open spec fn spec_node(&self) -> Seq<u8> {
        node_header(0x04, 0x07, (4 + self.data@.len()) as nat)
            + self.data@
    }

    open spec fn spec_buildable(&self) -> bool {
        true
    }

    fn size_in_bytes(&self) -> (r: Result<u16, BuildError>) {
        proof {
            self.lemma_len();
        }
        if self.data.len() > 0xffff {
            return Err(BuildError::NodeTooBig);
        }
        let size: usize = 4 + self.data.len();
        if size > 0xffff {
            Err(BuildError::NodeTooBig)
        } else {
            Ok(size as u16)
        }
    }

    fn write_data(&self, out: &mut Vec<u8>) {
        proof {
            self.lemma_len();
        }
        let size: u16 = (4 + self.data.len()) as u16;
        push_header(out, 0x04, 0x07, size);
        push_bytes(out, self.data);
        proof {
            assert(out@ =~= old(out)@ + self.spec_node());
        }
    }
}

/// Relative offset range media device path node.
pub struct RelativeOffsetRange {
    /// Offset of the first byte, relative to the parent device node.
    pub starting_offset: u64,
    /// Offset of the last byte, relative to the parent device node.
    pub ending_offset: u64,
}

impl RelativeOffsetRange {
    /// The length of the node's bytes.
    proof fn lemma_len(&self)
        ensures
            self.spec_node().len() == 24,
    {
        lemma_le_encode_len((24) as nat, 2);
        lemma_le_encode_len(0nat, 4);
        lemma_le_encode_len(self.starting_offset as nat, 8);
        lemma_le_encode_len(self.ending_offset as nat, 8);
    }

    /// The node's bytes are a well-formed node of its type, and hold each
    /// field at its offset: a node of this type read from them gives back
    /// the fields.
    pub proof fn lemma_layout(&self)
        requires
            self.spec_node().len() <= 0xffff,
        ensures
            is_node(self.spec_node()),
            crate::proto::device_path::media::relative_offset_range_size_ok(self.spec_node()),
            self.spec_node()[0] == 0x04,
            self.spec_node()[1] == 0x08,
            le_at(self.spec_node(), (4) as int, 4) == 0nat,
            le_at(self.spec_node(), (8) as int, 8) == self.starting_offset as nat,
            le_at(self.spec_node(), (16) as int, 8) == self.ending_offset as nat,
    {
        self.lemma_len();
        lemma_le_encode_len((24) as nat, 2);
        lemma_le_encode_len(0nat, 4);
        lemma_le_encode_len(self.starting_offset as nat, 8);
        lemma_le_encode_len(self.ending_offset as nat, 8);
        lemma_pow256_values();
        let len: nat = (24) as nat;
        assert(self.spec_node().subrange(2, 4) =~= le_encode(len, 2));
        lemma_le_roundtrip(len, 2);
        assert(self.spec_node().subrange((4) as int, (4 + 4) as int) =~= le_encode(0nat, 4));
        lemma_le_roundtrip(0nat, 4);
        assert(self.spec_node().subrange((8) as int, (8 + 8) as int) =~= le_encode(self.starting_offset as nat, 8));
        lemma_le_roundtrip(self.starting_offset as nat, 8);
        assert(self.spec_node().subrange((16) as int, (16 + 8) as int) =~= le_encode(self.ending_offset as nat, 8));
        lemma_le_roundtrip(self.ending_offset as nat, 8);
    }
}

impl BuildNode for RelativeOffsetRange {
    open spec fn spec_node(&self) -> Seq<u8> {
        node_header(0x04, 0x08, (24) as nat)
            + le_encode(0nat, 4)
            + le_encode(self.starting_offset as nat, 8)
            + le_encode(self.ending_offset as nat, 8)
    }

    open spec fn spec_buildable(&self) -> bool {
        true
    }

    fn size_in_bytes(&self) -> (r: Result<u16, BuildError>) {
        proof {
            self.lemma_len();
        }
        Ok(24)
    }

    fn write_data(&self, out: &mut Vec<u8>) {
        proof {
            self.lemma_len();
        }
        let size: u16 = 24;
        push_header(out, 0x04, 0x08, size);
        push_le(out, 0, 4);
        push_le(out, self.starting_offset as u64, 8);
        push_le(out, self.ending_offset as u64, 8);
        proof {
            assert(out@ =~= old(out)@ + self.spec_node());
        }
    }
}

/// RAM disk media device path node.
pub struct RamDisk {
    /// Starting memory address.
    pub starting_address: u64,
    /// Ending memory address.
    pub ending_address: u64,
    /// Type of RAM disk.
    pub disk_type: RamDiskType,
    /// RAM disk instance number if supported, otherwise 0.
    pub disk_instance: u16,
}

impl RamDisk {
    /// The length of the node's bytes.
    proof fn lemma_len(&self)
        ensures
            self.spec_node().len() == 38,
    {
        lemma_le_encode_len((38) as nat, 2);
        lemma_le_encode_len(self.starting_address as nat, 8);
        lemma_le_encode_len(self.ending_address as nat, 8);
        self.disk_type.0.lemma_len();
        lemma_le_encode_len(self.disk_instance as nat, 2);
    }

    /// The node's bytes are a well-formed node of its type, and hold each
    /// field at its offset: a node of this type read from them gives back
    /// the fields.
    pub proof fn lemma_layout(&self)
        requires
            self.spec_node().len() <= 0xffff,
        ensures
            is_node(self.spec_node()),
            crate::proto::device_path::media::ram_disk_size_ok(self.spec_node()),
            self.spec_node()[0] == 0x04,
            self.spec_node()[1] == 0x09,
            le_at(self.spec_node(), (4) as int, 8) == self.starting_address as nat,
            le_at(self.spec_node(), (12) as int, 8) == self.ending_address as nat,
            self.spec_node().subrange((20) as int, (20 + 16) as int) == self.disk_type.0@,
            le_at(self.spec_node(), (36) as int, 2) == self.disk_instance as nat,
    {
        self.lemma_len();
        lemma_le_encode_len((38) as nat, 2);
        lemma_le_encode_len(self.starting_address as nat, 8);
        lemma_le_encode_len(self.ending_address as nat, 8);
        self.disk_type.0.lemma_len();
        lemma_le_encode_len(self.disk_instance as nat, 2);
        lemma_pow256_values();
        let len: nat = (38) as nat;
        assert(self.spec_node().subrange(2, 4) =~= le_encode(len, 2));
        lemma_le_roundtrip(len, 2);
        assert(self.spec_node().subrange((4) as int, (4 + 8) as int) =~= le_encode(self.starting_address as nat, 8));
        lemma_le_roundtrip(self.starting_address as nat, 8);
        assert(self.spec_node().subrange((12) as int, (12 + 8) as int) =~= le_encode(self.ending_address as nat, 8));
        lemma_le_roundtrip(self.ending_address as nat, 8);
        assert(self.spec_node().subrange((20) as int, (20 + 16) as int) =~= self.disk_type.0@);
        assert(self.spec_node().subrange((36) as int, (36 + 2) as int) =~= le_encode(self.disk_instance as nat, 2));
        lemma_le_roundtrip(self.disk_instance as nat, 2);
    }
}

impl BuildNode for RamDisk {
    open spec fn spec_node(&self) -> Seq<u8> {
        node_header(0x04, 0x09, (38) as nat)
            + le_encode(self.starting_address as nat, 8)
            + le_encode(self.ending_address as nat, 8)
            + self.disk_type.0@
            + le_encode(self.disk_instance as nat, 2)
    }

    open spec fn spec_buildable(&self) -> bool {
        true
    }

    fn size_in_bytes(&self) -> (r: Result<u16, BuildError>) {
        proof {
            self.lemma_len();
        }
        Ok(38)
    }

    fn write_data(&self, out: &mut Vec<u8>) {
        proof {
            self.lemma_len();
        }
        let size: u16 = 38;
        push_header(out, 0x04, 0x09, size);
        push_le(out, self.starting_address as u64, 8);
        push_le(out, self.ending_address as u64, 8);
        push_bytes(out, self.disk_type.0.to_bytes().as_slice());
        push_le(out, self.disk_instance as u64, 2);
        proof {
            assert(out@ =~= old(out)@ + self.spec_node());
        }
    }
}

} // verus!
