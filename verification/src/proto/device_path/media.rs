//! Device path nodes for [`DeviceType::MEDIA`].
#![allow(unused_imports)]
use crate::data_types::bytes::{le_at, lemma_pow256_values, read_array, read_le};
use crate::data_types::guid::spec_guid_bytes;
use crate::data_types::{Guid, UnalignedSlice};
use crate::proto::device_path::{is_node, DevicePathNode, NodeConversionError};
use crate::proto::network::IpAddress;
use crate::table::boot::MemoryType;
use vstd::prelude::*;
use vstd::std_specs::convert::TryFromSpecImpl;

verus! {

/// Hard drive media device path node.
#[derive(Debug)]
pub struct HardDrive {
    bytes: Vec<u8>,
}

impl View for HardDrive {
    type V = Seq<u8>;

    closed spec fn view(&self) -> Seq<u8> {
        self.bytes@
    }
}

/// The sizes that a node of this type can have.
pub open spec fn hard_drive_size_ok(s: Seq<u8>) -> bool {
    s.len() == 42
}

impl HardDrive {
    #[verifier::type_invariant]
    spec fn well_formed(self) -> bool {
        is_node(self.bytes@) && hard_drive_size_ok(self.bytes@)
    }

    /// Index of the partition, starting from 1.
    pub fn partition_number(&self) -> (r: u32)
        ensures
            r == le_at(self@, 4, 4),
    {
        proof {
            use_type_invariant(self);
            lemma_pow256_values();
        }
        read_le(self.bytes.as_slice(), 4, 4) as u32
    }

    /// Starting LBA (logical block address) of the partition.
    pub fn partition_start(&self) -> (r: u64)
        ensures
            r == le_at(self@, 8, 8),
    {
        proof {
            use_type_invariant(self);
            lemma_pow256_values();
        }
        read_le(self.bytes.as_slice(), 8, 8)
    }

    /// Size of the partition in blocks.
    pub fn partition_size(&self) -> (r: u64)
        ensures
            r == le_at(self@, 16, 8),
    {
        proof {
            use_type_invariant(self);
            lemma_pow256_values();
        }
        read_le(self.bytes.as_slice(), 16, 8)
    }

    /// Partition format.
    pub fn partition_format(&self) -> (r: PartitionFormat)
        ensures
            r.0 == self@[40],
    {
        proof {
            use_type_invariant(self);
        }
        PartitionFormat(self.bytes[40])
    }

    /// Signature unique to this partition.
    pub fn partition_signature(&self) -> (r: PartitionSignature)
        ensures
            is_partition_signature_of(r, self@[41], self@.subrange(24, 40)),
    {
        proof {
            use_type_invariant(self);
        }
        let signature = read_array::<16>(self.bytes.as_slice(), 24);
        let signature_type = self.bytes[41];
        proof {
            assert(self@.subrange(24, 40).subrange(0, 4) =~= self@.subrange(24, 28));
        }
        if signature_type == 0 {
            PartitionSignature::NoSignature
        } else if signature_type == 1 {
            PartitionSignature::Mbr(read_array::<4>(self.bytes.as_slice(), 24))
        } else if signature_type == 2 {
            PartitionSignature::Guid(Guid::from_bytes(signature))
        } else {
            PartitionSignature::Unknown { signature_type, signature }
        }
    }
}

impl TryFrom<&DevicePathNode> for HardDrive {
    type Error = NodeConversionError;

    /// Succeeds when the node's size is one that this node type can have.
    fn try_from(node: &DevicePathNode) -> (r: Result<Self, Self::Error>)
        ensures
            r is Ok <==> hard_drive_size_ok(node@),
            r matches Ok(n) ==> n@ == node@,
            r matches Err(e) ==> e == NodeConversionError::InvalidLength,
    {
        let bytes = node.as_bytes();
        if bytes.len() != 42 {
            return Err(NodeConversionError::InvalidLength);
        }
        Ok(HardDrive { bytes: vstd::slice::slice_to_vec(bytes) })
    }
}

impl TryFromSpecImpl<&DevicePathNode> for HardDrive {
    open spec fn obeys_try_from_spec() -> bool {
        false
    }

    closed spec fn try_from_spec(node: &DevicePathNode) -> Result<Self, Self::Error> {
        arbitrary()
    }
}

/// CD-ROM media device path node.
#[derive(Debug)]
pub struct CdRom {
    bytes: Vec<u8>,
}

impl View for CdRom {
    type V = Seq<u8>;

    closed spec fn view(&self) -> Seq<u8> {
        self.bytes@
    }
}

/// The sizes that a node of this type can have.
pub open spec fn cd_rom_size_ok(s: Seq<u8>) -> bool {
    s.len() == 24
}

impl CdRom {
    #[verifier::type_invariant]
    spec fn well_formed(self) -> bool {
        is_node(self.bytes@) && cd_rom_size_ok(self.bytes@)
    }

    /// Boot entry number from the boot catalog, or 0 for the
    /// default entry.
    pub fn boot_entry(&self) -> (r: u32)
        ensures
            r == le_at(self@, 4, 4),
    {
        proof {
            use_type_invariant(self);
            lemma_pow256_values();
        }
        read_le(self.bytes.as_slice(), 4, 4) as u32
    }

    /// Starting RBA (Relative logical Block Address).
    pub fn partition_start(&self) -> (r: u64)
        ensures
            r == le_at(self@, 8, 8),
    {
        proof {
            use_type_invariant(self);
            lemma_pow256_values();
        }
        read_le(self.bytes.as_slice(), 8, 8)
    }

    /// Size of the partition in blocks.
    pub fn partition_size(&self) -> (r: u64)
        ensures
            r == le_at(self@, 16, 8),
    {
        proof {
            use_type_invariant(self);
            lemma_pow256_values();
        }
        read_le(self.bytes.as_slice(), 16, 8)
    }
}

impl TryFrom<&DevicePathNode> for CdRom {
    type Error = NodeConversionError;

    /// Succeeds when the node's size is one that this node type can have.
    fn try_from(node: &DevicePathNode) -> (r: Result<Self, Self::Error>)
        ensures
            r is Ok <==> cd_rom_size_ok(node@),
            r matches Ok(n) ==> n@ == node@,
            r matches Err(e) ==> e == NodeConversionError::InvalidLength,
    {
        let bytes = node.as_bytes();
        if bytes.len() != 24 {
            return Err(NodeConversionError::InvalidLength);
        }
        Ok(CdRom { bytes: vstd::slice::slice_to_vec(bytes) })
    }
}

impl TryFromSpecImpl<&DevicePathNode> for CdRom {
    open spec fn obeys_try_from_spec() -> bool {
        false
    }

    closed spec fn try_from_spec(node: &DevicePathNode) -> Result<Self, Self::Error> {
        arbitrary()
    }
}

/// Vendor-defined media device path node.
#[derive(Debug)]
pub struct Vendor {
    bytes: Vec<u8>,
}

impl View for Vendor {
    type V = Seq<u8>;

    closed spec fn view(&self) -> Seq<u8> {
        self.bytes@
    }
}

/// The sizes that a node of this type can have.
pub open spec fn vendor_size_ok(s: Seq<u8>) -> bool {
    20 <= s.len()
}

impl Vendor {
    #[verifier::type_invariant]
    spec fn well_formed(self) -> bool {
        is_node(self.bytes@) && vendor_size_ok(self.bytes@)
    }

    /// Vendor-assigned GUID that defines the data that follows.
    pub fn vendor_guid(&self) -> (r: Guid)
        ensures
            r@ == self@.subrange(4, 20),
    {
        proof {
            use_type_invariant(self);
        }
        Guid::from_bytes(read_array::<16>(self.bytes.as_slice(), 4))
    }

    /// Vendor-defined data.
    pub fn vendor_defined_data(&self) -> (r: &[u8])
        ensures
            r@ == self@.subrange(20, self@.len() as int),
    {
        proof {
            use_type_invariant(self);
        }
        vstd::slice::slice_subrange(self.bytes.as_slice(), 20, self.bytes.len())
    }
}

impl TryFrom<&DevicePathNode> for Vendor {
    type Error = NodeConversionError;

    /// Succeeds when the node's size is one that this node type can have.
    fn try_from(node: &DevicePathNode) -> (r: Result<Self, Self::Error>)
        ensures
            r is Ok <==> vendor_size_ok(node@),
            r matches Ok(n) ==> n@ == node@,
            r matches Err(e) ==> e == NodeConversionError::InvalidLength,
    {
        let bytes = node.as_bytes();
        let len = bytes.len();
        if len < 20 {
            return Err(NodeConversionError::InvalidLength);
        }
        Ok(Vendor { bytes: vstd::slice::slice_to_vec(bytes) })
    }
}

impl TryFromSpecImpl<&DevicePathNode> for Vendor {
    open spec fn obeys_try_from_spec() -> bool {
        false
    }

    closed spec fn try_from_spec(node: &DevicePathNode) -> Result<Self, Self::Error> {
        arbitrary()
    }
}

/// File path media device path node.
#[derive(Debug)]
pub struct FilePath {
    bytes: Vec<u8>,
}

impl View for FilePath {
    type V = Seq<u8>;

    closed spec fn view(&self) -> Seq<u8> {
        self.bytes@
    }
}

/// The sizes that a node of this type can have.
pub open spec fn file_path_size_ok(s: Seq<u8>) -> bool {
    4 <= s.len() && (s.len() - 4) % 2 == 0
}

impl FilePath {
    #[verifier::type_invariant]
    spec fn well_formed(self) -> bool {
        is_node(self.bytes@) && file_path_size_ok(self.bytes@)
    }

    /// Null-terminated path.
    pub fn path_name(&self) -> (r: UnalignedSlice<u16>)
        ensures
            r@.len() == (self@.len() - 4) / 2,
            forall|i: int| 0 <= i < r@.len() ==> r@[i] as nat == #[trigger] le_at(self@, 4 + 2 * i, 2),
    {
        proof {
            use_type_invariant(self);
        }
        let tail = vstd::slice::slice_subrange(self.bytes.as_slice(), 4, self.bytes.len());
        let r = UnalignedSlice::<u16>::from_le_bytes(tail, (self.bytes.len() - 4) / 2);
        proof {
            assert forall|i: int| 0 <= i < r@.len() implies r@[i] as nat == #[trigger] le_at(self@, 4 + 2 * i, 2) by {
                assert(tail@.subrange(2 * i, 2 * i + 2) =~= self@.subrange(4 + 2 * i, 4 + 2 * i + 2));
                assert(r@[i] as nat == le_at(tail@, 2 * i, 2));
            }
        }
        r
    }
}

impl TryFrom<&DevicePathNode> for FilePath {
    type Error = NodeConversionError;

    /// Succeeds when the node's size is one that this node type can have.
    fn try_from(node: &DevicePathNode) -> (r: Result<Self, Self::Error>)
        ensures
            r is Ok <==> file_path_size_ok(node@),
            r matches Ok(n) ==> n@ == node@,
            r matches Err(e) ==> e == NodeConversionError::InvalidLength,
    {
        let bytes = node.as_bytes();
        let len = bytes.len();
        if len < 4 {
            return Err(NodeConversionError::InvalidLength);
        }
        if (len - 4) % 2 != 0 {
            return Err(NodeConversionError::InvalidLength);
        }
        Ok(FilePath { bytes: vstd::slice::slice_to_vec(bytes) })
    }
}

impl TryFromSpecImpl<&DevicePathNode> for FilePath {
    open spec fn obeys_try_from_spec() -> bool {
        false
    }

    closed spec fn try_from_spec(node: &DevicePathNode) -> Result<Self, Self::Error> {
        arbitrary()
    }
}

/// Media protocol media device path node.
#[derive(Debug)]
pub struct Protocol {
    bytes: Vec<u8>,
}

impl View for Protocol {
    type V = Seq<u8>;

    closed spec fn view(&self) -> Seq<u8> {
        self.bytes@
    }
}

/// The sizes that a node of this type can have.
pub open spec fn protocol_size_ok(s: Seq<u8>) -> bool {
    s.len() == 20
}

impl Protocol {
    #[verifier::type_invariant]
    spec fn well_formed(self) -> bool {
        is_node(self.bytes@) && protocol_size_ok(self.bytes@)
    }

    /// The ID of the protocol.
    pub fn protocol_guid(&self) -> (r: Guid)
        ensures
            r@ == self@.subrange(4, 20),
    {
        proof {
            use_type_invariant(self);
        }
        Guid::from_bytes(read_array::<16>(self.bytes.as_slice(), 4))
    }
}

impl TryFrom<&DevicePathNode> for Protocol {
    type Error = NodeConversionError;

    /// Succeeds when the node's size is one that this node type can have.
    fn try_from(node: &DevicePathNode) -> (r: Result<Self, Self::Error>)
        ensures
            r is Ok <==> protocol_size_ok(node@),
            r matches Ok(n) ==> n@ == node@,
            r matches Err(e) ==> e == NodeConversionError::InvalidLength,
    {
        let bytes = node.as_bytes();
        if bytes.len() != 20 {
            return Err(NodeConversionError::InvalidLength);
        }
        Ok(Protocol { bytes: vstd::slice::slice_to_vec(bytes) })
    }
}

impl TryFromSpecImpl<&DevicePathNode> for Protocol {
    open spec fn obeys_try_from_spec() -> bool {
        false
    }

    closed spec fn try_from_spec(node: &DevicePathNode) -> Result<Self, Self::Error> {
        arbitrary()
    }
}

/// PIWG firmware file media device path node.
#[derive(Debug)]
pub struct PiwgFirmwareFile {
    bytes: Vec<u8>,
}

impl View for PiwgFirmwareFile {
    type V = Seq<u8>;

    closed spec fn view(&self) -> Seq<u8> {
        self.bytes@
    }
}

/// The sizes that a node of this type can have.
pub open spec fn piwg_firmware_file_size_ok(s: Seq<u8>) -> bool {
    4 <= s.len()
}

impl PiwgFirmwareFile {
    #[verifier::type_invariant]
    spec fn well_formed(self) -> bool {
        is_node(self.bytes@) && piwg_firmware_file_size_ok(self.bytes@)
    }

    /// Contents are defined in the UEFI PI Specification.
    pub fn data(&self) -> (r: &[u8])
        ensures
            r@ == self@.subrange(4, self@.len() as int),
    {
        proof {
            use_type_invariant(self);
        }
        vstd::slice::slice_subrange(self.bytes.as_slice(), 4, self.bytes.len())
    }
}

impl TryFrom<&DevicePathNode> for PiwgFirmwareFile {
    type Error = NodeConversionError;

    /// Succeeds when the node's size is one that this node type can have.
    fn try_from(node: &DevicePathNode) -> (r: Result<Self, Self::Error>)
        ensures
            r is Ok <==> piwg_firmware_file_size_ok(node@),
            r matches Ok(n) ==> n@ == node@,
            r matches Err(e) ==> e == NodeConversionError::InvalidLength,
    {
        let bytes = node.as_bytes();
        let len = bytes.len();
        if len < 4 {
            return Err(NodeConversionError::InvalidLength);
        }
        Ok(PiwgFirmwareFile { bytes: vstd::slice::slice_to_vec(bytes) })
    }
}

impl TryFromSpecImpl<&DevicePathNode> for PiwgFirmwareFile {
    open spec fn obeys_try_from_spec() -> bool {
        false
    }

    closed spec fn try_from_spec(node: &DevicePathNode) -> Result<Self, Self::Error> {
        arbitrary()
    }
}

/// PIWG firmware volume media device path node.
#[derive(Debug)]
pub struct PiwgFirmwareVolume {
    bytes: Vec<u8>,
}

impl View for PiwgFirmwareVolume {
    type V = Seq<u8>;

    closed spec fn view(&self) -> Seq<u8> {
        self.bytes@
    }
}

/// The sizes that a node of this type can have.
pub open spec fn piwg_firmware_volume_size_ok(s: Seq<u8>) -> bool {
    4 <= s.len()
}

impl PiwgFirmwareVolume {
    #[verifier::type_invariant]
    spec fn well_formed(self) -> bool {
        is_node(self.bytes@) && piwg_firmware_volume_size_ok(self.bytes@)
    }

    /// Contents are defined in the UEFI PI Specification.
    pub fn data(&self) -> (r: &[u8])
        ensures
            r@ == self@.subrange(4, self@.len() as int),
    {
        proof {
            use_type_invariant(self);
        }
        vstd::slice::slice_subrange(self.bytes.as_slice(), 4, self.bytes.len())
    }
}

impl TryFrom<&DevicePathNode> for PiwgFirmwareVolume {
    type Error = NodeConversionError;

    /// Succeeds when the node's size is one that this node type can have.
    fn try_from(node: &DevicePathNode) -> (r: Result<Self, Self::Error>)
        ensures
            r is Ok <==> piwg_firmware_volume_size_ok(node@),
            r matches Ok(n) ==> n@ == node@,
            r matches Err(e) ==> e == NodeConversionError::InvalidLength,
    {
        let bytes = node.as_bytes();
        let len = bytes.len();
        if len < 4 {
            return Err(NodeConversionError::InvalidLength);
        }
        Ok(PiwgFirmwareVolume { bytes: vstd::slice::slice_to_vec(bytes) })
    }
}

impl TryFromSpecImpl<&DevicePathNode> for PiwgFirmwareVolume {
    open spec fn obeys_try_from_spec() -> bool {
        false
    }

    closed spec fn try_from_spec(node: &DevicePathNode) -> Result<Self, Self::Error> {
        arbitrary()
    }
}

/// Relative offset range media device path node.
#[derive(Debug)]
pub struct RelativeOffsetRange {
    bytes: Vec<u8>,
}

impl View for RelativeOffsetRange {
    type V = Seq<u8>;

    closed spec fn view(&self) -> Seq<u8> {
        self.bytes@
    }
}

/// The sizes that a node of this type can have.
pub open spec fn relative_offset_range_size_ok(s: Seq<u8>) -> bool {
    s.len() == 24
}

impl RelativeOffsetRange {
    #[verifier::type_invariant]
    spec fn well_formed(self) -> bool {
        is_node(self.bytes@) && relative_offset_range_size_ok(self.bytes@)
    }

    /// Offset of the first byte, relative to the parent device node.
    pub fn starting_offset(&self) -> (r: u64)
        ensures
            r == le_at(self@, 8, 8),
    {
        proof {
            use_type_invariant(self);
            lemma_pow256_values();
        }
        read_le(self.bytes.as_slice(), 8, 8)
    }

    /// Offset of the last byte, relative to the parent device node.
    pub fn ending_offset(&self) -> (r: u64)
        ensures
            r == le_at(self@, 16, 8),
    {
        proof {
            use_type_invariant(self);
            lemma_pow256_values();
        }
        read_le(self.bytes.as_slice(), 16, 8)
    }
}

impl TryFrom<&DevicePathNode> for RelativeOffsetRange {
    type Error = NodeConversionError;

    /// Succeeds when the node's size is one that this node type can have.
    fn try_from(node: &DevicePathNode) -> (r: Result<Self, Self::Error>)
        ensures
            r is Ok <==> relative_offset_range_size_ok(node@),
            r matches Ok(n) ==> n@ == node@,
            r matches Err(e) ==> e == NodeConversionError::InvalidLength,
    {
        let bytes = node.as_bytes();
        if bytes.len() != 24 {
            return Err(NodeConversionError::InvalidLength);
        }
        Ok(RelativeOffsetRange { bytes: vstd::slice::slice_to_vec(bytes) })
    }
}

impl TryFromSpecImpl<&DevicePathNode> for RelativeOffsetRange {
    open spec fn obeys_try_from_spec() -> bool {
        false
    }

    closed spec fn try_from_spec(node: &DevicePathNode) -> Result<Self, Self::Error> {
        arbitrary()
    }
}

/// RAM disk media device path node.
#[derive(Debug)]
pub struct RamDisk {
    bytes: Vec<u8>,
}

impl View for RamDisk {
    type V = Seq<u8>;

    closed spec fn view(&self) -> Seq<u8> {
        self.bytes@
    }
}

/// The sizes that a node of this type can have.
pub open spec fn ram_disk_size_ok(s: Seq<u8>) -> bool {
    s.len() == 38
}

impl RamDisk {
    #[verifier::type_invariant]
    spec fn well_formed(self) -> bool {
        is_node(self.bytes@) && ram_disk_size_ok(self.bytes@)
    }

    /// Starting memory address.
    pub fn starting_address(&self) -> (r: u64)
        ensures
            r == le_at(self@, 4, 8),
    {
        proof {
            use_type_invariant(self);
            lemma_pow256_values();
        }
        read_le(self.bytes.as_slice(), 4, 8)
    }

    /// Ending memory address.
    pub fn ending_address(&self) -> (r: u64)
        ensures
            r == le_at(self@, 12, 8),
    {
        proof {
            use_type_invariant(self);
            lemma_pow256_values();
        }
        read_le(self.bytes.as_slice(), 12, 8)
    }

    /// Type of RAM disk.
    pub fn disk_type(&self) -> (r: RamDiskType)
        ensures
            r.0@ == self@.subrange(20, 36),
    {
        proof {
            use_type_invariant(self);
        }
        RamDiskType(Guid::from_bytes(read_array::<16>(self.bytes.as_slice(), 20)))
    }

    /// RAM disk instance number if supported, otherwise 0.
    pub fn disk_instance(&self) -> (r: u16)
        ensures
            r == le_at(self@, 36, 2),
    {
        proof {
            use_type_invariant(self);
            lemma_pow256_values();
        }
        read_le(self.bytes.as_slice(), 36, 2) as u16
    }
}

impl TryFrom<&DevicePathNode> for RamDisk {
    type Error = NodeConversionError;

    /// Succeeds when the node's size is one that this node type can have.
    fn try_from(node: &DevicePathNode) -> (r: Result<Self, Self::Error>)
        ensures
            r is Ok <==> ram_disk_size_ok(node@),
            r matches Ok(n) ==> n@ == node@,
            r matches Err(e) ==> e == NodeConversionError::InvalidLength,
    {
        let bytes = node.as_bytes();
        if bytes.len() != 38 {
            return Err(NodeConversionError::InvalidLength);
        }
        Ok(RamDisk { bytes: vstd::slice::slice_to_vec(bytes) })
    }
}

impl TryFromSpecImpl<&DevicePathNode> for RamDisk {
    open spec fn obeys_try_from_spec() -> bool {
        false
    }

    closed spec fn try_from_spec(node: &DevicePathNode) -> Result<Self, Self::Error> {
        arbitrary()
    }
}

///  Hard drive partition format.
#[derive(Clone, Copy, Debug, PartialEq, Eq, Structural, PartialOrd, Ord, Hash)]
pub struct PartitionFormat(pub u8);

#[allow(non_snake_case)]
impl PartitionFormat {
    ///  MBR (PC-AT compatible Master Boot Record) format.
    pub fn MBR() -> (r: PartitionFormat)
        ensures
            r.0 == 0x01,
    {
        PartitionFormat(0x01)
    }

    ///  GPT (GUID Partition Table) format.
    pub fn GPT() -> (r: PartitionFormat)
        ensures
            r.0 == 0x02,
    {
        PartitionFormat(0x02)
    }
}

///  RAM disk type.
#[derive(Clone, Copy, Debug, PartialEq, Eq)]
pub struct RamDiskType(pub Guid);

#[allow(non_snake_case)]
impl RamDiskType {
    ///  RAM disk with a raw disk format in volatile memory.
    pub fn VIRTUAL_DISK() -> (r: RamDiskType)
        ensures
            r.0@ == spec_guid_bytes(0x77ab535a, 0x45fc, 0x624b, 0x5560, 0xf7b281d1f96e),
    {
        RamDiskType(Guid::from_values(0x77ab535a, 0x45fc, 0x624b, 0x5560, 0xf7b281d1f96e))
    }

    ///  RAM disk of an ISO image in volatile memory.
    pub fn VIRTUAL_CD() -> (r: RamDiskType)
        ensures
            r.0@ == spec_guid_bytes(0x3d5abd30, 0x4175, 0x87ce, 0x6d64, 0xd2ade523c4bb),
    {
        RamDiskType(Guid::from_values(0x3d5abd30, 0x4175, 0x87ce, 0x6d64, 0xd2ade523c4bb))
    }

    ///  RAM disk with a raw disk format in persistent memory.
    pub fn PERSISTENT_VIRTUAL_DISK() -> (r: RamDiskType)
        ensures
            r.0@ == spec_guid_bytes(0x5cea02c9, 0x4d07, 0x69d3, 0x269f, 0x4496fbe096f9),
    {
        RamDiskType(Guid::from_values(0x5cea02c9, 0x4d07, 0x69d3, 0x269f, 0x4496fbe096f9))
    }

    ///  RAM disk of an ISO image in persistent memory.
    pub fn PERSISTENT_VIRTUAL_CD() -> (r: RamDiskType)
        ensures
            r.0@ == spec_guid_bytes(0x8018188, 0x42cd, 0xbb48, 0x100f, 0x5387d53ded3d),
    {
        RamDiskType(Guid::from_values(0x8018188, 0x42cd, 0xbb48, 0x100f, 0x5387d53ded3d))
    }
}


/// Hard drive partition signature.
#[derive(Clone, Copy, Debug, PartialEq, Eq)]
pub enum PartitionSignature {
    /// No disk signature.
    NoSignature,
    /// 32-bit MBR partition signature.
    Mbr([u8; 4]),
    /// 128-bit GUID partition signature.
    Guid(Guid),
    /// Unknown signature type not listed in the UEFI Specification.
    Unknown {
        /// Signature type.
        signature_type: u8,
        /// Signature data.
        signature: [u8; 16],
    },
}

/// `p` is the partition signature that a hard drive node with the given
/// signature type and 16 signature bytes stands for.
pub open spec fn is_partition_signature_of(p: PartitionSignature, signature_type: u8, signature: Seq<u8>) -> bool {
    match p {
        PartitionSignature::NoSignature => signature_type == 0,
        PartitionSignature::Mbr(m) => signature_type == 1 && m@ == signature.subrange(0, 4),
        PartitionSignature::Guid(g) => signature_type == 2 && g@ == signature,
        PartitionSignature::Unknown { signature_type: t, signature: b } => {
            &&& signature_type > 2
            &&& t == signature_type
            &&& b@ == signature
        },
    }
}

/// The signature type that a hard drive node stores for a partition
/// signature.
pub open spec fn spec_signature_type(s: PartitionSignature) -> u8 {
    match s {
        PartitionSignature::NoSignature => 0,
        PartitionSignature::Mbr(_) => 1,
        PartitionSignature::Guid(_) => 2,
        PartitionSignature::Unknown { signature_type, .. } => signature_type,
    }
}

/// The 16 signature bytes that a hard drive node stores for a partition
/// signature.
pub open spec fn spec_signature_bytes(s: PartitionSignature) -> Seq<u8> {
    match s {
        PartitionSignature::NoSignature => Seq::new(16, |i: int| 0u8),
        PartitionSignature::Mbr(m) => m@ + Seq::new(12, |i: int| 0u8),
        PartitionSignature::Guid(g) => g@,
        PartitionSignature::Unknown { signature, .. } => signature@,
    }
}

/// The signature bytes of a hard drive node are 16 bytes long.
pub proof fn lemma_signature_bytes_len(s: PartitionSignature)
    ensures
        spec_signature_bytes(s).len() == 16,
{
    match s {
        PartitionSignature::Guid(g) => g.lemma_len(),
        _ => {},
    }
}

} // verus!
