//! Partition information protocol.
use crate::data_types::guid::spec_guid_bytes;
use crate::data_types::{Char16, Guid};
use vstd::prelude::*;

verus! {

/// MBR OS type.
///
/// Only this list of types is exposed by this library, but the firmware may
/// hold other values.
#[derive(Clone, Copy, Debug, PartialEq, Eq, Structural)]
pub struct MbrOsType(pub u8);

#[allow(non_snake_case)]
impl MbrOsType {
    /// A fake partition covering the entire disk.
    pub fn GPT_PROTECTIVE() -> (r: MbrOsType)
        ensures
            r.0 == 0xee,
    {
        MbrOsType(0xee)
    }

    /// UEFI system partition.
    pub fn UEFI_SYSTEM_PARTITION() -> (r: MbrOsType)
        ensures
            r.0 == 0xef,
    {
        MbrOsType(0xef)
    }
}

/// Legacy MBR Partition Record.
#[derive(Clone, Copy, Debug)]
pub struct MbrPartitionRecord {
    /// If 0x80, this is the bootable legacy partition.
    pub boot_indicator: u8,
    /// Start of the partition in CHS address format.
    pub starting_chs: [u8; 3],
    /// Type of partition.
    pub os_type: MbrOsType,
    /// End of the partition in CHS address format.
    pub ending_chs: [u8; 3],
    /// Starting LBA of the partition on the disk.
    pub starting_lba: u32,
    /// Size of the partition in LBA units of logical blocks.
    pub size_in_lba: u32,
}

impl MbrPartitionRecord {
    /// True if the partition is a bootable legacy partition.
    pub fn is_bootable(&self) -> (r: bool)
        ensures
            r == (self.boot_indicator == 0x80),
    {
        self.boot_indicator == 0x80
    }
}

/// GUID that defines the type of partition. Only three values are defined
/// in the UEFI specification, OS vendors define their own Partition Type
/// GUIDs.
#[derive(Clone, Copy, Debug, PartialEq, Eq)]
pub struct GptPartitionType(pub Guid);

#[allow(non_snake_case)]
impl GptPartitionType {
    /// Indicates a partition entry is unused.
    pub fn UNUSED_ENTRY() -> (r: GptPartitionType)
        ensures
            r.0@ == spec_guid_bytes(0, 0, 0, 0, 0),
    {
        GptPartitionType(Guid::from_values(0, 0, 0, 0, 0))
    }

    /// EFI System Partition.
    pub fn EFI_SYSTEM_PARTITION() -> (r: GptPartitionType)
        ensures
            r.0@ == spec_guid_bytes(0xc12a7328, 0xf81f, 0x11d2, 0xba4b, 0x00a0c93ec93b),
    {
        GptPartitionType(Guid::from_values(0xc12a7328, 0xf81f, 0x11d2, 0xba4b, 0x00a0c93ec93b))
    }

    /// Partition containing a legacy MBR.
    pub fn LEGACY_MBR() -> (r: GptPartitionType)
        ensures
            r.0@ == spec_guid_bytes(0x024dee41, 0x33e7, 0x11d3, 0x9d69, 0x0008c781f39f),
    {
        GptPartitionType(Guid::from_values(0x024dee41, 0x33e7, 0x11d3, 0x9d69, 0x0008c781f39f))
    }
}

/// GPT/EFI Partition Entry.
#[derive(Clone, Copy, Debug)]
pub struct GptPartitionEntry {
    /// GUID that defines the type of this Partition. A value of zero
    /// indicates that this partition entry is not being used.
    pub partition_type_guid: GptPartitionType,
    /// GUID that is unique for every partition entry.
    pub unique_partition_guid: Guid,
    /// Starting LBA of the partition.
    pub starting_lba: u64,
    /// Ending LBA of the partition.
    pub ending_lba: u64,
    /// All attribute bits of the partition.
    pub attributes: u64,
    /// Null-terminated string containing a human-readable name of the
    /// partition.
    pub partition_name: [Char16; 36],
}

impl GptPartitionEntry {
    /// Get the number of blocks in the partition. Returns `None` if the end
    /// block is before the start block, or if the number doesn't fit in a
    /// `u64`.
    pub fn num_blocks(&self) -> (r: Option<u64>)
        ensures
            r is Some <==> (self.starting_lba <= self.ending_lba && self.ending_lba
                - self.starting_lba < u64::MAX),
            r matches Some(n) ==> n == self.ending_lba - self.starting_lba + 1,
    {
        match self.ending_lba.checked_sub(self.starting_lba) {
            Some(d) => d.checked_add(1),
            None => None,
        }
    }
}

/// Partition type.
#[derive(Clone, Copy, Debug, PartialEq, Eq, Structural)]
pub struct PartitionType(pub u32);

#[allow(non_snake_case)]
impl PartitionType {
    /// Partition is not MBR or GPT.
    pub fn OTHER() -> (r: PartitionType)
        ensures
            r.0 == 0,
    {
        PartitionType(0)
    }

    /// MBR partition.
    pub fn MBR() -> (r: PartitionType)
        ensures
            r.0 == 1,
    {
        PartitionType(1)
    }

    /// GPT partition.
    pub fn GPT() -> (r: PartitionType)
        ensures
            r.0 == 2,
    {
        PartitionType(2)
    }
}

/// Partition information protocol revision.
#[derive(Clone, Copy, Debug, PartialEq, Eq, Structural)]
pub struct PartitionInfoRevision(pub u32);

#[allow(non_snake_case)]
impl PartitionInfoRevision {
    /// Current revision of the data structure.
    pub fn PROTOCOL_REVISION() -> (r: PartitionInfoRevision)
        ensures
            r.0 == 0x1000,
    {
        PartitionInfoRevision(0x1000)
    }
}

/// Information about the partition type for a block device.
///
/// The partition record is stored as both of the records it may be read as;
/// the partition type says which one is meaningful.
#[derive(Clone, Copy, Debug)]
pub struct PartitionInfo {
    /// Revision of the partition info structure.
    pub revision: PartitionInfoRevision,
    /// Type of partition.
    pub partition_type: PartitionType,
    /// Whether the partition is an EFI system partition (`1`).
    pub system: u8,
    /// The record read as an MBR partition record.
    pub mbr_record: MbrPartitionRecord,
    /// The record read as a GPT partition entry.
    pub gpt_entry: GptPartitionEntry,
}

impl PartitionInfo {
    /// Whether this is an EFI System Partition.
    pub fn is_system(&self) -> (r: bool)
        ensures
            r == (self.system == 1),
    {
        self.system == 1
    }

    /// Get the MBR partition record. Returns None if the partition type is
    /// not MBR or the revision is unknown.
    pub fn mbr_partition_record(&self) -> (r: Option<&MbrPartitionRecord>)
        ensures
            r is Some <==> (self.revision.0 == 0x1000 && self.partition_type.0 == 1),
            r matches Some(m) ==> *m == self.mbr_record,
    {
        if self.revision.0 != 0x1000 {
            return None;
        }
        if self.partition_type.0 == 1 {
            Some(&self.mbr_record)
        } else {
            None
        }
    }

    /// Get the GPT partition entry. Returns None if the partition type is
    /// not GPT or the revision is unknown.
    pub fn gpt_partition_entry(&self) -> (r: Option<&GptPartitionEntry>)
        ensures
            r is Some <==> (self.revision.0 == 0x1000 && self.partition_type.0 == 2),
            r matches Some(g) ==> *g == self.gpt_entry,
    {
        if self.revision.0 != 0x1000 {
            return None;
        }
        if self.partition_type.0 == 2 {
            Some(&self.gpt_entry)
        } else {
            None
        }
    }
}

impl crate::proto::Identify for PartitionInfo {
    open spec fn spec_guid() -> Seq<u8> {
        crate::data_types::guid::spec_guid_bytes(0x8cf2f62c, 0xbc9b, 0x4821, 0x808d, 0xec9ec421a1a0)
    }

    fn guid() -> (g: crate::data_types::Guid) {
        crate::data_types::Guid::from_values(0x8cf2f62c, 0xbc9b, 0x4821, 0x808d, 0xec9ec421a1a0)
    }
}

impl crate::proto::Protocol for PartitionInfo {
}

} // verus!
