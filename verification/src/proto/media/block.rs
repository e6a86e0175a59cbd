//! Block I/O protocols.
use vstd::prelude::*;

verus! {

/// Logical block address.
pub type Lba = u64;

/// The Block I/O protocol: its revision and the information about the
/// medium it gives access to.
#[derive(Debug, Clone, Copy)]
pub struct BlockIO {
    /// The revision of the protocol.
    pub revision: u64,
    /// The medium.
    pub media: BlockIOMedia,
}

impl BlockIO {
    /// Pointer for block IO media.
    pub fn media(&self) -> (r: &BlockIOMedia)
        ensures
            *r == self.media,
    {
        &self.media
    }
}

/// Media information structure
#[derive(Debug, Clone, Copy)]
pub struct BlockIOMedia {
    /// Medium identifier.
    pub media_id: u32,
    /// True if the media is removable.
    pub removable_media: bool,
    /// True if there is a media currently present in the device.
    pub media_present: bool,
    /// True if the `BlockIO` was produced to abstract partition structure on the disk.
    pub logical_partition: bool,
    /// True if the media is marked read-only.
    pub read_only: bool,
    /// True if `writeBlocks` function writes data.
    pub write_caching: bool,
    /// The intrinsic block size of the device.
    pub block_size: u32,
    /// Supplies the alignment requirement for any buffer used in a data transfer.
    pub io_align: u32,
    /// The last LBA on the device.
    pub last_block: u64,
    /// Returns the first LBA that is aligned to a physical block boundary.
    pub lowest_aligned_lba: u64,
    /// Returns the number of logical blocks per physical block.
    pub logical_blocks_per_physical_block: u32,
    /// Returns the optimal transfer length granularity as a number of logical blocks.
    pub optimal_transfer_length_granularity: u32,
}

impl BlockIOMedia {
    /// Medium identifier.
    pub fn media_id(&self) -> (r: u32)
        ensures
            r == self.media_id,
    {
        self.media_id
    }

    /// True if the media is removable.
    pub fn is_removable_media(&self) -> (r: bool)
        ensures
            r == self.removable_media,
    {
        self.removable_media
    }

    /// True if there is a media currently present in the device.
    pub fn is_media_preset(&self) -> (r: bool)
        ensures
            r == self.media_present,
    {
        self.media_present
    }

    /// True if the `BlockIO` was produced to abstract partition structure on the disk.
    pub fn is_logical_partition(&self) -> (r: bool)
        ensures
            r == self.logical_partition,
    {
        self.logical_partition
    }

    /// True if the media is marked read-only.
    pub fn is_read_only(&self) -> (r: bool)
        ensures
            r == self.read_only,
    {
        self.read_only
    }

    /// True if `writeBlocks` function writes data.
    pub fn is_write_caching(&self) -> (r: bool)
        ensures
            r == self.write_caching,
    {
        self.write_caching
    }

    /// The intrinsic block size of the device.
    pub fn block_size(&self) -> (r: u32)
        ensures
            r == self.block_size,
    {
        self.block_size
    }

    /// Supplies the alignment requirement for any buffer used in a data transfer.
    pub fn io_align(&self) -> (r: u32)
        ensures
            r == self.io_align,
    {
        self.io_align
    }

    /// The last LBA on the device.
    pub fn last_block(&self) -> (r: u64)
        ensures
            r == self.last_block,
    {
        self.last_block
    }

    /// Returns the first LBA that is aligned to a physical block boundary.
    pub fn lowest_aligned_lba(&self) -> (r: u64)
        ensures
            r == self.lowest_aligned_lba,
    {
        self.lowest_aligned_lba
    }

    /// Returns the number of logical blocks per physical block.
    pub fn logical_blocks_per_physical_block(&self) -> (r: u32)
        ensures
            r == self.logical_blocks_per_physical_block,
    {
        self.logical_blocks_per_physical_block
    }

    /// Returns the optimal transfer length granularity as a number of logical blocks.
    pub fn optimal_transfer_length_granularity(&self) -> (r: u32)
        ensures
            r == self.optimal_transfer_length_granularity,
    {
        self.optimal_transfer_length_granularity
    }
}

impl crate::proto::Identify for BlockIO {
    open spec fn spec_guid() -> Seq<u8> {
        crate::data_types::guid::spec_guid_bytes(0x964e5b21, 0x6459, 0x11d2, 0x8e39, 0xa0c969723b)
    }

    fn guid() -> (g: crate::data_types::Guid) {
        crate::data_types::Guid::from_values(0x964e5b21, 0x6459, 0x11d2, 0x8e39, 0xa0c969723b)
    }
}

impl crate::proto::Protocol for BlockIO {
}

} // verus!
