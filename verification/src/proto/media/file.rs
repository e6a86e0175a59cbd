//! File information structures: file mode and attributes, and the
//! information that is read or set about a file or a file system.
use crate::data_types::guid::spec_guid_bytes;
use crate::data_types::strs::is_ucs2_cstr;
use crate::data_types::{CStr16, Guid};
use crate::proto::console::text::output::{
    lemma_ucs2_prefix_len, ucs2_codes, ucs2_prefix_len, write_encodes,
};
use crate::result::status::error_bit;
use crate::result::{Completion, Error, Status, Ucs2Error};
use crate::table::runtime::Time;
use vstd::prelude::*;
use vstd::string::StringSliceAdditionalSpecFns;
use vstd::utf8::{encode_scalar, encode_utf8};

verus! {

/// Usage flags describing what is possible to do with the file.
#[derive(Debug, Copy, Clone, PartialEq, Eq, Structural)]
pub enum FileMode {
    /// The file can be read from
    Read,
    /// The file can be read from and written to
    ReadWrite,
    /// The file can be read, written, and will be created if it does not exist
    CreateReadWrite,
}

impl FileMode {
    /// The number of the mode in the C API.
    pub fn value(self) -> (r: u64)
        ensures
            r == match self {
                FileMode::Read => 1u64,
                FileMode::ReadWrite => 3u64,
                FileMode::CreateReadWrite => 0x8000_0000_0000_0003u64,
            },
    {
        match self {
            FileMode::Read => 1,
            FileMode::ReadWrite => 3,
            FileMode::CreateReadWrite => 0x8000_0000_0000_0003,
        }
    }
}

/// Attributes describing the properties of a file on the file system.
///
/// The model is the set of bits, as a number.
#[derive(Clone, Copy, Debug, PartialEq, Eq, Structural)]
pub struct FileAttribute {
    bits: u64,
}

impl View for FileAttribute {
    type V = u64;

    closed spec fn view(&self) -> u64 {
        self.bits
    }
}

#[allow(non_snake_case)]
impl FileAttribute {
    /// File can only be opened in read mode.
    pub fn READ_ONLY() -> (r: FileAttribute)
        ensures
            r@ == 1,
    {
        FileAttribute { bits: 1 }
    }

    /// Hidden file, not normally visible to the user.
    pub fn HIDDEN() -> (r: FileAttribute)
        ensures
            r@ == 2,
    {
        FileAttribute { bits: 2 }
    }

    /// System file, indicates this file is an internal operating system file.
    pub fn SYSTEM() -> (r: FileAttribute)
        ensures
            r@ == 4,
    {
        FileAttribute { bits: 4 }
    }

    /// This file is a directory.
    pub fn DIRECTORY() -> (r: FileAttribute)
        ensures
            r@ == 0x10,
    {
        FileAttribute { bits: 0x10 }
    }

    /// This file is compressed.
    pub fn ARCHIVE() -> (r: FileAttribute)
        ensures
            r@ == 0x20,
    {
        FileAttribute { bits: 0x20 }
    }

    /// Mask combining all the valid attributes.
    pub fn VALID_ATTR() -> (r: FileAttribute)
        ensures
            r@ == 0x37,
    {
        FileAttribute { bits: 0x37 }
    }

    /// No attribute.
    pub fn empty() -> (r: FileAttribute)
        ensures
            r@ == 0,
    {
        FileAttribute { bits: 0 }
    }

    /// The raw bits.
    pub fn bits(&self) -> (r: u64)
        ensures
            r == self@,
    {
        self.bits
    }

    /// The attributes whose bits are set in `bits`; other bits are dropped.
    pub fn from_bits_truncate(bits: u64) -> (r: FileAttribute)
        ensures
            r@ == bits & 0x37,
    {
        FileAttribute { bits: bits & 0x37 }
    }

    /// True if every attribute set in `other` is set in `self`.
    pub fn contains(&self, other: FileAttribute) -> (r: bool)
        ensures
            r == (self@ & other@ == other@),
    {
        self.bits & other.bits == other.bits
    }
}

/// Common properties of headers that can be used inside
/// [`NamedFileProtocolInfo`]: the GUID of the full structure, and the size
/// and alignment of the header as the firmware lays it out.
pub trait FileProtocolInfoHeader {
    /// The bytes of the GUID of the full structure.
    spec fn spec_guid() -> Seq<u8>;

    /// The size of the header in bytes.
    spec fn spec_size() -> nat;

    /// The alignment of the header in bytes.
    spec fn spec_alignment() -> nat;

    /// GUID of the full structure.
    fn guid() -> (g: Guid)
        ensures
            g@ == Self::spec_guid(),
    ;

    /// The size of the header in bytes.
    fn header_size() -> (r: usize)
        ensures
            r == Self::spec_size(),
            r <= 128,
    ;

    /// The alignment of the header in bytes.
    fn header_alignment() -> (r: usize)
        ensures
            r == Self::spec_alignment(),
            1 <= r <= 8,
    ;
}

/// Errors that can occur when creating a FileProtocolInfo
#[derive(Debug, Clone, Copy, PartialEq, Eq)]
pub enum FileInfoCreationError {
    /// The provided buffer was too small to hold the FileInfo. You need at
    /// least the indicated buffer size (in bytes). Please remember that using
    /// a misaligned buffer will cause a decrease of usable storage capacity.
    InsufficientStorage(usize),
    /// The suggested file name contains invalid code points (not in UCS-2)
    InvalidChar(char),
}

/// The alignment of a structure made of a header and UCS-2 characters.
pub open spec fn info_alignment(header_alignment: nat) -> nat {
    if header_alignment > 2 {
        header_alignment
    } else {
        2
    }
}

/// The number of bytes skipped at the start of storage at `address` before
/// the structure: the alignment less the misalignment, so a whole alignment
/// when the storage is already aligned.
pub open spec fn realignment_padding(address: usize, header_alignment: nat) -> int {
    info_alignment(header_alignment) - (address as int) % (info_alignment(header_alignment) as int)
}

/// The size in bytes of a structure made of a header of `header_size`
/// bytes and the null-terminated UCS-2 form of `name`.
pub open spec fn info_size(header_size: nat, name: Seq<char>) -> int {
    (header_size + (name.len() + 1) * 2) as int
}

/// Every character of `name` is in UCS-2.
pub open spec fn all_ucs2(name: Seq<char>) -> bool {
    forall|i: int| 0 <= i < name.len() ==> (#[trigger] name[i] as u32) <= 0xffff
}

/// The first character of `name` that is not in UCS-2.
pub open spec fn first_non_ucs2(name: Seq<char>) -> char {
    let p = choose|p: int|
        0 <= p < name.len() && (name[p] as u32) > 0xffff && forall|j: int|
            0 <= j < p ==> (#[trigger] name[j] as u32) <= 0xffff;
    name[p]
}

/// The null-terminated UCS-2 codes of a name in UCS-2.
pub open spec fn name_codes(name: Seq<char>) -> Seq<u16> {
    Seq::new(name.len(), |i: int| (name[i] as u32) as u16).push(0)
}

/// A file information structure: a header, followed by a null-terminated
/// UCS-2 name.
///
/// All the structures that can currently be queried about a file or a file
/// system can be described as a (possibly empty) header followed by a
/// name.
#[derive(Debug)]
pub struct NamedFileProtocolInfo<Header: FileProtocolInfoHeader> {
    header: Header,
    name: Vec<u16>,
}

impl<Header: FileProtocolInfoHeader> NamedFileProtocolInfo<Header> {
    #[verifier::type_invariant]
    spec fn well_formed(self) -> bool {
        &&& self.name@.len() >= 1
        &&& self.name@.last() == 0
        &&& is_valid_codes(self.name@)
    }

    /// The header.
    pub closed spec fn spec_header(&self) -> Header {
        self.header
    }

    /// The codes of the name, the null included.
    pub closed spec fn spec_name(&self) -> Seq<u16> {
        self.name@
    }

    /// Creates the structure for storage of `storage_len` bytes at
    /// `storage_address`.
    ///
    /// The storage must hold the padding that aligns the structure and the
    /// structure itself, else the error gives the structure's size; and the
    /// name must be in UCS-2, else the error gives its first other character.
    fn new_impl(storage_address: usize, storage_len: usize, header: Header, name: &str) -> (r: Result<Self, FileInfoCreationError>)
        requires
            name@.len() <= usize::MAX / 4,
        ensures
            ({
                let size = info_size(Header::spec_size(), name@);
                let pad = realignment_padding(storage_address, Header::spec_alignment());
                &&& pad + size > storage_len ==> r == Err::<Self, FileInfoCreationError>(
                    FileInfoCreationError::InsufficientStorage(size as usize),
                )
                &&& pad + size <= storage_len && !all_ucs2(name@) ==> r == Err::<
                    Self,
                    FileInfoCreationError,
                >(FileInfoCreationError::InvalidChar(first_non_ucs2(name@)))
                &&& pad + size <= storage_len && all_ucs2(name@) ==> (r matches Ok(info) && info.spec_header()
                    == header && info.spec_name() == name_codes(name@))
            }),
    {
        let header_alignment = Header::header_alignment();
        let info_alignment: usize = if header_alignment > 2 {
            header_alignment
        } else {
            2
        };
        let realignment_padding = info_alignment - storage_address % info_alignment;
        let mut count: usize = 0;
        for c in it: name.chars()
            invariant
                it.seq() == name@,
                count == it.index(),
                name@.len() <= usize::MAX / 4,
        {
            count = count + 1;
        }
        let name_size = (count + 1) * 2;
        let info_size = Header::header_size() + name_size;
        proof {
            assert(info_size == self::info_size(Header::spec_size(), name@));
            assert(realignment_padding == self::realignment_padding(storage_address, Header::spec_alignment()));
        }
        if realignment_padding + info_size > storage_len {
            return Err(FileInfoCreationError::InsufficientStorage(info_size));
        }
        let mut codes: Vec<u16> = Vec::new();
        for c in it: name.chars()
            invariant
                it.seq() == name@,
                codes@.len() == it.index(),
                forall|j: int| 0 <= j < it.index() ==> (#[trigger] name@[j] as u32) <= 0xffff,
                forall|j: int| 0 <= j < it.index() ==> #[trigger] codes@[j] == (name@[j] as u32) as u16,
                self::realignment_padding(storage_address, Header::spec_alignment()) + self::info_size(
                    Header::spec_size(),
                    name@,
                ) <= storage_len,
        {
            if c as u32 > 0xffff {
                proof {
                    let i = it.index() as int;
                    assert(c == name@[i]);
                    let p = choose|p: int|
                        0 <= p < name@.len() && (name@[p] as u32) > 0xffff && forall|j: int|
                            0 <= j < p ==> (#[trigger] name@[j] as u32) <= 0xffff;
                    assert(p == i) by {
                        if p < i {
                            assert((name@[p] as u32) <= 0xffff);
                        } else if p > i {
                            assert((name@[i] as u32) <= 0xffff);
                        }
                    }
                }
                return Err(FileInfoCreationError::InvalidChar(c));
            }
            codes.push(c as u32 as u16);
        }
        codes.push(0);
        proof {
            assert(codes@ =~= name_codes(name@));
            assert(all_ucs2(name@));
            lemma_name_codes(name@);
            assert(codes@[codes@.len() - 1] == 0);
            assert(exists|i: int| 0 <= i < codes@.len() && codes@[i] == 0);
            assert(is_valid_codes(codes@));
        }
        Ok(NamedFileProtocolInfo { header, name: codes })
    }

    /// The name, up to and including its first null.
    fn name_cstr(&self) -> (r: CStr16)
        ensures
            r@ == name_up_to_null(self.name@),
    {
        proof {
            use_type_invariant(self);
            assert(self.name@[self.name@.len() - 1] == 0);
        }
        let mut i: usize = 0;
        while self.name[i] != 0
            invariant
                i < self.name.len(),
                exists|k: int| i <= k < self.name@.len() && self.name@[k] == 0,
                forall|j: int| 0 <= j < i ==> self.name@[j] != 0,
            decreases self.name@.len() - i,
        {
            i = i + 1;
        }
        let prefix = vstd::slice::slice_subrange(self.name.as_slice(), 0, i + 1);
        proof {
            assert(is_ucs2_cstr(prefix@));
            assert(prefix@ =~= name_up_to_null(self.name@)) by {
                lemma_first_null(self.name@, i as int);
            }
        }
        match CStr16::from_u16_with_nul(prefix) {
            Ok(s) => s,
            Err(_) => {
                proof {
                    assert(false);
                }
                CStr16::from_u16_with_nul_unchecked(prefix)
            },
        }
    }
}

/// No code is a surrogate half.
pub open spec fn is_valid_codes(s: Seq<u16>) -> bool {
    forall|i: int| 0 <= i < s.len() ==> !crate::data_types::chars::is_surrogate(#[trigger] s[i] as u32)
}

/// The index of the first null code of `s`.
pub open spec fn first_null(s: Seq<u16>) -> int {
    choose|i: int| 0 <= i < s.len() && s[i] == 0 && forall|j: int| 0 <= j < i ==> s[j] != 0
}

/// The codes of `s` up to and including its first null.
pub open spec fn name_up_to_null(s: Seq<u16>) -> Seq<u16> {
    s.subrange(0, first_null(s) + 1)
}

proof fn lemma_first_null(s: Seq<u16>, i: int)
    requires
        0 <= i < s.len(),
        s[i] == 0,
        forall|j: int| 0 <= j < i ==> s[j] != 0,
    ensures
        first_null(s) == i,
{
    let p = first_null(s);
    assert(0 <= p < s.len() && s[p] == 0 && forall|j: int| 0 <= j < p ==> s[j] != 0);
    if p < i {
        assert(s[p] != 0);
    } else if p > i {
        assert(s[i] != 0);
    }
}

/// The name codes of a name in UCS-2 hold a null and no surrogate half.
proof fn lemma_name_codes(name: Seq<char>)
    requires
        all_ucs2(name),
    ensures
        exists|i: int| 0 <= i < name_codes(name).len() && name_codes(name)[i] == 0,
        is_valid_codes(name_codes(name)),
{
    let c = name_codes(name);
    assert(c[name.len() as int] == 0);
    assert forall|i: int| 0 <= i < c.len() implies !crate::data_types::chars::is_surrogate(#[trigger] c[i] as u32) by {
        if i < name.len() {
            crate::data_types::chars::char_is_not_surrogate(name[i]);
        }
    }
}

/// Header for generic file information
#[derive(Debug, Clone, Copy)]
pub struct FileInfoHeader {
    /// Size of the whole structure, as recorded.
    pub size: u64,
    /// File size (number of bytes stored in the file).
    pub file_size: u64,
    /// Physical space consumed by the file on the file system volume.
    pub physical_size: u64,
    /// Time when the file was created.
    pub create_time: Time,
    /// Time when the file was last accessed.
    pub last_access_time: Time,
    /// Time when the file's contents were last modified.
    pub modification_time: Time,
    /// Attribute bits for the file.
    pub attribute: FileAttribute,
}

impl FileProtocolInfoHeader for FileInfoHeader {
    open spec fn spec_guid() -> Seq<u8> {
        spec_guid_bytes(0x0957_6e92, 0x6d3f, 0x11d2, 0x8e39, 0x00a0c969723b)
    }

    open spec fn spec_size() -> nat {
        80
    }

    open spec fn spec_alignment() -> nat {
        8
    }

    fn guid() -> (g: Guid) {
        Guid::from_values(0x0957_6e92, 0x6d3f, 0x11d2, 0x8e39, 0x00a0c969723b)
    }

    fn header_size() -> (r: usize) {
        80
    }

    fn header_alignment() -> (r: usize) {
        8
    }
}

/// Generic file information
pub type FileInfo = NamedFileProtocolInfo<FileInfoHeader>;

/// The size that a created information structure records in its header:
/// the size of a reference to the structure (two machine words), as the
/// structure is sized by the reference that was built for it.
pub open spec fn recorded_size() -> u64 {
    (2 * (usize::BITS / 8)) as u64
}

impl NamedFileProtocolInfo<FileInfoHeader> {
    /// Create a FileInfo structure for storage of `storage_len` bytes at
    /// `storage_address`. The storage must be large enough to hold the
    /// data structure, including a null-terminated UCS-2 version of the
    /// name, after the padding that aligns it.
    pub fn new(
        storage_address: usize,
        storage_len: usize,
        file_size: u64,
        physical_size: u64,
        create_time: Time,
        last_access_time: Time,
        modification_time: Time,
        attribute: FileAttribute,
        file_name: &str,
    ) -> (r: Result<Self, FileInfoCreationError>)
        requires
            file_name@.len() <= usize::MAX / 4,
        ensures
            ({
                let size = info_size(80, file_name@);
                let pad = realignment_padding(storage_address, 8);
                &&& pad + size > storage_len ==> r == Err::<Self, FileInfoCreationError>(
                    FileInfoCreationError::InsufficientStorage(size as usize),
                )
                &&& pad + size <= storage_len && !all_ucs2(file_name@) ==> r == Err::<
                    Self,
                    FileInfoCreationError,
                >(FileInfoCreationError::InvalidChar(first_non_ucs2(file_name@)))
                &&& pad + size <= storage_len && all_ucs2(file_name@) ==> (r matches Ok(info) && {
                    &&& info.spec_name() == name_codes(file_name@)
                    &&& info.spec_header().size == recorded_size()
                    &&& info.spec_header().file_size == file_size
                    &&& info.spec_header().physical_size == physical_size
                    &&& info.spec_header().create_time == create_time
                    &&& info.spec_header().last_access_time == last_access_time
                    &&& info.spec_header().modification_time == modification_time
                    &&& info.spec_header().attribute == attribute
                })
            }),
    {
        let header = FileInfoHeader {
            size: 0,
            file_size,
            physical_size,
            create_time,
            last_access_time,
            modification_time,
            attribute,
        };
        match Self::new_impl(storage_address, storage_len, header, file_name) {
            Ok(info) => {
                let mut info = info;
                proof {
                    use_type_invariant(&info);
                }
                info.header.size = (2 * (usize::BITS / 8)) as u64;
                Ok(info)
            },
            Err(e) => Err(e),
        }
    }

    /// File size (number of bytes stored in the file)
    pub fn file_size(&self) -> (r: u64)
        ensures
            r == self.spec_header().file_size,
    {
        self.header.file_size
    }

    /// Physical space consumed by the file on the file system volume
    pub fn physical_size(&self) -> (r: u64)
        ensures
            r == self.spec_header().physical_size,
    {
        self.header.physical_size
    }

    /// Time when the file was created
    pub fn create_time(&self) -> (r: &Time)
        ensures
            *r == self.spec_header().create_time,
    {
        &self.header.create_time
    }

    /// Time when the file was last accessed
    pub fn last_access_time(&self) -> (r: &Time)
        ensures
            *r == self.spec_header().last_access_time,
    {
        &self.header.last_access_time
    }

    /// Time when the file's contents were last modified
    pub fn modification_time(&self) -> (r: &Time)
        ensures
            *r == self.spec_header().modification_time,
    {
        &self.header.modification_time
    }

    /// Attribute bits for the file
    pub fn attribute(&self) -> (r: FileAttribute)
        ensures
            r == self.spec_header().attribute,
    {
        self.header.attribute
    }

    /// Name of the file, up to its first null.
    pub fn file_name(&self) -> (r: CStr16)
        ensures
            r@ == name_up_to_null(self.spec_name()),
    {
        self.name_cstr()
    }
}

/// Header for system volume information
#[derive(Debug, Clone, Copy)]
pub struct FileSystemInfoHeader {
    /// Size of the whole structure, as recorded.
    pub size: u64,
    /// Truth that the volume only supports read access.
    pub read_only: bool,
    /// Number of bytes managed by the file system.
    pub volume_size: u64,
    /// Number of available bytes for use by the file system.
    pub free_space: u64,
    /// Nominal block size by which files are typically grown.
    pub block_size: u32,
}

impl FileProtocolInfoHeader for FileSystemInfoHeader {
    open spec fn spec_guid() -> Seq<u8> {
        spec_guid_bytes(0x0957_6e93, 0x6d3f, 0x11d2, 0x8e39, 0x00a0c969723b)
    }

    open spec fn spec_size() -> nat {
        40
    }

    open spec fn spec_alignment() -> nat {
        8
    }

    fn guid() -> (g: Guid) {
        Guid::from_values(0x0957_6e93, 0x6d3f, 0x11d2, 0x8e39, 0x00a0c969723b)
    }

    fn header_size() -> (r: usize) {
        40
    }

    fn header_alignment() -> (r: usize) {
        8
    }
}

/// System volume information
///
/// May only be obtained on the root directory's file handle.
pub type FileSystemInfo = NamedFileProtocolInfo<FileSystemInfoHeader>;

impl NamedFileProtocolInfo<FileSystemInfoHeader> {
    /// Create a FileSystemInfo structure for storage of `storage_len` bytes
    /// at `storage_address`; the storage must hold the structure after the
    /// padding that aligns it.
    pub fn new(
        storage_address: usize,
        storage_len: usize,
        read_only: bool,
        volume_size: u64,
        free_space: u64,
        block_size: u32,
        volume_label: &str,
    ) -> (r: Result<Self, FileInfoCreationError>)
        requires
            volume_label@.len() <= usize::MAX / 4,
        ensures
            ({
                let size = info_size(40, volume_label@);
                let pad = realignment_padding(storage_address, 8);
                &&& pad + size > storage_len ==> r == Err::<Self, FileInfoCreationError>(
                    FileInfoCreationError::InsufficientStorage(size as usize),
                )
                &&& pad + size <= storage_len && !all_ucs2(volume_label@) ==> r == Err::<
                    Self,
                    FileInfoCreationError,
                >(FileInfoCreationError::InvalidChar(first_non_ucs2(volume_label@)))
                &&& pad + size <= storage_len && all_ucs2(volume_label@) ==> (r matches Ok(info) && {
                    &&& info.spec_name() == name_codes(volume_label@)
                    &&& info.spec_header().size == recorded_size()
                    &&& info.spec_header().read_only == read_only
                    &&& info.spec_header().volume_size == volume_size
                    &&& info.spec_header().free_space == free_space
                    &&& info.spec_header().block_size == block_size
                })
            }),
    {
        let header = FileSystemInfoHeader { size: 0, read_only, volume_size, free_space, block_size };
        match Self::new_impl(storage_address, storage_len, header, volume_label) {
            Ok(info) => {
                let mut info = info;
                proof {
                    use_type_invariant(&info);
                }
                info.header.size = (2 * (usize::BITS / 8)) as u64;
                Ok(info)
            },
            Err(e) => Err(e),
        }
    }

    /// Truth that the volume only supports read access
    pub fn read_only(&self) -> (r: bool)
        ensures
            r == self.spec_header().read_only,
    {
        self.header.read_only
    }

    /// Number of bytes managed by the file system
    pub fn volume_size(&self) -> (r: u64)
        ensures
            r == self.spec_header().volume_size,
    {
        self.header.volume_size
    }

    /// Number of available bytes for use by the file system
    pub fn free_space(&self) -> (r: u64)
        ensures
            r == self.spec_header().free_space,
    {
        self.header.free_space
    }

    /// Nominal block size by which files are typically grown
    pub fn block_size(&self) -> (r: u32)
        ensures
            r == self.spec_header().block_size,
    {
        self.header.block_size
    }

    /// Volume label, up to its first null.
    pub fn volume_label(&self) -> (r: CStr16)
        ensures
            r@ == name_up_to_null(self.spec_name()),
    {
        self.name_cstr()
    }
}

/// Header for system volume label information
#[derive(Debug, Clone, Copy)]
pub struct FileSystemVolumeLabelHeader {}

impl FileProtocolInfoHeader for FileSystemVolumeLabelHeader {
    open spec fn spec_guid() -> Seq<u8> {
        spec_guid_bytes(0xdb47_d7d3, 0xfe81, 0x11d3, 0x9a35, 0x0090273fc14d)
    }

    open spec fn spec_size() -> nat {
        0
    }

    open spec fn spec_alignment() -> nat {
        1
    }

    fn guid() -> (g: Guid) {
        Guid::from_values(0xdb47_d7d3, 0xfe81, 0x11d3, 0x9a35, 0x0090273fc14d)
    }

    fn header_size() -> (r: usize) {
        0
    }

    fn header_alignment() -> (r: usize) {
        1
    }
}

/// System volume label
///
/// May only be obtained on the root directory's file handle.
pub type FileSystemVolumeLabel = NamedFileProtocolInfo<FileSystemVolumeLabelHeader>;

impl NamedFileProtocolInfo<FileSystemVolumeLabelHeader> {
    /// Create a FileSystemVolumeLabel structure for storage of
    /// `storage_len` bytes at `storage_address`; the storage must hold the
    /// label after the padding that aligns it.
    pub fn new(storage_address: usize, storage_len: usize, volume_label: &str) -> (r: Result<
        Self,
        FileInfoCreationError,
    >)
        requires
            volume_label@.len() <= usize::MAX / 4,
        ensures
            ({
                let size = info_size(0, volume_label@);
                let pad = realignment_padding(storage_address, 1);
                &&& pad + size > storage_len ==> r == Err::<Self, FileInfoCreationError>(
                    FileInfoCreationError::InsufficientStorage(size as usize),
                )
                &&& pad + size <= storage_len && !all_ucs2(volume_label@) ==> r == Err::<
                    Self,
                    FileInfoCreationError,
                >(FileInfoCreationError::InvalidChar(first_non_ucs2(volume_label@)))
                &&& pad + size <= storage_len && all_ucs2(volume_label@) ==> (r matches Ok(info)
                    && info.spec_name() == name_codes(volume_label@))
            }),
    {
        Self::new_impl(storage_address, storage_len, FileSystemVolumeLabelHeader {}, volume_label)
    }

    /// Volume label, up to its first null.
    pub fn volume_label(&self) -> (r: CStr16)
        ensures
            r@ == name_up_to_null(self.spec_name()),
    {
        self.name_cstr()
    }
}

/// Encodes `input` into `buffer` with `ucs2::encode`.
///
/// `ucs2::encode` hands the code of each character of `input`, in order, to
/// a callback that stores it at the next place of `buffer`; the callback
/// fails with `BufferOverflow` when the buffer is full, which ends the
/// encoding. At the first four-byte character (a code point above
/// `0xffff`) the encoding stops with `MultiByte`. As `input` is valid
/// UTF-8, its other failures cannot occur. On success the number of codes
/// written is returned. The places of `buffer` after the codes written are
/// left as they were.
#[verifier::external_body]
fn ucs2_encode(input: &str, buffer: &mut [u16]) -> (r: core::result::Result<usize, Ucs2Error>)
    ensures
        ({
            let codes = ucs2_codes(input@.subrange(0, ucs2_prefix_len(input@) as int));
            let n = old(buffer)@.len();
            let k = if codes.len() > n {
                n as int
            } else {
                codes.len() as int
            };
            &&& final(buffer)@.len() == n
            &&& final(buffer)@.subrange(0, k) == codes.subrange(0, k)
            &&& final(buffer)@.subrange(k, n as int) == old(buffer)@.subrange(k, n as int)
            &&& (write_encodes(input@) && codes.len() <= n) ==> r == Ok::<usize, Ucs2Error>(
                codes.len() as usize,
            )
            &&& codes.len() > n ==> r == Err::<usize, Ucs2Error>(Ucs2Error::BufferOverflow)
            &&& (!write_encodes(input@) && codes.len() <= n) ==> r == Err::<usize, Ucs2Error>(
                Ucs2Error::MultiByte,
            )
        }),
{
    match ::ucs2::encode(input, buffer) {
        Ok(n) => Ok(n),
        Err(::ucs2::Error::InvalidData) => Err(Ucs2Error::InvalidData),
        Err(::ucs2::Error::BufferUnderflow) => Err(Ucs2Error::BufferUnderflow),
        Err(::ucs2::Error::BufferOverflow) => Err(Ucs2Error::BufferOverflow),
        Err(::ucs2::Error::MultiByte) => Err(Ucs2Error::MultiByte),
    }
}

/// A string takes at least one byte of UTF-8 per character.
proof fn lemma_utf8_len_at_least_chars(chars: Seq<char>)
    ensures
        encode_utf8(chars).len() >= chars.len(),
    decreases chars.len(),
{
    if chars.len() > 0 {
        lemma_utf8_len_at_least_chars(chars.drop_first());
        assert(encode_scalar(chars[0] as u32).len() >= 1);
    }
}

/// The null-terminated UCS-2 name that opening a file hands to the
/// firmware: a name of more than 255 bytes is refused with
/// `INVALID_PARAMETER`; one with a character that UCS-2 cannot represent
/// with `UNSUPPORTED`; otherwise the name is its codes, then a null.
pub fn file_open_name(filename: &str) -> (r: crate::result::Result<Vec<u16>>)
    ensures
        filename.spec_bytes().len() > 255 ==> (r matches Err(e) && e.spec_status()@ == error_bit()
            + 2),
        filename.spec_bytes().len() <= 255 && write_encodes(filename@) ==> (r matches Ok(
            Completion::Success(v),
        ) && v@ == ucs2_codes(filename@).push(0)),
        filename.spec_bytes().len() <= 255 && !write_encodes(filename@) ==> (r matches Err(e)
            && e.spec_status()@ == error_bit() + 3),
{
    let byte_len = filename.as_bytes().len();
    assert(byte_len == filename.spec_bytes().len());
    if byte_len > 255 {
        return Err(Error::new(Status::INVALID_PARAMETER(), ()));
    }
    let mut buf: Vec<u16> = Vec::new();
    let mut i: usize = 0;
    while i < 256
        invariant
            i <= 256,
            buf@ == Seq::new(i as nat, |_j: int| 0u16),
        decreases 256 - i,
    {
        buf.push(0);
        i = i + 1;
        proof {
            assert(buf@ =~= Seq::new(i as nat, |_j: int| 0u16));
        }
    }
    proof {
        lemma_utf8_len_at_least_chars(filename@);
        lemma_ucs2_prefix_len(filename@);
    }
    let ghost zeros = buf@;
    let ghost codes = ucs2_codes(filename@.subrange(0, ucs2_prefix_len(filename@) as int));
    assert(filename.spec_bytes() == encode_utf8(filename@));
    assert(codes.len() == ucs2_prefix_len(filename@));
    assert(codes.len() <= 255);
    let res = ucs2_encode(filename, buf.as_mut_slice());
    assert(buf@.len() == 256);
    match res {
        Ok(len) => {
            proof {
                assert(len == codes.len());
                assert(buf@.subrange(len as int, 256)[0] == zeros.subrange(len as int, 256)[0]);
                assert(filename@.subrange(0, ucs2_prefix_len(filename@) as int) =~= filename@);
            }
            let name = vstd::slice::slice_to_vec(vstd::slice::slice_subrange(buf.as_slice(), 0, len + 1));
            proof {
                assert(name@ =~= codes.push(0));
            }
            Ok(Completion::Success(name))
        },
        Err(e) => {
            let s = Status::from(e);
            Err(Error::new(s, ()))
        },
    }
}

} // verus!
