//! Device path build nodes for [`DeviceType::ACPI`].
#![allow(unused_imports)]
use crate::data_types::bytes::{
    le_at, le_encode, lemma_le_encode_len, lemma_le_roundtrip, lemma_pow256_values, push_bytes, push_le,
};
use crate::data_types::{CStr16, Guid};
use crate::proto::device_path::build::{BuildError, BuildNode};
use crate::proto::device_path::hardware::BmcInterfaceType;
use crate::proto::device_path::media::{
    lemma_signature_bytes_len, spec_signature_bytes, spec_signature_type, PartitionFormat,
    PartitionSignature, RamDiskType,
};
use crate::proto::device_path::messaging::{
    BluetoothLeAddressType, DnsAddressType, InfinibandResourceFlags, Ipv4AddressOrigin,
    Ipv6AddressOrigin, IscsiLoginOptions, IscsiProtocol, MasterSlave, Parity, PrimarySecondary,
    RestServiceAccessMode, RestServiceType, StopBits,
};
use crate::proto::device_path::{
    addresses_bytes, is_node, lemma_addresses_bytes_len, lemma_u16s_le_len, lemma_u32s_le_len,
    node_header, push_addresses, push_header, push_u16s, push_u32s, u16s_le, u32s_le,
};
use crate::proto::network::IpAddress;
use crate::table::boot::MemoryType;
use vstd::prelude::*;

verus! {

/// ACPI device path node.
pub struct Acpi {
    /// Device's PnP hardware ID stored in a numeric 32-bit
    /// compressed EISA-type ID.
    pub hid: u32,
    /// Unique ID that is required by ACPI if two devices have the
    /// same HID.
    pub uid: u32,
}

impl Acpi {
    /// The length of the node's bytes.
    proof fn lemma_len(&self)
        ensures
            self.spec_node().len() == 12,
    {
        lemma_le_encode_len((12) as nat, 2);
        lemma_le_encode_len(self.hid as nat, 4);
        lemma_le_encode_len(self.uid as nat, 4);
    }

    /// The node's bytes are a well-formed node of its type, and hold each
    /// field at its offset: a node of this type read from them gives back
    /// the fields.
    pub proof fn lemma_layout(&self)
        requires
            self.spec_node().len() <= 0xffff,
        ensures
            is_node(self.spec_node()),
            crate::proto::device_path::acpi::acpi_size_ok(self.spec_node()),
            self.spec_node()[0] == 0x02,
            self.spec_node()[1] == 0x01,
            le_at(self.spec_node(), (4) as int, 4) == self.hid as nat,
            le_at(self.spec_node(), (8) as int, 4) == self.uid as nat,
    {
        self.lemma_len();
        lemma_le_encode_len((12) as nat, 2);
        lemma_le_encode_len(self.hid as nat, 4);
        lemma_le_encode_len(self.uid as nat, 4);
        lemma_pow256_values();
        let len: nat = (12) as nat;
        assert(self.spec_node().subrange(2, 4) =~= le_encode(len, 2));
        lemma_le_roundtrip(len, 2);
        assert(self.spec_node().subrange((4) as int, (4 + 4) as int) =~= le_encode(self.hid as nat, 4));
        lemma_le_roundtrip(self.hid as nat, 4);
        assert(self.spec_node().subrange((8) as int, (8 + 4) as int) =~= le_encode(self.uid as nat, 4));
        lemma_le_roundtrip(self.uid as nat, 4);
    }
}

impl BuildNode for Acpi {
    open spec fn spec_node(&self) -> Seq<u8> {
        node_header(0x02, 0x01, (12) as nat)
            + le_encode(self.hid as nat, 4)
            + le_encode(self.uid as nat, 4)
    }

    open spec fn spec_buildable(&self) -> bool {
        true
    }

    fn size_in_bytes(&self) -> (r: Result<u16, BuildError>) {
        proof {
            self.lemma_len();
        }
        Ok(12)
    }

    fn write_data(&self, out: &mut Vec<u8>) {
        proof {
            self.lemma_len();
        }
        let size: u16 = 12;
        push_header(out, 0x02, 0x01, size);
        push_le(out, self.hid as u64, 4);
        push_le(out, self.uid as u64, 4);
        proof {
            assert(out@ =~= old(out)@ + self.spec_node());
        }
    }
}

/// Expanded ACPI device path node.
pub struct Expanded<'a> {
    /// Device's PnP hardware ID stored in a numeric 32-bit compressed
    /// EISA-type ID.
    pub hid: u32,
    /// Unique ID that is required by ACPI if two devices have the
    /// same HID.
    pub uid: u32,
    /// Device's compatible PnP hardware ID stored in a numeric 32-bit
    /// compressed EISA-type ID.
    pub cid: u32,
    /// Device's PnP hardware ID stored as a null-terminated ASCII
    /// string. This value must match the corresponding HID in the
    /// ACPI name space. If the length of this string not including
    /// the null-terminator is 0, then the numeric HID is used.
    pub hid_str: &'a [u8],
    /// Unique ID that is required by ACPI if two devices have the
    /// same HID. This value is stored as a null-terminated ASCII
    /// string. If the length of this string not including the
    /// null-terminator is 0, then the numeric UID is used.
    pub uid_str: &'a [u8],
    /// Device's compatible PnP hardware ID stored as a
    /// null-terminated ASCII string. If the length of this string
    /// not including the null-terminator is 0, then the numeric CID
    /// is used.
    pub cid_str: &'a [u8],
}

impl<'a> Expanded<'a> {
    /// The length of the node's bytes.
    proof fn lemma_len(&self)
        ensures
            self.spec_node().len() == 16 + self.hid_str@.len() + self.uid_str@.len() + self.cid_str@.len(),
    {
        lemma_le_encode_len((16 + self.hid_str@.len() + self.uid_str@.len() + self.cid_str@.len()) as nat, 2);
        lemma_le_encode_len(self.hid as nat, 4);
        lemma_le_encode_len(self.uid as nat, 4);
        lemma_le_encode_len(self.cid as nat, 4);
    }

    /// The node's bytes are a well-formed node of its type, and hold each
    /// field at its offset: a node of this type read from them gives back
    /// the fields.
    pub proof fn lemma_layout(&self)
        requires
            self.spec_node().len() <= 0xffff,
        ensures
            is_node(self.spec_node()),
            crate::proto::device_path::acpi::expanded_size_ok(self.spec_node()),
            self.spec_node()[0] == 0x02,
            self.spec_node()[1] == 0x02,
            le_at(self.spec_node(), (4) as int, 4) == self.hid as nat,
            le_at(self.spec_node(), (8) as int, 4) == self.uid as nat,
            le_at(self.spec_node(), (12) as int, 4) == self.cid as nat,
            self.spec_node().subrange((16) as int, (16 + self.hid_str@.len()) as int) == self.hid_str@,
            self.spec_node().subrange((16 + self.hid_str@.len()) as int, (16 + self.hid_str@.len() + self.uid_str@.len()) as int) == self.uid_str@,
            self.spec_node().subrange((16 + self.hid_str@.len() + self.uid_str@.len()) as int, (16 + self.hid_str@.len() + self.uid_str@.len() + self.cid_str@.len()) as int) == self.cid_str@,
    {
        self.lemma_len();
        lemma_le_encode_len((16 + self.hid_str@.len() + self.uid_str@.len() + self.cid_str@.len()) as nat, 2);
        lemma_le_encode_len(self.hid as nat, 4);
        lemma_le_encode_len(self.uid as nat, 4);
        lemma_le_encode_len(self.cid as nat, 4);
        lemma_pow256_values();
        let len: nat = (16 + self.hid_str@.len() + self.uid_str@.len() + self.cid_str@.len()) as nat;
        assert(self.spec_node().subrange(2, 4) =~= le_encode(len, 2));
        lemma_le_roundtrip(len, 2);
        assert(self.spec_node().subrange((4) as int, (4 + 4) as int) =~= le_encode(self.hid as nat, 4));
        lemma_le_roundtrip(self.hid as nat, 4);
        assert(self.spec_node().subrange((8) as int, (8 + 4) as int) =~= le_encode(self.uid as nat, 4));
        lemma_le_roundtrip(self.uid as nat, 4);
        assert(self.spec_node().subrange((12) as int, (12 + 4) as int) =~= le_encode(self.cid as nat, 4));
        lemma_le_roundtrip(self.cid as nat, 4);
        assert(self.spec_node().subrange((16) as int, (16 + self.hid_str@.len()) as int) =~= self.hid_str@);
        assert(self.spec_node().subrange((16 + self.hid_str@.len()) as int, (16 + self.hid_str@.len() + self.uid_str@.len()) as int) =~= self.uid_str@);
        assert(self.spec_node().subrange((16 + self.hid_str@.len() + self.uid_str@.len()) as int, (16 + self.hid_str@.len() + self.uid_str@.len() + self.cid_str@.len()) as int) =~= self.cid_str@);
    }
}

impl<'a> BuildNode for Expanded<'a> {
    open spec fn spec_node(&self) -> Seq<u8> {
        node_header(0x02, 0x02, (16 + self.hid_str@.len() + self.uid_str@.len() + self.cid_str@.len()) as nat)
            + le_encode(self.hid as nat, 4)
            + le_encode(self.uid as nat, 4)
            + le_encode(self.cid as nat, 4)
            + self.hid_str@
            + self.uid_str@
            + self.cid_str@
    }

    open spec fn spec_buildable(&self) -> bool {
        true
    }

    fn size_in_bytes(&self) -> (r: Result<u16, BuildError>) {
        proof {
            self.lemma_len();
        }
        if self.hid_str.len() > 0xffff {
            return Err(BuildError::NodeTooBig);
        }
        if self.uid_str.len() > 0xffff {
            return Err(BuildError::NodeTooBig);
        }
        if self.cid_str.len() > 0xffff {
            return Err(BuildError::NodeTooBig);
        }
        let size: usize = 16 + self.hid_str.len() + self.uid_str.len() + self.cid_str.len();
        if size > 0xffff {
            Err(BuildError::NodeTooBig)
        } else {
            Ok(size as u16)
        }
    }

    fn write_data(&self, out: &mut Vec<u8>) {
        proof {
            self.lemma_len();
        }
        let size: u16 = (16 + self.hid_str.len() + self.uid_str.len() + self.cid_str.len()) as u16;
        push_header(out, 0x02, 0x02, size);
        push_le(out, self.hid as u64, 4);
        push_le(out, self.uid as u64, 4);
        push_le(out, self.cid as u64, 4);
        push_bytes(out, self.hid_str);
        push_bytes(out, self.uid_str);
        push_bytes(out, self.cid_str);
        proof {
            assert(out@ =~= old(out)@ + self.spec_node());
        }
    }
}

/// ADR ACPI device path node.
pub struct Adr<'a> {
    /// ADR values. For video output devices the value of this field
    /// comes from Table B-2 ACPI 3.0 specification. At least one
    /// ADR value is required.
    pub adr: &'a AdrSlice,
}

impl<'a> Adr<'a> {
    /// The length of the node's bytes.
    proof fn lemma_len(&self)
        ensures
            self.spec_node().len() == 4 + 4 * self.adr@.len(),
    {
        lemma_le_encode_len((4 + 4 * self.adr@.len()) as nat, 2);
        lemma_u32s_le_len(self.adr@);
    }

    /// The node's bytes are a well-formed node of its type, and hold each
    /// field at its offset: a node of this type read from them gives back
    /// the fields.
    pub proof fn lemma_layout(&self)
        requires
            self.spec_node().len() <= 0xffff,
        ensures
            is_node(self.spec_node()),
            crate::proto::device_path::acpi::adr_size_ok(self.spec_node()),
            self.spec_node()[0] == 0x02,
            self.spec_node()[1] == 0x03,
            self.spec_node().subrange((4) as int, (4 + 4 * self.adr@.len()) as int) == u32s_le(self.adr@),
    {
        self.lemma_len();
        lemma_le_encode_len((4 + 4 * self.adr@.len()) as nat, 2);
        lemma_u32s_le_len(self.adr@);
        lemma_pow256_values();
        let len: nat = (4 + 4 * self.adr@.len()) as nat;
        assert(self.spec_node().subrange(2, 4) =~= le_encode(len, 2));
        lemma_le_roundtrip(len, 2);
        assert(self.spec_node().subrange((4) as int, (4 + 4 * self.adr@.len()) as int) =~= u32s_le(self.adr@));
    }
}

impl<'a> BuildNode for Adr<'a> {
    open spec fn spec_node(&self) -> Seq<u8> {
        node_header(0x02, 0x03, (4 + 4 * self.adr@.len()) as nat)
            + u32s_le(self.adr@)
    }

    open spec fn spec_buildable(&self) -> bool {
        true
    }

    fn size_in_bytes(&self) -> (r: Result<u16, BuildError>) {
        proof {
            self.lemma_len();
        }
        if self.adr.values.len() > 0xffff {
            return Err(BuildError::NodeTooBig);
        }
        let size: usize = 4 + 4 * self.adr.values.len();
        if size > 0xffff {
            Err(BuildError::NodeTooBig)
        } else {
            Ok(size as u16)
        }
    }

    fn write_data(&self, out: &mut Vec<u8>) {
        proof {
            self.lemma_len();
        }
        let size: u16 = (4 + 4 * self.adr.values.len()) as u16;
        push_header(out, 0x02, 0x03, size);
        push_u32s(out, self.adr.values.as_slice());
        proof {
            assert(out@ =~= old(out)@ + self.spec_node());
        }
    }
}

/// NVDIMM ACPI device path node.
pub struct Nvdimm {
    /// NFIT device handle.
    pub nfit_device_handle: u32,
}

impl Nvdimm {
    /// The length of the node's bytes.
    proof fn lemma_len(&self)
        ensures
            self.spec_node().len() == 8,
    {
        lemma_le_encode_len((8) as nat, 2);
        lemma_le_encode_len(self.nfit_device_handle as nat, 4);
    }

    /// The node's bytes are a well-formed node of its type, and hold each
    /// field at its offset: a node of this type read from them gives back
    /// the fields.
    pub proof fn lemma_layout(&self)
        requires
            self.spec_node().len() <= 0xffff,
        ensures
            is_node(self.spec_node()),
            crate::proto::device_path::acpi::nvdimm_size_ok(self.spec_node()),
            self.spec_node()[0] == 0x02,
            self.spec_node()[1] == 0x04,
            le_at(self.spec_node(), (4) as int, 4) == self.nfit_device_handle as nat,
    {
        self.lemma_len();
        lemma_le_encode_len((8) as nat, 2);
        lemma_le_encode_len(self.nfit_device_handle as nat, 4);
        lemma_pow256_values();
        let len: nat = (8) as nat;
        assert(self.spec_node().subrange(2, 4) =~= le_encode(len, 2));
        lemma_le_roundtrip(len, 2);
        assert(self.spec_node().subrange((4) as int, (4 + 4) as int) =~= le_encode(self.nfit_device_handle as nat, 4));
        lemma_le_roundtrip(self.nfit_device_handle as nat, 4);
    }
}

impl BuildNode for Nvdimm {
    open spec fn spec_node(&self) -> Seq<u8> {
        node_header(0x02, 0x04, (8) as nat)
            + le_encode(self.nfit_device_handle as nat, 4)
    }

    open spec fn spec_buildable(&self) -> bool {
        true
    }

    fn size_in_bytes(&self) -> (r: Result<u16, BuildError>) {
        proof {
            self.lemma_len();
        }
        Ok(8)
    }

    fn write_data(&self, out: &mut Vec<u8>) {
        proof {
            self.lemma_len();
        }
        let size: u16 = 8;
        push_header(out, 0x02, 0x04, size);
        push_le(out, self.nfit_device_handle as u64, 4);
        proof {
            assert(out@ =~= old(out)@ + self.spec_node());
        }
    }
}

/// ADR values, at least one.
///
/// The model is the sequence of values.
pub struct AdrSlice {
    values: Vec<u32>,
}

impl View for AdrSlice {
    type V = Seq<u32>;

    closed spec fn view(&self) -> Seq<u32> {
        self.values@
    }
}

impl AdrSlice {
    /// Create a new `AdrSlice`. Returns `None` if the input slice
    /// is empty.
    pub fn new(slice: &[u32]) -> (r: Option<AdrSlice>)
        ensures
            r is Some <==> slice@.len() > 0,
            r matches Some(a) ==> a@ == slice@,
    {
        if slice.len() == 0 {
            None
        } else {
            Some(AdrSlice { values: vstd::slice::slice_to_vec(slice) })
        }
    }
}

} // verus!
