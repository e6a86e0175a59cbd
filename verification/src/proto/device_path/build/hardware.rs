//! Device path build nodes for [`DeviceType::HARDWARE`].
#![allow(unused_imports)]
use crate::data_types::bytes::{
    le_at, le_encode, lemma_le_encode_len, lemma_le_roundtrip, lemma_pow256_values, push_bytes, push_le,
};
use crate::data_types::{CStr16, Guid};
use crate::proto::device_path::build::{BuildError, BuildNode};
use crate::proto::device_path::hardware::BmcInterfaceType;
use crate::proto::device_path::media::{
    lemma_signature_bytes_len, spec_signature_bytes, spec_signature_type, PartitionFormat,
    PartitionSignature, RamDiskType,
};
use crate::proto::device_path::messaging::{
    BluetoothLeAddressType, DnsAddressType, InfinibandResourceFlags, Ipv4AddressOrigin,
    Ipv6AddressOrigin, IscsiLoginOptions, IscsiProtocol, MasterSlave, Parity, PrimarySecondary,
    RestServiceAccessMode, RestServiceType, StopBits,
};
use crate::proto::device_path::{
    addresses_bytes, is_node, lemma_addresses_bytes_len, lemma_u16s_le_len, lemma_u32s_le_len,
    node_header, push_addresses, push_header, push_u16s, push_u32s, u16s_le, u32s_le,
};
use crate::proto::network::IpAddress;
use crate::table::boot::MemoryType;
use vstd::prelude::*;

verus! {

/// PCI hardware device path node.
pub struct Pci {
    /// PCI function number.
    pub function: u8,
    /// PCI device number.
    pub device: u8,
}

impl Pci {
    /// The length of the node's bytes.
    proof fn lemma_len(&self)
        ensures
            self.spec_node().len() == 6,
    {
        lemma_le_encode_len((6) as nat, 2);
    }

    /// The node's bytes are a well-formed node of its type, and hold each
    /// field at its offset: a node of this type read from them gives back
    /// the fields.
    pub proof fn lemma_layout(&self)
        requires
            self.spec_node().len() <= 0xffff,
        ensures
            is_node(self.spec_node()),
            crate::proto::device_path::hardware::pci_size_ok(self.spec_node()),
            self.spec_node()[0] == 0x01,
            self.spec_node()[1] == 0x01,
            self.spec_node()[(4) as int] == self.function,
            self.spec_node()[(5) as int] == self.device,
    {
        self.lemma_len();
        lemma_le_encode_len((6) as nat, 2);
        lemma_pow256_values();
        let len: nat = (6) as nat;
        assert(self.spec_node().subrange(2, 4) =~= le_encode(len, 2));
        lemma_le_roundtrip(len, 2);
    }
}

impl BuildNode for Pci {
    open spec fn spec_node(&self) -> Seq<u8> {
        node_header(0x01, 0x01, (6) as nat)
            + seq![self.function]
            + seq![self.device]
    }

    open spec fn spec_buildable(&self) -> bool {
        true
    }

    fn size_in_bytes(&self) -> (r: Result<u16, BuildError>) {
        proof {
            self.lemma_len();
        }
        Ok(6)
    }

    fn write_data(&self, out: &mut Vec<u8>) {
        proof {
            self.lemma_len();
        }
        let size: u16 = 6;
        push_header(out, 0x01, 0x01, size);
        out.push(self.function);
        out.push(self.device);
        proof {
            assert(out@ =~= old(out)@ + self.spec_node());
        }
    }
}

/// PCCARD hardware device path node.
pub struct Pccard {
    /// Function number starting from 0.
    pub function: u8,
}

impl Pccard {
    /// The length of the node's bytes.
    proof fn lemma_len(&self)
        ensures
            self.spec_node().len() == 5,
    {
        lemma_le_encode_len((5) as nat, 2);
    }

    /// The node's bytes are a well-formed node of its type, and hold each
    /// field at its offset: a node of this type read from them gives back
    /// the fields.
    pub proof fn lemma_layout(&self)
        requires
            self.spec_node().len() <= 0xffff,
        ensures
            is_node(self.spec_node()),
            crate::proto::device_path::hardware::pccard_size_ok(self.spec_node()),
            self.spec_node()[0] == 0x01,
            self.spec_node()[1] == 0x02,
            self.spec_node()[(4) as int] == self.function,
    {
        self.lemma_len();
        lemma_le_encode_len((5) as nat, 2);
        lemma_pow256_values();
        let len: nat = (5) as nat;
        assert(self.spec_node().subrange(2, 4) =~= le_encode(len, 2));
        lemma_le_roundtrip(len, 2);
    }
}

impl BuildNode for Pccard {
    open spec fn spec_node(&self) -> Seq<u8> {
        node_header(0x01, 0x02, (5) as nat)
            + seq![self.function]
    }

    open spec fn spec_buildable(&self) -> bool {
        true
    }

    fn size_in_bytes(&self) -> (r: Result<u16, BuildError>) {
        proof {
            self.lemma_len();
        }
        Ok(5)
    }

    fn write_data(&self, out: &mut Vec<u8>) {
        proof {
            self.lemma_len();
        }
        let size: u16 = 5;
        push_header(out, 0x01, 0x02, size);
        out.push(self.function);
        proof {
            assert(out@ =~= old(out)@ + self.spec_node());
        }
    }
}

/// Memory mapped hardware device path node.
pub struct MemoryMapped {
    /// Memory type.
    pub memory_type: MemoryType,
    /// Starting memory address.
    pub start_address: u64,
    /// Ending memory address.
    pub end_address: u64,
}

impl MemoryMapped {
    /// The length of the node's bytes.
    proof fn lemma_len(&self)
        ensures
            self.spec_node().len() == 24,
    {
        lemma_le_encode_len((24) as nat, 2);
        lemma_le_encode_len(self.memory_type.0 as nat, 4);
        lemma_le_encode_len(self.start_address as nat, 8);
        lemma_le_encode_len(self.end_address as nat, 8);
    }

    /// The node's bytes are a well-formed node of its type, and hold each
    /// field at its offset: a node of this type read from them gives back
    /// the fields.
    pub proof fn lemma_layout(&self)
        requires
            self.spec_node().len() <= 0xffff,
        ensures
            is_node(self.spec_node()),
            crate::proto::device_path::hardware::memory_mapped_size_ok(self.spec_node()),
            self.spec_node()[0] == 0x01,
            self.spec_node()[1] == 0x03,
            le_at(self.spec_node(), (4) as int, 4) == self.memory_type.0 as nat,
            le_at(self.spec_node(), (8) as int, 8) == self.start_address as nat,
            le_at(self.spec_node(), (16) as int, 8) == self.end_address as nat,
    {
        self.lemma_len();
        lemma_le_encode_len((24) as nat, 2);
        lemma_le_encode_len(self.memory_type.0 as nat, 4);
        lemma_le_encode_len(self.start_address as nat, 8);
        lemma_le_encode_len(self.end_address as nat, 8);
        lemma_pow256_values();
        let len: nat = (24) as nat;
        assert(self.spec_node().subrange(2, 4) =~= le_encode(len, 2));
        lemma_le_roundtrip(len, 2);
        assert(self.spec_node().subrange((4) as int, (4 + 4) as int) =~= le_encode(self.memory_type.0 as nat, 4));
        lemma_le_roundtrip(self.memory_type.0 as nat, 4);
        assert(self.spec_node().subrange((8) as int, (8 + 8) as int) =~= le_encode(self.start_address as nat, 8));
        lemma_le_roundtrip(self.start_address as nat, 8);
        assert(self.spec_node().subrange((16) as int, (16 + 8) as int) =~= le_encode(self.end_address as nat, 8));
        lemma_le_roundtrip(self.end_address as nat, 8);
    }
}

impl BuildNode for MemoryMapped {
    open spec fn spec_node(&self) -> Seq<u8> {
        node_header(0x01, 0x03, (24) as nat)
            + le_encode(self.memory_type.0 as nat, 4)
            + le_encode(self.start_address as nat, 8)
            + le_encode(self.end_address as nat, 8)
    }

    open spec fn spec_buildable(&self) -> bool {
        true
    }

    fn size_in_bytes(&self) -> (r: Result<u16, BuildError>) {
        proof {
            self.lemma_len();
        }
        Ok(24)
    }

    fn write_data(&self, out: &mut Vec<u8>) {
        proof {
            self.lemma_len();
        }
        let size: u16 = 24;
        push_header(out, 0x01, 0x03, size);
        push_le(out, self.memory_type.0 as u64, 4);
        push_le(out, self.start_address as u64, 8);
        push_le(out, self.end_address as u64, 8);
        proof {
            assert(out@ =~= old(out)@ + self.spec_node());
        }
    }
}

/// Vendor-defined hardware device path node.
pub struct Vendor<'a> {
    /// Vendor-assigned GUID that defines the data that follows.
    pub vendor_guid: Guid,
    /// Vendor-defined data.
    pub vendor_defined_data: &'a [u8],
}

impl<'a> Vendor<'a> {
    /// The length of the node's bytes.
    proof fn lemma_len(&self)
        ensures
            self.spec_node().len() == 20 + self.vendor_defined_data@.len(),
    {
        lemma_le_encode_len((20 + self.vendor_defined_data@.len()) as nat, 2);
        self.vendor_guid.lemma_len();
    }

    /// The node's bytes are a well-formed node of its type, and hold each
    /// field at its offset: a node of this type read from them gives back
    /// the fields.
    pub proof fn lemma_layout(&self)
        requires
            self.spec_node().len() <= 0xffff,
        ensures
            is_node(self.spec_node()),
            crate::proto::device_path::hardware::vendor_size_ok(self.spec_node()),
            self.spec_node()[0] == 0x01,
            self.spec_node()[1] == 0x04,
            self.spec_node().subrange((4) as int, (4 + 16) as int) == self.vendor_guid@,
            self.spec_node().subrange((20) as int, (20 + self.vendor_defined_data@.len()) as int) == self.vendor_defined_data@,
    {
        self.lemma_len();
        lemma_le_encode_len((20 + self.vendor_defined_data@.len()) as nat, 2);
        self.vendor_guid.lemma_len();
        lemma_pow256_values();
        let len: nat = (20 + self.vendor_defined_data@.len()) as nat;
        assert(self.spec_node().subrange(2, 4) =~= le_encode(len, 2));
        lemma_le_roundtrip(len, 2);
        assert(self.spec_node().subrange((4) as int, (4 + 16) as int) =~= self.vendor_guid@);
        assert(self.spec_node().subrange((20) as int, (20 + self.vendor_defined_data@.len()) as int) =~= self.vendor_defined_data@);
    }
}

impl<'a> BuildNode for Vendor<'a> {
    open spec fn spec_node(&self) -> Seq<u8> {
        node_header(0x01, 0x04, (20 + self.vendor_defined_data@.len()) as nat)
            + self.vendor_guid@
            + self.vendor_defined_data@
    }

    open spec fn spec_buildable(&self) -> bool {
        true
    }

    fn size_in_bytes(&self) -> (r: Result<u16, BuildError>) {
        proof {
            self.lemma_len();
        }
        if self.vendor_defined_data.len() > 0xffff {
            return Err(BuildError::NodeTooBig);
        }
        let size: usize = 20 + self.vendor_defined_data.len();
        if size > 0xffff {
            Err(BuildError::NodeTooBig)
        } else {
            Ok(size as u16)
        }
    }

    fn write_data(&self, out: &mut Vec<u8>) {
        proof {
            self.lemma_len();
        }
        let size: u16 = (20 + self.vendor_defined_data.len()) as u16;
        push_header(out, 0x01, 0x04, size);
        push_bytes(out, self.vendor_guid.to_bytes().as_slice());
        push_bytes(out, self.vendor_defined_data);
        proof {
            assert(out@ =~= old(out)@ + self.spec_node());
        }
    }
}

/// Controller hardware device path node.
pub struct Controller {
    /// Controller number.
    pub controller_number: u32,
}

impl Controller {
    /// The length of the node's bytes.
    proof fn lemma_len(&self)
        ensures
            self.spec_node().len() == 8,
    {
        lemma_le_encode_len((8) as nat, 2);
        lemma_le_encode_len(self.controller_number as nat, 4);
    }

    /// The node's bytes are a well-formed node of its type, and hold each
    /// field at its offset: a node of this type read from them gives back
    /// the fields.
    pub proof fn lemma_layout(&self)
        requires
            self.spec_node().len() <= 0xffff,
        ensures
            is_node(self.spec_node()),
            crate::proto::device_path::hardware::controller_size_ok(self.spec_node()),
            self.spec_node()[0] == 0x01,
            self.spec_node()[1] == 0x05,
            le_at(self.spec_node(), (4) as int, 4) == self.controller_number as nat,
    {
        self.lemma_len();
        lemma_le_encode_len((8) as nat, 2);
        lemma_le_encode_len(self.controller_number as nat, 4);
        lemma_pow256_values();
        let len: nat = (8) as nat;
        assert(self.spec_node().subrange(2, 4) =~= le_encode(len, 2));
        lemma_le_roundtrip(len, 2);
        assert(self.spec_node().subrange((4) as int, (4 + 4) as int) =~= le_encode(self.controller_number as nat, 4));
        lemma_le_roundtrip(self.controller_number as nat, 4);
    }
}

impl BuildNode for Controller {
    open spec fn spec_node(&self) -> Seq<u8> {
        node_header(0x01, 0x05, (8) as nat)
            + le_encode(self.controller_number as nat, 4)
    }

    open spec fn spec_buildable(&self) -> bool {
        true
    }

    fn size_in_bytes(&self) -> (r: Result<u16, BuildError>) {
        proof {
            self.lemma_len();
        }
        Ok(8)
    }

    fn write_data(&self, out: &mut Vec<u8>) {
        proof {
            self.lemma_len();
        }
        let size: u16 = 8;
        push_header(out, 0x01, 0x05, size);
        push_le(out, self.controller_number as u64, 4);
        proof {
            assert(out@ =~= old(out)@ + self.spec_node());
        }
    }
}

/// Baseboard Management Controller (BMC) host interface hardware
/// device path node.
pub struct Bmc {
    /// Host interface type.
    pub interface_type: BmcInterfaceType,
    /// Base address of the BMC. If the least-significant bit of the
    /// field is a 1 then the address is in I/O space, otherwise the
    /// address is memory-mapped.
    pub base_address: u64,
}

impl Bmc {
    /// The length of the node's bytes.
    proof fn lemma_len(&self)
        ensures
            self.spec_node().len() == 13,
    {
        lemma_le_encode_len((13) as nat, 2);
        lemma_le_encode_len(self.base_address as nat, 8);
    }

    /// The node's bytes are a well-formed node of its type, and hold each
    /// field at its offset: a node of this type read from them gives back
    /// the fields.
    pub proof fn lemma_layout(&self)
        requires
            self.spec_node().len() <= 0xffff,
        ensures
            is_node(self.spec_node()),
            crate::proto::device_path::hardware::bmc_size_ok(self.spec_node()),
            self.spec_node()[0] == 0x01,
            self.spec_node()[1] == 0x06,
            self.spec_node()[(4) as int] == self.interface_type.0,
            le_at(self.spec_node(), (5) as int, 8) == self.base_address as nat,
    {
        self.lemma_len();
        lemma_le_encode_len((13) as nat, 2);
        lemma_le_encode_len(self.base_address as nat, 8);
        lemma_pow256_values();
        let len: nat = (13) as nat;
        assert(self.spec_node().subrange(2, 4) =~= le_encode(len, 2));
        lemma_le_roundtrip(len, 2);
        assert(self.spec_node().subrange((5) as int, (5 + 8) as int) =~= le_encode(self.base_address as nat, 8));
        lemma_le_roundtrip(self.base_address as nat, 8);
    }
}

impl BuildNode for Bmc {
    open spec fn spec_node(&self) -> Seq<u8> {
        node_header(0x01, 0x06, (13) as nat)
            + seq![self.interface_type.0]
            + le_encode(self.base_address as nat, 8)
    }

    open spec fn spec_buildable(&self) -> bool {
        true
    }

    fn size_in_bytes(&self) -> (r: Result<u16, BuildError>) {
        proof {
            self.lemma_len();
        }
        Ok(13)
    }

    fn write_data(&self, out: &mut Vec<u8>) {
        proof {
            self.lemma_len();
        }
        let size: u16 = 13;
        push_header(out, 0x01, 0x06, size);
        out.push(self.interface_type.0);
        push_le(out, self.base_address as u64, 8);
        proof {
            assert(out@ =~= old(out)@ + self.spec_node());
        }
    }
}

} // verus!
