//! Device path build nodes for [`DeviceType::BIOS_BOOT_SPEC`].
#![allow(unused_imports)]
use crate::data_types::bytes::{
    le_at, le_encode, lemma_le_encode_len, lemma_le_roundtrip, lemma_pow256_values, push_bytes, push_le,
};
use crate::data_types::{CStr16, Guid};
use crate::proto::device_path::build::{BuildError, BuildNode};
use crate::proto::device_path::hardware::BmcInterfaceType;
use crate::proto::device_path::media::{
    lemma_signature_bytes_len, spec_signature_bytes, spec_signature_type, PartitionFormat,
    PartitionSignature, RamDiskType,
};
use crate::proto::device_path::messaging::{
    BluetoothLeAddressType, DnsAddressType, InfinibandResourceFlags, Ipv4AddressOrigin,
    Ipv6AddressOrigin, IscsiLoginOptions, IscsiProtocol, MasterSlave, Parity, PrimarySecondary,
    RestServiceAccessMode, RestServiceType, StopBits,
};
use crate::proto::device_path::{
    addresses_bytes, is_node, lemma_addresses_bytes_len, lemma_u16s_le_len, lemma_u32s_le_len,
    node_header, push_addresses, push_header, push_u16s, push_u32s, u16s_le, u32s_le,
};
use crate::proto::network::IpAddress;
use crate::table::boot::MemoryType;
use vstd::prelude::*;

verus! {

/// BIOS Boot Specification device path node.
pub struct BootSpecification<'a> {
    /// Device type as defined by the BIOS Boot Specification.
    pub device_type: u16,
    /// Status flags as defined by the BIOS Boot Specification.
    pub status_flag: u16,
    /// Description of the boot device encoded as a null-terminated
    /// ASCII string.
    pub description_string: &'a [u8],
}

impl<'a> BootSpecification<'a> {
    /// The length of the node's bytes.
    proof fn lemma_len(&self)
        ensures
            self.spec_node().len() == 8 + self.description_string@.len(),
    {
        lemma_le_encode_len((8 + self.description_string@.len()) as nat, 2);
        lemma_le_encode_len(self.device_type as nat, 2);
        lemma_le_encode_len(self.status_flag as nat, 2);
    }

    /// The node's bytes are a well-formed node of its type, and hold each
    /// field at its offset: a node of this type read from them gives back
    /// the fields.
    pub proof fn lemma_layout(&self)
        requires
            self.spec_node().len() <= 0xffff,
        ensures
            is_node(self.spec_node()),
            crate::proto::device_path::bios_boot_spec::boot_specification_size_ok(self.spec_node()),
            self.spec_node()[0] == 0x05,
            self.spec_node()[1] == 0x01,
            le_at(self.spec_node(), (4) as int, 2) == self.device_type as nat,
            le_at(self.spec_node(), (6) as int, 2) == self.status_flag as nat,
            self.spec_node().subrange((8) as int, (8 + self.description_string@.len()) as int) == self.description_string@,
    {
        self.lemma_len();
        lemma_le_encode_len((8 + self.description_string@.len()) as nat, 2);
        lemma_le_encode_len(self.device_type as nat, 2);
        lemma_le_encode_len(self.status_flag as nat, 2);
        lemma_pow256_values();
        let len: nat = (8 + self.description_string@.len()) as nat;
        assert(self.spec_node().subrange(2, 4) =~= le_encode(len, 2));
        lemma_le_roundtrip(len, 2);
        assert(self.spec_node().subrange((4) as int, (4 + 2) as int) =~= le_encode(self.device_type as nat, 2));
        lemma_le_roundtrip(self.device_type as nat, 2);
        assert(self.spec_node().subrange((6) as int, (6 + 2) as int) =~= le_encode(self.status_flag as nat, 2));
        lemma_le_roundtrip(self.status_flag as nat, 2);
        assert(self.spec_node().subrange((8) as int, (8 + self.description_string@.len()) as int) =~= self.description_string@);
    }
}

impl<'a> BuildNode for BootSpecification<'a> {
    open spec fn spec_node(&self) -> Seq<u8> {
        node_header(0x05, 0x01, (8 + self.description_string@.len()) as nat)
            + le_encode(self.device_type as nat, 2)
            + le_encode(self.status_flag as nat, 2)
            + self.description_string@
    }

    open spec fn spec_buildable(&self) -> bool {
        true
    }

    fn size_in_bytes(&self) -> (r: Result<u16, BuildError>) {
        proof {
            self.lemma_len();
        }
        if self.description_string.len() > 0xffff {
            return Err(BuildError::NodeTooBig);
        }
        let size: usize = 8 + self.description_string.len();
        if size > 0xffff {
            Err(BuildError::NodeTooBig)
        } else {
            Ok(size as u16)
        }
    }

    fn write_data(&self, out: &mut Vec<u8>) {
        proof {
            self.lemma_len();
        }
        let size: u16 = (8 + self.description_string.len()) as u16;
        push_header(out, 0x05, 0x01, size);
        push_le(out, self.device_type as u64, 2);
        push_le(out, self.status_flag as u64, 2);
        push_bytes(out, self.description_string);
        proof {
            assert(out@ =~= old(out)@ + self.spec_node());
        }
    }
}

} // verus!
