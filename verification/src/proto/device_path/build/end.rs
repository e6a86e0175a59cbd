//! Device path build nodes for [`DeviceType::END`].
#![allow(unused_imports)]
use crate::data_types::bytes::{
    le_at, le_encode, lemma_le_encode_len, lemma_le_roundtrip, lemma_pow256_values, push_bytes, push_le,
};
use crate::data_types::{CStr16, Guid};
use crate::proto::device_path::build::{BuildError, BuildNode};
use crate::proto::device_path::hardware::BmcInterfaceType;
use crate::proto::device_path::media::{
    lemma_signature_bytes_len, spec_signature_bytes, spec_signature_type, PartitionFormat,
    PartitionSignature, RamDiskType,
};
use crate::proto::device_path::messaging::{
    BluetoothLeAddressType, DnsAddressType, InfinibandResourceFlags, Ipv4AddressOrigin,
    Ipv6AddressOrigin, IscsiLoginOptions, IscsiProtocol, MasterSlave, Parity, PrimarySecondary,
    RestServiceAccessMode, RestServiceType, StopBits,
};
use crate::proto::device_path::{
    addresses_bytes, is_node, lemma_addresses_bytes_len, lemma_u16s_le_len, lemma_u32s_le_len,
    node_header, push_addresses, push_header, push_u16s, push_u32s, u16s_le, u32s_le,
};
use crate::proto::network::IpAddress;
use crate::table::boot::MemoryType;
use vstd::prelude::*;

verus! {

/// Node that terminates a device path instance.
///
/// device path instance: crate::proto::device_path::DevicePathInstance
pub struct Instance;

impl Instance {
    /// The length of the node's bytes.
    proof fn lemma_len(&self)
        ensures
            self.spec_node().len() == 4,
    {
        lemma_le_encode_len((4) as nat, 2);
    }

    /// The node's bytes are a well-formed node of its type, and hold each
    /// field at its offset: a node of this type read from them gives back
    /// the fields.
    pub proof fn lemma_layout(&self)
        requires
            self.spec_node().len() <= 0xffff,
        ensures
            is_node(self.spec_node()),
            crate::proto::device_path::end::instance_size_ok(self.spec_node()),
            self.spec_node()[0] == 0x7f,
            self.spec_node()[1] == 0x01,
    {
        self.lemma_len();
        lemma_le_encode_len((4) as nat, 2);
        lemma_pow256_values();
        let len: nat = (4) as nat;
        assert(self.spec_node().subrange(2, 4) =~= le_encode(len, 2));
        lemma_le_roundtrip(len, 2);
    }
}

impl BuildNode for Instance {
    open spec fn spec_node(&self) -> Seq<u8> {
        node_header(0x7f, 0x01, (4) as nat)
    }

    open spec fn spec_buildable(&self) -> bool {
        true
    }

    fn size_in_bytes(&self) -> (r: Result<u16, BuildError>) {
        proof {
            self.lemma_len();
        }
        Ok(4)
    }

    fn write_data(&self, out: &mut Vec<u8>) {
        proof {
            self.lemma_len();
        }
        let size: u16 = 4;
        push_header(out, 0x7f, 0x01, size);
        proof {
            assert(out@ =~= old(out)@ + self.spec_node());
        }
    }
}

/// Node that terminates an entire [`DevicePath`].
///
/// [`DevicePath`]: crate::proto::device_path::DevicePath
pub struct Entire;

impl Entire {
    /// The length of the node's bytes.
    proof fn lemma_len(&self)
        ensures
            self.spec_node().len() == 4,
    {
        lemma_le_encode_len((4) as nat, 2);
    }

    /// The node's bytes are a well-formed node of its type, and hold each
    /// field at its offset: a node of this type read from them gives back
    /// the fields.
    pub proof fn lemma_layout(&self)
        requires
            self.spec_node().len() <= 0xffff,
        ensures
            is_node(self.spec_node()),
            crate::proto::device_path::end::entire_size_ok(self.spec_node()),
            self.spec_node()[0] == 0x7f,
            self.spec_node()[1] == 0xff,
    {
        self.lemma_len();
        lemma_le_encode_len((4) as nat, 2);
        lemma_pow256_values();
        let len: nat = (4) as nat;
        assert(self.spec_node().subrange(2, 4) =~= le_encode(len, 2));
        lemma_le_roundtrip(len, 2);
    }
}

impl BuildNode for Entire {
    open spec fn spec_node(&self) -> Seq<u8> {
        node_header(0x7f, 0xff, (4) as nat)
    }

    open spec fn spec_buildable(&self) -> bool {
        true
    }

    fn size_in_bytes(&self) -> (r: Result<u16, BuildError>) {
        proof {
            self.lemma_len();
        }
        Ok(4)
    }

    fn write_data(&self, out: &mut Vec<u8>) {
        proof {
            self.lemma_len();
        }
        let size: u16 = 4;
        push_header(out, 0x7f, 0xff, size);
        proof {
            assert(out@ =~= old(out)@ + self.spec_node());
        }
    }
}

} // verus!
