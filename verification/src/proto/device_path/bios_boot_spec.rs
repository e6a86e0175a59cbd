//! Device path nodes for [`DeviceType::BIOS_BOOT_SPEC`].
#![allow(unused_imports)]
use crate::data_types::bytes::{le_at, lemma_pow256_values, read_array, read_le};
use crate::data_types::guid::spec_guid_bytes;
use crate::data_types::{Guid, UnalignedSlice};
use crate::proto::device_path::{is_node, DevicePathNode, NodeConversionError};
use crate::proto::network::IpAddress;
use crate::table::boot::MemoryType;
use vstd::prelude::*;
use vstd::std_specs::convert::TryFromSpecImpl;

verus! {

/// BIOS Boot Specification device path node.
#[derive(Debug)]
pub struct BootSpecification {
    bytes: Vec<u8>,
}

impl View for BootSpecification {
    type V = Seq<u8>;

    closed spec fn view(&self) -> Seq<u8> {
        self.bytes@
    }
}

/// The sizes that a node of this type can have.
pub open spec fn boot_specification_size_ok(s: Seq<u8>) -> bool {
    8 <= s.len()
}

impl BootSpecification {
    #[verifier::type_invariant]
    spec fn well_formed(self) -> bool {
        is_node(self.bytes@) && boot_specification_size_ok(self.bytes@)
    }

    /// Device type as defined by the BIOS Boot Specification.
    pub fn device_type(&self) -> (r: u16)
        ensures
            r == le_at(self@, 4, 2),
    {
        proof {
            use_type_invariant(self);
            lemma_pow256_values();
        }
        read_le(self.bytes.as_slice(), 4, 2) as u16
    }

    /// Status flags as defined by the BIOS Boot Specification.
    pub fn status_flag(&self) -> (r: u16)
        ensures
            r == le_at(self@, 6, 2),
    {
        proof {
            use_type_invariant(self);
            lemma_pow256_values();
        }
        read_le(self.bytes.as_slice(), 6, 2) as u16
    }

    /// Description of the boot device encoded as a null-terminated
    /// ASCII string.
    pub fn description_string(&self) -> (r: &[u8])
        ensures
            r@ == self@.subrange(8, self@.len() as int),
    {
        proof {
            use_type_invariant(self);
        }
        vstd::slice::slice_subrange(self.bytes.as_slice(), 8, self.bytes.len())
    }
}

impl TryFrom<&DevicePathNode> for BootSpecification {
    type Error = NodeConversionError;

    /// Succeeds when the node's size is one that this node type can have.
    fn try_from(node: &DevicePathNode) -> (r: Result<Self, Self::Error>)
        ensures
            r is Ok <==> boot_specification_size_ok(node@),
            r matches Ok(n) ==> n@ == node@,
            r matches Err(e) ==> e == NodeConversionError::InvalidLength,
    {
        let bytes = node.as_bytes();
        let len = bytes.len();
        if len < 8 {
            return Err(NodeConversionError::InvalidLength);
        }
        Ok(BootSpecification { bytes: vstd::slice::slice_to_vec(bytes) })
    }
}

impl TryFromSpecImpl<&DevicePathNode> for BootSpecification {
    open spec fn obeys_try_from_spec() -> bool {
        false
    }

    closed spec fn try_from_spec(node: &DevicePathNode) -> Result<Self, Self::Error> {
        arbitrary()
    }
}

} // verus!
