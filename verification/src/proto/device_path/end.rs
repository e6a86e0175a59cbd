//! Device path nodes for [`DeviceType::END`].
#![allow(unused_imports)]
use crate::data_types::bytes::{le_at, lemma_pow256_values, read_array, read_le};
use crate::data_types::guid::spec_guid_bytes;
use crate::data_types::{Guid, UnalignedSlice};
use crate::proto::device_path::{is_node, DevicePathNode, NodeConversionError};
use crate::proto::network::IpAddress;
use crate::table::boot::MemoryType;
use vstd::prelude::*;
use vstd::std_specs::convert::TryFromSpecImpl;

verus! {

/// Node that terminates a device path instance.
///
/// device path instance: crate::proto::device_path::DevicePathInstance
#[derive(Debug)]
pub struct Instance {
    bytes: Vec<u8>,
}

impl View for Instance {
    type V = Seq<u8>;

    closed spec fn view(&self) -> Seq<u8> {
        self.bytes@
    }
}

/// The sizes that a node of this type can have.
pub open spec fn instance_size_ok(s: Seq<u8>) -> bool {
    s.len() == 4
}

impl Instance {
    #[verifier::type_invariant]
    spec fn well_formed(self) -> bool {
        is_node(self.bytes@) && instance_size_ok(self.bytes@)
    }
}

impl TryFrom<&DevicePathNode> for Instance {
    type Error = NodeConversionError;

    /// Succeeds when the node's size is one that this node type can have.
    fn try_from(node: &DevicePathNode) -> (r: Result<Self, Self::Error>)
        ensures
            r is Ok <==> instance_size_ok(node@),
            r matches Ok(n) ==> n@ == node@,
            r matches Err(e) ==> e == NodeConversionError::InvalidLength,
    {
        let bytes = node.as_bytes();
        if bytes.len() != 4 {
            return Err(NodeConversionError::InvalidLength);
        }
        Ok(Instance { bytes: vstd::slice::slice_to_vec(bytes) })
    }
}

impl TryFromSpecImpl<&DevicePathNode> for Instance {
    open spec fn obeys_try_from_spec() -> bool {
        false
    }

    closed spec fn try_from_spec(node: &DevicePathNode) -> Result<Self, Self::Error> {
        arbitrary()
    }
}

/// Node that terminates an entire [`DevicePath`].
///
/// [`DevicePath`]: crate::proto::device_path::DevicePath
#[derive(Debug)]
pub struct Entire {
    bytes: Vec<u8>,
}

impl View for Entire {
    type V = Seq<u8>;

    closed spec fn view(&self) -> Seq<u8> {
        self.bytes@
    }
}

/// The sizes that a node of this type can have.
pub open spec fn entire_size_ok(s: Seq<u8>) -> bool {
    s.len() == 4
}

impl Entire {
    #[verifier::type_invariant]
    spec fn well_formed(self) -> bool {
        is_node(self.bytes@) && entire_size_ok(self.bytes@)
    }
}

impl TryFrom<&DevicePathNode> for Entire {
    type Error = NodeConversionError;

    /// Succeeds when the node's size is one that this node type can have.
    fn try_from(node: &DevicePathNode) -> (r: Result<Self, Self::Error>)
        ensures
            r is Ok <==> entire_size_ok(node@),
            r matches Ok(n) ==> n@ == node@,
            r matches Err(e) ==> e == NodeConversionError::InvalidLength,
    {
        let bytes = node.as_bytes();
        if bytes.len() != 4 {
            return Err(NodeConversionError::InvalidLength);
        }
        Ok(Entire { bytes: vstd::slice::slice_to_vec(bytes) })
    }
}

impl TryFromSpecImpl<&DevicePathNode> for Entire {
    open spec fn obeys_try_from_spec() -> bool {
        false
    }

    closed spec fn try_from_spec(node: &DevicePathNode) -> Result<Self, Self::Error> {
        arbitrary()
    }
}

} // verus!
