//! Build device paths from their component nodes.
use vstd::prelude::*;

pub mod acpi;
pub mod bios_boot_spec;
pub mod end;
pub mod hardware;
pub mod media;
pub mod messaging;

verus! {

/// Errors that may occur when building a device path.
#[derive(Clone, Copy, Debug, PartialEq, Eq, Structural)]
pub enum BuildError {
    /// A node was too big to fit in the 16-bit length field of its header.
    NodeTooBig,
}

/// A node that can be written into a device path.
///
/// The model of a node is the sequence of bytes it writes, header
/// included.
pub trait BuildNode {
    /// The bytes of the node, header included.
    spec fn spec_node(&self) -> Seq<u8>;

    /// The node's fields are consistent with each other.
    spec fn spec_buildable(&self) -> bool;

    /// Size of the node in bytes, including the header. Fails with
    /// [`BuildError::NodeTooBig`] if the size does not fit in a `u16`.
    fn size_in_bytes(&self) -> (r: Result<u16, BuildError>)
        requires
            self.spec_buildable(),
        ensures
            r is Ok <==> self.spec_node().len() <= 0xffff,
            r matches Ok(n) ==> n == self.spec_node().len(),
            r matches Err(e) ==> e == BuildError::NodeTooBig,
    ;

    /// Appends the node's bytes to `out`.
    fn write_data(&self, out: &mut Vec<u8>)
        requires
            self.spec_buildable(),
            self.spec_node().len() <= 0xffff,
        ensures
            final(out)@ == old(out)@ + self.spec_node(),
    ;
}

} // verus!
