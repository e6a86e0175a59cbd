//! Views of the UEFI System Table.
use vstd::prelude::*;

verus! {

/// Marker trait used to provide different views of the UEFI System Table
pub trait SystemTableView {
}

/// Marker struct associated with the boot view of the UEFI System Table
pub struct Boot;

impl SystemTableView for Boot {
}

/// Marker struct associated with the run-time view of the UEFI System Table
pub struct Runtime;

impl SystemTableView for Runtime {
}

} // verus!
