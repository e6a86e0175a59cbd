//! Parameters of the conversions between device paths and their text.
use vstd::prelude::*;

verus! {

/// The `display_only` parameter of the conversion of a device path to
/// text: if it is true, the shorter text representation of a node is used
/// where there is one; if false, the longer (parseable) one.
#[derive(Debug, Clone, Copy, PartialEq, Eq, Structural)]
pub struct DisplayOnly(pub bool);

/// The `allow_shortcuts` parameter of the conversion of a device path to
/// text: if it is false, the shortcut forms of a node's text (those that
/// use information other than the type and sub-type) cannot be used; if
/// true, they can, where applicable.
#[derive(Debug, Clone, Copy, PartialEq, Eq, Structural)]
pub struct AllowShortcuts(pub bool);

} // verus!
