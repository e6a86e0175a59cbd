//! Pointer device access: what a pointer device reports.
use crate::result::status::{error_bit, spec_is_success};
use crate::result::{Completion, Error, Result, Status};
use vstd::prelude::*;

verus! {

/// Information about a pointer device, as the firmware lays it out.
#[derive(Debug, Copy, Clone, PartialEq, Eq, Structural)]
pub struct PointerMode {
    /// Resolution on the X axis in counts/mm; 0 if the axis is not supported.
    pub resolution_x: u64,
    /// Resolution on the Y axis in counts/mm; 0 if the axis is not supported.
    pub resolution_y: u64,
    /// Resolution on the Z axis in counts/mm; 0 if the axis is not supported.
    pub resolution_z: u64,
    /// Non-zero if the device has a left button.
    pub left_button: u8,
    /// Non-zero if the device has a right button.
    pub right_button: u8,
}

impl PointerMode {
    /// The pointer device's resolution on the X/Y/Z axis in counts/mm.
    /// If a value is 0, then the device does _not_ support that axis.
    pub fn resolution(&self) -> (r: (u64, u64, u64))
        ensures
            r == (self.resolution_x, self.resolution_y, self.resolution_z),
    {
        (self.resolution_x, self.resolution_y, self.resolution_z)
    }

    /// Whether the devices has a left button / right button.
    pub fn has_button(&self) -> (r: (bool, bool))
        ensures
            r == (self.left_button != 0, self.right_button != 0),
    {
        (self.left_button != 0, self.right_button != 0)
    }
}

/// The relative change in the pointer's state, as the firmware lays it out.
#[derive(Debug, Copy, Clone, PartialEq, Eq, Structural)]
pub struct PointerState {
    /// Movement on the X axis.
    pub relative_movement_x: i32,
    /// Movement on the Y axis.
    pub relative_movement_y: i32,
    /// Movement on the Z axis.
    pub relative_movement_z: i32,
    /// Non-zero if the left button is pressed.
    pub left_button: u8,
    /// Non-zero if the right button is pressed.
    pub right_button: u8,
}

impl PointerState {
    /// The relative movement on the X/Y/Z axis.
    ///
    /// If `PointerMode` indicates an axis is not supported, it must be ignored.
    pub fn relative_movement(&self) -> (r: (i32, i32, i32))
        ensures
            r == (self.relative_movement_x, self.relative_movement_y, self.relative_movement_z),
    {
        (self.relative_movement_x, self.relative_movement_y, self.relative_movement_z)
    }

    /// Whether the left / right mouse button is currently pressed.
    ///
    /// If `PointerMode` indicates a button is not supported, it must be ignored.
    pub fn button(&self) -> (r: (bool, bool))
        ensures
            r == (self.left_button != 0, self.right_button != 0),
    {
        (self.left_button != 0, self.right_button != 0)
    }
}

/// The result of reading the pointer's state that reported `status` and
/// filled in `state`: no state if it did not change since the last read
/// (`NOT_READY`), the state on success, the status as an error otherwise.
pub fn read_state_result(status: Status, state: PointerState) -> (r: Result<Option<PointerState>>)
    ensures
        status@ == error_bit() + 6 ==> r == Ok::<Completion<Option<PointerState>>, Error>(
            Completion::Success(None),
        ),
        spec_is_success(status) ==> r == Ok::<Completion<Option<PointerState>>, Error>(
            Completion::Success(Some(state)),
        ),
        status@ != error_bit() + 6 && !spec_is_success(status) ==> (r matches Err(e)
            && e.spec_status() == status),
{
    let not_ready = Status::NOT_READY();
    proof {
        Status::lemma_view_injective(status, not_ready);
    }
    if status == not_ready {
        Ok(Completion::Success(None))
    } else if status.is_success() {
        Ok(Completion::Success(Some(state)))
    } else {
        Err(Error::new(status, ()))
    }
}

} // verus!
