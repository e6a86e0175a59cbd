//! Abstraction over byte stream devices, also known as serial I/O devices.
use crate::result::status::{error_bit, spec_is_success};
use crate::result::{Completion, Error, Result, Status};
use vstd::prelude::*;

verus! {

/// A serial I/O device: the revision of its protocol and its current
/// parameters.
///
/// This can include standard UART devices, serial ports over a USB
/// interface, or any other character-based communication device.
#[derive(Debug, Clone, Copy)]
pub struct Serial {
    /// Revision of this protocol, only 1.0 is currently defined.
    pub revision: u32,
    /// The device's current parameters.
    pub io_mode: IoMode,
}

impl Serial {
    /// Returns the current I/O mode.
    pub fn io_mode(&self) -> (r: &IoMode)
        ensures
            *r == self.io_mode,
    {
        &self.io_mode
    }
}

/// The result of a write or a read of a serial device that reported
/// `status` after moving `transferred` bytes: the number of bytes on
/// success or on a timeout (then it may be smaller than the buffer), the
/// status as an error otherwise.
pub fn transfer_result(status: Status, transferred: usize) -> (r: Result<usize>)
    ensures
        (spec_is_success(status) || status@ == error_bit() + 18) ==> r == Ok::<
            Completion<usize>,
            Error,
        >(Completion::Success(transferred)),
        !(spec_is_success(status) || status@ == error_bit() + 18) ==> (r matches Err(e)
            && e.spec_status() == status),
{
    let timeout = Status::TIMEOUT();
    proof {
        Status::lemma_view_injective(status, timeout);
    }
    if status.is_success() || status == timeout {
        Ok(Completion::Success(transferred))
    } else {
        Err(Error::new(status, ()))
    }
}

/// Structure representing the device's current parameters.
///
/// The default values for all UART-like devices is:
/// - 115,200 baud
/// - 1 byte receive FIFO
/// - 1'000'000 microsecond timeout
/// - no parity
/// - 8 data bits
/// - 1 stop bit
///
/// The software is responsible for flow control.
#[derive(Debug, Copy, Clone)]
pub struct IoMode {
    /// Bitmask of the control bits that this device supports.
    pub control_mask: ControlBits,
    /// If applicable, the number of microseconds to wait before assuming an
    /// operation timed out.
    pub timeout: u32,
    /// Device's baud rate, or 0 if unknown.
    pub baud_rate: u64,
    /// Size in character's of the device's buffer.
    pub receive_fifo_depth: u32,
    /// Number of data bits in each character.
    pub data_bits: u32,
    /// If applicable, the parity that is computed or checked for each character.
    pub parity: Parity,
    /// If applicable, the number of stop bits per character.
    pub stop_bits: StopBits,
}

/// The control bits of a device. These are defined in the RS-232 standard.
///
/// The model is the set of bits, as a number.
#[derive(Clone, Copy, Debug, PartialEq, Eq, Structural)]
pub struct ControlBits {
    bits: u32,
}

impl View for ControlBits {
    type V = u32;

    closed spec fn view(&self) -> u32 {
        self.bits
    }
}

#[allow(non_snake_case)]
impl ControlBits {
    /// Clear to send
    pub fn CLEAR_TO_SEND() -> (r: ControlBits)
        ensures
            r@ == 0x10,
    {
        ControlBits { bits: 0x10 }
    }

    /// Data set ready
    pub fn DATA_SET_READY() -> (r: ControlBits)
        ensures
            r@ == 0x20,
    {
        ControlBits { bits: 0x20 }
    }

    /// Indicates that a phone line is ringing
    pub fn RING_INDICATE() -> (r: ControlBits)
        ensures
            r@ == 0x40,
    {
        ControlBits { bits: 0x40 }
    }

    /// Indicates the connection is still connected
    pub fn CARRIER_DETECT() -> (r: ControlBits)
        ensures
            r@ == 0x80,
    {
        ControlBits { bits: 0x80 }
    }

    /// The input buffer is empty
    pub fn INPUT_BUFFER_EMPTY() -> (r: ControlBits)
        ensures
            r@ == 0x100,
    {
        ControlBits { bits: 0x100 }
    }

    /// The output buffer is empty
    pub fn OUTPUT_BUFFER_EMPTY() -> (r: ControlBits)
        ensures
            r@ == 0x200,
    {
        ControlBits { bits: 0x200 }
    }

    /// Terminal is ready for communications
    pub fn DATA_TERMINAL_READY() -> (r: ControlBits)
        ensures
            r@ == 0x1,
    {
        ControlBits { bits: 0x1 }
    }

    /// Request the device to send data
    pub fn REQUEST_TO_SEND() -> (r: ControlBits)
        ensures
            r@ == 0x2,
    {
        ControlBits { bits: 0x2 }
    }

    /// Enable hardware loop-back
    pub fn HARDWARE_LOOPBACK_ENABLE() -> (r: ControlBits)
        ensures
            r@ == 0x1000,
    {
        ControlBits { bits: 0x1000 }
    }

    /// Enable software loop-back
    pub fn SOFTWARE_LOOPBACK_ENABLE() -> (r: ControlBits)
        ensures
            r@ == 0x2000,
    {
        ControlBits { bits: 0x2000 }
    }

    /// Allow the hardware to handle flow control
    pub fn HARDWARE_FLOW_CONTROL_ENABLE() -> (r: ControlBits)
        ensures
            r@ == 0x4000,
    {
        ControlBits { bits: 0x4000 }
    }

    /// Bitmask of the control bits that can be set.
    ///
    /// Up to date as of UEFI 2.7 / Serial protocol v1
    pub fn SETTABLE() -> (r: ControlBits)
        ensures
            r@ == 0x7003,
    {
        ControlBits { bits: 0x7003 }
    }

    /// No bit set.
    pub fn empty() -> (r: ControlBits)
        ensures
            r@ == 0,
    {
        ControlBits { bits: 0 }
    }

    /// The raw bits.
    pub fn bits(&self) -> (r: u32)
        ensures
            r == self@,
    {
        self.bits
    }

    /// The bits set in `bits` that name a control bit; the others are
    /// dropped.
    pub fn from_bits_truncate(bits: u32) -> (r: ControlBits)
        ensures
            r@ == bits & 0x73f3,
    {
        ControlBits { bits: bits & 0x73f3 }
    }

    /// True if every bit set in `other` is set in `self`.
    pub fn contains(&self, other: ControlBits) -> (r: bool)
        ensures
            r == (self@ & other@ == other@),
    {
        self.bits & other.bits == other.bits
    }
}

/// The parity of the device.
#[derive(Debug, Copy, Clone, Eq, PartialEq, Structural)]
pub enum Parity {
    /// Device default
    Default,
    /// No parity
    NoParity,
    /// Even parity
    Even,
    /// Odd parity
    Odd,
    /// Mark parity
    Mark,
    /// Space parity
    Space,
}

/// Number of stop bits per character.
#[derive(Debug, Copy, Clone, Eq, PartialEq, Structural)]
pub enum StopBits {
    /// Device default
    Default,
    /// 1 stop bit
    One,
    /// 1.5 stop bits
    OneFive,
    /// 2 stop bits
    Two,
}

impl crate::proto::Identify for Serial {
    open spec fn spec_guid() -> Seq<u8> {
        crate::data_types::guid::spec_guid_bytes(0xbb25cf6f, 0xf1d4, 0x11d2, 0x9a0c, 0x90273fc1fd)
    }

    fn guid() -> (g: crate::data_types::Guid) {
        crate::data_types::Guid::from_values(0xbb25cf6f, 0xf1d4, 0x11d2, 0x9a0c, 0x90273fc1fd)
    }
}

impl crate::proto::Protocol for Serial {
}

} // verus!
