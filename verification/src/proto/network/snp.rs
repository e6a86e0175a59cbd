//! Simple Network Protocol: the data it gives back.
use crate::proto::network::MacAddress;
use vstd::prelude::*;

verus! {

/// The interrupt status of a network interface, as reported by the
/// firmware: one bit per kind of interrupt.
#[derive(Clone, Copy, Debug, PartialEq, Eq, Structural)]
pub struct InterruptStatus(pub u32);

impl InterruptStatus {
    /// No interrupt pending.
    pub fn new() -> (r: Self)
        ensures
            r.0 == 0,
    {
        InterruptStatus(0)
    }

    /// A packet was received (bit 0).
    pub fn receive_interrupt(&self) -> (r: bool)
        ensures
            r == (self.0 & 0x01 == 1),
    {
        self.0 & 0x01 == 1
    }

    /// A packet was transmitted (bit 1).
    pub fn transmit_interrupt(&self) -> (r: bool)
        ensures
            r == (self.0 & 0x02 == 0x02),
    {
        self.0 & 0x02 == 0x02
    }

    /// A command interrupt occurred (bit 2).
    pub fn command_interrupt(&self) -> (r: bool)
        ensures
            r == (self.0 & 0x04 == 0x04),
    {
        self.0 & 0x04 == 0x04
    }

    /// A software interrupt occurred (bit 3).
    pub fn software_interrupt(&self) -> (r: bool)
        ensures
            r == (self.0 & 0x08 == 0x08),
    {
        self.0 & 0x08 == 0x08
    }
}

/// Network statistics of a network interface.
#[derive(Clone, Copy, Debug, Default)]
pub struct NetworkStats {
    pub total_frames_rx: u64,
    pub good_frames_rx: u64,
    pub undersize_frames_rx: u64,
    pub oversize_frames_rx: u64,
    pub dropped_frames_rx: u64,
    pub unicast_frames_rx: u64,
    pub broadcast_frames_rx: u64,
    pub multicast_frames_rx: u64,
    pub crc_error_frames_rx: u64,
    pub total_bytes_rx: u64,
    pub total_frames_tx: u64,
    pub good_frames_tx: u64,
    pub undersize_frames_tx: u64,
    pub oversize_frames_tx: u64,
    pub dropped_frames_tx: u64,
    pub unicast_frames_tx: u64,
    pub broadcast_frames_tx: u64,
    pub multicast_frames_tx: u64,
    pub crc_error_frames_tx: u64,
    pub total_bytes_tx: u64,
    pub collisions: u64,
    pub unsupported_protocol: u64,
    pub duplicated_frames_rx: u64,
    pub decrypt_error_frames_rx: u64,
    pub error_frames_tx: u64,
    pub retry_frames_tx: u64,
}

/// The state of a network interface.
#[derive(Clone, Copy, Debug, PartialEq, Eq, Structural)]
pub struct NetworkState(pub u32);

#[allow(non_snake_case)]
impl NetworkState {
    /// The interface is stopped.
    pub fn STOPPED() -> (r: NetworkState)
        ensures
            r.0 == 0,
    {
        NetworkState(0)
    }

    /// The interface is started.
    pub fn STARTED() -> (r: NetworkState)
        ensures
            r.0 == 1,
    {
        NetworkState(1)
    }

    /// The interface is initialized.
    pub fn INITIALIZED() -> (r: NetworkState)
        ensures
            r.0 == 2,
    {
        NetworkState(2)
    }

    /// The number of states.
    pub fn MAX_STATE() -> (r: NetworkState)
        ensures
            r.0 == 4,
    {
        NetworkState(4)
    }
}

/// Information about a network interface.
#[derive(Clone, Copy, Debug)]
pub struct NetworkMode {
    pub state: NetworkState,
    pub hw_address_size: u32,
    pub media_header_size: u32,
    pub max_packet_size: u32,
    pub nv_ram_size: u32,
    pub nv_ram_access_size: u32,
    pub receive_filter_mask: u32,
    pub receive_filter_setting: u32,
    pub max_mcast_filter_count: u32,
    pub mcast_filter_count: u32,
    pub mcast_filter: [MacAddress; 16],
    pub current_address: MacAddress,
    pub broadcast_address: MacAddress,
    pub permanent_address: MacAddress,
    pub if_type: u8,
    pub mac_address_changeable: bool,
    pub multiple_tx_supported: bool,
    pub media_present_supported: bool,
    pub media_present: bool,
}

} // verus!
