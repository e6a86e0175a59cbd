//! PXE Base Code protocol: the data it is given and gives back.
use crate::data_types::bytes::{lemma_pow256_values, read_array};
use crate::proto::network::{IpAddress, MacAddress};
use vstd::prelude::*;
pub use super::read_dir::{mtftp_read_dir_entry, tftp_read_dir_entry, MtftpFileInfo, TftpFileInfo};

verus! {

/// A type of bootstrap to perform in discovery.
///
/// Corresponds to the `EFI_PXE_BASE_CODE_BOOT_` constants in the C API.
#[derive(Clone, Copy, PartialEq, Eq, Hash, Debug, Structural)]
#[allow(missing_docs)]
pub enum BootstrapType {
    Bootstrap,
    MsWinntRis,
    IntelLcm,
    DosUndi,
    NecEsmpro,
    IbmWsoD,
    IbmLccm,
    CaUnicenterTng,
    HpOpenview,
    Altiris9,
    Altiris10,
    Altiris11,
    RedhatInstall,
    RedhatBoot,
    Rembo,
    Beoboot,
    PxeTest,
}

impl BootstrapType {
    /// The number of the bootstrap type in the C API.
    pub fn value(self) -> (r: u16)
        ensures
            r == match self {
                BootstrapType::Bootstrap => 0,
                BootstrapType::MsWinntRis => 1,
                BootstrapType::IntelLcm => 2,
                BootstrapType::DosUndi => 3,
                BootstrapType::NecEsmpro => 4,
                BootstrapType::IbmWsoD => 5,
                BootstrapType::IbmLccm => 6,
                BootstrapType::CaUnicenterTng => 7,
                BootstrapType::HpOpenview => 8,
                BootstrapType::Altiris9 => 9,
                BootstrapType::Altiris10 => 10,
                BootstrapType::Altiris11 => 11,
                BootstrapType::RedhatInstall => 13,
                BootstrapType::RedhatBoot => 14,
                BootstrapType::Rembo => 15,
                BootstrapType::Beoboot => 16,
                BootstrapType::PxeTest => 65535u16,
            },
    {
        match self {
            BootstrapType::Bootstrap => 0,
            BootstrapType::MsWinntRis => 1,
            BootstrapType::IntelLcm => 2,
            BootstrapType::DosUndi => 3,
            BootstrapType::NecEsmpro => 4,
            BootstrapType::IbmWsoD => 5,
            BootstrapType::IbmLccm => 6,
            BootstrapType::CaUnicenterTng => 7,
            BootstrapType::HpOpenview => 8,
            BootstrapType::Altiris9 => 9,
            BootstrapType::Altiris10 => 10,
            BootstrapType::Altiris11 => 11,
            BootstrapType::RedhatInstall => 13,
            BootstrapType::RedhatBoot => 14,
            BootstrapType::Rembo => 15,
            BootstrapType::Beoboot => 16,
            BootstrapType::PxeTest => 65535,
        }
    }
}

/// An entry in the Boot Server list
///
/// Corresponds to the `EFI_PXE_BASE_CODE_SRVLIST` type in the C API.
#[derive(Clone, Copy, Debug)]
pub struct Server {
    /// The type of Boot Server reply
    ty: u16,
    accept_any_response: bool,
    reserved: u8,
    /// The IP address of the server
    ip_addr: IpAddress,
}

impl Server {
    /// The type of Boot Server reply.
    pub closed spec fn spec_ty(&self) -> u16 {
        self.ty
    }

    /// Any server's reply is accepted.
    pub closed spec fn spec_accept_any_response(&self) -> bool {
        self.accept_any_response
    }

    /// The IP address of the server.
    pub closed spec fn spec_ip_addr(&self) -> IpAddress {
        self.ip_addr
    }

    /// Construct a `Server` for a Boot Server reply type. If `ip_addr` is not
    /// `None` only Boot Server replies with matching the IP address will be
    /// accepted.
    pub fn new(ty: u16, ip_addr: Option<IpAddress>) -> (r: Self)
        ensures
            r.spec_ty() == ty,
            r.spec_accept_any_response() == ip_addr is None,
            ip_addr matches Some(a) ==> r.spec_ip_addr() == a,
            ip_addr is None ==> r.spec_ip_addr().0@ == Seq::new(16, |i: int| 0u8),
    {
        let accept_any_response = ip_addr.is_none();
        let ip_addr = match ip_addr {
            Some(a) => a,
            None => {
                let z = IpAddress([0u8; 16]);
                proof {
                    assert(z.0@ =~= Seq::new(16, |i: int| 0u8));
                }
                z
            },
        };
        Server { ty, accept_any_response, reserved: 0, ip_addr }
    }

    /// The type of Boot Server reply.
    pub fn ty(&self) -> (r: u16)
        ensures
            r == self.spec_ty(),
    {
        self.ty
    }

    /// Returns a `None` if the any response should be accepted or the IP
    /// address of a Boot Server whose responses should be accepted.
    pub fn ip_addr(&self) -> (r: Option<&IpAddress>)
        ensures
            self.spec_accept_any_response() ==> r is None,
            !self.spec_accept_any_response() ==> r == Some(&self.spec_ip_addr()),
    {
        if self.accept_any_response {
            None
        } else {
            Some(&self.ip_addr)
        }
    }
}

/// This struct contains optional parameters for the discovery of boot
/// servers.
///
/// Corresponds to the `EFI_PXE_BASE_CODE_DISCOVER_INFO` type in the C API.
#[derive(Debug)]
pub struct DiscoverInfo<T> {
    use_m_cast: bool,
    use_b_cast: bool,
    use_u_cast: bool,
    must_use_list: bool,
    server_m_cast_ip: IpAddress,
    ip_cnt: u16,
    srv_list: T,
}

impl<const N: usize> DiscoverInfo<[Server; N]> {
    /// Create a `DiscoverInfo`. The list holds at most `u16::MAX` servers.
    pub fn new(
        use_m_cast: bool,
        use_b_cast: bool,
        use_u_cast: bool,
        must_use_list: bool,
        server_m_cast_ip: IpAddress,
        srv_list: [Server; N],
    ) -> (r: Self)
        requires
            N <= u16::MAX,
        ensures
            r.spec_use_m_cast() == use_m_cast,
            r.spec_use_b_cast() == use_b_cast,
            r.spec_use_u_cast() == use_u_cast,
            r.spec_must_use_list() == must_use_list,
            r.spec_server_m_cast_ip() == server_m_cast_ip,
            r.spec_ip_cnt() == N,
            r.spec_srv_list() == srv_list,
    {
        let ip_cnt = N as u16;
        DiscoverInfo {
            use_m_cast,
            use_b_cast,
            use_u_cast,
            must_use_list,
            server_m_cast_ip,
            ip_cnt,
            srv_list,
        }
    }
}

impl<T> DiscoverInfo<T> {
    /// Discovery uses multicast.
    pub closed spec fn spec_use_m_cast(&self) -> bool {
        self.use_m_cast
    }

    /// Discovery uses broadcast.
    pub closed spec fn spec_use_b_cast(&self) -> bool {
        self.use_b_cast
    }

    /// Discovery uses unicast.
    pub closed spec fn spec_use_u_cast(&self) -> bool {
        self.use_u_cast
    }

    /// Only boot servers in the list are accepted.
    pub closed spec fn spec_must_use_list(&self) -> bool {
        self.must_use_list
    }

    /// The address used in multicast discovery.
    pub closed spec fn spec_server_m_cast_ip(&self) -> IpAddress {
        self.server_m_cast_ip
    }

    /// The number of boot servers.
    pub closed spec fn spec_ip_cnt(&self) -> u16 {
        self.ip_cnt
    }

    /// The boot server list.
    pub closed spec fn spec_srv_list(&self) -> T {
        self.srv_list
    }

    /// Returns whether discovery should use multicast.
    pub fn use_m_cast(&self) -> (r: bool)
        ensures
            r == self.spec_use_m_cast(),
    {
        self.use_m_cast
    }

    /// Returns whether discovery should use broadcast.
    pub fn use_b_cast(&self) -> (r: bool)
        ensures
            r == self.spec_use_b_cast(),
    {
        self.use_b_cast
    }

    /// Returns whether discovery should use unicast.
    pub fn use_u_cast(&self) -> (r: bool)
        ensures
            r == self.spec_use_u_cast(),
    {
        self.use_u_cast
    }

    /// Returns whether discovery should only accept boot servers in the
    /// server list (boot server verification).
    pub fn must_use_list(&self) -> (r: bool)
        ensures
            r == self.spec_must_use_list(),
    {
        self.must_use_list
    }

    /// Returns the address used in multicast discovery.
    pub fn server_m_cast_ip(&self) -> (r: &IpAddress)
        ensures
            *r == self.spec_server_m_cast_ip(),
    {
        &self.server_m_cast_ip
    }

    /// Returns the amount of Boot Server.
    pub fn ip_cnt(&self) -> (r: u16)
        ensures
            r == self.spec_ip_cnt(),
    {
        self.ip_cnt
    }

    /// Returns the Boot Server list used for unicast discovery or boot
    /// server verification.
    pub fn srv_list(&self) -> (r: &T)
        ensures
            *r == self.spec_srv_list(),
    {
        &self.srv_list
    }
}

/// MTFTP connection parameters
///
/// Corresponds to the `EFI_PXE_BASE_CODE_MTFTP_INFO` type in the C API.
#[derive(Clone, Copy, Debug)]
pub struct MtftpInfo {
    /// File multicast IP address. This is the IP address to which the server
    /// will send the requested file.
    pub m_cast_ip: IpAddress,
    /// Client multicast listening port. This is the UDP port to which the
    /// server will send the requested file.
    pub c_port: u16,
    /// Server multicast listening port. This is the UDP port on which the
    /// server listens for multicast open requests and data acks.
    pub s_port: u16,
    /// The number of seconds a client should listen for an active multicast
    /// session before requesting a new multicast session.
    pub listen_timeout: u16,
    /// The number of seconds a client should wait for a packet from the server
    /// before retransmitting the previous open request or data ack packet.
    pub transmit_timeout: u16,
}

/// IP receive filters.
///
/// The model is the set of bits, as a number.
#[derive(Clone, Copy, Debug, PartialEq, Eq, Structural)]
pub struct IpFilters {
    bits: u8,
}

impl View for IpFilters {
    type V = u8;

    closed spec fn view(&self) -> u8 {
        self.bits
    }
}

#[allow(non_snake_case)]
impl IpFilters {
    /// Enable the Station IP address.
    pub fn STATION_IP() -> (r: IpFilters)
        ensures
            r@ == 0x01,
    {
        IpFilters { bits: 0x01 }
    }

    /// Enable IPv4 broadcast addresses.
    pub fn BROADCAST() -> (r: IpFilters)
        ensures
            r@ == 0x02,
    {
        IpFilters { bits: 0x02 }
    }

    /// Enable all addresses.
    pub fn PROMISCUOUS() -> (r: IpFilters)
        ensures
            r@ == 0x04,
    {
        IpFilters { bits: 0x04 }
    }

    /// Enable all multicast addresses.
    pub fn PROMISCUOUS_MULTICAST() -> (r: IpFilters)
        ensures
            r@ == 0x08,
    {
        IpFilters { bits: 0x08 }
    }

    /// The flags whose bits are set in `bits`; bits that no flag names are
    /// dropped.
    pub fn from_bits_truncate(bits: u8) -> (r: IpFilters)
        ensures
            r@ == bits & 0x0f,
    {
        IpFilters { bits: bits & 0x0f }
    }

    /// The raw bits.
    pub fn bits(&self) -> (r: u8)
        ensures
            r == self@,
    {
        self.bits
    }
}

/// IP receive filter settings
///
/// Corresponds to the `EFI_PXE_BASE_CODE_IP_FILTER` type in the C API.
#[derive(Debug)]
pub struct IpFilter {
    /// A set of filters.
    filters: IpFilters,
    ip_cnt: u8,
    reserved: u16,
    ip_list: [IpAddress; 8],
}

impl IpFilter {
    #[verifier::type_invariant]
    spec fn count_fits(self) -> bool {
        self.ip_cnt <= 8
    }

    /// The set of filters.
    pub closed spec fn spec_filters(&self) -> IpFilters {
        self.filters
    }

    /// The addresses in use, in order.
    pub closed spec fn spec_ip_list(&self) -> Seq<IpAddress> {
        self.ip_list@.subrange(0, self.ip_cnt as int)
    }

    /// Construct a new `IpFilter` from at most 8 addresses.
    pub fn new(filters: IpFilters, ip_list: &[IpAddress]) -> (r: Self)
        requires
            ip_list@.len() <= 8,
        ensures
            r.spec_filters() == filters,
            r.spec_ip_list() == ip_list@,
    {
        let ip_cnt = ip_list.len() as u8;
        let mut buffer = [IpAddress([0u8; 16]); 8];
        let mut i: usize = 0;
        while i < ip_list.len()
            invariant
                ip_list@.len() <= 8,
                i <= ip_list@.len(),
                forall|j: int| 0 <= j < i ==> buffer@[j] == ip_list@[j],
            decreases ip_list@.len() - i,
        {
            buffer[i] = ip_list[i];
            i = i + 1;
        }
        let r = IpFilter { filters, ip_cnt, reserved: 0, ip_list: buffer };
        proof {
            assert(r.ip_list@.subrange(0, ip_cnt as int) =~= ip_list@);
        }
        r
    }

    /// The set of filters.
    pub fn filters(&self) -> (r: IpFilters)
        ensures
            r == self.spec_filters(),
    {
        self.filters
    }

    /// A list of IP addresses other than the Station Ip that should be
    /// enabled. Maybe be multicast or unicast.
    pub fn ip_list(&self) -> (r: &[IpAddress])
        ensures
            r@ == self.spec_ip_list(),
    {
        proof {
            use_type_invariant(self);
        }
        vstd::slice::slice_subrange(self.ip_list.as_slice(), 0, self.ip_cnt as usize)
    }
}

/// The number stored big-endian (network byte order) in `s`.
pub open spec fn be_value(s: Seq<u8>) -> nat
    decreases s.len(),
{
    if s.len() == 0 {
        0
    } else {
        be_value(s.drop_last()) * 256 + s.last() as nat
    }
}

/// Represents the 'flags' field for a [`DhcpV4Packet`].
///
/// The model is the set of bits, as a number.
#[derive(Clone, Copy, Debug, PartialEq, Eq, Structural)]
pub struct DhcpV4Flags {
    bits: u16,
}

impl View for DhcpV4Flags {
    type V = u16;

    closed spec fn view(&self) -> u16 {
        self.bits
    }
}

#[allow(non_snake_case)]
impl DhcpV4Flags {
    /// Should be set when the client cannot receive unicast IP datagrams
    /// until its protocol software has been configured with an IP address.
    pub fn BROADCAST() -> (r: DhcpV4Flags)
        ensures
            r@ == 1,
    {
        DhcpV4Flags { bits: 1 }
    }

    /// The flags whose bits are set in `bits`; bits that no flag names are
    /// dropped.
    pub fn from_bits_truncate(bits: u16) -> (r: DhcpV4Flags)
        ensures
            r@ == bits & 1,
    {
        DhcpV4Flags { bits: bits & 1 }
    }

    /// The raw bits.
    pub fn bits(&self) -> (r: u16)
        ensures
            r == self@,
    {
        self.bits
    }
}

/// A Dhcpv4 Packet.
///
/// Corresponds to the `EFI_PXE_BASE_CODE_DHCPV4_PACKET` type in the C API.
/// The fields that hold numbers of more than one byte keep their bytes in
/// network byte order; their accessors decode them.
#[derive(Clone, Copy, Debug)]
pub struct DhcpV4Packet {
    /// Packet op code / message type.
    pub bootp_opcode: u8,
    /// Hardware address type.
    pub bootp_hw_type: u8,
    /// Hardware address length.
    pub bootp_hw_addr_len: u8,
    /// Client sets to zero, optionally used by gateways in cross-gateway booting.
    pub bootp_gate_hops: u8,
    /// Transaction ID, in network byte order.
    pub bootp_ident: [u8; 4],
    /// Seconds since the client started trying to boot, in network byte order.
    pub bootp_seconds: [u8; 2],
    /// The flags, in network byte order.
    pub bootp_flags: [u8; 2],
    /// Client IP address, filled in by client in bootrequest if known.
    pub bootp_ci_addr: [u8; 4],
    /// 'your' (client) IP address; filled by server if client doesn't know
    /// its own address (`bootp_ci_addr` was 0).
    pub bootp_yi_addr: [u8; 4],
    /// Server IP address, returned in bootreply by server.
    pub bootp_si_addr: [u8; 4],
    /// Gateway IP address, used in optional cross-gateway booting.
    pub bootp_gi_addr: [u8; 4],
    /// Client hardware address, filled in by client.
    pub bootp_hw_addr: [u8; 16],
    /// Optional server host name, null terminated string.
    pub bootp_srv_name: [u8; 64],
    /// Boot file name, null terminated string, 'generic' name or null in
    /// bootrequest, fully qualified directory-path name in bootreply.
    pub bootp_boot_file: [u8; 128],
    /// The magic cookie, in network byte order.
    pub dhcp_magik: [u8; 4],
    /// Optional vendor-specific area.
    pub dhcp_options: [u8; 56],
}

impl DhcpV4Packet {
    /// The expected value for [`Self::dhcp_magik`].
    pub fn DHCP_MAGIK() -> (r: u32)
        ensures
            r == 0x63825363,
    {
        0x63825363
    }

    /// Transaction ID, a random number, used to match this boot request with
    /// the responses it generates.
    pub fn bootp_ident(&self) -> (r: u32)
        ensures
            r == be_value(self.bootp_ident@),
    {
        be_u32(self.bootp_ident)
    }

    /// Filled in by client, seconds elapsed since client started trying to
    /// boot.
    pub fn bootp_seconds(&self) -> (r: u16)
        ensures
            r == be_value(self.bootp_seconds@),
    {
        be_u16(self.bootp_seconds)
    }

    /// The flags.
    pub fn bootp_flags(&self) -> (r: DhcpV4Flags)
        ensures
            r@ == be_value(self.bootp_flags@) as u16 & 1,
    {
        DhcpV4Flags::from_bits_truncate(be_u16(self.bootp_flags))
    }

    /// A magic cookie, should be [`Self::DHCP_MAGIK`].
    pub fn dhcp_magik(&self) -> (r: u32)
        ensures
            r == be_value(self.dhcp_magik@),
    {
        be_u32(self.dhcp_magik)
    }
}

/// The number stored big-endian in two bytes.
fn be_u16(b: [u8; 2]) -> (r: u16)
    ensures
        r == be_value(b@),
{
    proof {
        reveal_with_fuel(be_value, 3);
        assert(b@.drop_last().drop_last() =~= Seq::<u8>::empty());
        assert(b@.drop_last().last() == b@[0]);
    }
    (b[0] as u16) * 256 + (b[1] as u16)
}

/// The number stored big-endian in four bytes.
fn be_u32(b: [u8; 4]) -> (r: u32)
    ensures
        r == be_value(b@),
{
    let ghost s = b@;
    proof {
        reveal_with_fuel(be_value, 5);
        assert(s.drop_last().drop_last().drop_last().drop_last() =~= Seq::<u8>::empty());
        assert(s.drop_last().drop_last().drop_last().last() == s[0]);
        assert(s.drop_last().drop_last().last() == s[1]);
        assert(s.drop_last().last() == s[2]);
    }
    (((b[0] as u32) * 256 + (b[1] as u32)) * 256 + (b[2] as u32)) * 256 + (b[3] as u32)
}

/// A Dhcpv6 Packet.
///
/// Corresponds to the `EFI_PXE_BASE_CODE_DHCPV6_PACKET` type in the C API.
#[derive(Clone, Copy, Debug)]
pub struct DhcpV6Packet {
    /// The message type.
    pub message_type: u8,
    /// The transaction id, in network byte order.
    pub transaction_id: [u8; 3],
    /// A byte array containing dhcp options.
    pub dhcp_options: [u8; 1024],
}

impl DhcpV6Packet {
    /// The transaction id.
    pub fn transaction_id(&self) -> (r: u32)
        ensures
            r == be_value(self.transaction_id@),
    {
        let ghost s = self.transaction_id@;
        let a = self.transaction_id[0] as u32;
        let b = self.transaction_id[1] as u32;
        let c = self.transaction_id[2] as u32;
        proof {
            reveal_with_fuel(be_value, 4);
            assert(s.drop_last().drop_last().drop_last() =~= Seq::<u8>::empty());
            assert(s.drop_last().drop_last().last() == s[0]);
            assert(s.drop_last().last() == s[1]);
            assert(a << 16 | b << 8 | c == (a * 256 + b) * 256 + c) by (bit_vector)
                requires
                    a < 256,
                    b < 256,
                    c < 256,
            ;
        }
        a << 16 | b << 8 | c
    }
}

/// A network packet, as its raw bytes.
///
/// Corresponds to the `EFI_PXE_BASE_CODE_PACKET` type in the C API.
#[derive(Clone, Copy, Debug)]
pub struct Packet {
    /// The bytes of the packet.
    pub raw: [u8; 1472],
}

impl Packet {
    /// The packet read as a DHCPv4 packet.
    pub fn dhcpv4(&self) -> (r: DhcpV4Packet)
        ensures
            r.bootp_opcode == self.raw@[0],
            r.bootp_hw_type == self.raw@[1],
            r.bootp_hw_addr_len == self.raw@[2],
            r.bootp_gate_hops == self.raw@[3],
            r.bootp_ident@ == self.raw@.subrange(4, 8),
            r.bootp_seconds@ == self.raw@.subrange(8, 10),
            r.bootp_flags@ == self.raw@.subrange(10, 12),
            r.bootp_ci_addr@ == self.raw@.subrange(12, 16),
            r.bootp_yi_addr@ == self.raw@.subrange(16, 20),
            r.bootp_si_addr@ == self.raw@.subrange(20, 24),
            r.bootp_gi_addr@ == self.raw@.subrange(24, 28),
            r.bootp_hw_addr@ == self.raw@.subrange(28, 44),
            r.bootp_srv_name@ == self.raw@.subrange(44, 108),
            r.bootp_boot_file@ == self.raw@.subrange(108, 236),
            r.dhcp_magik@ == self.raw@.subrange(236, 240),
            r.dhcp_options@ == self.raw@.subrange(240, 296),
    {
        let raw = self.raw.as_slice();
        DhcpV4Packet {
            bootp_opcode: raw[0],
            bootp_hw_type: raw[1],
            bootp_hw_addr_len: raw[2],
            bootp_gate_hops: raw[3],
            bootp_ident: read_array::<4>(raw, 4),
            bootp_seconds: read_array::<2>(raw, 8),
            bootp_flags: read_array::<2>(raw, 10),
            bootp_ci_addr: read_array::<4>(raw, 12),
            bootp_yi_addr: read_array::<4>(raw, 16),
            bootp_si_addr: read_array::<4>(raw, 20),
            bootp_gi_addr: read_array::<4>(raw, 24),
            bootp_hw_addr: read_array::<16>(raw, 28),
            bootp_srv_name: read_array::<64>(raw, 44),
            bootp_boot_file: read_array::<128>(raw, 108),
            dhcp_magik: read_array::<4>(raw, 236),
            dhcp_options: read_array::<56>(raw, 240),
        }
    }

    /// The packet read as a DHCPv6 packet.
    pub fn dhcpv6(&self) -> (r: DhcpV6Packet)
        ensures
            r.message_type == self.raw@[0],
            r.transaction_id@ == self.raw@.subrange(1, 4),
            r.dhcp_options@ == self.raw@.subrange(4, 1028),
    {
        let raw = self.raw.as_slice();
        DhcpV6Packet {
            message_type: raw[0],
            transaction_id: read_array::<3>(raw, 1),
            dhcp_options: read_array::<1024>(raw, 4),
        }
    }
}

/// An entry for the ARP cache found in the PXE base code mode.
#[derive(Clone, Copy, Debug)]
pub struct ArpEntry {
    /// The IP address.
    pub ip_addr: IpAddress,
    /// The mac address of the device that is addressed by the IP address.
    pub mac_addr: MacAddress,
}

/// An entry for the route table found in the PXE base code mode.
#[derive(Clone, Copy, Debug)]
#[allow(missing_docs)]
pub struct RouteEntry {
    pub ip_addr: IpAddress,
    pub subnet_mask: IpAddress,
    pub gw_addr: IpAddress,
}

/// An ICMP error packet.
#[derive(Clone, Copy, Debug)]
#[allow(missing_docs)]
pub struct IcmpError {
    pub ty: u8,
    pub code: u8,
    pub checksum: u16,
    /// The four bytes that follow the checksum; what they mean depends on the
    /// type (reserved, MTU, pointer, or an echo identifier and sequence).
    pub u: [u8; 4],
    pub data: [u8; 494],
}

/// The identifier and sequence of an echo ICMP error.
#[derive(Clone, Copy, Debug)]
#[allow(missing_docs)]
pub struct IcmpErrorEcho {
    pub identifier: u16,
    pub sequence: u16,
}

/// A TFTP error packet.
#[derive(Clone, Copy, Debug)]
#[allow(missing_docs)]
pub struct TftpError {
    pub error_code: u8,
    pub error_string: [u8; 127],
}

/// An error that occurred when parsing the file information of a directory
/// listing.
#[derive(Clone, Copy, Debug, PartialEq, Eq, Structural)]
pub struct ReadDirParseError;

} // verus!
