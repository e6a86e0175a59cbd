use uefi::proto::network::pxe::{mtftp_read_dir_entry, tftp_read_dir_entry, ReadDirParseError};
use uefi::proto::media::partition::{GptPartitionEntry, GptPartitionType, PartitionInfo, PartitionInfoRevision, PartitionType, MbrPartitionRecord, MbrOsType};
use uefi::proto::network::pxe::{DhcpV4Flags, DiscoverInfo, IpFilter, IpFilters, Packet, Server};
use uefi::proto::network::snp::InterruptStatus;
use uefi::proto::network::IpAddress;
use uefi::data_types::{Char16, Guid};

#[test]
fn test_server_ip_addr() {
    let any = Server::new(3, None);
    assert_eq!(any.ty(), 3);
    assert!(any.ip_addr().is_none());
    let one = Server::new(4, Some(IpAddress([9; 16])));
    assert_eq!(one.ip_addr().unwrap().0, [9; 16]);
}

#[test]
fn test_discover_info() {
    let info = DiscoverInfo::new(true, false, true, false, IpAddress([1; 16]), [Server::new(1, None), Server::new(2, None)]);
    assert!(info.use_m_cast() && !info.use_b_cast() && info.use_u_cast() && !info.must_use_list());
    assert_eq!(info.ip_cnt(), 2);
    assert_eq!(info.server_m_cast_ip().0, [1; 16]);
    assert_eq!(info.srv_list()[1].ty(), 2);
}

#[test]
fn test_ip_filter() {
    let list = [IpAddress([1; 16]), IpAddress([2; 16]), IpAddress([3; 16])];
    let f = IpFilter::new(IpFilters::BROADCAST(), &list);
    assert_eq!(f.filters().bits(), 2);
    let got = f.ip_list();
    assert_eq!(got.len(), 3);
    assert_eq!(got[2].0, [3; 16]);
    assert!(IpFilter::new(IpFilters::STATION_IP(), &[]).ip_list().is_empty());
}

#[test]
fn test_dhcp_packets() {
    let mut raw = [0u8; 1472];
    raw[0] = 2;
    raw[4..8].copy_from_slice(&[0x12, 0x34, 0x56, 0x78]);
    raw[8..10].copy_from_slice(&[0x01, 0x02]);
    raw[10..12].copy_from_slice(&[0x80, 0x01]);
    raw[236..240].copy_from_slice(&[0x63, 0x82, 0x53, 0x63]);
    let p = Packet { raw };
    let v4 = p.dhcpv4();
    assert_eq!(v4.bootp_opcode, 2);
    assert_eq!(v4.bootp_ident(), 0x12345678);
    assert_eq!(v4.bootp_seconds(), 0x0102);
    assert_eq!(v4.bootp_flags(), DhcpV4Flags::BROADCAST());
    assert_eq!(v4.dhcp_magik(), 0x63825363);
    let v6 = p.dhcpv6();
    assert_eq!(v6.message_type, 2);
    assert_eq!(v6.transaction_id(), 0);
    let mut raw = [0u8; 1472];
    raw[1..4].copy_from_slice(&[0xab, 0xcd, 0xef]);
    assert_eq!(Packet { raw }.dhcpv6().transaction_id(), 0xabcdef);
}

#[test]
fn test_interrupt_status() {
    let s = InterruptStatus(0b1010);
    assert!(!s.receive_interrupt());
    assert!(s.transmit_interrupt());
    assert!(!s.command_interrupt());
    assert!(s.software_interrupt());
    assert!(!InterruptStatus::new().transmit_interrupt());
}

fn gpt(start: u64, end: u64) -> GptPartitionEntry {
    GptPartitionEntry {
        partition_type_guid: GptPartitionType::EFI_SYSTEM_PARTITION(),
        unique_partition_guid: Guid::from_values(1, 2, 3, 4, 5),
        starting_lba: start,
        ending_lba: end,
        attributes: 0,
        partition_name: [Char16::try_from('a').unwrap(); 36],
    }
}

#[test]
fn test_gpt_num_blocks() {
    assert_eq!(gpt(34, 2047).num_blocks(), Some(2014));
    assert_eq!(gpt(5, 5).num_blocks(), Some(1));
    assert_eq!(gpt(6, 5).num_blocks(), None);
    assert_eq!(gpt(0, u64::MAX).num_blocks(), None);
}

#[test]
fn test_partition_info_records() {
    let mbr = MbrPartitionRecord {
        boot_indicator: 0x80,
        starting_chs: [0; 3],
        os_type: MbrOsType::UEFI_SYSTEM_PARTITION(),
        ending_chs: [0; 3],
        starting_lba: 2048,
        size_in_lba: 100,
    };
    assert!(mbr.is_bootable());
    let info = PartitionInfo {
        revision: PartitionInfoRevision::PROTOCOL_REVISION(),
        partition_type: PartitionType::MBR(),
        system: 1,
        mbr_record: mbr,
        gpt_entry: gpt(1, 2),
    };
    assert!(info.is_system());
    assert_eq!(info.mbr_partition_record().unwrap().starting_lba, 2048);
    assert!(info.gpt_partition_entry().is_none());
    let old = PartitionInfo { revision: PartitionInfoRevision(0x2000), ..info };
    assert!(old.mbr_partition_record().is_none());
    let g = PartitionInfo { partition_type: PartitionType::GPT(), system: 0, ..info };
    assert!(!g.is_system());
    assert_eq!(g.gpt_partition_entry().unwrap().ending_lba, 2);
}

#[test]
fn test_tftp_read_dir_entries() {
    let listing: &[u8] = b"boot.efi\x00123 2023-04-05 06:07:08.5\x00+7 1999-12-31 23:59:59\x00\x00";
    let (first, pos) = tftp_read_dir_entry(listing, 0);
    let first = first.unwrap().unwrap();
    assert_eq!(first.filename.to_bytes_with_nul(), b"boot.efi\x00".to_vec());
    assert_eq!((first.size, first.year, first.month, first.day), (123, 2023, 4, 5));
    assert_eq!((first.hour, first.minute), (6, 7));
    assert_eq!(first.second, b"08.5".to_vec());
    assert_eq!(pos, 35);
    // A file name, then information whose size has a plus sign.
    let listing2: &[u8] = b"a\x00+7 1999-12-31 23:59:59\x00\x00";
    let (second, pos2) = tftp_read_dir_entry(listing2, 0);
    let second = second.unwrap().unwrap();
    assert_eq!((second.size, second.year, second.month, second.day), (7, 1999, 12, 31));
    assert_eq!(second.second, b"59".to_vec());
    let (end, pos3) = tftp_read_dir_entry(listing2, pos2);
    assert!(matches!(end, Ok(None)));
    assert_eq!(pos3, listing2.len());
    // Past the end, the read fails and stays where it is.
    let (past, pos4) = tftp_read_dir_entry(listing2, pos3);
    assert!(matches!(past, Err(ReadDirParseError)));
    assert_eq!(pos4, pos3);
}

#[test]
fn test_tftp_read_dir_malformed() {
    // A month that does not fit in a byte: the entry is skipped with an error.
    let listing: &[u8] = b"x\x001 2000-256-01 00:00:00\x00y\x002 2000-01-01 00:00:00\x00\x00";
    let (bad, pos) = tftp_read_dir_entry(listing, 0);
    assert!(bad.is_err());
    assert_eq!(pos, 25);
    let (good, _) = tftp_read_dir_entry(listing, pos);
    assert_eq!(good.unwrap().unwrap().size, 2);
    // A missing separator, a minus sign and an empty number are errors.
    assert!(tftp_read_dir_entry(b"x\x001 2000-01-01 00:00\x00", 0).0.is_err());
    assert!(tftp_read_dir_entry(b"x\x00-1 2000-01-01 00:00:00\x00", 0).0.is_err());
    assert!(tftp_read_dir_entry(b"x\x00 2000-01-01 00:00:00\x00", 0).0.is_err());
    // A size that overflows `u64`.
    assert!(tftp_read_dir_entry(b"x\x0018446744073709551616 2000-01-01 00:00:00\x00", 0).0.is_err());
    assert!(tftp_read_dir_entry(b"x\x0018446744073709551615 2000-01-01 00:00:00\x00", 0).0.is_ok());
    // No information after the name: the name is consumed.
    let (r, pos) = tftp_read_dir_entry(b"x\x00", 0);
    assert!(r.is_err());
    assert_eq!(pos, 2);
    // Non-ASCII seconds are refused.
    assert!(tftp_read_dir_entry("x\u{0}1 2000-01-01 00:00:0é\u{0}".as_bytes(), 0).0.is_err());
}

#[test]
fn test_mtftp_read_dir_entries() {
    let listing: &[u8] = b"f.bin\x00224.0.0.17\x0042 2021-06-07 08:09:10\x00\x00";
    let (entry, pos) = mtftp_read_dir_entry(listing, 0);
    let entry = entry.unwrap().unwrap();
    assert_eq!(entry.filename.to_bytes_with_nul(), b"f.bin\x00".to_vec());
    assert_eq!(entry.ip_address.0[..4], [224, 0, 0, 17]);
    assert_eq!(entry.ip_address.0[4..], [0; 12]);
    assert_eq!((entry.size, entry.year, entry.month, entry.day, entry.hour, entry.minute), (42, 2021, 6, 7, 8, 9));
    assert_eq!(entry.second, b"10".to_vec());
    assert_eq!(pos, listing.len() - 1);
    assert!(matches!(mtftp_read_dir_entry(listing, pos).0, Ok(None)));
    // Three or five parts, or a part above 255, are not an address; the
    // read stops after the address.
    let (r, pos) = mtftp_read_dir_entry(b"f\x001.2.3\x001 2000-01-01 00:00:00\x00", 0);
    assert!(r.is_err());
    assert_eq!(pos, 8);
    assert!(mtftp_read_dir_entry(b"f\x001.2.3.4.5\x001 2000-01-01 00:00:00\x00", 0).0.is_err());
    assert!(mtftp_read_dir_entry(b"f\x001.2.3.256\x001 2000-01-01 00:00:00\x00", 0).0.is_err());
    assert!(mtftp_read_dir_entry(b"f\x001.2.3.4\x001 2000-01-01 00:00:00\x00", 0).0.is_ok());
}
