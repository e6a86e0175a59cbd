use uefi::proto::device_path::acpi::get_acpi_expanded_substr;

#[test]
fn test_get_acpi_expanded_substr() {
    let s = b"ab\0cd\0ef\0";
    assert_eq!(get_acpi_expanded_substr(s, 0), b"ab\0");
    assert_eq!(get_acpi_expanded_substr(s, 1), b"cd\0");
    assert_eq!(get_acpi_expanded_substr(s, 2), b"ef\0");
    let s = b"\0\0\0";
    assert_eq!(get_acpi_expanded_substr(s, 0), b"\0");
    assert_eq!(get_acpi_expanded_substr(s, 1), b"\0");
    assert_eq!(get_acpi_expanded_substr(s, 2), b"\0");
    let s = b"ab\0cd\0";
    assert_eq!(get_acpi_expanded_substr(s, 0), b"ab\0");
    assert_eq!(get_acpi_expanded_substr(s, 1), b"cd\0");
    assert_eq!(get_acpi_expanded_substr(s, 2), b"");
    let s = b"ab\0";
    assert_eq!(get_acpi_expanded_substr(s, 0), b"ab\0");
    assert_eq!(get_acpi_expanded_substr(s, 1), b"");
    assert_eq!(get_acpi_expanded_substr(s, 2), b"");
    let s = b"ab\0cd\0ef";
    assert_eq!(get_acpi_expanded_substr(s, 0), b"ab\0");
    assert_eq!(get_acpi_expanded_substr(s, 1), b"cd\0");
    assert_eq!(get_acpi_expanded_substr(s, 2), b"ef");
    let s = b"ab\0cd";
    assert_eq!(get_acpi_expanded_substr(s, 0), b"ab\0");
    assert_eq!(get_acpi_expanded_substr(s, 1), b"cd");
    assert_eq!(get_acpi_expanded_substr(s, 2), b"");
    let s = b"ab";
    assert_eq!(get_acpi_expanded_substr(s, 0), b"ab");
    assert_eq!(get_acpi_expanded_substr(s, 1), b"");
    assert_eq!(get_acpi_expanded_substr(s, 2), b"");
    let s = b"";
    assert_eq!(get_acpi_expanded_substr(s, 0), b"");
    assert_eq!(get_acpi_expanded_substr(s, 1), b"");
    assert_eq!(get_acpi_expanded_substr(s, 2), b"");
}

use uefi::data_types::{CStr16, Guid};
use uefi::proto::device_path::build::{self, BuildError, BuildNode};
use uefi::proto::device_path::media::{PartitionFormat, PartitionSignature};
use uefi::proto::device_path::messaging::{RestServiceAccessMode, RestServiceType};
use uefi::proto::device_path::{
    acpi, hardware, media, messaging, DevicePath, DevicePathNode, DevicePathNodeEnum,
    DeviceSubType, DeviceType, NodeConversionError,
};
use uefi::proto::network::IpAddress;
use uefi::table::boot::MemoryType;

fn node_bytes<N: BuildNode>(n: &N) -> Vec<u8> {
    let size = n.size_in_bytes().unwrap();
    let mut out = Vec::new();
    n.write_data(&mut out);
    assert_eq!(out.len(), usize::from(size));
    out
}

fn end_entire() -> Vec<u8> {
    node_bytes(&build::end::Entire)
}

#[test]
fn test_build_pci_node_layout() {
    let bytes = node_bytes(&build::hardware::Pci { function: 3, device: 7 });
    assert_eq!(bytes, [0x01, 0x01, 6, 0, 3, 7]);
    let node = DevicePathNode::from_bytes(&bytes).unwrap();
    assert_eq!(node.device_type(), DeviceType::HARDWARE());
    assert_eq!(node.sub_type(), DeviceSubType::HARDWARE_PCI());
    assert_eq!(node.length(), 6);
    assert_eq!(node.data(), &[3, 7]);
    let pci = hardware::Pci::try_from(&node).unwrap();
    assert_eq!(pci.function(), 3);
    assert_eq!(pci.device(), 7);
}

#[test]
fn test_build_memory_mapped_roundtrip() {
    let b = build::hardware::MemoryMapped {
        memory_type: MemoryType::MMIO(),
        start_address: 0x1122_3344_5566_7788,
        end_address: 0xffff_0000_ffff_0000,
    };
    let bytes = node_bytes(&b);
    assert_eq!(bytes.len(), 24);
    let node = DevicePathNode::from_bytes(&bytes).unwrap();
    match node.as_enum().unwrap() {
        DevicePathNodeEnum::HardwareMemoryMapped(m) => {
            assert_eq!(m.memory_type(), MemoryType::MMIO());
            assert_eq!(m.start_address(), 0x1122_3344_5566_7788);
            assert_eq!(m.end_address(), 0xffff_0000_ffff_0000);
        }
        other => panic!("unexpected node {:?}", other),
    }
}

#[test]
fn test_build_vendor_roundtrip() {
    let guid = Guid::from_values(0x12345678, 0x9abc, 0xdef0, 0x1234, 0x56789abcdef0);
    let data = [9u8, 8, 7];
    let b = build::hardware::Vendor { vendor_guid: guid, vendor_defined_data: &data };
    let bytes = node_bytes(&b);
    assert_eq!(bytes.len(), 23);
    let node = DevicePathNode::from_bytes(&bytes).unwrap();
    let v = hardware::Vendor::try_from(&node).unwrap();
    assert_eq!(v.vendor_guid(), guid);
    assert_eq!(v.vendor_defined_data(), &data);
}

#[test]
fn test_build_file_path_roundtrip() {
    let name = [b'\\' as u16, b'a' as u16, 0];
    let path = CStr16::from_u16_with_nul(&name).unwrap();
    let bytes = node_bytes(&build::media::FilePath { path_name: &path });
    assert_eq!(bytes, [0x04, 0x04, 10, 0, b'\\', 0, b'a', 0, 0, 0]);
    let node = DevicePathNode::from_bytes(&bytes).unwrap();
    let fp = media::FilePath::try_from(&node).unwrap();
    let units = fp.path_name();
    assert_eq!(units.len(), 3);
    assert_eq!(units.to_vec(), name);
}

#[test]
fn test_build_hard_drive_signatures() {
    let guid = Guid::from_values(0x12345678, 0x9abc, 0xdef0, 0x1234, 0x56789abcdef0);
    let cases = [
        (PartitionSignature::NoSignature, 0u8),
        (PartitionSignature::Mbr([1, 2, 3, 4]), 1),
        (PartitionSignature::Guid(guid), 2),
        (PartitionSignature::Unknown { signature_type: 7, signature: [5; 16] }, 7),
    ];
    for (sig, ty) in cases {
        let b = build::media::HardDrive {
            partition_number: 1,
            partition_start: 2048,
            partition_size: 4096,
            partition_signature: sig,
            partition_format: PartitionFormat::GPT(),
        };
        let bytes = node_bytes(&b);
        assert_eq!(bytes.len(), 42);
        assert_eq!(bytes[41], ty);
        let node = DevicePathNode::from_bytes(&bytes).unwrap();
        let hd = media::HardDrive::try_from(&node).unwrap();
        assert_eq!(hd.partition_number(), 1);
        assert_eq!(hd.partition_start(), 2048);
        assert_eq!(hd.partition_size(), 4096);
        assert_eq!(hd.partition_format(), PartitionFormat::GPT());
        assert_eq!(hd.partition_signature(), sig);
    }
}

#[test]
fn test_build_rest_service_vendor_data() {
    let guid = Guid::from_values(1, 2, 3, 4, 5);
    let data = [0xaau8, 0xbb];
    let b = build::messaging::RestService {
        service_type: RestServiceType::VENDOR(),
        access_mode: RestServiceAccessMode::IN_BAND(),
        vendor_guid_and_data: Some(build::messaging::RestServiceVendorData {
            vendor_guid: guid,
            vendor_defined_data: &data,
        }),
    };
    let bytes = node_bytes(&b);
    assert_eq!(bytes.len(), 6 + 16 + 2);
    let node = DevicePathNode::from_bytes(&bytes).unwrap();
    let rs = messaging::RestService::try_from(&node).unwrap();
    assert_eq!(rs.service_type(), RestServiceType::VENDOR());
    assert_eq!(rs.access_mode(), RestServiceAccessMode::IN_BAND());
    let (g, d) = rs.vendor_guid_and_data().unwrap();
    assert_eq!(g, guid);
    assert_eq!(d, &data);

    // Without vendor data, and for another service type, there is none.
    let b = build::messaging::RestService {
        service_type: RestServiceType::REDFISH(),
        access_mode: RestServiceAccessMode::OUT_OF_BAND(),
        vendor_guid_and_data: None,
    };
    let bytes = node_bytes(&b);
    let node = DevicePathNode::from_bytes(&bytes).unwrap();
    let rs = messaging::RestService::try_from(&node).unwrap();
    assert!(rs.vendor_guid_and_data().is_none());
}

#[test]
fn test_build_expanded_strings() {
    let b = build::acpi::Expanded {
        hid: 1,
        uid: 2,
        cid: 3,
        hid_str: b"ab\0",
        uid_str: b"\0",
        cid_str: b"c\0",
    };
    let bytes = node_bytes(&b);
    let node = DevicePathNode::from_bytes(&bytes).unwrap();
    let e = acpi::Expanded::try_from(&node).unwrap();
    assert_eq!((e.hid(), e.uid(), e.cid()), (1, 2, 3));
    assert_eq!(e.hid_str(), b"ab\0");
    assert_eq!(e.uid_str(), b"\0");
    assert_eq!(e.cid_str(), b"c\0");
}

#[test]
fn test_build_adr_and_dns() {
    let values = [0x0102_0304u32, 5];
    let adr = build::acpi::AdrSlice::new(&values).unwrap();
    assert!(build::acpi::AdrSlice::new(&[]).is_none());
    let bytes = node_bytes(&build::acpi::Adr { adr: &adr });
    assert_eq!(bytes, [2, 3, 12, 0, 4, 3, 2, 1, 5, 0, 0, 0]);
    let node = DevicePathNode::from_bytes(&bytes).unwrap();
    let a = acpi::Adr::try_from(&node).unwrap();
    assert_eq!(a.adr().to_vec(), values);

    let addrs = [IpAddress([1; 16]), IpAddress([2; 16])];
    let bytes = node_bytes(&build::messaging::Dns {
        address_type: messaging::DnsAddressType::IPV6(),
        addresses: &addrs,
    });
    assert_eq!(bytes.len(), 5 + 32);
    let node = DevicePathNode::from_bytes(&bytes).unwrap();
    let dns = messaging::Dns::try_from(&node).unwrap();
    let got = dns.addresses();
    assert_eq!(got.len(), 2);
    assert_eq!(got.get(1).unwrap().0, [2; 16]);
}

#[test]
fn test_node_too_big() {
    let data = vec![0u8; 0x10000];
    let b = build::hardware::Vendor { vendor_guid: Guid::from_values(0, 0, 0, 0, 0), vendor_defined_data: &data };
    assert_eq!(b.size_in_bytes(), Err(BuildError::NodeTooBig));
    let data = vec![0u8; 0xffff - 20];
    let b = build::hardware::Vendor { vendor_guid: Guid::from_values(0, 0, 0, 0, 0), vendor_defined_data: &data };
    assert_eq!(b.size_in_bytes(), Ok(0xffff));
}

#[test]
fn test_node_conversion_errors() {
    // A PCI node must be 6 bytes long.
    let bytes = [0x01, 0x01, 7, 0, 3, 7, 0];
    let node = DevicePathNode::from_bytes(&bytes).unwrap();
    assert_eq!(hardware::Pci::try_from(&node).unwrap_err(), NodeConversionError::InvalidLength);
    assert_eq!(node.as_enum().unwrap_err(), NodeConversionError::InvalidLength);
    // Type 0x06 is not a known node type.
    let bytes = [0x06, 0x01, 4, 0];
    let node = DevicePathNode::from_bytes(&bytes).unwrap();
    assert_eq!(node.as_enum().unwrap_err(), NodeConversionError::UnsupportedType);
    // A file path is a whole number of UCS-2 units.
    let bytes = [0x04, 0x04, 5, 0, 0];
    let node = DevicePathNode::from_bytes(&bytes).unwrap();
    assert_eq!(node.as_enum().unwrap_err(), NodeConversionError::InvalidLength);
}

#[test]
fn test_node_from_bytes_bounds() {
    assert!(DevicePathNode::from_bytes(&[1, 1, 6]).is_none());
    assert!(DevicePathNode::from_bytes(&[1, 1, 3, 0]).is_none());
    assert!(DevicePathNode::from_bytes(&[1, 1, 6, 0, 0]).is_none());
    // Extra bytes after the node are not part of it.
    let node = DevicePathNode::from_bytes(&[1, 1, 6, 0, 1, 2, 9, 9]).unwrap();
    assert_eq!(node.as_bytes(), &[1, 1, 6, 0, 1, 2]);
}

#[test]
fn test_device_path_iteration() {
    let mut bytes = node_bytes(&build::acpi::Acpi { hid: 0x0a0341d0, uid: 0 });
    bytes.extend(node_bytes(&build::hardware::Pci { function: 0, device: 2 }));
    bytes.extend(end_entire());
    let path = DevicePath::from_bytes(&bytes).unwrap();
    assert_eq!(path.device_type(), DeviceType::ACPI());
    assert_eq!(path.sub_type(), DeviceSubType::ACPI());
    assert_eq!(path.length(), 12);
    assert!(!path.is_end_entire());

    let mut iter = path.iter();
    let first = iter.next().unwrap();
    assert_eq!(first.length(), 12);
    let second = iter.next().unwrap();
    assert_eq!(second.device_type(), DeviceType::HARDWARE());
    assert_eq!(second.node().as_bytes(), &[1, 1, 6, 0, 0, 2]);
    assert!(iter.next().is_none());
    assert!(iter.next().is_none());

    // Paths compare by their first node.
    let other = DevicePath::from_bytes(&bytes[..]).unwrap();
    assert!(path == other);
    assert!(path != second);

    // A path must end with an end-entire node.
    assert!(DevicePath::from_bytes(&bytes[..18]).is_none());
    assert!(DevicePath::from_bytes(&end_entire()).unwrap().is_end_entire());
}
