//! All the node types of a device path, as one enum.
use crate::proto::device_path::{
    acpi, bios_boot_spec, end, hardware, media, messaging, DevicePathNode, NodeConversionError,
};
use vstd::prelude::*;
use vstd::std_specs::convert::TryFromSpecImpl;

verus! {

/// Enum of all the different device path node types. Return type of
/// [`DevicePathNode::as_enum`].
#[derive(Debug)]
pub enum DevicePathNodeEnum {
    /// Node that terminates a [`DevicePathInstance`].
    ///
    /// [`DevicePathInstance`]: crate::proto::device_path::DevicePathInstance
    EndInstance(end::Instance),
    /// Node that terminates an entire [`DevicePath`].
    ///
    /// [`DevicePath`]: crate::proto::device_path::DevicePath
    EndEntire(end::Entire),
    /// PCI hardware device path node.
    HardwarePci(hardware::Pci),
    /// PCCARD hardware device path node.
    HardwarePccard(hardware::Pccard),
    /// Memory mapped hardware device path node.
    HardwareMemoryMapped(hardware::MemoryMapped),
    /// Vendor-defined hardware device path node.
    HardwareVendor(hardware::Vendor),
    /// Controller hardware device path node.
    HardwareController(hardware::Controller),
    /// Baseboard Management Controller (BMC) host interface hardware
    /// device path node.
    HardwareBmc(hardware::Bmc),
    /// ACPI device path node.
    AcpiAcpi(acpi::Acpi),
    /// Expanded ACPI device path node.
    AcpiExpanded(acpi::Expanded),
    /// ADR ACPI device path node.
    AcpiAdr(acpi::Adr),
    /// NVDIMM ACPI device path node.
    AcpiNvdimm(acpi::Nvdimm),
    /// ATAPI messaging device path node.
    MessagingAtapi(messaging::Atapi),
    /// SCSI messaging device path node.
    MessagingScsi(messaging::Scsi),
    /// Fibre channel messaging device path node.
    MessagingFibreChannel(messaging::FibreChannel),
    /// Fibre channel extended messaging device path node.
    MessagingFibreChannelEx(messaging::FibreChannelEx),
    /// 1394 messaging device path node.
    MessagingIeee1394(messaging::Ieee1394),
    /// USB messaging device path node.
    MessagingUsb(messaging::Usb),
    /// SATA messaging device path node.
    MessagingSata(messaging::Sata),
    /// USB World Wide ID (WWID) messaging device path node.
    MessagingUsbWwid(messaging::UsbWwid),
    /// Device logical unit messaging device path node.
    MessagingDeviceLogicalUnit(messaging::DeviceLogicalUnit),
    /// USB class messaging device path node.
    MessagingUsbClass(messaging::UsbClass),
    /// I2O messaging device path node.
    MessagingI2o(messaging::I2o),
    /// MAC address messaging device path node.
    MessagingMacAddress(messaging::MacAddress),
    /// IPv4 messaging device path node.
    MessagingIpv4(messaging::Ipv4),
    /// IPv6 messaging device path node.
    MessagingIpv6(messaging::Ipv6),
    /// VLAN messaging device path node.
    MessagingVlan(messaging::Vlan),
    /// InfiniBand messaging device path node.
    MessagingInfiniband(messaging::Infiniband),
    /// UART messaging device path node.
    MessagingUart(messaging::Uart),
    /// Vendor-defined messaging device path node.
    MessagingVendor(messaging::Vendor),
    /// Serial Attached SCSI (SAS) extended messaging device path node.
    MessagingSasEx(messaging::SasEx),
    /// iSCSI messaging device path node.
    MessagingIscsi(messaging::Iscsi),
    /// NVM Express namespace messaging device path node.
    MessagingNvmeNamespace(messaging::NvmeNamespace),
    /// Uniform Resource Identifier (URI) messaging device path node.
    MessagingUri(messaging::Uri),
    /// Universal Flash Storage (UFS) messaging device path node.
    MessagingUfs(messaging::Ufs),
    /// Secure Digital (SD) messaging device path node.
    MessagingSd(messaging::Sd),
    /// Bluetooth messaging device path node.
    MessagingBluetooth(messaging::Bluetooth),
    /// Wi-Fi messaging device path node.
    MessagingWifi(messaging::Wifi),
    /// Embedded Multi-Media Card (eMMC) messaging device path node.
    MessagingEmmc(messaging::Emmc),
    /// BluetoothLE messaging device path node.
    MessagingBluetoothLe(messaging::BluetoothLe),
    /// DNS messaging device path node.
    MessagingDns(messaging::Dns),
    /// NVDIMM namespace messaging device path node.
    MessagingNvdimmNamespace(messaging::NvdimmNamespace),
    /// REST service messaging device path node.
    MessagingRestService(messaging::RestService),
    /// NVME over Fabric (NVMe-oF) namespace messaging device path node.
    MessagingNvmeOfNamespace(messaging::NvmeOfNamespace),
    /// Hard drive media device path node.
    MediaHardDrive(media::HardDrive),
    /// CD-ROM media device path node.
    MediaCdRom(media::CdRom),
    /// Vendor-defined media device path node.
    MediaVendor(media::Vendor),
    /// File path media device path node.
    MediaFilePath(media::FilePath),
    /// Media protocol media device path node.
    MediaProtocol(media::Protocol),
    /// PIWG firmware file media device path node.
    MediaPiwgFirmwareFile(media::PiwgFirmwareFile),
    /// PIWG firmware volume media device path node.
    MediaPiwgFirmwareVolume(media::PiwgFirmwareVolume),
    /// Relative offset range media device path node.
    MediaRelativeOffsetRange(media::RelativeOffsetRange),
    /// RAM disk media device path node.
    MediaRamDisk(media::RamDisk),
    /// BIOS Boot Specification device path node.
    BiosBootSpecBootSpecification(bios_boot_spec::BootSpecification),
}

/// The node type and sub-type pairs that [`DevicePathNodeEnum`] knows.
pub open spec fn is_known_node_type(device_type: u8, sub_type: u8) -> bool {
    match device_type {
        0x7f => sub_type == 0x01 || sub_type == 0xff,
        0x01 => sub_type == 0x01 || sub_type == 0x02 || sub_type == 0x03 || sub_type == 0x04 || sub_type == 0x05 || sub_type == 0x06,
        0x02 => sub_type == 0x01 || sub_type == 0x02 || sub_type == 0x03 || sub_type == 0x04,
        0x03 => sub_type == 0x01 || sub_type == 0x02 || sub_type == 0x03 || sub_type == 0x15 || sub_type == 0x04 || sub_type == 0x05 || sub_type == 0x12 || sub_type == 0x10 || sub_type == 0x11 || sub_type == 0x0f || sub_type == 0x06 || sub_type == 0x0b || sub_type == 0x0c || sub_type == 0x0d || sub_type == 0x14 || sub_type == 0x09 || sub_type == 0x0e || sub_type == 0x0a || sub_type == 0x16 || sub_type == 0x13 || sub_type == 0x17 || sub_type == 0x18 || sub_type == 0x19 || sub_type == 0x1a || sub_type == 0x1b || sub_type == 0x1c || sub_type == 0x1d || sub_type == 0x1e || sub_type == 0x1f || sub_type == 0x20 || sub_type == 0x21 || sub_type == 0x22,
        0x04 => sub_type == 0x01 || sub_type == 0x02 || sub_type == 0x03 || sub_type == 0x04 || sub_type == 0x05 || sub_type == 0x06 || sub_type == 0x07 || sub_type == 0x08 || sub_type == 0x09,
        0x05 => sub_type == 0x01,
        _ => false,
    }
}

/// The node's size is one that the node type its header names can have.
pub open spec fn node_size_ok(s: Seq<u8>) -> bool {
    match s[0] {
        0x7f => match s[1] {
            0x01 => end::instance_size_ok(s),
            0xff => end::entire_size_ok(s),
            _ => false,
        },
        0x01 => match s[1] {
            0x01 => hardware::pci_size_ok(s),
            0x02 => hardware::pccard_size_ok(s),
            0x03 => hardware::memory_mapped_size_ok(s),
            0x04 => hardware::vendor_size_ok(s),
            0x05 => hardware::controller_size_ok(s),
            0x06 => hardware::bmc_size_ok(s),
            _ => false,
        },
        0x02 => match s[1] {
            0x01 => acpi::acpi_size_ok(s),
            0x02 => acpi::expanded_size_ok(s),
            0x03 => acpi::adr_size_ok(s),
            0x04 => acpi::nvdimm_size_ok(s),
            _ => false,
        },
        0x03 => match s[1] {
            0x01 => messaging::atapi_size_ok(s),
            0x02 => messaging::scsi_size_ok(s),
            0x03 => messaging::fibre_channel_size_ok(s),
            0x15 => messaging::fibre_channel_ex_size_ok(s),
            0x04 => messaging::ieee1394_size_ok(s),
            0x05 => messaging::usb_size_ok(s),
            0x12 => messaging::sata_size_ok(s),
            0x10 => messaging::usb_wwid_size_ok(s),
            0x11 => messaging::device_logical_unit_size_ok(s),
            0x0f => messaging::usb_class_size_ok(s),
            0x06 => messaging::i2o_size_ok(s),
            0x0b => messaging::mac_address_size_ok(s),
            0x0c => messaging::ipv4_size_ok(s),
            0x0d => messaging::ipv6_size_ok(s),
            0x14 => messaging::vlan_size_ok(s),
            0x09 => messaging::infiniband_size_ok(s),
            0x0e => messaging::uart_size_ok(s),
            0x0a => messaging::vendor_size_ok(s),
            0x16 => messaging::sas_ex_size_ok(s),
            0x13 => messaging::iscsi_size_ok(s),
            0x17 => messaging::nvme_namespace_size_ok(s),
            0x18 => messaging::uri_size_ok(s),
            0x19 => messaging::ufs_size_ok(s),
            0x1a => messaging::sd_size_ok(s),
            0x1b => messaging::bluetooth_size_ok(s),
            0x1c => messaging::wifi_size_ok(s),
            0x1d => messaging::emmc_size_ok(s),
            0x1e => messaging::bluetooth_le_size_ok(s),
            0x1f => messaging::dns_size_ok(s),
            0x20 => messaging::nvdimm_namespace_size_ok(s),
            0x21 => messaging::rest_service_size_ok(s),
            0x22 => messaging::nvme_of_namespace_size_ok(s),
            _ => false,
        },
        0x04 => match s[1] {
            0x01 => media::hard_drive_size_ok(s),
            0x02 => media::cd_rom_size_ok(s),
            0x03 => media::vendor_size_ok(s),
            0x04 => media::file_path_size_ok(s),
            0x05 => media::protocol_size_ok(s),
            0x06 => media::piwg_firmware_file_size_ok(s),
            0x07 => media::piwg_firmware_volume_size_ok(s),
            0x08 => media::relative_offset_range_size_ok(s),
            0x09 => media::ram_disk_size_ok(s),
            _ => false,
        },
        0x05 => match s[1] {
            0x01 => bios_boot_spec::boot_specification_size_ok(s),
            _ => false,
        },
        _ => false,
    }
}

impl DevicePathNodeEnum {
    /// The node type and sub-type that the variant stands for.
    pub open spec fn spec_full_type(self) -> (u8, u8) {
        match self {
            DevicePathNodeEnum::EndInstance(_) => (0x7f, 0x01),
            DevicePathNodeEnum::EndEntire(_) => (0x7f, 0xff),
            DevicePathNodeEnum::HardwarePci(_) => (0x01, 0x01),
            DevicePathNodeEnum::HardwarePccard(_) => (0x01, 0x02),
            DevicePathNodeEnum::HardwareMemoryMapped(_) => (0x01, 0x03),
            DevicePathNodeEnum::HardwareVendor(_) => (0x01, 0x04),
            DevicePathNodeEnum::HardwareController(_) => (0x01, 0x05),
            DevicePathNodeEnum::HardwareBmc(_) => (0x01, 0x06),
            DevicePathNodeEnum::AcpiAcpi(_) => (0x02, 0x01),
            DevicePathNodeEnum::AcpiExpanded(_) => (0x02, 0x02),
            DevicePathNodeEnum::AcpiAdr(_) => (0x02, 0x03),
            DevicePathNodeEnum::AcpiNvdimm(_) => (0x02, 0x04),
            DevicePathNodeEnum::MessagingAtapi(_) => (0x03, 0x01),
            DevicePathNodeEnum::MessagingScsi(_) => (0x03, 0x02),
            DevicePathNodeEnum::MessagingFibreChannel(_) => (0x03, 0x03),
            DevicePathNodeEnum::MessagingFibreChannelEx(_) => (0x03, 0x15),
            DevicePathNodeEnum::MessagingIeee1394(_) => (0x03, 0x04),
            DevicePathNodeEnum::MessagingUsb(_) => (0x03, 0x05),
            DevicePathNodeEnum::MessagingSata(_) => (0x03, 0x12),
            DevicePathNodeEnum::MessagingUsbWwid(_) => (0x03, 0x10),
            DevicePathNodeEnum::MessagingDeviceLogicalUnit(_) => (0x03, 0x11),
            DevicePathNodeEnum::MessagingUsbClass(_) => (0x03, 0x0f),
            DevicePathNodeEnum::MessagingI2o(_) => (0x03, 0x06),
            DevicePathNodeEnum::MessagingMacAddress(_) => (0x03, 0x0b),
            DevicePathNodeEnum::MessagingIpv4(_) => (0x03, 0x0c),
            DevicePathNodeEnum::MessagingIpv6(_) => (0x03, 0x0d),
            DevicePathNodeEnum::MessagingVlan(_) => (0x03, 0x14),
            DevicePathNodeEnum::MessagingInfiniband(_) => (0x03, 0x09),
            DevicePathNodeEnum::MessagingUart(_) => (0x03, 0x0e),
            DevicePathNodeEnum::MessagingVendor(_) => (0x03, 0x0a),
            DevicePathNodeEnum::MessagingSasEx(_) => (0x03, 0x16),
            DevicePathNodeEnum::MessagingIscsi(_) => (0x03, 0x13),
            DevicePathNodeEnum::MessagingNvmeNamespace(_) => (0x03, 0x17),
            DevicePathNodeEnum::MessagingUri(_) => (0x03, 0x18),
            DevicePathNodeEnum::MessagingUfs(_) => (0x03, 0x19),
            DevicePathNodeEnum::MessagingSd(_) => (0x03, 0x1a),
            DevicePathNodeEnum::MessagingBluetooth(_) => (0x03, 0x1b),
            DevicePathNodeEnum::MessagingWifi(_) => (0x03, 0x1c),
            DevicePathNodeEnum::MessagingEmmc(_) => (0x03, 0x1d),
            DevicePathNodeEnum::MessagingBluetoothLe(_) => (0x03, 0x1e),
            DevicePathNodeEnum::MessagingDns(_) => (0x03, 0x1f),
            DevicePathNodeEnum::MessagingNvdimmNamespace(_) => (0x03, 0x20),
            DevicePathNodeEnum::MessagingRestService(_) => (0x03, 0x21),
            DevicePathNodeEnum::MessagingNvmeOfNamespace(_) => (0x03, 0x22),
            DevicePathNodeEnum::MediaHardDrive(_) => (0x04, 0x01),
            DevicePathNodeEnum::MediaCdRom(_) => (0x04, 0x02),
            DevicePathNodeEnum::MediaVendor(_) => (0x04, 0x03),
            DevicePathNodeEnum::MediaFilePath(_) => (0x04, 0x04),
            DevicePathNodeEnum::MediaProtocol(_) => (0x04, 0x05),
            DevicePathNodeEnum::MediaPiwgFirmwareFile(_) => (0x04, 0x06),
            DevicePathNodeEnum::MediaPiwgFirmwareVolume(_) => (0x04, 0x07),
            DevicePathNodeEnum::MediaRelativeOffsetRange(_) => (0x04, 0x08),
            DevicePathNodeEnum::MediaRamDisk(_) => (0x04, 0x09),
            DevicePathNodeEnum::BiosBootSpecBootSpecification(_) => (0x05, 0x01),
        }
    }

    /// The bytes of the node.
    pub open spec fn spec_bytes(self) -> Seq<u8> {
        match self {
            DevicePathNodeEnum::EndInstance(n) => n@,
            DevicePathNodeEnum::EndEntire(n) => n@,
            DevicePathNodeEnum::HardwarePci(n) => n@,
            DevicePathNodeEnum::HardwarePccard(n) => n@,
            DevicePathNodeEnum::HardwareMemoryMapped(n) => n@,
            DevicePathNodeEnum::HardwareVendor(n) => n@,
            DevicePathNodeEnum::HardwareController(n) => n@,
            DevicePathNodeEnum::HardwareBmc(n) => n@,
            DevicePathNodeEnum::AcpiAcpi(n) => n@,
            DevicePathNodeEnum::AcpiExpanded(n) => n@,
            DevicePathNodeEnum::AcpiAdr(n) => n@,
            DevicePathNodeEnum::AcpiNvdimm(n) => n@,
            DevicePathNodeEnum::MessagingAtapi(n) => n@,
            DevicePathNodeEnum::MessagingScsi(n) => n@,
            DevicePathNodeEnum::MessagingFibreChannel(n) => n@,
            DevicePathNodeEnum::MessagingFibreChannelEx(n) => n@,
            DevicePathNodeEnum::MessagingIeee1394(n) => n@,
            DevicePathNodeEnum::MessagingUsb(n) => n@,
            DevicePathNodeEnum::MessagingSata(n) => n@,
            DevicePathNodeEnum::MessagingUsbWwid(n) => n@,
            DevicePathNodeEnum::MessagingDeviceLogicalUnit(n) => n@,
            DevicePathNodeEnum::MessagingUsbClass(n) => n@,
            DevicePathNodeEnum::MessagingI2o(n) => n@,
            DevicePathNodeEnum::MessagingMacAddress(n) => n@,
            DevicePathNodeEnum::MessagingIpv4(n) => n@,
            DevicePathNodeEnum::MessagingIpv6(n) => n@,
            DevicePathNodeEnum::MessagingVlan(n) => n@,
            DevicePathNodeEnum::MessagingInfiniband(n) => n@,
            DevicePathNodeEnum::MessagingUart(n) => n@,
            DevicePathNodeEnum::MessagingVendor(n) => n@,
            DevicePathNodeEnum::MessagingSasEx(n) => n@,
            DevicePathNodeEnum::MessagingIscsi(n) => n@,
            DevicePathNodeEnum::MessagingNvmeNamespace(n) => n@,
            DevicePathNodeEnum::MessagingUri(n) => n@,
            DevicePathNodeEnum::MessagingUfs(n) => n@,
            DevicePathNodeEnum::MessagingSd(n) => n@,
            DevicePathNodeEnum::MessagingBluetooth(n) => n@,
            DevicePathNodeEnum::MessagingWifi(n) => n@,
            DevicePathNodeEnum::MessagingEmmc(n) => n@,
            DevicePathNodeEnum::MessagingBluetoothLe(n) => n@,
            DevicePathNodeEnum::MessagingDns(n) => n@,
            DevicePathNodeEnum::MessagingNvdimmNamespace(n) => n@,
            DevicePathNodeEnum::MessagingRestService(n) => n@,
            DevicePathNodeEnum::MessagingNvmeOfNamespace(n) => n@,
            DevicePathNodeEnum::MediaHardDrive(n) => n@,
            DevicePathNodeEnum::MediaCdRom(n) => n@,
            DevicePathNodeEnum::MediaVendor(n) => n@,
            DevicePathNodeEnum::MediaFilePath(n) => n@,
            DevicePathNodeEnum::MediaProtocol(n) => n@,
            DevicePathNodeEnum::MediaPiwgFirmwareFile(n) => n@,
            DevicePathNodeEnum::MediaPiwgFirmwareVolume(n) => n@,
            DevicePathNodeEnum::MediaRelativeOffsetRange(n) => n@,
            DevicePathNodeEnum::MediaRamDisk(n) => n@,
            DevicePathNodeEnum::BiosBootSpecBootSpecification(n) => n@,
        }
    }
}

/// `r` is the result of converting the node `s` to [`DevicePathNodeEnum`]:
/// an unknown type or sub-type is unsupported, a size that the node type
/// cannot have is an invalid length, and otherwise the variant of the node's
/// type holds the node.
pub open spec fn node_conversion(s: Seq<u8>, r: Result<DevicePathNodeEnum, NodeConversionError>) -> bool {
    if !is_known_node_type(s[0], s[1]) {
        r == Err::<DevicePathNodeEnum, NodeConversionError>(NodeConversionError::UnsupportedType)
    } else if !node_size_ok(s) {
        r == Err::<DevicePathNodeEnum, NodeConversionError>(NodeConversionError::InvalidLength)
    } else {
        r matches Ok(e) && e.spec_full_type() == (s[0], s[1]) && e.spec_bytes() == s
    }
}

/// Converts a node of type 0x7f.
fn convert_end(node: &DevicePathNode) -> (r: Result<DevicePathNodeEnum, NodeConversionError>)
    requires
        node@[0] == 0x7f,
    ensures
        node_conversion(node@, r),
{
    let st = node.sub_type().0;
    if st == 0x01 {
        match end::Instance::try_from(node) {
            Ok(n) => Ok(DevicePathNodeEnum::EndInstance(n)),
            Err(e) => Err(e),
        }
    } else if st == 0xff {
        match end::Entire::try_from(node) {
            Ok(n) => Ok(DevicePathNodeEnum::EndEntire(n)),
            Err(e) => Err(e),
        }
    } else {
        Err(NodeConversionError::UnsupportedType)
    }
}

/// Converts a node of type 0x01.
fn convert_hardware(node: &DevicePathNode) -> (r: Result<DevicePathNodeEnum, NodeConversionError>)
    requires
        node@[0] == 0x01,
    ensures
        node_conversion(node@, r),
{
    let st = node.sub_type().0;
    if st == 0x01 {
        match hardware::Pci::try_from(node) {
            Ok(n) => Ok(DevicePathNodeEnum::HardwarePci(n)),
            Err(e) => Err(e),
        }
    } else if st == 0x02 {
        match hardware::Pccard::try_from(node) {
            Ok(n) => Ok(DevicePathNodeEnum::HardwarePccard(n)),
            Err(e) => Err(e),
        }
    } else if st == 0x03 {
        match hardware::MemoryMapped::try_from(node) {
            Ok(n) => Ok(DevicePathNodeEnum::HardwareMemoryMapped(n)),
            Err(e) => Err(e),
        }
    } else if st == 0x04 {
        match hardware::Vendor::try_from(node) {
            Ok(n) => Ok(DevicePathNodeEnum::HardwareVendor(n)),
            Err(e) => Err(e),
        }
    } else if st == 0x05 {
        match hardware::Controller::try_from(node) {
            Ok(n) => Ok(DevicePathNodeEnum::HardwareController(n)),
            Err(e) => Err(e),
        }
    } else if st == 0x06 {
        match hardware::Bmc::try_from(node) {
            Ok(n) => Ok(DevicePathNodeEnum::HardwareBmc(n)),
            Err(e) => Err(e),
        }
    } else {
        Err(NodeConversionError::UnsupportedType)
    }
}

/// Converts a node of type 0x02.
fn convert_acpi(node: &DevicePathNode) -> (r: Result<DevicePathNodeEnum, NodeConversionError>)
    requires
        node@[0] == 0x02,
    ensures
        node_conversion(node@, r),
{
    let st = node.sub_type().0;
    if st == 0x01 {
        match acpi::Acpi::try_from(node) {
            Ok(n) => Ok(DevicePathNodeEnum::AcpiAcpi(n)),
            Err(e) => Err(e),
        }
    } else if st == 0x02 {
        match acpi::Expanded::try_from(node) {
            Ok(n) => Ok(DevicePathNodeEnum::AcpiExpanded(n)),
            Err(e) => Err(e),
        }
    } else if st == 0x03 {
        match acpi::Adr::try_from(node) {
            Ok(n) => Ok(DevicePathNodeEnum::AcpiAdr(n)),
            Err(e) => Err(e),
        }
    } else if st == 0x04 {
        match acpi::Nvdimm::try_from(node) {
            Ok(n) => Ok(DevicePathNodeEnum::AcpiNvdimm(n)),
            Err(e) => Err(e),
        }
    } else {
        Err(NodeConversionError::UnsupportedType)
    }
}

/// Converts a node of type 0x03.
fn convert_messaging(node: &DevicePathNode) -> (r: Result<DevicePathNodeEnum, NodeConversionError>)
    requires
        node@[0] == 0x03,
    ensures
        node_conversion(node@, r),
{
    let st = node.sub_type().0;
    if st == 0x01 {
        match messaging::Atapi::try_from(node) {
            Ok(n) => Ok(DevicePathNodeEnum::MessagingAtapi(n)),
            Err(e) => Err(e),
        }
    } else if st == 0x02 {
        match messaging::Scsi::try_from(node) {
            Ok(n) => Ok(DevicePathNodeEnum::MessagingScsi(n)),
            Err(e) => Err(e),
        }
    } else if st == 0x03 {
        match messaging::FibreChannel::try_from(node) {
            Ok(n) => Ok(DevicePathNodeEnum::MessagingFibreChannel(n)),
            Err(e) => Err(e),
        }
    } else if st == 0x15 {
        match messaging::FibreChannelEx::try_from(node) {
            Ok(n) => Ok(DevicePathNodeEnum::MessagingFibreChannelEx(n)),
            Err(e) => Err(e),
        }
    } else if st == 0x04 {
        match messaging::Ieee1394::try_from(node) {
            Ok(n) => Ok(DevicePathNodeEnum::MessagingIeee1394(n)),
            Err(e) => Err(e),
        }
    } else if st == 0x05 {
        match messaging::Usb::try_from(node) {
            Ok(n) => Ok(DevicePathNodeEnum::MessagingUsb(n)),
            Err(e) => Err(e),
        }
    } else if st == 0x12 {
        match messaging::Sata::try_from(node) {
            Ok(n) => Ok(DevicePathNodeEnum::MessagingSata(n)),
            Err(e) => Err(e),
        }
    } else if st == 0x10 {
        match messaging::UsbWwid::try_from(node) {
            Ok(n) => Ok(DevicePathNodeEnum::MessagingUsbWwid(n)),
            Err(e) => Err(e),
        }
    } else if st == 0x11 {
        match messaging::DeviceLogicalUnit::try_from(node) {
            Ok(n) => Ok(DevicePathNodeEnum::MessagingDeviceLogicalUnit(n)),
            Err(e) => Err(e),
        }
    } else if st == 0x0f {
        match messaging::UsbClass::try_from(node) {
            Ok(n) => Ok(DevicePathNodeEnum::MessagingUsbClass(n)),
            Err(e) => Err(e),
        }
    } else if st == 0x06 {
        match messaging::I2o::try_from(node) {
            Ok(n) => Ok(DevicePathNodeEnum::MessagingI2o(n)),
            Err(e) => Err(e),
        }
    } else if st == 0x0b {
        match messaging::MacAddress::try_from(node) {
            Ok(n) => Ok(DevicePathNodeEnum::MessagingMacAddress(n)),
            Err(e) => Err(e),
        }
    } else if st == 0x0c {
        match messaging::Ipv4::try_from(node) {
            Ok(n) => Ok(DevicePathNodeEnum::MessagingIpv4(n)),
            Err(e) => Err(e),
        }
    } else if st == 0x0d {
        match messaging::Ipv6::try_from(node) {
            Ok(n) => Ok(DevicePathNodeEnum::MessagingIpv6(n)),
            Err(e) => Err(e),
        }
    } else if st == 0x14 {
        match messaging::Vlan::try_from(node) {
            Ok(n) => Ok(DevicePathNodeEnum::MessagingVlan(n)),
            Err(e) => Err(e),
        }
    } else if st == 0x09 {
        match messaging::Infiniband::try_from(node) {
            Ok(n) => Ok(DevicePathNodeEnum::MessagingInfiniband(n)),
            Err(e) => Err(e),
        }
    } else if st == 0x0e {
        match messaging::Uart::try_from(node) {
            Ok(n) => Ok(DevicePathNodeEnum::MessagingUart(n)),
            Err(e) => Err(e),
        }
    } else if st == 0x0a {
        match messaging::Vendor::try_from(node) {
            Ok(n) => Ok(DevicePathNodeEnum::MessagingVendor(n)),
            Err(e) => Err(e),
        }
    } else if st == 0x16 {
        match messaging::SasEx::try_from(node) {
            Ok(n) => Ok(DevicePathNodeEnum::MessagingSasEx(n)),
            Err(e) => Err(e),
        }
    } else if st == 0x13 {
        match messaging::Iscsi::try_from(node) {
            Ok(n) => Ok(DevicePathNodeEnum::MessagingIscsi(n)),
            Err(e) => Err(e),
        }
    } else if st == 0x17 {
        match messaging::NvmeNamespace::try_from(node) {
            Ok(n) => Ok(DevicePathNodeEnum::MessagingNvmeNamespace(n)),
            Err(e) => Err(e),
        }
    } else if st == 0x18 {
        match messaging::Uri::try_from(node) {
            Ok(n) => Ok(DevicePathNodeEnum::MessagingUri(n)),
            Err(e) => Err(e),
        }
    } else if st == 0x19 {
        match messaging::Ufs::try_from(node) {
            Ok(n) => Ok(DevicePathNodeEnum::MessagingUfs(n)),
            Err(e) => Err(e),
        }
    } else if st == 0x1a {
        match messaging::Sd::try_from(node) {
            Ok(n) => Ok(DevicePathNodeEnum::MessagingSd(n)),
            Err(e) => Err(e),
        }
    } else if st == 0x1b {
        match messaging::Bluetooth::try_from(node) {
            Ok(n) => Ok(DevicePathNodeEnum::MessagingBluetooth(n)),
            Err(e) => Err(e),
        }
    } else if st == 0x1c {
        match messaging::Wifi::try_from(node) {
            Ok(n) => Ok(DevicePathNodeEnum::MessagingWifi(n)),
            Err(e) => Err(e),
        }
    } else if st == 0x1d {
        match messaging::Emmc::try_from(node) {
            Ok(n) => Ok(DevicePathNodeEnum::MessagingEmmc(n)),
            Err(e) => Err(e),
        }
    } else if st == 0x1e {
        match messaging::BluetoothLe::try_from(node) {
            Ok(n) => Ok(DevicePathNodeEnum::MessagingBluetoothLe(n)),
            Err(e) => Err(e),
        }
    } else if st == 0x1f {
        match messaging::Dns::try_from(node) {
            Ok(n) => Ok(DevicePathNodeEnum::MessagingDns(n)),
            Err(e) => Err(e),
        }
    } else if st == 0x20 {
        match messaging::NvdimmNamespace::try_from(node) {
            Ok(n) => Ok(DevicePathNodeEnum::MessagingNvdimmNamespace(n)),
            Err(e) => Err(e),
        }
    } else if st == 0x21 {
        match messaging::RestService::try_from(node) {
            Ok(n) => Ok(DevicePathNodeEnum::MessagingRestService(n)),
            Err(e) => Err(e),
        }
    } else if st == 0x22 {
        match messaging::NvmeOfNamespace::try_from(node) {
            Ok(n) => Ok(DevicePathNodeEnum::MessagingNvmeOfNamespace(n)),
            Err(e) => Err(e),
        }
    } else {
        Err(NodeConversionError::UnsupportedType)
    }
}

/// Converts a node of type 0x04.
fn convert_media(node: &DevicePathNode) -> (r: Result<DevicePathNodeEnum, NodeConversionError>)
    requires
        node@[0] == 0x04,
    ensures
        node_conversion(node@, r),
{
    let st = node.sub_type().0;
    if st == 0x01 {
        match media::HardDrive::try_from(node) {
            Ok(n) => Ok(DevicePathNodeEnum::MediaHardDrive(n)),
            Err(e) => Err(e),
        }
    } else if st == 0x02 {
        match media::CdRom::try_from(node) {
            Ok(n) => Ok(DevicePathNodeEnum::MediaCdRom(n)),
            Err(e) => Err(e),
        }
    } else if st == 0x03 {
        match media::Vendor::try_from(node) {
            Ok(n) => Ok(DevicePathNodeEnum::MediaVendor(n)),
            Err(e) => Err(e),
        }
    } else if st == 0x04 {
        match media::FilePath::try_from(node) {
            Ok(n) => Ok(DevicePathNodeEnum::MediaFilePath(n)),
            Err(e) => Err(e),
        }
    } else if st == 0x05 {
        match media::Protocol::try_from(node) {
            Ok(n) => Ok(DevicePathNodeEnum::MediaProtocol(n)),
            Err(e) => Err(e),
        }
    } else if st == 0x06 {
        match media::PiwgFirmwareFile::try_from(node) {
            Ok(n) => Ok(DevicePathNodeEnum::MediaPiwgFirmwareFile(n)),
            Err(e) => Err(e),
        }
    } else if st == 0x07 {
        match media::PiwgFirmwareVolume::try_from(node) {
            Ok(n) => Ok(DevicePathNodeEnum::MediaPiwgFirmwareVolume(n)),
            Err(e) => Err(e),
        }
    } else if st == 0x08 {
        match media::RelativeOffsetRange::try_from(node) {
            Ok(n) => Ok(DevicePathNodeEnum::MediaRelativeOffsetRange(n)),
            Err(e) => Err(e),
        }
    } else if st == 0x09 {
        match media::RamDisk::try_from(node) {
            Ok(n) => Ok(DevicePathNodeEnum::MediaRamDisk(n)),
            Err(e) => Err(e),
        }
    } else {
        Err(NodeConversionError::UnsupportedType)
    }
}

/// Converts a node of type 0x05.
fn convert_bios_boot_spec(node: &DevicePathNode) -> (r: Result<DevicePathNodeEnum, NodeConversionError>)
    requires
        node@[0] == 0x05,
    ensures
        node_conversion(node@, r),
{
    let st = node.sub_type().0;
    if st == 0x01 {
        match bios_boot_spec::BootSpecification::try_from(node) {
            Ok(n) => Ok(DevicePathNodeEnum::BiosBootSpecBootSpecification(n)),
            Err(e) => Err(e),
        }
    } else {
        Err(NodeConversionError::UnsupportedType)
    }
}

impl TryFrom<&DevicePathNode> for DevicePathNodeEnum {
    type Error = NodeConversionError;

    fn try_from(node: &DevicePathNode) -> (r: Result<Self, Self::Error>)
        ensures
            node_conversion(node@, r),
    {
        let t = node.device_type().0;
        if t == 0x7f {
            convert_end(node)
        } else if t == 0x01 {
            convert_hardware(node)
        } else if t == 0x02 {
            convert_acpi(node)
        } else if t == 0x03 {
            convert_messaging(node)
        } else if t == 0x04 {
            convert_media(node)
        } else if t == 0x05 {
            convert_bios_boot_spec(node)
        } else {
            Err(NodeConversionError::UnsupportedType)
        }
    }
}

impl TryFromSpecImpl<&DevicePathNode> for DevicePathNodeEnum {
    open spec fn obeys_try_from_spec() -> bool {
        false
    }

    closed spec fn try_from_spec(node: &DevicePathNode) -> Result<Self, Self::Error> {
        arbitrary()
    }
}

} // verus!
