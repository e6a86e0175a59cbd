//! Sub-type identifiers of device path nodes.
use crate::proto::device_path::DeviceSubType;
use vstd::prelude::*;

verus! {

#[allow(non_snake_case)]
impl DeviceSubType {
    /// PCI Device Path.
    pub fn HARDWARE_PCI() -> (r: DeviceSubType)
        ensures
            r.0 == 0x01,
    {
        DeviceSubType(0x01)
    }

    /// PCCARD Device Path.
    pub fn HARDWARE_PCCARD() -> (r: DeviceSubType)
        ensures
            r.0 == 0x02,
    {
        DeviceSubType(0x02)
    }

    /// Memory-mapped Device Path.
    pub fn HARDWARE_MEMORY_MAPPED() -> (r: DeviceSubType)
        ensures
            r.0 == 0x03,
    {
        DeviceSubType(0x03)
    }

    /// Vendor-Defined Device Path.
    pub fn HARDWARE_VENDOR() -> (r: DeviceSubType)
        ensures
            r.0 == 0x04,
    {
        DeviceSubType(0x04)
    }

    /// Controller Device Path.
    pub fn HARDWARE_CONTROLLER() -> (r: DeviceSubType)
        ensures
            r.0 == 0x05,
    {
        DeviceSubType(0x05)
    }

    /// BMC Device Path.
    pub fn HARDWARE_BMC() -> (r: DeviceSubType)
        ensures
            r.0 == 0x06,
    {
        DeviceSubType(0x06)
    }

    /// ACPI Device Path.
    pub fn ACPI() -> (r: DeviceSubType)
        ensures
            r.0 == 0x01,
    {
        DeviceSubType(0x01)
    }

    /// Expanded ACPI Device Path.
    pub fn ACPI_EXPANDED() -> (r: DeviceSubType)
        ensures
            r.0 == 0x02,
    {
        DeviceSubType(0x02)
    }

    /// ACPI _ADR Device Path.
    pub fn ACPI_ADR() -> (r: DeviceSubType)
        ensures
            r.0 == 0x03,
    {
        DeviceSubType(0x03)
    }

    /// NVDIMM Device Path.
    pub fn ACPI_NVDIMM() -> (r: DeviceSubType)
        ensures
            r.0 == 0x04,
    {
        DeviceSubType(0x04)
    }

    /// ATAPI Device Path.
    pub fn MESSAGING_ATAPI() -> (r: DeviceSubType)
        ensures
            r.0 == 0x01,
    {
        DeviceSubType(0x01)
    }

    /// SCSI Device Path.
    pub fn MESSAGING_SCSI() -> (r: DeviceSubType)
        ensures
            r.0 == 0x02,
    {
        DeviceSubType(0x02)
    }

    /// Fibre Channel Device Path.
    pub fn MESSAGING_FIBRE_CHANNEL() -> (r: DeviceSubType)
        ensures
            r.0 == 0x03,
    {
        DeviceSubType(0x03)
    }

    /// 1394 Device Path.
    pub fn MESSAGING_1394() -> (r: DeviceSubType)
        ensures
            r.0 == 0x04,
    {
        DeviceSubType(0x04)
    }

    /// USB Device Path.
    pub fn MESSAGING_USB() -> (r: DeviceSubType)
        ensures
            r.0 == 0x05,
    {
        DeviceSubType(0x05)
    }

    /// I2O Device Path.
    pub fn MESSAGING_I2O() -> (r: DeviceSubType)
        ensures
            r.0 == 0x06,
    {
        DeviceSubType(0x06)
    }

    /// Infiniband Device Path.
    pub fn MESSAGING_INFINIBAND() -> (r: DeviceSubType)
        ensures
            r.0 == 0x09,
    {
        DeviceSubType(0x09)
    }

    /// Vendor-Defined Device Path.
    pub fn MESSAGING_VENDOR() -> (r: DeviceSubType)
        ensures
            r.0 == 0x0a,
    {
        DeviceSubType(0x0a)
    }

    /// MAC Address Device Path.
    pub fn MESSAGING_MAC_ADDRESS() -> (r: DeviceSubType)
        ensures
            r.0 == 0x0b,
    {
        DeviceSubType(0x0b)
    }

    /// IPV4 Device Path.
    pub fn MESSAGING_IPV4() -> (r: DeviceSubType)
        ensures
            r.0 == 0x0c,
    {
        DeviceSubType(0x0c)
    }

    /// IPV6 Device Path.
    pub fn MESSAGING_IPV6() -> (r: DeviceSubType)
        ensures
            r.0 == 0x0d,
    {
        DeviceSubType(0x0d)
    }

    /// UART Device Path.
    pub fn MESSAGING_UART() -> (r: DeviceSubType)
        ensures
            r.0 == 0x0e,
    {
        DeviceSubType(0x0e)
    }

    /// USB Class Device Path.
    pub fn MESSAGING_USB_CLASS() -> (r: DeviceSubType)
        ensures
            r.0 == 0x0f,
    {
        DeviceSubType(0x0f)
    }

    /// USB WWID Device Path.
    pub fn MESSAGING_USB_WWID() -> (r: DeviceSubType)
        ensures
            r.0 == 0x10,
    {
        DeviceSubType(0x10)
    }

    /// Device Logical Unit.
    pub fn MESSAGING_DEVICE_LOGICAL_UNIT() -> (r: DeviceSubType)
        ensures
            r.0 == 0x11,
    {
        DeviceSubType(0x11)
    }

    /// SATA Device Path.
    pub fn MESSAGING_SATA() -> (r: DeviceSubType)
        ensures
            r.0 == 0x12,
    {
        DeviceSubType(0x12)
    }

    /// iSCSI Device Path node (base information).
    pub fn MESSAGING_ISCSI() -> (r: DeviceSubType)
        ensures
            r.0 == 0x13,
    {
        DeviceSubType(0x13)
    }

    /// VLAN Device Path node.
    pub fn MESSAGING_VLAN() -> (r: DeviceSubType)
        ensures
            r.0 == 0x14,
    {
        DeviceSubType(0x14)
    }

    /// Fibre Channel Ex Device Path.
    pub fn MESSAGING_FIBRE_CHANNEL_EX() -> (r: DeviceSubType)
        ensures
            r.0 == 0x15,
    {
        DeviceSubType(0x15)
    }

    /// Serial Attached SCSI (SAS) Ex Device Path.
    pub fn MESSAGING_SCSI_SAS_EX() -> (r: DeviceSubType)
        ensures
            r.0 == 0x16,
    {
        DeviceSubType(0x16)
    }

    /// NVM Express Namespace Device Path.
    pub fn MESSAGING_NVME_NAMESPACE() -> (r: DeviceSubType)
        ensures
            r.0 == 0x17,
    {
        DeviceSubType(0x17)
    }

    /// Uniform Resource Identifiers (URI) Device Path.
    pub fn MESSAGING_URI() -> (r: DeviceSubType)
        ensures
            r.0 == 0x18,
    {
        DeviceSubType(0x18)
    }

    /// UFS Device Path.
    pub fn MESSAGING_UFS() -> (r: DeviceSubType)
        ensures
            r.0 == 0x19,
    {
        DeviceSubType(0x19)
    }

    /// SD (Secure Digital) Device Path.
    pub fn MESSAGING_SD() -> (r: DeviceSubType)
        ensures
            r.0 == 0x1a,
    {
        DeviceSubType(0x1a)
    }

    /// Bluetooth Device Path.
    pub fn MESSAGING_BLUETOOTH() -> (r: DeviceSubType)
        ensures
            r.0 == 0x1b,
    {
        DeviceSubType(0x1b)
    }

    /// Wi-Fi Device Path.
    pub fn MESSAGING_WIFI() -> (r: DeviceSubType)
        ensures
            r.0 == 0x1c,
    {
        DeviceSubType(0x1c)
    }

    /// eMMC (Embedded Multi-Media Card) Device Path.
    pub fn MESSAGING_EMMC() -> (r: DeviceSubType)
        ensures
            r.0 == 0x1d,
    {
        DeviceSubType(0x1d)
    }

    /// BluetoothLE Device Path.
    pub fn MESSAGING_BLUETOOTH_LE() -> (r: DeviceSubType)
        ensures
            r.0 == 0x1e,
    {
        DeviceSubType(0x1e)
    }

    /// DNS Device Path.
    pub fn MESSAGING_DNS() -> (r: DeviceSubType)
        ensures
            r.0 == 0x1f,
    {
        DeviceSubType(0x1f)
    }

    /// NVDIMM Namespace Device Path.
    pub fn MESSAGING_NVDIMM_NAMESPACE() -> (r: DeviceSubType)
        ensures
            r.0 == 0x20,
    {
        DeviceSubType(0x20)
    }

    /// REST Service Device Path.
    pub fn MESSAGING_REST_SERVICE() -> (r: DeviceSubType)
        ensures
            r.0 == 0x21,
    {
        DeviceSubType(0x21)
    }

    /// NVMe over Fabric (NVMe-oF) Namespace Device Path.
    pub fn MESSAGING_NVME_OF_NAMESPACE() -> (r: DeviceSubType)
        ensures
            r.0 == 0x22,
    {
        DeviceSubType(0x22)
    }

    /// Hard Drive Media Device Path.
    pub fn MEDIA_HARD_DRIVE() -> (r: DeviceSubType)
        ensures
            r.0 == 0x01,
    {
        DeviceSubType(0x01)
    }

    /// CD-ROM Media Device Path.
    pub fn MEDIA_CD_ROM() -> (r: DeviceSubType)
        ensures
            r.0 == 0x02,
    {
        DeviceSubType(0x02)
    }

    /// Vendor-Defined Media Device Path.
    pub fn MEDIA_VENDOR() -> (r: DeviceSubType)
        ensures
            r.0 == 0x03,
    {
        DeviceSubType(0x03)
    }

    /// File Path Media Device Path.
    pub fn MEDIA_FILE_PATH() -> (r: DeviceSubType)
        ensures
            r.0 == 0x04,
    {
        DeviceSubType(0x04)
    }

    /// Media Protocol Device Path.
    pub fn MEDIA_PROTOCOL() -> (r: DeviceSubType)
        ensures
            r.0 == 0x05,
    {
        DeviceSubType(0x05)
    }

    /// PIWG Firmware File.
    pub fn MEDIA_PIWG_FIRMWARE_FILE() -> (r: DeviceSubType)
        ensures
            r.0 == 0x06,
    {
        DeviceSubType(0x06)
    }

    /// PIWG Firmware Volume.
    pub fn MEDIA_PIWG_FIRMWARE_VOLUME() -> (r: DeviceSubType)
        ensures
            r.0 == 0x07,
    {
        DeviceSubType(0x07)
    }

    /// Relative Offset Range.
    pub fn MEDIA_RELATIVE_OFFSET_RANGE() -> (r: DeviceSubType)
        ensures
            r.0 == 0x08,
    {
        DeviceSubType(0x08)
    }

    /// RAM Disk Device Path.
    pub fn MEDIA_RAM_DISK() -> (r: DeviceSubType)
        ensures
            r.0 == 0x09,
    {
        DeviceSubType(0x09)
    }

    /// BIOS Boot Specification Device Path.
    pub fn BIOS_BOOT_SPECIFICATION() -> (r: DeviceSubType)
        ensures
            r.0 == 0x01,
    {
        DeviceSubType(0x01)
    }

    /// End this instance of a Device Path and start a new one.
    pub fn END_INSTANCE() -> (r: DeviceSubType)
        ensures
            r.0 == 0x01,
    {
        DeviceSubType(0x01)
    }

    /// End entire Device Path.
    pub fn END_ENTIRE() -> (r: DeviceSubType)
        ensures
            r.0 == 0xff,
    {
        DeviceSubType(0xff)
    }
}

} // verus!
