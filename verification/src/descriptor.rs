//! The device's static descriptor tables: one device descriptor and one
//! full configuration describing a CDC ACM serial bridge, a vendor
//! command channel and a DFU trigger interface.

use vstd::prelude::*;

use crate::types::{
    AbstractControlDesc, CDC_Header, CallManagementDesc, ConfigurationDesc, DFU_FunctionalDesc,
    DeviceDesc, EndpointDesc, InterfaceAssociation, InterfaceDesc, TYPE_CONFIGURATION,
    TYPE_CS_INTERFACE, TYPE_DEVICE, TYPE_DFU_FUNCTIONAL, TYPE_INTF_ASSOC, UnionFunctionalDesc,
};

verus! {

/// Interface number of the CDC ACM notification interface.
pub const INTF_ACM_INTR: u8 = 0;
/// Interface number of the CDC ACM data interface.
pub const INTF_ACM_DATA: u8 = 1;
/// Interface number of the vendor command interface.
pub const INTF_MAIN: u8 = 2;
/// Interface number of the DFU trigger interface.
pub const INTF_DFU: u8 = 3;

/// String index of the manufacturer name.
pub const STR_MANUFACTURER: u8 = 1;
/// String index of the product name.
pub const STR_PRODUCT: u8 = 2;
/// String index of the configuration name.
pub const STR_CONFIGURATION: u8 = 3;
/// String index of the CDC function name.
pub const STR_CDC: u8 = 4;
/// String index of the CDC data interface name.
pub const STR_CDC_DATA: u8 = 5;
/// String index of the command interface name.
pub const STR_DEVICE_CONTROL: u8 = 6;
/// String index of the DFU interface name.
pub const STR_DFU: u8 = 7;
/// String index of the serial number, served from the device name.
pub const IDX_SERIAL_NUMBER: u8 = 8;

/// Total byte length of the full configuration descriptor.
pub const CONFIG0_TOTAL_LENGTH: u16 = 116;

pub open spec fn device_desc_spec() -> DeviceDesc {
    DeviceDesc {
        length: 18,
        descriptor_type: TYPE_DEVICE,
        usb: 0x200,
        device_class: 239,  // Miscellaneous device
        device_sub_class: 2,
        device_protocol: 1,  // Interface association
        max_packet_size0: 64,
        vendor: 0x1209,
        product: 0xce93,
        device: 0x100,
        i_manufacturer: STR_MANUFACTURER,
        i_product: STR_PRODUCT,
        i_serial: IDX_SERIAL_NUMBER,
        num_configurations: 1,
    }
}

/// The device descriptor.
pub fn device_desc() -> (r: DeviceDesc)
    ensures
        r == device_desc_spec(),
{
    DeviceDesc {
        length: 18,
        descriptor_type: TYPE_DEVICE,
        usb: 0x200,
        device_class: 239,
        device_sub_class: 2,
        device_protocol: 1,
        max_packet_size0: 64,
        vendor: 0x1209,
        product: 0xce93,
        device: 0x100,
        i_manufacturer: STR_MANUFACTURER,
        i_product: STR_PRODUCT,
        i_serial: IDX_SERIAL_NUMBER,
        num_configurations: 1,
    }
}

/// The wire form of the device descriptor: 18 bytes.
pub open spec fn device_descriptor_bytes_spec() -> Seq<u8> {
    device_desc_spec().bytes_spec()
}

/// Serialize the device descriptor.
pub fn device_descriptor_bytes() -> (r: Vec<u8>)
    ensures
        r@ == device_descriptor_bytes_spec(),
        r@.len() == 18,
{
    let d = device_desc();
    let mut out: Vec<u8> = Vec::new();
    d.write_to(&mut out);
    out
}

/// The full configuration descriptor: the configuration head followed by
/// the interface association, the CDC control interface with its
/// class-specific records and notification endpoint, the CDC data
/// interface with its two bulk endpoints, the vendor command interface
/// with its two bulk endpoints, and the DFU interface.
#[derive(Clone, Copy, PartialEq, Eq, Structural)]
pub struct FullConfigDesc {
    pub config: ConfigurationDesc,
    pub assoc: InterfaceAssociation,
    pub interface0: InterfaceDesc,
    pub cdc_header: CDC_Header,
    pub call_mgmt: CallManagementDesc,
    pub acm_ctrl: AbstractControlDesc,
    pub union_desc: UnionFunctionalDesc,
    pub endp0: EndpointDesc,
    pub interface1: InterfaceDesc,
    pub endp1: EndpointDesc,
    pub endp2: EndpointDesc,
    pub interface2: InterfaceDesc,
    pub endp3: EndpointDesc,
    pub endp4: EndpointDesc,
    pub interface3: InterfaceDesc,
    pub dfu: DFU_FunctionalDesc,
}

impl FullConfigDesc {
    pub open spec fn bytes_spec(self) -> Seq<u8> {
        self.config.bytes_spec() + self.assoc.bytes_spec() + self.interface0.bytes_spec()
            + self.cdc_header.bytes_spec() + self.call_mgmt.bytes_spec()
            + self.acm_ctrl.bytes_spec() + self.union_desc.bytes_spec() + self.endp0.bytes_spec()
            + self.interface1.bytes_spec() + self.endp1.bytes_spec() + self.endp2.bytes_spec()
            + self.interface2.bytes_spec() + self.endp3.bytes_spec() + self.endp4.bytes_spec()
            + self.interface3.bytes_spec() + self.dfu.bytes_spec()
    }

    /// Serialize the whole configuration, record by record.
    pub fn bytes(&self) -> (r: Vec<u8>)
        ensures
            r@ == self.bytes_spec(),
    {
        let mut out: Vec<u8> = Vec::new();
        self.config.write_to(&mut out);
        self.assoc.write_to(&mut out);
        self.interface0.write_to(&mut out);
        self.cdc_header.write_to(&mut out);
        self.call_mgmt.write_to(&mut out);
        self.acm_ctrl.write_to(&mut out);
        self.union_desc.write_to(&mut out);
        self.endp0.write_to(&mut out);
        self.interface1.write_to(&mut out);
        self.endp1.write_to(&mut out);
        self.endp2.write_to(&mut out);
        self.interface2.write_to(&mut out);
        self.endp3.write_to(&mut out);
        self.endp4.write_to(&mut out);
        self.interface3.write_to(&mut out);
        self.dfu.write_to(&mut out);
        assert(out@ =~= self.bytes_spec());
        out
    }
}

pub open spec fn config0_desc_spec() -> FullConfigDesc {
    FullConfigDesc {
        config: ConfigurationDesc {
            length: 9,
            descriptor_type: TYPE_CONFIGURATION,
            total_length: CONFIG0_TOTAL_LENGTH,
            num_interfaces: 4,
            configuration_value: 1,
            i_configuration: STR_CONFIGURATION,
            attributes: 0x80,  // Bus powered.
            max_power: 200,  // 400mA
        },
        assoc: InterfaceAssociation {
            length: 8,
            descriptor_type: TYPE_INTF_ASSOC,
            first_interface: 0,
            interface_count: 2,
            function_class: 2,  // Communications
            function_sub_class: 2,  // Abstract (modem)
            function_protocol: 0,
            i_function: STR_CDC,
        },
        interface0: InterfaceDesc {
            length: 9,
            descriptor_type: crate::types::TYPE_INTERFACE,
            interface_number: INTF_ACM_INTR,
            alternate_setting: 0,
            num_endpoints: 1,
            interface_class: 2,
            interface_sub_class: 2,
            interface_protocol: 1,
            i_interface: STR_CDC,
        },
        cdc_header: CDC_Header {
            length: 5,
            descriptor_type: TYPE_CS_INTERFACE,
            sub_type: 0,
            cdc: 0x0110,
        },
        call_mgmt: CallManagementDesc {
            length: 5,
            descriptor_type: TYPE_CS_INTERFACE,
            sub_type: 1,
            capabilities: 3,
            data_interface: 1,
        },
        acm_ctrl: AbstractControlDesc {
            length: 4,
            descriptor_type: TYPE_CS_INTERFACE,
            sub_type: 2,
            capabilities: 6,  // Line coding and serial state
        },
        union_desc: UnionFunctionalDesc {
            length: 5,
            descriptor_type: TYPE_CS_INTERFACE,
            sub_type: 6,
            control_interface: 0,
            sub_interface: 1,
        },
        endp0: EndpointDesc {
            length: 7,
            descriptor_type: crate::types::TYPE_ENDPOINT,
            endpoint_address: 0x82,
            attributes: 3,
            max_packet_size: 64,
            interval: 4,
        },
        interface1: InterfaceDesc {
            length: 9,
            descriptor_type: crate::types::TYPE_INTERFACE,
            interface_number: INTF_ACM_DATA,
            alternate_setting: 0,
            num_endpoints: 2,
            interface_class: 10,
            interface_sub_class: 0,
            interface_protocol: 0,
            i_interface: STR_CDC_DATA,
        },
        endp1: EndpointDesc {
            length: 7,
            descriptor_type: crate::types::TYPE_ENDPOINT,
            endpoint_address: 0x81,
            attributes: 2,
            max_packet_size: 64,
            interval: 1,
        },
        endp2: EndpointDesc {
            length: 7,
            descriptor_type: crate::types::TYPE_ENDPOINT,
            endpoint_address: 0x01,
            attributes: 2,
            max_packet_size: 64,
            interval: 1,
        },
        interface2: InterfaceDesc {
            length: 9,
            descriptor_type: crate::types::TYPE_INTERFACE,
            interface_number: INTF_MAIN,
            alternate_setting: 0,
            num_endpoints: 2,
            interface_class: 0xff,
            interface_sub_class: 0,
            interface_protocol: 0,
            i_interface: STR_DEVICE_CONTROL,
        },
        endp3: EndpointDesc {
            length: 7,
            descriptor_type: crate::types::TYPE_ENDPOINT,
            endpoint_address: 0x03,
            attributes: 2,
            max_packet_size: 64,
            interval: 1,
        },
        endp4: EndpointDesc {
            length: 7,
            descriptor_type: crate::types::TYPE_ENDPOINT,
            endpoint_address: 0x83,
            attributes: 2,
            max_packet_size: 64,
            interval: 1,
        },
        interface3: InterfaceDesc {
            length: 9,
            descriptor_type: crate::types::TYPE_INTERFACE,
            interface_number: INTF_DFU,
            alternate_setting: 0,
            num_endpoints: 0,
            interface_class: 0xfe,
            interface_sub_class: 1,
            interface_protocol: 1,
            i_interface: STR_DFU,
        },
        dfu: DFU_FunctionalDesc {
            length: 9,
            descriptor_type: TYPE_DFU_FUNCTIONAL,
            attributes: 0x0b,
            detach_time_out: 1000,
            transfer_size: 1024,
            dfu_version: 0x011a,
        },
    }
}

/// The main configuration descriptor.
pub fn config0_desc() -> (r: FullConfigDesc)
    ensures
        r == config0_desc_spec(),
{
    FullConfigDesc {
        config: ConfigurationDesc {
            length: 9,
            descriptor_type: TYPE_CONFIGURATION,
            total_length: CONFIG0_TOTAL_LENGTH,
            num_interfaces: 4,
            configuration_value: 1,
            i_configuration: STR_CONFIGURATION,
            attributes: 0x80,
            max_power: 200,
        },
        assoc: InterfaceAssociation {
            length: 8,
            descriptor_type: TYPE_INTF_ASSOC,
            first_interface: 0,
            interface_count: 2,
            function_class: 2,
            function_sub_class: 2,
            function_protocol: 0,
            i_function: STR_CDC,
        },
        interface0: InterfaceDesc::new(INTF_ACM_INTR, 1, 2, 2, 1, STR_CDC),
        cdc_header: CDC_Header {
            length: 5,
            descriptor_type: TYPE_CS_INTERFACE,
            sub_type: 0,
            cdc: 0x0110,
        },
        call_mgmt: CallManagementDesc {
            length: 5,
            descriptor_type: TYPE_CS_INTERFACE,
            sub_type: 1,
            capabilities: 3,
            data_interface: 1,
        },
        acm_ctrl: AbstractControlDesc {
            length: 4,
            descriptor_type: TYPE_CS_INTERFACE,
            sub_type: 2,
            capabilities: 6,
        },
        union_desc: UnionFunctionalDesc {
            length: 5,
            descriptor_type: TYPE_CS_INTERFACE,
            sub_type: 6,
            control_interface: 0,
            sub_interface: 1,
        },
        endp0: EndpointDesc::new(0x82, 3, 64, 4),
        interface1: InterfaceDesc::new(INTF_ACM_DATA, 2, 10, 0, 0, STR_CDC_DATA),
        endp1: EndpointDesc::new(0x81, 2, 64, 1),
        endp2: EndpointDesc::new(0x01, 2, 64, 1),
        interface2: InterfaceDesc::new(INTF_MAIN, 2, 0xff, 0, 0, STR_DEVICE_CONTROL),
        endp3: EndpointDesc::new(0x03, 2, 64, 1),
        endp4: EndpointDesc::new(0x83, 2, 64, 1),
        interface3: InterfaceDesc::new(INTF_DFU, 0, 0xfe, 1, 1, STR_DFU),
        dfu: DFU_FunctionalDesc {
            length: 9,
            descriptor_type: TYPE_DFU_FUNCTIONAL,
            attributes: 0x0b,
            detach_time_out: 1000,
            transfer_size: 1024,
            dfu_version: 0x011a,
        },
    }
}

/// The wire form of the full configuration descriptor.
pub open spec fn config0_bytes_spec() -> Seq<u8> {
    config0_desc_spec().bytes_spec()
}

/// Serialize the full configuration descriptor.  Its length matches the
/// total-length field of its head.
pub fn config0_bytes() -> (r: Vec<u8>)
    ensures
        r@ == config0_bytes_spec(),
        r@.len() == CONFIG0_TOTAL_LENGTH,
{
    let d = config0_desc();
    d.bytes()
}

} // verus!
