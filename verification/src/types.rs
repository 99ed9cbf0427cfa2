//! Wire-format records of the USB device framework: the 8-byte setup
//! header, the result a request handler hands back to the control state
//! machine, and the standard descriptor records with their byte layouts.

use vstd::prelude::*;

verus! {

/// Descriptor type: device.
pub const TYPE_DEVICE: u8 = 1;
/// Descriptor type: configuration.
pub const TYPE_CONFIGURATION: u8 = 2;
/// Descriptor type: string.
pub const TYPE_STRING: u8 = 3;
/// Descriptor type: interface.
pub const TYPE_INTERFACE: u8 = 4;
/// Descriptor type: endpoint.
pub const TYPE_ENDPOINT: u8 = 5;
/// Descriptor type: device qualifier.
pub const TYPE_DEVICE_QUAL: u8 = 6;
/// Descriptor type: interface association.
pub const TYPE_INTF_ASSOC: u8 = 11;
/// Descriptor type: class-specific interface.
pub const TYPE_CS_INTERFACE: u8 = 0x24;
/// Descriptor type: DFU functional.
pub const TYPE_DFU_FUNCTIONAL: u8 = 0x21;

/// The low byte of a 16-bit value, as it goes on the wire.
pub open spec fn lo(x: u16) -> u8 {
    (x & 0xff) as u8
}

/// The high byte of a 16-bit value.
pub open spec fn hi(x: u16) -> u8 {
    (x >> 8) as u8
}

/// The 8-byte control-request record, written by hardware DMA into packet
/// memory on a SETUP token.
#[derive(Clone, Copy, PartialEq, Eq, Structural)]
pub struct SetupHeader {
    /// Request-type bitmap (direction, type, recipient).
    pub request_type: u8,
    /// Request code.
    pub request: u8,
    /// Low byte of the value field.
    pub value_lo: u8,
    /// High byte of the value field.
    pub value_hi: u8,
    /// Index field (an interface or endpoint number, usually).
    pub index: u16,
    /// Number of bytes the host asks for or announces.
    pub length: u16,
}

impl SetupHeader {
    /// The all-zero record, standing for "no setup in progress".
    pub fn empty() -> (r: SetupHeader)
        ensures
            r == SetupHeader::empty_spec(),
    {
        SetupHeader { request_type: 0, request: 0, value_lo: 0, value_hi: 0, index: 0, length: 0 }
    }

    pub open spec fn empty_spec() -> SetupHeader {
        SetupHeader { request_type: 0, request: 0, value_lo: 0, value_hi: 0, index: 0, length: 0 }
    }

    /// Parse the record out of the first 8 bytes of a receive buffer.
    pub fn from_bytes(b: &[u8]) -> (r: SetupHeader)
        requires
            b@.len() >= 8,
        ensures
            r == SetupHeader::from_bytes_spec(b@),
    {
        SetupHeader {
            request_type: b[0],
            request: b[1],
            value_lo: b[2],
            value_hi: b[3],
            index: b[4] as u16 + (b[5] as u16) * 256,
            length: b[6] as u16 + (b[7] as u16) * 256,
        }
    }

    pub open spec fn from_bytes_spec(b: Seq<u8>) -> SetupHeader {
        SetupHeader {
            request_type: b[0],
            request: b[1],
            value_lo: b[2],
            value_hi: b[3],
            index: (b[4] + b[5] * 256) as u16,
            length: (b[6] + b[7] * 256) as u16,
        }
    }
}

/// What a request handler asks the control state machine to do.
pub enum SetupResult {
    /// Respond with these bytes, chunked into packets of at most 64.
    SendData(Vec<u8>),
    /// Arm a single OUT packet of exactly this many bytes.
    ReceiveData(usize),
    /// No data stage: acknowledge with a zero-length packet.
    NoData,
    /// Reject the request: stall both directions of the endpoint.
    Error,
}

/// The device descriptor record.
#[derive(Clone, Copy, PartialEq, Eq, Structural)]
pub struct DeviceDesc {
    pub length: u8,
    pub descriptor_type: u8,
    pub usb: u16,
    pub device_class: u8,
    pub device_sub_class: u8,
    pub device_protocol: u8,
    pub max_packet_size0: u8,
    pub vendor: u16,
    pub product: u16,
    pub device: u16,
    pub i_manufacturer: u8,
    pub i_product: u8,
    pub i_serial: u8,
    pub num_configurations: u8,
}

impl DeviceDesc {
    pub open spec fn bytes_spec(self) -> Seq<u8> {
        seq![
            self.length,
            self.descriptor_type,
            lo(self.usb),
            hi(self.usb),
            self.device_class,
            self.device_sub_class,
            self.device_protocol,
            self.max_packet_size0,
            lo(self.vendor),
            hi(self.vendor),
            lo(self.product),
            hi(self.product),
            lo(self.device),
            hi(self.device),
            self.i_manufacturer,
            self.i_product,
            self.i_serial,
            self.num_configurations,
        ]
    }

    /// Append the record's wire form (18 bytes) to `out`.
    pub fn write_to(&self, out: &mut Vec<u8>)
        ensures
            final(out)@ == old(out)@ + self.bytes_spec(),
    {
        out.push(self.length);
        out.push(self.descriptor_type);
        out.push((self.usb & 0xff) as u8);
        out.push((self.usb >> 8) as u8);
        out.push(self.device_class);
        out.push(self.device_sub_class);
        out.push(self.device_protocol);
        out.push(self.max_packet_size0);
        out.push((self.vendor & 0xff) as u8);
        out.push((self.vendor >> 8) as u8);
        out.push((self.product & 0xff) as u8);
        out.push((self.product >> 8) as u8);
        out.push((self.device & 0xff) as u8);
        out.push((self.device >> 8) as u8);
        out.push(self.i_manufacturer);
        out.push(self.i_product);
        out.push(self.i_serial);
        out.push(self.num_configurations);
        assert(out@ =~= old(out)@ + self.bytes_spec());
    }
}

/// The configuration descriptor record (its 9-byte head).
#[derive(Clone, Copy, PartialEq, Eq, Structural)]
pub struct ConfigurationDesc {
    pub length: u8,
    pub descriptor_type: u8,
    pub total_length: u16,
    pub num_interfaces: u8,
    pub configuration_value: u8,
    pub i_configuration: u8,
    pub attributes: u8,
    pub max_power: u8,
}

impl ConfigurationDesc {
    pub open spec fn bytes_spec(self) -> Seq<u8> {
        seq![
            self.length,
            self.descriptor_type,
            lo(self.total_length),
            hi(self.total_length),
            self.num_interfaces,
            self.configuration_value,
            self.i_configuration,
            self.attributes,
            self.max_power,
        ]
    }

    /// Append the record's wire form (9 bytes) to `out`.
    pub fn write_to(&self, out: &mut Vec<u8>)
        ensures
            final(out)@ == old(out)@ + self.bytes_spec(),
    {
        out.push(self.length);
        out.push(self.descriptor_type);
        out.push((self.total_length & 0xff) as u8);
        out.push((self.total_length >> 8) as u8);
        out.push(self.num_interfaces);
        out.push(self.configuration_value);
        out.push(self.i_configuration);
        out.push(self.attributes);
        out.push(self.max_power);
        assert(out@ =~= old(out)@ + self.bytes_spec());
    }
}

/// The interface-association descriptor record.
#[derive(Clone, Copy, PartialEq, Eq, Structural)]
pub struct InterfaceAssociation {
    pub length: u8,
    pub descriptor_type: u8,
    pub first_interface: u8,
    pub interface_count: u8,
    pub function_class: u8,
    pub function_sub_class: u8,
    pub function_protocol: u8,
    pub i_function: u8,
}

impl InterfaceAssociation {
    pub open spec fn bytes_spec(self) -> Seq<u8> {
        seq![
            self.length,
            self.descriptor_type,
            self.first_interface,
            self.interface_count,
            self.function_class,
            self.function_sub_class,
            self.function_protocol,
            self.i_function,
        ]
    }

    /// Append the record's wire form (8 bytes) to `out`.
    pub fn write_to(&self, out: &mut Vec<u8>)
        ensures
            final(out)@ == old(out)@ + self.bytes_spec(),
    {
        out.push(self.length);
        out.push(self.descriptor_type);
        out.push(self.first_interface);
        out.push(self.interface_count);
        out.push(self.function_class);
        out.push(self.function_sub_class);
        out.push(self.function_protocol);
        out.push(self.i_function);
        assert(out@ =~= old(out)@ + self.bytes_spec());
    }
}

/// The interface descriptor record.
#[derive(Clone, Copy, PartialEq, Eq, Structural)]
pub struct InterfaceDesc {
    pub length: u8,
    pub descriptor_type: u8,
    pub interface_number: u8,
    pub alternate_setting: u8,
    pub num_endpoints: u8,
    pub interface_class: u8,
    pub interface_sub_class: u8,
    pub interface_protocol: u8,
    pub i_interface: u8,
}

impl InterfaceDesc {
    /// An interface record with no alternate setting.
    pub fn new(number: u8, num_endpoints: u8, class: u8, sub_class: u8, protocol: u8, i: u8) -> (
        r: InterfaceDesc)
        ensures
            r == (InterfaceDesc {
                length: 9,
                descriptor_type: TYPE_INTERFACE,
                interface_number: number,
                alternate_setting: 0,
                num_endpoints,
                interface_class: class,
                interface_sub_class: sub_class,
                interface_protocol: protocol,
                i_interface: i,
            }),
    {
        InterfaceDesc {
            length: 9,
            descriptor_type: TYPE_INTERFACE,
            interface_number: number,
            alternate_setting: 0,
            num_endpoints,
            interface_class: class,
            interface_sub_class: sub_class,
            interface_protocol: protocol,
            i_interface: i,
        }
    }

    pub open spec fn bytes_spec(self) -> Seq<u8> {
        seq![
            self.length,
            self.descriptor_type,
            self.interface_number,
            self.alternate_setting,
            self.num_endpoints,
            self.interface_class,
            self.interface_sub_class,
            self.interface_protocol,
            self.i_interface,
        ]
    }

    /// Append the record's wire form (9 bytes) to `out`.
    pub fn write_to(&self, out: &mut Vec<u8>)
        ensures
            final(out)@ == old(out)@ + self.bytes_spec(),
    {
        out.push(self.length);
        out.push(self.descriptor_type);
        out.push(self.interface_number);
        out.push(self.alternate_setting);
        out.push(self.num_endpoints);
        out.push(self.interface_class);
        out.push(self.interface_sub_class);
        out.push(self.interface_protocol);
        out.push(self.i_interface);
        assert(out@ =~= old(out)@ + self.bytes_spec());
    }
}

/// The endpoint descriptor record.
#[derive(Clone, Copy, PartialEq, Eq, Structural)]
pub struct EndpointDesc {
    pub length: u8,
    pub descriptor_type: u8,
    pub endpoint_address: u8,
    pub attributes: u8,
    pub max_packet_size: u16,
    pub interval: u8,
}

impl EndpointDesc {
    pub fn new(address: u8, attributes: u8, max_packet_size: u16, interval: u8) -> (r:
        EndpointDesc)
        ensures
            r == (EndpointDesc {
                length: 7,
                descriptor_type: TYPE_ENDPOINT,
                endpoint_address: address,
                attributes,
                max_packet_size,
                interval,
            }),
    {
        EndpointDesc {
            length: 7,
            descriptor_type: TYPE_ENDPOINT,
            endpoint_address: address,
            attributes,
            max_packet_size,
            interval,
        }
    }

    pub open spec fn bytes_spec(self) -> Seq<u8> {
        seq![
            self.length,
            self.descriptor_type,
            self.endpoint_address,
            self.attributes,
            lo(self.max_packet_size),
            hi(self.max_packet_size),
            self.interval,
        ]
    }

    /// Append the record's wire form (7 bytes) to `out`.
    pub fn write_to(&self, out: &mut Vec<u8>)
        ensures
            final(out)@ == old(out)@ + self.bytes_spec(),
    {
        out.push(self.length);
        out.push(self.descriptor_type);
        out.push(self.endpoint_address);
        out.push(self.attributes);
        out.push((self.max_packet_size & 0xff) as u8);
        out.push((self.max_packet_size >> 8) as u8);
        out.push(self.interval);
        assert(out@ =~= old(out)@ + self.bytes_spec());
    }
}

/// The class-specific CDC header functional descriptor.
#[derive(Clone, Copy, PartialEq, Eq, Structural)]
#[allow(non_camel_case_types)]
pub struct CDC_Header {
    pub length: u8,
    pub descriptor_type: u8,
    pub sub_type: u8,
    pub cdc: u16,
}

impl CDC_Header {
    pub open spec fn bytes_spec(self) -> Seq<u8> {
        seq![self.length, self.descriptor_type, self.sub_type, lo(self.cdc), hi(self.cdc)]
    }

    /// Append the record's wire form (5 bytes) to `out`.
    pub fn write_to(&self, out: &mut Vec<u8>)
        ensures
            final(out)@ == old(out)@ + self.bytes_spec(),
    {
        out.push(self.length);
        out.push(self.descriptor_type);
        out.push(self.sub_type);
        out.push((self.cdc & 0xff) as u8);
        out.push((self.cdc >> 8) as u8);
        assert(out@ =~= old(out)@ + self.bytes_spec());
    }
}

/// The CDC call-management functional descriptor.
#[derive(Clone, Copy, PartialEq, Eq, Structural)]
pub struct CallManagementDesc {
    pub length: u8,
    pub descriptor_type: u8,
    pub sub_type: u8,
    pub capabilities: u8,
    pub data_interface: u8,
}

impl CallManagementDesc {
    pub open spec fn bytes_spec(self) -> Seq<u8> {
        seq![self.length, self.descriptor_type, self.sub_type, self.capabilities,
            self.data_interface]
    }

    /// Append the record's wire form (5 bytes) to `out`.
    pub fn write_to(&self, out: &mut Vec<u8>)
        ensures
            final(out)@ == old(out)@ + self.bytes_spec(),
    {
        out.push(self.length);
        out.push(self.descriptor_type);
        out.push(self.sub_type);
        out.push(self.capabilities);
        out.push(self.data_interface);
        assert(out@ =~= old(out)@ + self.bytes_spec());
    }
}

/// The CDC abstract-control-management functional descriptor.
#[derive(Clone, Copy, PartialEq, Eq, Structural)]
pub struct AbstractControlDesc {
    pub length: u8,
    pub descriptor_type: u8,
    pub sub_type: u8,
    pub capabilities: u8,
}

impl AbstractControlDesc {
    pub open spec fn bytes_spec(self) -> Seq<u8> {
        seq![self.length, self.descriptor_type, self.sub_type, self.capabilities]
    }

    /// Append the record's wire form (4 bytes) to `out`.
    pub fn write_to(&self, out: &mut Vec<u8>)
        ensures
            final(out)@ == old(out)@ + self.bytes_spec(),
    {
        out.push(self.length);
        out.push(self.descriptor_type);
        out.push(self.sub_type);
        out.push(self.capabilities);
        assert(out@ =~= old(out)@ + self.bytes_spec());
    }
}

/// The CDC union functional descriptor, with one subordinate interface.
#[derive(Clone, Copy, PartialEq, Eq, Structural)]
pub struct UnionFunctionalDesc {
    pub length: u8,
    pub descriptor_type: u8,
    pub sub_type: u8,
    pub control_interface: u8,
    pub sub_interface: u8,
}

impl UnionFunctionalDesc {
    pub open spec fn bytes_spec(self) -> Seq<u8> {
        seq![self.length, self.descriptor_type, self.sub_type, self.control_interface,
            self.sub_interface]
    }

    /// Append the record's wire form (5 bytes) to `out`.
    pub fn write_to(&self, out: &mut Vec<u8>)
        ensures
            final(out)@ == old(out)@ + self.bytes_spec(),
    {
        out.push(self.length);
        out.push(self.descriptor_type);
        out.push(self.sub_type);
        out.push(self.control_interface);
        out.push(self.sub_interface);
        assert(out@ =~= old(out)@ + self.bytes_spec());
    }
}

/// The DFU functional descriptor.
#[derive(Clone, Copy, PartialEq, Eq, Structural)]
#[allow(non_camel_case_types)]
pub struct DFU_FunctionalDesc {
    pub length: u8,
    pub descriptor_type: u8,
    pub attributes: u8,
    pub detach_time_out: u16,
    pub transfer_size: u16,
    pub dfu_version: u16,
}

impl DFU_FunctionalDesc {
    pub open spec fn bytes_spec(self) -> Seq<u8> {
        seq![
            self.length,
            self.descriptor_type,
            self.attributes,
            lo(self.detach_time_out),
            hi(self.detach_time_out),
            lo(self.transfer_size),
            hi(self.transfer_size),
            lo(self.dfu_version),
            hi(self.dfu_version),
        ]
    }

    /// Append the record's wire form (9 bytes) to `out`.
    pub fn write_to(&self, out: &mut Vec<u8>)
        ensures
            final(out)@ == old(out)@ + self.bytes_spec(),
    {
        out.push(self.length);
        out.push(self.descriptor_type);
        out.push(self.attributes);
        out.push((self.detach_time_out & 0xff) as u8);
        out.push((self.detach_time_out >> 8) as u8);
        out.push((self.transfer_size & 0xff) as u8);
        out.push((self.transfer_size >> 8) as u8);
        out.push((self.dfu_version & 0xff) as u8);
        out.push((self.dfu_version >> 8) as u8);
        assert(out@ =~= old(out)@ + self.bytes_spec());
    }
}

/// The tail of a CDC ACM configuration: the class-specific fields in one
/// record.
#[derive(Clone, Copy, PartialEq, Eq, Structural)]
#[allow(non_camel_case_types)]
pub struct CDC_ACM_Continuation {
    pub cdc: u16,
    pub call_management: u8,
    pub data_interface: u8,
    pub cdc_acm: u8,
    pub cdc_union: u8,
}

/// The device-qualifier descriptor record (its leading fields).
#[derive(Clone, Copy, PartialEq, Eq, Structural)]
pub struct DeviceQualifier {
    pub length: u8,
    pub descriptor_type: u8,
    pub usb: u16,
    pub device_class: u8,
}

/// The CDC ACM line-coding record: baud rate and frame format.
#[derive(Clone, Copy, PartialEq, Eq, Structural)]
pub struct LineCoding {
    pub dte_rate: u32,
    pub char_format: u8,
    pub parity_type: u8,
    pub data_bits: u8,
}

impl LineCoding {
    pub open spec fn bytes_spec(self) -> Seq<u8> {
        seq![
            (self.dte_rate & 0xff) as u8,
            ((self.dte_rate >> 8) & 0xff) as u8,
            ((self.dte_rate >> 16) & 0xff) as u8,
            ((self.dte_rate >> 24) & 0xff) as u8,
            self.char_format,
            self.parity_type,
            self.data_bits,
        ]
    }

    /// The record's wire form: 7 bytes, rate first, little endian.
    pub fn to_bytes(&self) -> (r: Vec<u8>)
        ensures
            r@ == self.bytes_spec(),
    {
        let mut out: Vec<u8> = Vec::new();
        out.push((self.dte_rate & 0xff) as u8);
        out.push(((self.dte_rate >> 8) & 0xff) as u8);
        out.push(((self.dte_rate >> 16) & 0xff) as u8);
        out.push(((self.dte_rate >> 24) & 0xff) as u8);
        out.push(self.char_format);
        out.push(self.parity_type);
        out.push(self.data_bits);
        assert(out@ =~= self.bytes_spec());
        out
    }

    /// Parse the record from its 7-byte wire form.
    pub fn from_bytes(b: &[u8]) -> (r: LineCoding)
        requires
            b@.len() >= 7,
        ensures
            r == LineCoding::from_bytes_spec(b@),
    {
        LineCoding {
            dte_rate: b[0] as u32 + (b[1] as u32) * 0x100 + (b[2] as u32) * 0x10000 + (
            b[3] as u32) * 0x1000000,
            char_format: b[4],
            parity_type: b[5],
            data_bits: b[6],
        }
    }

    pub open spec fn from_bytes_spec(b: Seq<u8>) -> LineCoding {
        LineCoding {
            dte_rate: (b[0] + b[1] * 0x100 + b[2] * 0x10000 + b[3] * 0x1000000) as u32,
            char_format: b[4],
            parity_type: b[5],
            data_bits: b[6],
        }
    }
}

} // verus!
