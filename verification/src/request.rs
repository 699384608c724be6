//! The eight-byte SETUP packet of a control transfer.

use crate::descriptor::DescriptorType;
use vstd::prelude::*;

verus! {

/// Direction of the data stage.
#[derive(Clone, Copy, Debug, PartialEq, Eq, Structural)]
pub enum RequestTypeDirection {
    HostToDevice,
    DeviceToHost,
}

/// Category of a request.
#[derive(Clone, Copy, Debug, PartialEq, Eq, Structural)]
pub enum RequestTypeType {
    Standard,
    Class,
    Vendor,
    Rsvd,
}

/// Who the request is addressed to.
#[derive(Clone, Copy, Debug, PartialEq, Eq, Structural)]
pub enum RequestTypeRecipient {
    Device,
    Interface,
    Endpoint,
    Other,
}

/// The standard request codes.
#[derive(Clone, Copy, Debug, PartialEq, Eq, Structural)]
pub enum StandardDeviceRequest {
    GetStatus,
    ClearFeature,
    SetFeature,
    SetAddress,
    GetDescriptor,
    SetDescriptor,
    GetConfiguration,
    SetConfiguration,
}

impl RequestTypeDirection {
    /// The direction bit.
    pub open spec fn bit(self) -> u8 {
        match self {
            RequestTypeDirection::HostToDevice => 0,
            RequestTypeDirection::DeviceToHost => 1,
        }
    }

    /// The direction bit.
    pub fn code(self) -> (c: u8)
        ensures
            c == self.bit(),
    {
        match self {
            RequestTypeDirection::HostToDevice => 0,
            RequestTypeDirection::DeviceToHost => 1,
        }
    }
}

impl RequestTypeType {
    /// The two category bits.
    pub open spec fn bits(self) -> u8 {
        match self {
            RequestTypeType::Standard => 0,
            RequestTypeType::Class => 1,
            RequestTypeType::Vendor => 2,
            RequestTypeType::Rsvd => 3,
        }
    }

    /// The two category bits.
    pub fn code(self) -> (c: u8)
        ensures
            c == self.bits(),
    {
        match self {
            RequestTypeType::Standard => 0,
            RequestTypeType::Class => 1,
            RequestTypeType::Vendor => 2,
            RequestTypeType::Rsvd => 3,
        }
    }
}

impl RequestTypeRecipient {
    /// The recipient code.
    pub open spec fn bits(self) -> u8 {
        match self {
            RequestTypeRecipient::Device => 0,
            RequestTypeRecipient::Interface => 1,
            RequestTypeRecipient::Endpoint => 2,
            RequestTypeRecipient::Other => 3,
        }
    }

    /// The recipient code.
    pub fn code(self) -> (c: u8)
        ensures
            c == self.bits(),
    {
        match self {
            RequestTypeRecipient::Device => 0,
            RequestTypeRecipient::Interface => 1,
            RequestTypeRecipient::Endpoint => 2,
            RequestTypeRecipient::Other => 3,
        }
    }
}

impl StandardDeviceRequest {
    /// The request code on the wire.
    pub open spec fn wire(self) -> u8 {
        match self {
            StandardDeviceRequest::GetStatus => 0x0,
            StandardDeviceRequest::ClearFeature => 0x1,
            StandardDeviceRequest::SetFeature => 0x3,
            StandardDeviceRequest::SetAddress => 0x5,
            StandardDeviceRequest::GetDescriptor => 0x6,
            StandardDeviceRequest::SetDescriptor => 0x7,
            StandardDeviceRequest::GetConfiguration => 0x8,
            StandardDeviceRequest::SetConfiguration => 0x9,
        }
    }

    /// The request code on the wire.
    pub fn code(self) -> (c: u8)
        ensures
            c == self.wire(),
    {
        match self {
            StandardDeviceRequest::GetStatus => 0x0,
            StandardDeviceRequest::ClearFeature => 0x1,
            StandardDeviceRequest::SetFeature => 0x3,
            StandardDeviceRequest::SetAddress => 0x5,
            StandardDeviceRequest::GetDescriptor => 0x6,
            StandardDeviceRequest::SetDescriptor => 0x7,
            StandardDeviceRequest::GetConfiguration => 0x8,
            StandardDeviceRequest::SetConfiguration => 0x9,
        }
    }
}

/// The request-type byte: bit 7 is the direction, bits 6..5 the category,
/// bits 4..0 the recipient.
#[derive(Clone, Copy, Debug, PartialEq, Eq, Structural)]
pub struct RequestType(u8);

/// The request-type byte made of a direction bit, two category bits and a
/// recipient code.
pub open spec fn request_type_byte(dir: u8, category: u8, recipient: u8) -> u8 {
    (dir << 7) | (category << 5) | recipient
}

proof fn lemma_request_type_bits(raw: u8, d: u8, t: u8, r: u8)
    by (bit_vector)
    requires
        d <= 1,
        t <= 3,
        r <= 3,
    ensures
        (((raw & 0x7F) | ((d & 0x1) << 7)) >> 7) & 0x1 == d,
        (((raw & 0x7F) | ((d & 0x1) << 7)) >> 5) & 0x3 == (raw >> 5) & 0x3,
        ((raw & 0x7F) | ((d & 0x1) << 7)) & 0x1F == raw & 0x1F,
        (((raw & !(0x3u8 << 5)) | (t << 5)) >> 7) & 0x1 == (raw >> 7) & 0x1,
        (((raw & !(0x3u8 << 5)) | (t << 5)) >> 5) & 0x3 == t,
        ((raw & !(0x3u8 << 5)) | (t << 5)) & 0x1F == raw & 0x1F,
        (((raw & 0xE0) | r) >> 7) & 0x1 == (raw >> 7) & 0x1,
        (((raw & 0xE0) | r) >> 5) & 0x3 == (raw >> 5) & 0x3,
        ((raw & 0xE0) | r) & 0x1F == r,
        ((request_type_byte(d, t, r) >> 7) & 0x1) == d,
        ((request_type_byte(d, t, r) >> 5) & 0x3) == t,
        (request_type_byte(d, t, r) & 0x1F) == r,
        (((((0u8 & 0x7F) | ((d & 0x1) << 7)) & !(0x3u8 << 5)) | (t << 5)) & 0xE0) | r
            == request_type_byte(d, t, r),
        (((0u8 & 0x7F) | ((d & 0x1) << 7)) & 0xE0) | r == request_type_byte(d, 0, r),
        request_type_byte(0, 0, 0) == 0,
{
}

impl RequestType {
    /// The byte as it goes on the wire.
    pub closed spec fn raw(self) -> u8 {
        self.0
    }

    /// Bit 7.
    pub open spec fn direction_bit(self) -> u8 {
        (self.raw() >> 7) & 0x1
    }

    /// Bits 6..5.
    pub open spec fn category_bits(self) -> u8 {
        (self.raw() >> 5) & 0x3
    }

    /// Bits 4..0.
    pub open spec fn recipient_bits(self) -> u8 {
        self.raw() & 0x1F
    }

    /// The data direction that bit 7 encodes.
    pub open spec fn direction(self) -> RequestTypeDirection {
        if self.direction_bit() == 0 {
            RequestTypeDirection::HostToDevice
        } else {
            RequestTypeDirection::DeviceToHost
        }
    }

    /// The byte made of the three fields.
    pub closed spec fn made(
        dir: RequestTypeDirection,
        category: RequestTypeType,
        recipient: RequestTypeRecipient,
    ) -> RequestType {
        RequestType(request_type_byte(dir.bit(), category.bits(), recipient.bits()))
    }

    /// The byte made of three fields reads back as those fields.
    pub proof fn lemma_made(
        dir: RequestTypeDirection,
        category: RequestTypeType,
        recipient: RequestTypeRecipient,
    )
        ensures
            RequestType::made(dir, category, recipient).raw() == request_type_byte(
                dir.bit(),
                category.bits(),
                recipient.bits(),
            ),
            RequestType::made(dir, category, recipient).direction() == dir,
            RequestType::made(dir, category, recipient).category_bits() == category.bits(),
            RequestType::made(dir, category, recipient).recipient_bits() == recipient.bits(),
    {
        lemma_request_type_bits(0, dir.bit(), category.bits(), recipient.bits());
    }

    /// The all-zero byte: host to device, standard, device.
    pub fn default() -> (t: RequestType)
        ensures
            t.raw() == 0,
    {
        RequestType(0)
    }

    /// Builds the byte from its three fields.
    pub fn from_parts(
        dir: RequestTypeDirection,
        category: RequestTypeType,
        recipient: RequestTypeRecipient,
    ) -> (t: RequestType)
        ensures
            t == RequestType::made(dir, category, recipient),
            t.raw() == request_type_byte(dir.bit(), category.bits(), recipient.bits()),
            t.direction() == dir,
            t.category_bits() == category.bits(),
            t.recipient_bits() == recipient.bits(),
    {
        let mut t = RequestType::default();
        t.set_data_direction(dir);
        t.set_type(category);
        t.set_recipient(recipient);
        proof {
            lemma_request_type_bits(0, dir.bit(), category.bits(), recipient.bits());
        }
        t
    }

    /// The raw byte.
    pub fn bits(&self) -> (r: u8)
        ensures
            r == self.raw(),
    {
        self.0
    }

    /// The data direction.
    pub fn data_direction(&self) -> (d: RequestTypeDirection)
        ensures
            d == self.direction(),
    {
        if (self.0 >> 7) & 0x1 == 0 {
            RequestTypeDirection::HostToDevice
        } else {
            RequestTypeDirection::DeviceToHost
        }
    }

    /// Sets the data direction and leaves category and recipient alone.
    pub fn set_data_direction(&mut self, dir: RequestTypeDirection)
        ensures
            final(self).raw() == (old(self).raw() & 0x7F) | ((dir.bit() & 0x1) << 7),
            final(self).direction() == dir,
            final(self).category_bits() == old(self).category_bits(),
            final(self).recipient_bits() == old(self).recipient_bits(),
    {
        proof {
            lemma_request_type_bits(self.0, dir.bit(), 0, 0);
        }
        self.0 = (self.0 & 0x7F) | ((dir.code() & 0x1) << 7);
    }

    /// The category.
    pub fn request_type(&self) -> (t: RequestTypeType)
        ensures
            t.bits() == self.category_bits(),
    {
        let v = self.0;
        assert((v >> 5) & 0x3 <= 3) by (bit_vector);
        let b = (self.0 >> 5) & 0x3;
        if b == 0 {
            RequestTypeType::Standard
        } else if b == 1 {
            RequestTypeType::Class
        } else if b == 2 {
            RequestTypeType::Vendor
        } else {
            RequestTypeType::Rsvd
        }
    }

    /// Sets the category and leaves direction and recipient alone.
    pub fn set_type(&mut self, typetype: RequestTypeType)
        ensures
            final(self).raw() == (old(self).raw() & !(0x3u8 << 5)) | (typetype.bits() << 5),
            final(self).category_bits() == typetype.bits(),
            final(self).direction() == old(self).direction(),
            final(self).recipient_bits() == old(self).recipient_bits(),
    {
        proof {
            lemma_request_type_bits(self.0, 0, typetype.bits(), 0);
        }
        self.0 = (self.0 & !(0x3u8 << 5)) | (typetype.code() << 5);
    }

    /// The recipient: codes above 2 all read as `Other`.
    pub fn recipient(&self) -> (r: RequestTypeRecipient)
        ensures
            r == (if self.recipient_bits() == 0 {
                RequestTypeRecipient::Device
            } else if self.recipient_bits() == 1 {
                RequestTypeRecipient::Interface
            } else if self.recipient_bits() == 2 {
                RequestTypeRecipient::Endpoint
            } else {
                RequestTypeRecipient::Other
            }),
    {
        let b = self.0 & 0x1F;
        if b == 0 {
            RequestTypeRecipient::Device
        } else if b == 1 {
            RequestTypeRecipient::Interface
        } else if b == 2 {
            RequestTypeRecipient::Endpoint
        } else {
            RequestTypeRecipient::Other
        }
    }

    /// Sets the recipient and leaves direction and category alone.
    pub fn set_recipient(&mut self, recipient: RequestTypeRecipient)
        ensures
            final(self).raw() == (old(self).raw() & 0xE0) | recipient.bits(),
            final(self).recipient_bits() == recipient.bits(),
            final(self).direction() == old(self).direction(),
            final(self).category_bits() == old(self).category_bits(),
    {
        proof {
            lemma_request_type_bits(self.0, 0, 0, recipient.bits());
        }
        self.0 = (self.0 & 0xE0) | recipient.code();
    }
}

/// A control request.
#[derive(Clone, Copy, Debug, PartialEq, Eq, Structural)]
pub struct Request {
    pub request_type: RequestType,
    pub request: u8,
    pub value: u16,
    pub index: u16,
    pub length: u16,
}

/// The low byte of a 16-bit word.
pub open spec fn low_byte(v: u16) -> u8 {
    (v & 0xFF) as u8
}

/// The high byte of a 16-bit word.
pub open spec fn high_byte(v: u16) -> u8 {
    (v >> 8) as u8
}

impl Request {
    /// The eight bytes of the SETUP packet: request type, request code, then
    /// value, index and length, each low byte first.
    pub open spec fn wire(self) -> Seq<u8> {
        seq![
            self.request_type.raw(),
            self.request,
            low_byte(self.value),
            high_byte(self.value),
            low_byte(self.index),
            high_byte(self.index),
            low_byte(self.length),
            high_byte(self.length),
        ]
    }

    /// The request with the given fields.
    pub open spec fn made(
        dir: RequestTypeDirection,
        category: RequestTypeType,
        recipient: RequestTypeRecipient,
        code: StandardDeviceRequest,
        value: u16,
        index: u16,
        length: u16,
    ) -> Request {
        Request {
            request_type: RequestType::made(dir, category, recipient),
            request: code.wire(),
            value,
            index,
            length,
        }
    }

    /// The SETUP packet as bytes.
    pub fn to_bytes(&self) -> (b: [u8; 8])
        ensures
            b@ == self.wire(),
    {
        let value = self.value;
        let index = self.index;
        let length = self.length;
        assert((value & 0xFF) <= 0xFF && (value >> 8) <= 0xFF) by (bit_vector);
        assert((index & 0xFF) <= 0xFF && (index >> 8) <= 0xFF) by (bit_vector);
        assert((length & 0xFF) <= 0xFF && (length >> 8) <= 0xFF) by (bit_vector);
        let b = [
            self.request_type.bits(),
            self.request,
            (value & 0xFF) as u8,
            (value >> 8) as u8,
            (index & 0xFF) as u8,
            (index >> 8) as u8,
            (length & 0xFF) as u8,
            (length >> 8) as u8,
        ];
        assert(b@ =~= self.wire());
        b
    }

    /// Set_Configuration for the given configuration value.
    pub fn set_configuration(configuration: u8) -> (r: Request)
        ensures
            r == Request::made(RequestTypeDirection::HostToDevice, RequestTypeType::Standard, RequestTypeRecipient::Device, StandardDeviceRequest::SetConfiguration, configuration as u16, 0, 0),
            r.request_type.raw() == 0,
            r.request_type.direction() == RequestTypeDirection::HostToDevice,
            r.request == StandardDeviceRequest::SetConfiguration.wire(),
            r.value == configuration,
            r.index == 0,
            r.length == 0,
    {
        proof {
            lemma_request_type_bits(0, 0, 0, 0);
        }
        Request {
            request_type: RequestType::from_parts(
                RequestTypeDirection::HostToDevice,
                RequestTypeType::Standard,
                RequestTypeRecipient::Device,
            ),
            request: StandardDeviceRequest::SetConfiguration.code(),
            value: configuration as u16,
            index: 0,
            length: 0,
        }
    }

    /// Set_Address carrying the new address.
    pub fn set_address(address: u8) -> (r: Request)
        ensures
            r == Request::made(RequestTypeDirection::HostToDevice, RequestTypeType::Standard, RequestTypeRecipient::Device, StandardDeviceRequest::SetAddress, address as u16, 0, 0),
            r.request_type.raw() == 0,
            r.request_type.direction() == RequestTypeDirection::HostToDevice,
            r.request == StandardDeviceRequest::SetAddress.wire(),
            r.value == address,
            r.index == 0,
            r.length == 0,
    {
        proof {
            lemma_request_type_bits(0, 0, 0, 0);
        }
        Request {
            request_type: RequestType::from_parts(
                RequestTypeDirection::HostToDevice,
                RequestTypeType::Standard,
                RequestTypeRecipient::Device,
            ),
            request: StandardDeviceRequest::SetAddress.code(),
            value: address as u16,
            index: 0,
            length: 0,
        }
    }

    /// Get_Descriptor addressed to the device: the descriptor type goes in
    /// the high byte of the value, the descriptor index in the low byte.
    pub fn get_descriptor(
        descriptor_type: u8,
        request_type_type: RequestTypeType,
        descriptor_index: u8,
        language_id: u16,
        length: u16,
    ) -> (r: Request)
        requires
            length > 0,
        ensures
            r == Request::made(RequestTypeDirection::DeviceToHost, request_type_type, RequestTypeRecipient::Device, StandardDeviceRequest::GetDescriptor, (descriptor_type * 256 + descriptor_index) as u16, language_id, length),
            r.request_type.raw() == request_type_byte(1, request_type_type.bits(), 0),
            r.request_type.direction() == RequestTypeDirection::DeviceToHost,
            r.request_type.category_bits() == request_type_type.bits(),
            r.request_type.recipient_bits() == 0,
            r.request == StandardDeviceRequest::GetDescriptor.wire(),
            r.value == descriptor_type * 256 + descriptor_index,
            high_byte(r.value) == descriptor_type,
            low_byte(r.value) == descriptor_index,
            r.index == language_id,
            r.length == length,
    {
        let hi = descriptor_type as u16;
        let lo = descriptor_index as u16;
        assert(((hi << 8) | lo) == hi * 256 + lo && ((hi << 8) | lo) >> 8 == hi && ((hi << 8) | lo)
            & 0xFF == lo) by (bit_vector)
            requires
                hi <= 0xFF,
                lo <= 0xFF,
        ;
        Request {
            request_type: RequestType::from_parts(
                RequestTypeDirection::DeviceToHost,
                request_type_type,
                RequestTypeRecipient::Device,
            ),
            request: StandardDeviceRequest::GetDescriptor.code(),
            value: (hi << 8) | lo,
            index: language_id,
            length,
        }
    }

    /// Get_Status.
    pub fn get_status(
        recepient: RequestTypeRecipient,
        request_type_type: RequestTypeType,
        value: u16,
        index: u16,
        length: u16,
    ) -> (r: Request)
        ensures
            r == Request::made(RequestTypeDirection::DeviceToHost, request_type_type, recepient, StandardDeviceRequest::GetStatus, value, index, length),
            r.request_type.raw() == request_type_byte(1, request_type_type.bits(), recepient.bits()),
            r.request_type.direction() == RequestTypeDirection::DeviceToHost,
            r.request_type.category_bits() == request_type_type.bits(),
            r.request_type.recipient_bits() == recepient.bits(),
            r.request == StandardDeviceRequest::GetStatus.wire(),
            r.value == value,
            r.index == index,
            r.length == length,
    {
        Request {
            request_type: RequestType::from_parts(
                RequestTypeDirection::DeviceToHost,
                request_type_type,
                recepient,
            ),
            request: StandardDeviceRequest::GetStatus.code(),
            value,
            index,
            length,
        }
    }

    /// Set_Feature.
    pub fn set_feature(
        recepient: RequestTypeRecipient,
        request_type_type: RequestTypeType,
        feature: u16,
        index: u16,
        length: u16,
    ) -> (r: Request)
        ensures
            r == Request::made(RequestTypeDirection::HostToDevice, request_type_type, recepient, StandardDeviceRequest::SetFeature, feature, index, length),
            r.request_type.raw() == request_type_byte(0, request_type_type.bits(), recepient.bits()),
            r.request_type.direction() == RequestTypeDirection::HostToDevice,
            r.request_type.category_bits() == request_type_type.bits(),
            r.request_type.recipient_bits() == recepient.bits(),
            r.request == StandardDeviceRequest::SetFeature.wire(),
            r.value == feature,
            r.index == index,
            r.length == length,
    {
        Request {
            request_type: RequestType::from_parts(
                RequestTypeDirection::HostToDevice,
                request_type_type,
                recepient,
            ),
            request: StandardDeviceRequest::SetFeature.code(),
            value: feature,
            index,
            length,
        }
    }

    /// Clear_Feature.
    pub fn clear_feature(
        recepient: RequestTypeRecipient,
        request_type_type: RequestTypeType,
        feature: u16,
        index: u16,
        length: u16,
    ) -> (r: Request)
        ensures
            r == Request::made(RequestTypeDirection::HostToDevice, request_type_type, recepient, StandardDeviceRequest::ClearFeature, feature, index, length),
            r.request_type.raw() == request_type_byte(0, request_type_type.bits(), recepient.bits()),
            r.request_type.direction() == RequestTypeDirection::HostToDevice,
            r.request_type.category_bits() == request_type_type.bits(),
            r.request_type.recipient_bits() == recepient.bits(),
            r.request == StandardDeviceRequest::ClearFeature.wire(),
            r.value == feature,
            r.index == index,
            r.length == length,
    {
        Request {
            request_type: RequestType::from_parts(
                RequestTypeDirection::HostToDevice,
                request_type_type,
                recepient,
            ),
            request: StandardDeviceRequest::ClearFeature.code(),
            value: feature,
            index,
            length,
        }
    }

    /// Get_Descriptor for the configuration descriptor with the given index.
    pub fn get_configuration_descriptor(index: u8, length: u16) -> (r: Request)
        requires
            length > 0,
        ensures
            r == Request::made(RequestTypeDirection::DeviceToHost, RequestTypeType::Standard, RequestTypeRecipient::Device, StandardDeviceRequest::GetDescriptor, (512 + index) as u16, 0, length),
            r.request_type.raw() == request_type_byte(1, 0, 0),
            r.request_type.direction() == RequestTypeDirection::DeviceToHost,
            r.request == StandardDeviceRequest::GetDescriptor.wire(),
            r.value == 2 * 256 + index,
            r.index == 0,
            r.length == length,
    {
        Request::get_descriptor(
            DescriptorType::Configuration.code(),
            RequestTypeType::Standard,
            index,
            0,
            length,
        )
    }
}

} // verus!
