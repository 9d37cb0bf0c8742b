//! Control transfers: a setup packet split into direction, type, recipient and
//! request fields.
use crate::usb::{SetupPacket, UrbError};
use vstd::prelude::*;

verus! {

#[derive(Debug, Copy, Clone, PartialEq, Eq, Structural)]
pub enum ControlType {
    Standard,
    Class,
    Vendor,
}

#[derive(Debug, Copy, Clone, PartialEq, Eq, Structural)]
pub enum Recipient {
    Device,
    Interface,
    Endpoint,
    Other,
}

/// A device-to-host control transfer.
#[derive(Debug, Copy, Clone, PartialEq, Eq, Structural)]
pub struct ControlIn {
    pub control_type: ControlType,
    pub recipient: Recipient,
    pub request: u8,
    pub value: u16,
    pub index: u16,
    pub length: u16,
}

/// A host-to-device control transfer with its data stage.
#[derive(Debug)]
pub struct ControlOut {
    pub control_type: ControlType,
    pub recipient: Recipient,
    pub request: u8,
    pub value: u16,
    pub index: u16,
    pub data: Vec<u8>,
}

#[derive(Debug)]
pub enum ControlSetup {
    In(ControlIn),
    Out(ControlOut),
}

/// Bits 5-6 of `bmRequestType`; the value 3 is reserved.
pub open spec fn spec_control_type(request_type: u8) -> Option<ControlType> {
    let v = request_type / 32 % 4;
    if v == 0 {
        Some(ControlType::Standard)
    } else if v == 1 {
        Some(ControlType::Class)
    } else if v == 2 {
        Some(ControlType::Vendor)
    } else {
        None
    }
}

/// Bits 0-4 of `bmRequestType`; values above 3 are reserved.
pub open spec fn spec_recipient(request_type: u8) -> Option<Recipient> {
    let v = request_type % 32;
    if v == 0 {
        Some(Recipient::Device)
    } else if v == 1 {
        Some(Recipient::Interface)
    } else if v == 2 {
        Some(Recipient::Endpoint)
    } else if v == 3 {
        Some(Recipient::Other)
    } else {
        None
    }
}

/// Bit 7 of `bmRequestType`: device to host.
pub open spec fn spec_is_in(request_type: u8) -> bool {
    request_type >= 128
}

/// `c` is the transfer described by `setup`, with `data` as the data stage of an OUT
/// transfer.
pub open spec fn describes(c: ControlSetup, setup: SetupPacket, data: Seq<u8>) -> bool {
    &&& spec_control_type(setup.request_type) == Some(c.spec_control_type())
    &&& spec_recipient(setup.request_type) == Some(c.spec_recipient())
    &&& c.spec_request() == setup.request
    &&& c.spec_value() == setup.value
    &&& c.spec_index() == setup.index
    &&& if spec_is_in(setup.request_type) {
        c matches ControlSetup::In(i) && i.length == setup.length
    } else {
        c matches ControlSetup::Out(o) && o.data@ == data
    }
}

impl ControlSetup {
    pub open spec fn spec_control_type(self) -> ControlType {
        match self {
            ControlSetup::In(c) => c.control_type,
            ControlSetup::Out(c) => c.control_type,
        }
    }

    pub open spec fn spec_recipient(self) -> Recipient {
        match self {
            ControlSetup::In(c) => c.recipient,
            ControlSetup::Out(c) => c.recipient,
        }
    }

    pub open spec fn spec_request(self) -> u8 {
        match self {
            ControlSetup::In(c) => c.request,
            ControlSetup::Out(c) => c.request,
        }
    }

    pub open spec fn spec_value(self) -> u16 {
        match self {
            ControlSetup::In(c) => c.value,
            ControlSetup::Out(c) => c.value,
        }
    }

    pub open spec fn spec_index(self) -> u16 {
        match self {
            ControlSetup::In(c) => c.index,
            ControlSetup::Out(c) => c.index,
        }
    }

    /// Splits `setup` into its fields; a reserved control type or recipient is
    /// invalid input.
    pub fn new(setup: &SetupPacket, data: &[u8]) -> (r: Result<ControlSetup, UrbError>)
        ensures
            spec_control_type(setup.request_type) is None || spec_recipient(setup.request_type) is None
                ==> r == Err::<ControlSetup, UrbError>(UrbError::InvalidInput),
            spec_control_type(setup.request_type) is Some && spec_recipient(setup.request_type) is Some
                ==> (r matches Ok(c) && describes(c, *setup, data@)),
    {
        let rt = setup.request_type;
        let control_type = match rt / 32 % 4 {
            0 => ControlType::Standard,
            1 => ControlType::Class,
            2 => ControlType::Vendor,
            _ => return Err(UrbError::InvalidInput),
        };
        let recipient = match rt % 32 {
            0 => Recipient::Device,
            1 => Recipient::Interface,
            2 => Recipient::Endpoint,
            3 => Recipient::Other,
            _ => return Err(UrbError::InvalidInput),
        };
        if rt >= 128 {
            Ok(
                ControlSetup::In(
                    ControlIn {
                        control_type,
                        recipient,
                        request: setup.request,
                        value: setup.value,
                        index: setup.index,
                        length: setup.length,
                    },
                ),
            )
        } else {
            let mut copy: Vec<u8> = Vec::new();
            crate::proto::push_all(&mut copy, data);
            assert(copy@ =~= data@);
            Ok(
                ControlSetup::Out(
                    ControlOut {
                        control_type,
                        recipient,
                        request: setup.request,
                        value: setup.value,
                        index: setup.index,
                        data: copy,
                    },
                ),
            )
        }
    }

    pub fn control_type(&self) -> (r: ControlType)
        ensures
            r == self.spec_control_type(),
    {
        match self {
            ControlSetup::In(c) => c.control_type,
            ControlSetup::Out(c) => c.control_type,
        }
    }

    pub fn recipient(&self) -> (r: Recipient)
        ensures
            r == self.spec_recipient(),
    {
        match self {
            ControlSetup::In(c) => c.recipient,
            ControlSetup::Out(c) => c.recipient,
        }
    }

    pub fn request(&self) -> (r: u8)
        ensures
            r == self.spec_request(),
    {
        match self {
            ControlSetup::In(c) => c.request,
            ControlSetup::Out(c) => c.request,
        }
    }

    pub fn value(&self) -> (r: u16)
        ensures
            r == self.spec_value(),
    {
        match self {
            ControlSetup::In(c) => c.value,
            ControlSetup::Out(c) => c.value,
        }
    }

    pub fn index(&self) -> (r: u16)
        ensures
            r == self.spec_index(),
    {
        match self {
            ControlSetup::In(c) => c.index,
            ControlSetup::Out(c) => c.index,
        }
    }
}

} // verus!
