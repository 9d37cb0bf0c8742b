//! Plain USB values exchanged with the USB/IP server: setup packets, endpoint
//! descriptions, and the errors that stall a request.
use vstd::prelude::*;

verus! {

/// The eight-byte setup packet of a control transfer.
#[derive(Debug, Copy, Clone, PartialEq, Eq, Structural)]
pub struct SetupPacket {
    pub request_type: u8,
    pub request: u8,
    pub value: u16,
    pub index: u16,
    pub length: u16,
}

/// Transfer type codes of an endpoint's attributes.
pub const EP_ATTR_CONTROL: u8 = 0;
pub const EP_ATTR_BULK: u8 = 2;
pub const EP_ATTR_INTERRUPT: u8 = 3;

/// An endpoint that an interface exposes to the USB/IP client.
#[derive(Debug, Copy, Clone, PartialEq, Eq, Structural)]
pub struct UsbEndpoint {
    pub address: u8,
    pub attributes: u8,
    pub max_packet_size: u16,
    pub interval: u8,
}

impl UsbEndpoint {
    /// Endpoint zero, whichever its direction bit.
    pub open spec fn spec_is_ep0(self) -> bool {
        self.address % 128 == 0
    }

    pub fn is_ep0(&self) -> (r: bool)
        ensures
            r == self.spec_is_ep0(),
    {
        self.address % 128 == 0
    }
}

/// Why a request is refused; the USB/IP server stalls the endpoint.
#[derive(Debug, Copy, Clone, PartialEq, Eq, Structural)]
pub enum UrbError {
    InvalidInput,
    InvalidData,
    Unsupported,
    NotFound,
    /// A backend call failed.
    Backend,
}

/// The first `limit` bytes of `data`, or all of it when shorter.
pub open spec fn truncated(data: Seq<u8>, limit: u32) -> Seq<u8> {
    if data.len() > limit {
        data.subrange(0, limit as int)
    } else {
        data
    }
}

/// Cuts `data` down to the host's transfer buffer length.
pub fn truncate_to(data: &mut Vec<u8>, limit: u32)
    ensures
        final(data)@ == truncated(old(data)@, limit),
{
    if data.len() as u64 > limit as u64 {
        data.truncate(limit as usize);
    }
}

} // verus!
