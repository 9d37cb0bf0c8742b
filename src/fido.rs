//! The FIDO/U2F HID interface: interrupt reports relayed to the token's raw HID
//! device, and the HID descriptors presented to the host.
use crate::control::{ControlSetup, ControlType, Recipient, spec_control_type, spec_is_in, spec_recipient};
use crate::device::REQUEST_GET_DESCRIPTOR;
use crate::usb::{SetupPacket, UrbError, UsbEndpoint, EP_ATTR_INTERRUPT, truncated};
use vstd::prelude::*;

verus! {

/// HID usage page of FIDO authenticators.
pub const FIDO_USAGE_PAGE: u16 = 0xF1D0;
/// HID descriptor type of a report descriptor.
pub const HID_DESCRIPTOR_TYPE_REPORT: u8 = 0x22;
/// HID class request SetIdle.
pub const HID_REQUEST_SET_IDLE: u8 = 0x0A;

/// Whether a raw HID device is the token's FIDO interface.
pub fn is_fido_device(usage_page: u16, vendor_id: u16, product_id: u16, want_vendor: u16, want_product: u16) -> (r: bool)
    ensures
        r == (usage_page == FIDO_USAGE_PAGE && vendor_id == want_vendor && product_id == want_product),
{
    usage_page == FIDO_USAGE_PAGE && vendor_id == want_vendor && product_id == want_product
}

/// A HID class descriptor: nine bytes, descriptor type 0x21.
pub open spec fn spec_is_hid_class_descriptor(d: Seq<u8>) -> bool {
    d.len() == 9 && d[0] == 9 && d[1] == 0x21
}

pub fn is_hid_class_descriptor(d: &[u8]) -> (r: bool)
    ensures
        r == spec_is_hid_class_descriptor(d@),
{
    d.len() == 9 && d[0] == 9 && d[1] == 0x21
}

/// Which endpoint of the FIDO interface a URB addresses.
#[derive(Debug, Copy, Clone, PartialEq, Eq, Structural)]
pub enum FidoEndpoint {
    Control,
    InterruptIn,
    InterruptOut,
}

/// What the FIDO interface does with a control request.
#[derive(Debug)]
pub enum FidoControl {
    /// Answer with these bytes.
    Reply(Vec<u8>),
    /// Read the report descriptor from the HID device, store it with
    /// `store_report_descriptor`, then answer with `report_descriptor_reply`.
    FetchReportDescriptor,
}

/// The kind of control request the FIDO interface accepts.
pub enum FidoRequest {
    /// Standard IN GetDescriptor to the interface for the HID report descriptor.
    GetReportDescriptor,
    /// Class OUT SetIdle to the interface.
    SetIdle,
}

pub open spec fn spec_fido_request(setup: SetupPacket) -> Option<FidoRequest> {
    let ct = spec_control_type(setup.request_type);
    let rc = spec_recipient(setup.request_type);
    if spec_is_in(setup.request_type) && ct == Some(ControlType::Standard) && rc == Some(
        Recipient::Interface,
    ) && setup.request == REQUEST_GET_DESCRIPTOR && setup.value / 256
        == HID_DESCRIPTOR_TYPE_REPORT as int {
        Some(FidoRequest::GetReportDescriptor)
    } else if !spec_is_in(setup.request_type) && ct == Some(ControlType::Class) && rc == Some(
        Recipient::Interface,
    ) && setup.request == HID_REQUEST_SET_IDLE {
        Some(FidoRequest::SetIdle)
    } else {
        None
    }
}

/// The FIDO/U2F interface of the composite device.
pub struct FIDOInterfaceHandler {
    class_desc: Vec<u8>,
    report_desc: Option<Vec<u8>>,
}

impl FIDOInterfaceHandler {
    pub closed spec fn spec_class_desc(&self) -> Seq<u8> {
        self.class_desc@
    }

    pub closed spec fn spec_report_desc(&self) -> Option<Seq<u8>> {
        match self.report_desc {
            Some(d) => Some(d@),
            None => None,
        }
    }

    /// The handler for a token whose HID class descriptor is `class_desc`.
    pub fn new(class_desc: Vec<u8>) -> (r: FIDOInterfaceHandler)
        ensures
            r.spec_class_desc() == class_desc@,
            r.spec_report_desc() is None,
    {
        FIDOInterfaceHandler { class_desc, report_desc: None }
    }

    /// Interrupt IN 0x82 and interrupt OUT 0x02, 64-byte packets, interval 6.
    pub fn endpoints() -> (r: Vec<UsbEndpoint>)
        ensures
            r@ == seq![
                UsbEndpoint { address: 0x82, attributes: EP_ATTR_INTERRUPT, max_packet_size: 64, interval: 6 },
                UsbEndpoint { address: 0x02, attributes: EP_ATTR_INTERRUPT, max_packet_size: 64, interval: 6 },
            ],
    {
        let r = vec![
            UsbEndpoint { address: 0x82, attributes: EP_ATTR_INTERRUPT, max_packet_size: 64, interval: 6 },
            UsbEndpoint { address: 0x02, attributes: EP_ATTR_INTERRUPT, max_packet_size: 64, interval: 6 },
        ];
        assert(r@ =~= seq![
            UsbEndpoint { address: 0x82, attributes: EP_ATTR_INTERRUPT, max_packet_size: 64, interval: 6 },
            UsbEndpoint { address: 0x02, attributes: EP_ATTR_INTERRUPT, max_packet_size: 64, interval: 6 },
        ]);
        r
    }

    pub fn get_class_specific_descriptor(&self) -> (r: Vec<u8>)
        ensures
            r@ == self.spec_class_desc(),
    {
        let mut r: Vec<u8> = Vec::new();
        crate::proto::push_all(&mut r, self.class_desc.as_slice());
        r
    }

    /// Which endpoint a URB addresses; any other endpoint is refused.
    pub fn endpoint_kind(ep: &UsbEndpoint) -> (r: Result<FidoEndpoint, UrbError>)
        ensures
            ep.spec_is_ep0() ==> r == Ok::<FidoEndpoint, UrbError>(FidoEndpoint::Control),
            !ep.spec_is_ep0() && ep.address == 0x82 ==> r == Ok::<FidoEndpoint, UrbError>(
                FidoEndpoint::InterruptIn,
            ),
            !ep.spec_is_ep0() && ep.address == 0x02 ==> r == Ok::<FidoEndpoint, UrbError>(
                FidoEndpoint::InterruptOut,
            ),
            !ep.spec_is_ep0() && ep.address != 0x82 && ep.address != 0x02 ==> r == Err::<
                FidoEndpoint,
                UrbError,
            >(UrbError::InvalidInput),
    {
        if ep.is_ep0() {
            Ok(FidoEndpoint::Control)
        } else if ep.address == 0x82 {
            Ok(FidoEndpoint::InterruptIn)
        } else if ep.address == 0x02 {
            Ok(FidoEndpoint::InterruptOut)
        } else {
            Err(UrbError::InvalidInput)
        }
    }

    /// Control requests: the report descriptor (fetched once, then cached) cut to
    /// the transfer buffer length, and SetIdle accepted with an empty answer;
    /// anything else is refused.
    pub fn handle_control(&self, setup: &SetupPacket, req: &[u8], transfer_buffer_length: u32) -> (r: Result<FidoControl, UrbError>)
        ensures
            spec_control_type(setup.request_type) is None || spec_recipient(setup.request_type) is None
                ==> r == Err::<FidoControl, UrbError>(UrbError::InvalidInput),
            spec_control_type(setup.request_type) is Some && spec_recipient(setup.request_type) is Some
                ==> match spec_fido_request(*setup) {
                Some(FidoRequest::GetReportDescriptor) => match self.spec_report_desc() {
                    Some(d) => (r matches Ok(FidoControl::Reply(v)) && v@ == truncated(d, transfer_buffer_length)),
                    None => r matches Ok(FidoControl::FetchReportDescriptor),
                },
                Some(FidoRequest::SetIdle) => (r matches Ok(FidoControl::Reply(v)) && v@ == Seq::<u8>::empty()),
                None => r == Err::<FidoControl, UrbError>(UrbError::Unsupported),
            },
    {
        let control = ControlSetup::new(setup, req)?;
        match control {
            ControlSetup::In(c) => {
                if c.control_type == ControlType::Standard && c.recipient == Recipient::Interface
                    && c.request == REQUEST_GET_DESCRIPTOR && c.value / 256 == HID_DESCRIPTOR_TYPE_REPORT as u16 {
                    match &self.report_desc {
                        Some(_) => Ok(FidoControl::Reply(self.report_descriptor_reply(transfer_buffer_length))),
                        None => Ok(FidoControl::FetchReportDescriptor),
                    }
                } else {
                    Err(UrbError::Unsupported)
                }
            },
            ControlSetup::Out(c) => {
                if c.control_type == ControlType::Class && c.recipient == Recipient::Interface
                    && c.request == HID_REQUEST_SET_IDLE {
                    Ok(FidoControl::Reply(Vec::new()))
                } else {
                    Err(UrbError::Unsupported)
                }
            },
        }
    }

    /// Caches the report descriptor read from the HID device.
    pub fn store_report_descriptor(&mut self, desc: Vec<u8>)
        ensures
            final(self).spec_report_desc() == Some(desc@),
            final(self).spec_class_desc() == old(self).spec_class_desc(),
    {
        self.report_desc = Some(desc);
    }

    /// The cached report descriptor cut to the transfer buffer length; empty when
    /// none is cached.
    pub fn report_descriptor_reply(&self, transfer_buffer_length: u32) -> (r: Vec<u8>)
        ensures
            match self.spec_report_desc() {
                Some(d) => r@ == truncated(d, transfer_buffer_length),
                None => r@ == Seq::<u8>::empty(),
            },
    {
        match &self.report_desc {
            Some(d) => {
                let mut out: Vec<u8> = Vec::new();
                crate::proto::push_all(&mut out, d.as_slice());
                crate::usb::truncate_to(&mut out, transfer_buffer_length);
                out
            },
            None => Vec::new(),
        }
    }
}

/// The HID output report for `req`: a zero report ID followed by the request.
pub fn output_report(req: &[u8]) -> (r: Vec<u8>)
    ensures
        r@ == seq![0x00u8] + req@,
{
    let mut r: Vec<u8> = vec![0x00];
    crate::proto::push_all(&mut r, req);
    assert(r@ =~= seq![0x00u8] + req@);
    r
}

/// The answer to an interrupt IN read into `buffer`: the `read` bytes that arrived,
/// or nothing when the read failed.
pub fn input_report(buffer: Vec<u8>, read: Option<usize>) -> (r: Vec<u8>)
    ensures
        match read {
            Some(n) => r@ == buffer@.subrange(0, if n < buffer@.len() { n as int } else { buffer@.len() as int }),
            None => r@ == Seq::<u8>::empty(),
        },
{
    match read {
        Some(n) => {
            let mut b = buffer;
            if n < b.len() {
                b.truncate(n);
            }
            assert(b@ =~= buffer@.subrange(0, if n < buffer@.len() { n as int } else { buffer@.len() as int }));
            b
        },
        None => Vec::new(),
    }
}

} // verus!
