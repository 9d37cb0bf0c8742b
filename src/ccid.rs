//! The CCID bridge: answers the host's CCID bulk messages for the single slot of
//! the relayed token. Card work (PC/SC connect, status, transmit, disconnect) is
//! done by the caller: a step that needs it is handed back as a request, and its
//! outcome is handed in again to finish the response.
use crate::atr::{atr_parameters, spec_atr_parameters};
use crate::consts;
use crate::proto::{
    decode_error, header_of, spec_append, spec_new_with_status, spec_report, spec_set_status,
    CCIDError, Command, CommonMessageHeader, Response, ResponseView,
    SlotErrorRegister, SlotStatusRegister,
};
use crate::usb::{SetupPacket, UrbError, UsbEndpoint, EP_ATTR_BULK};
use std::collections::VecDeque;
use vstd::prelude::*;

verus! {

/// The class descriptor presented for the CCID interface, before the clock and data
/// rate windows are copied from the backing device.
pub open spec fn ccid_descriptor_template() -> Seq<u8> {
    seq![
        0x36, 0x21, 0x10, 0x01, 0x00, 0x07, 0x02, 0x00, 0x00, 0x00,
        0x00, 0x00, 0x00, 0x00, 0x00, 0x00, 0x00, 0x00, 0x00, 0x00,
        0x00, 0x00, 0x00, 0x00, 0x00, 0x00, 0x00, 0x00, 0xF6, 0xFF,
        0x00, 0x00, 0x00, 0x00, 0x00, 0x00, 0x00, 0x00, 0x00, 0x00,
        0xFE, 0x00, 0x04, 0x00, 0x00, 0x00, 0x01, 0x00, 0xFF, 0xFF,
        0x00, 0x00, 0x00, 0x01,
    ]
}

/// The presented class descriptor: the template with bytes 10..18 (default and
/// maximum clock) and 19..27 (data rate and maximum data rate) of the device's own.
pub open spec fn spec_ccid_descriptor(device: Seq<u8>) -> Seq<u8> {
    let t = ccid_descriptor_template();
    t.subrange(0, 10) + device.subrange(10, 18) + t.subrange(18, 19) + device.subrange(19, 27)
        + t.subrange(27, 54)
}

/// A CCID class descriptor: 54 bytes, descriptor type 0x21.
pub open spec fn spec_is_ccid_class_descriptor(d: Seq<u8>) -> bool {
    d.len() == 0x36 && d[0] == 0x36 && d[1] == 0x21
}

pub fn is_ccid_class_descriptor(d: &[u8]) -> (r: bool)
    ensures
        r == spec_is_ccid_class_descriptor(d@),
{
    d.len() == 0x36 && d[0] == 0x36 && d[1] == 0x21
}

/// Builds the presented class descriptor from the device's own.
pub fn ccid_descriptor(device: &[u8]) -> (r: Vec<u8>)
    requires
        device@.len() >= 27,
    ensures
        r@ == spec_ccid_descriptor(device@),
{
    let mut d: Vec<u8> = vec![
        0x36, 0x21, 0x10, 0x01, 0x00, 0x07, 0x02, 0x00, 0x00, 0x00,
        0x00, 0x00, 0x00, 0x00, 0x00, 0x00, 0x00, 0x00, 0x00, 0x00,
        0x00, 0x00, 0x00, 0x00, 0x00, 0x00, 0x00, 0x00, 0xF6, 0xFF,
        0x00, 0x00, 0x00, 0x00, 0x00, 0x00, 0x00, 0x00, 0x00, 0x00,
        0xFE, 0x00, 0x04, 0x00, 0x00, 0x00, 0x01, 0x00, 0xFF, 0xFF,
        0x00, 0x00, 0x00, 0x01,
    ];
    assert(d@ =~= ccid_descriptor_template());
    let mut i: usize = 10;
    while i < 27
        invariant
            10 <= i <= 27,
            device@.len() >= 27,
            d@.len() == 54,
            forall|j: int| 0 <= j < 54 ==> #[trigger] d@[j] == if 10 <= j < i && j != 18 {
                device@[j]
            } else {
                ccid_descriptor_template()[j]
            },
        decreases 27 - i,
    {
        if i != 18 {
            d.set(i, device[i]);
        }
        i = i + 1;
    }
    assert(d@ =~= spec_ccid_descriptor(device@));
    d
}

/// The state of the bridge.
pub struct CcidView {
    /// A card handle is held.
    pub card: bool,
    /// Encoded responses waiting for Bulk-IN, oldest first.
    pub queue: Seq<Seq<u8>>,
    /// The T=1 parameter block derived from the ATR at construction.
    pub parameter: Option<Seq<u8>>,
    /// The class descriptor of the interface.
    pub descriptor: Seq<u8>,
}

/// Why the bridge could not be built.
#[derive(Debug, Copy, Clone, PartialEq, Eq, Structural)]
pub enum CcidSetupError {
    /// The device's descriptor is not a CCID class descriptor.
    NoClassDescriptor,
    /// The ATR read from the reader is shorter than two bytes.
    ShortAtr,
}

/// What a Bulk-OUT message left for the caller to do.
#[derive(Debug)]
pub enum BulkOut {
    /// The response is queued.
    Queued,
    /// The response is queued and the card was released: disconnect it with reset.
    QueuedReleaseCard,
    /// Power on: connect the card first when `connect`, then read its status; finish
    /// with `complete_power_on`.
    PowerOn { header: CommonMessageHeader, connect: bool },
    /// Send `apdu` to the card inside a transaction; finish with `complete_transmit`.
    Transmit { header: CommonMessageHeader, apdu: Vec<u8> },
}

/// Result of the card work of a power-on request.
#[derive(Debug)]
pub enum PowerOnOutcome {
    ConnectFailed,
    StatusFailed,
    /// The card's ATR.
    Atr(Vec<u8>),
}

/// Result of the card work of a transmit request.
#[derive(Debug)]
pub enum TransmitOutcome {
    /// The transaction could not begin, or the transmission failed.
    Failed,
    /// The response APDU.
    Reply(Vec<u8>),
}

/// Which endpoint of the CCID interface a URB addresses.
#[derive(Debug, Copy, Clone, PartialEq, Eq, Structural)]
pub enum CcidEndpoint {
    Control,
    BulkIn,
    BulkOut,
    Other,
}

/// How the bridge answers a decoded command.
pub enum StepView {
    /// Queue `response`; afterwards a card is held exactly when `card`.
    Reply { response: ResponseView, card: bool },
    /// Card work for power-on is needed.
    PowerOn { header: CommonMessageHeader, connect: bool },
    /// `apdu` is to be sent to the card.
    Transmit { header: CommonMessageHeader, apdu: Seq<u8> },
}

/// The successful empty response to the command with header `h`.
pub open spec fn spec_new_response(h: CommonMessageHeader) -> ResponseView {
    spec_new_with_status(h, SlotStatusRegister::ICCActiveSuccess, SlotErrorRegister::UnsupportedCommand)
}

/// A command that the bridge refuses before looking at it: a slot other than 0, or,
/// while no card is held, anything but power-on, power-off and slot status.
pub open spec fn is_refused(h: CommonMessageHeader, card: bool) -> bool {
    h.bSlot != 0 || (!card && h.bMessageType != consts::PC_to_RDR_IccPowerOn && h.bMessageType
        != consts::PC_to_RDR_IccPowerOff && h.bMessageType != consts::PC_to_RDR_GetSlotStatus)
}

/// How the bridge answers the accepted command message `s`. Power-off reports an
/// inactive card, success, and error byte 0x00; Abort answers success and leaves
/// the queue as it is.
pub open spec fn spec_step(s: Seq<u8>, card: bool, parameter: Option<Seq<u8>>) -> StepView {
    let h = header_of(s);
    let t = h.bMessageType;
    let unsupported = spec_new_with_status(
        h,
        SlotStatusRegister::ICCActiveFailure,
        SlotErrorRegister::UnsupportedCommand,
    );
    if is_refused(h, card) {
        StepView::Reply {
            response: spec_report(
                h,
                SlotStatusRegister::ICCAbsentFailure,
                SlotErrorRegister::InvalidParameter(5),
            ),
            card,
        }
    } else if t == consts::PC_to_RDR_Abort {
        StepView::Reply { response: spec_new_response(h), card }
    } else if t == consts::PC_to_RDR_GetSlotStatus {
        StepView::Reply {
            response: if card {
                spec_new_response(h)
            } else {
                spec_set_status(
                    spec_new_response(h),
                    SlotStatusRegister::ICCInactiveSuccess,
                    SlotErrorRegister::UnsupportedCommand,
                )
            },
            card,
        }
    } else if t == consts::PC_to_RDR_IccPowerOff {
        StepView::Reply {
            response: spec_set_status(
                spec_new_response(h),
                SlotStatusRegister::ICCInactiveSuccess,
                SlotErrorRegister::UnsupportedCommand,
            ),
            card: false,
        }
    } else if t == consts::PC_to_RDR_IccPowerOn {
        StepView::PowerOn { header: h, connect: !card }
    } else if t == consts::PC_to_RDR_XfrBlock {
        if h.dwLength > 0 {
            StepView::Transmit { header: h, apdu: s.subrange(10, s.len() as int) }
        } else {
            StepView::Reply { response: spec_new_response(h), card }
        }
    } else if t == consts::PC_to_RDR_GetParameters {
        match parameter {
            Some(p) => StepView::Reply { response: spec_append(spec_new_response(h), p), card },
            None => StepView::Reply { response: unsupported, card },
        }
    } else {
        StepView::Reply { response: unsupported, card }
    }
}

/// The header read from a message shorter than a command, its missing bytes taken
/// as zero.
pub open spec fn short_header(s: Seq<u8>) -> CommonMessageHeader {
    header_of(s + seq![0u8, 0, 0, 0, 0, 0, 0])
}

/// `out`, `before` and `after` carry out `step`.
pub open spec fn takes_step(step: StepView, out: BulkOut, before: CcidView, after: CcidView) -> bool {
    match step {
        StepView::Reply { response, card } => {
            &&& after == CcidView { card, queue: before.queue.push(response.bytes()), ..before }
            &&& if before.card && !card {
                out is QueuedReleaseCard
            } else {
                out is Queued
            }
        },
        StepView::PowerOn { header, connect } => {
            &&& after == before
            &&& out == (BulkOut::PowerOn { header, connect })
        },
        StepView::Transmit { header, apdu } => {
            &&& after == before
            &&& out matches BulkOut::Transmit { header: h, apdu: a } && h == header && a@ == apdu
        },
    }
}

/// The response to a power-on request after its card work. An ATR too long for the
/// length field counts as a failed status read.
pub open spec fn spec_power_on_response(h: CommonMessageHeader, outcome: PowerOnOutcome) -> ResponseView {
    match outcome {
        PowerOnOutcome::Atr(atr) if atr@.len() <= u32::MAX => spec_append(spec_new_response(h), atr@),
        _ => spec_set_status(
            spec_new_response(h),
            SlotStatusRegister::ICCInactiveFailure,
            SlotErrorRegister::HardwareError,
        ),
    }
}

/// The response to a transmit request after its card work. A reply too long for the
/// length field counts as a failed transmission.
pub open spec fn spec_transmit_response(h: CommonMessageHeader, outcome: TransmitOutcome) -> ResponseView {
    match outcome {
        TransmitOutcome::Reply(apdu) if apdu@.len() <= u32::MAX => spec_append(
            spec_new_response(h),
            apdu@,
        ),
        _ => spec_set_status(
            spec_new_response(h),
            SlotStatusRegister::ICCActiveFailure,
            SlotErrorRegister::CommandSlotBusy,
        ),
    }
}

/// The bridge between CCID bulk messages and the card behind the reader.
pub struct CCIDInterfaceHandler {
    card_connected: bool,
    ccid_descriptor: Vec<u8>,
    out_queue: VecDeque<Vec<u8>>,
    parameter: Option<[u8; 7]>,
}

impl View for CCIDInterfaceHandler {
    type V = CcidView;

    closed spec fn view(&self) -> CcidView {
        CcidView {
            card: self.card_connected,
            queue: self.out_queue@.map_values(|v: Vec<u8>| v@),
            parameter: match self.parameter {
                Some(p) => Some(p@),
                None => None,
            },
            descriptor: self.ccid_descriptor@,
        }
    }
}

impl CCIDInterfaceHandler {
    /// The bridge for a reader whose card was just connected and answered with `atr`;
    /// `class_descriptor` is the backing device's CCID class descriptor.
    pub fn new(class_descriptor: &[u8], atr: &[u8]) -> (r: Result<CCIDInterfaceHandler, CcidSetupError>)
        ensures
            !spec_is_ccid_class_descriptor(class_descriptor@) ==> r == Err::<
                CCIDInterfaceHandler,
                CcidSetupError,
            >(CcidSetupError::NoClassDescriptor),
            spec_is_ccid_class_descriptor(class_descriptor@) && atr@.len() < 2 ==> r == Err::<
                CCIDInterfaceHandler,
                CcidSetupError,
            >(CcidSetupError::ShortAtr),
            spec_is_ccid_class_descriptor(class_descriptor@) && atr@.len() >= 2 ==> (r matches Ok(
                b,
            ) && b@ == (CcidView {
                card: true,
                queue: Seq::empty(),
                parameter: spec_atr_parameters(atr@),
                descriptor: spec_ccid_descriptor(class_descriptor@),
            })),
    {
        if !is_ccid_class_descriptor(class_descriptor) {
            return Err(CcidSetupError::NoClassDescriptor);
        }
        if atr.len() < 2 {
            return Err(CcidSetupError::ShortAtr);
        }
        let b = CCIDInterfaceHandler {
            card_connected: true,
            ccid_descriptor: ccid_descriptor(class_descriptor),
            out_queue: VecDeque::new(),
            parameter: atr_parameters(atr),
        };
        assert(b@.queue =~= Seq::empty());
        Ok(b)
    }

    /// Bulk IN (0x81) and Bulk OUT (0x01), 512-byte packets, interval 0.
    pub fn endpoints() -> (r: Vec<UsbEndpoint>)
        ensures
            r@ == seq![
                UsbEndpoint { address: 0x81, attributes: EP_ATTR_BULK, max_packet_size: 0x200, interval: 0 },
                UsbEndpoint { address: 0x01, attributes: EP_ATTR_BULK, max_packet_size: 0x200, interval: 0 },
            ],
    {
        let r = vec![
            UsbEndpoint { address: 0x81, attributes: EP_ATTR_BULK, max_packet_size: 0x200, interval: 0 },
            UsbEndpoint { address: 0x01, attributes: EP_ATTR_BULK, max_packet_size: 0x200, interval: 0 },
        ];
        assert(r@ =~= seq![
            UsbEndpoint { address: 0x81, attributes: EP_ATTR_BULK, max_packet_size: 0x200, interval: 0 },
            UsbEndpoint { address: 0x01, attributes: EP_ATTR_BULK, max_packet_size: 0x200, interval: 0 },
        ]);
        r
    }

    pub fn get_class_specific_descriptor(&self) -> (r: Vec<u8>)
        ensures
            r@ == self@.descriptor,
    {
        let mut r: Vec<u8> = Vec::new();
        crate::proto::push_all(&mut r, self.ccid_descriptor.as_slice());
        r
    }

    /// The stored parameter block is seven bytes long.
    pub proof fn lemma_parameter_len(&self)
        ensures
            self@.parameter matches Some(p) ==> p.len() == 7,
    {
    }

    /// Whether a card handle is held.
    pub fn has_card(&self) -> (r: bool)
        ensures
            r == self@.card,
    {
        self.card_connected
    }

    /// Releases the card. Returns whether a card was held, which the caller then
    /// disconnects with reset.
    pub fn drop_card(&mut self) -> (release: bool)
        ensures
            release == old(self)@.card,
            final(self)@ == (CcidView { card: false, ..old(self)@ }),
    {
        let release = self.card_connected;
        self.card_connected = false;
        release
    }

    fn enqueue(&mut self, response: &Response)
        ensures
            final(self)@ == (CcidView { queue: old(self)@.queue.push(response@.bytes()), ..old(self)@ }),
    {
        let frame = response.encode();
        self.out_queue.push_back(frame);
        assert(self@.queue =~= old(self)@.queue.push(response@.bytes()));
    }

    /// Bulk IN: the oldest queued response, or nothing when none waits.
    pub fn bulk_in(&mut self) -> (r: Vec<u8>)
        ensures
            old(self)@.queue.len() == 0 ==> r@ == Seq::<u8>::empty() && final(self)@ == old(self)@,
            old(self)@.queue.len() > 0 ==> r@ == old(self)@.queue[0] && final(self)@ == (CcidView {
                queue: old(self)@.queue.drop_first(),
                ..old(self)@
            }),
    {
        match self.out_queue.pop_front() {
            Some(v) => {
                assert(self@.queue =~= old(self)@.queue.drop_first());
                v
            },
            None => Vec::new(),
        }
    }

    /// Which endpoint a URB addresses: endpoint zero, or the bulk endpoint given by the
    /// endpoint number and the direction bit of the setup packet.
    pub fn endpoint_kind(ep: &UsbEndpoint, setup: &SetupPacket) -> (r: CcidEndpoint)
        ensures
            ep.spec_is_ep0() ==> r == CcidEndpoint::Control,
            !ep.spec_is_ep0() ==> r == (if ep.address | (setup.request_type & 0x80) == 0x81 {
                CcidEndpoint::BulkIn
            } else if ep.address | (setup.request_type & 0x80) == 0x01 {
                CcidEndpoint::BulkOut
            } else {
                CcidEndpoint::Other
            }),
    {
        if ep.is_ep0() {
            return CcidEndpoint::Control;
        }
        let a = ep.address | (setup.request_type & 0x80);
        if a == 0x81 {
            CcidEndpoint::BulkIn
        } else if a == 0x01 {
            CcidEndpoint::BulkOut
        } else {
            CcidEndpoint::Other
        }
    }

    /// Class requests on endpoint zero: Abort (0x01) is accepted with an empty
    /// result; GetClockFrequencies, GetDataRates and anything else are refused.
    pub fn handle_control(&self, setup: &SetupPacket) -> (r: Result<Vec<u8>, UrbError>)
        ensures
            setup.request == 0x01 ==> (r matches Ok(v) && v@ == Seq::<u8>::empty()),
            setup.request != 0x01 ==> r == Err::<Vec<u8>, UrbError>(UrbError::InvalidInput),
    {
        if setup.request == 0x01 {
            Ok(Vec::new())
        } else {
            Err(UrbError::InvalidInput)
        }
    }
}


impl CCIDInterfaceHandler {
    /// Bulk OUT: decodes one command message and answers it. A message that does not
    /// decode is answered on the queue: one shorter than ten bytes with parameter
    /// error 1 for the header its bytes begin (missing bytes read as zero), any other
    /// with its error response. An accepted command is answered as `spec_step` says;
    /// a step that needs the card is handed back without touching the queue.
    pub fn bulk_out(&mut self, req: &[u8]) -> (out: BulkOut)
        ensures
            match decode_error(req@) {
                Some(CCIDError::BadCommand) => out is Queued && final(self)@ == (CcidView {
                    queue: old(self)@.queue.push(
                        spec_report(
                            short_header(req@),
                            SlotStatusRegister::ICCInactiveFailure,
                            SlotErrorRegister::InvalidParameter(1),
                        ).bytes(),
                    ),
                    ..old(self)@
                }),
                Some(CCIDError::CommandError(h)) => out is Queued && final(self)@ == (CcidView {
                    queue: old(self)@.queue.push(spec_report(h.inner, h.bStatus, h.bError).bytes()),
                    ..old(self)@
                }),
                None => takes_step(
                    spec_step(req@, old(self)@.card, old(self)@.parameter),
                    out,
                    old(self)@,
                    final(self)@,
                ),
            },
    {
        let cmd = match Command::decode(req) {
            Ok(c) => c,
            Err(CCIDError::BadCommand) => {
                let mut padded: Vec<u8> = Vec::new();
                crate::proto::push_all(&mut padded, req);
                crate::proto::push_all(&mut padded, &[0u8, 0, 0, 0, 0, 0, 0]);
                assert(padded@ =~= req@ + seq![0u8, 0, 0, 0, 0, 0, 0]);
                let header = match CommonMessageHeader::decode(padded.as_slice()) {
                    Some(h) => h,
                    None => CommonMessageHeader { bMessageType: 0, dwLength: 0, bSlot: 0, bSeq: 0 },
                };
                let response = Response::new_report(
                    header,
                    SlotStatusRegister::ICCInactiveFailure,
                    SlotErrorRegister::InvalidParameter(1),
                );
                self.enqueue(&response);
                return BulkOut::Queued;
            },
            Err(CCIDError::CommandError(h)) => {
                let response = Response::new_report(h.inner, h.bStatus, h.bError);
                self.enqueue(&response);
                return BulkOut::Queued;
            },
        };
        proof {
            vstd::bytes::lemma_auto_spec_u32_to_from_le_bytes();
            vstd::bytes::lemma_auto_spec_u16_to_from_le_bytes();
            crate::proto::lemma_header_of_bytes(cmd.spec_header(), cmd.body_bytes());
        }
        let h = *cmd.get_header();
        let t = h.bMessageType;
        if h.bSlot != 0 || (!self.card_connected && t != consts::PC_to_RDR_IccPowerOn && t
            != consts::PC_to_RDR_IccPowerOff && t != consts::PC_to_RDR_GetSlotStatus) {
            let response = Response::new_report(
                h,
                SlotStatusRegister::ICCAbsentFailure,
                SlotErrorRegister::InvalidParameter(5),
            );
            self.enqueue(&response);
            return BulkOut::Queued;
        }
        match cmd {
            Command::PC_to_RDR_Abort { .. } => {
                let response = Response::new(h);
                self.enqueue(&response);
                BulkOut::Queued
            },
            Command::PC_to_RDR_GetSlotStatus { .. } => {
                let mut response = Response::new(h);
                if !self.card_connected {
                    response.set_status(
                        SlotStatusRegister::ICCInactiveSuccess,
                        SlotErrorRegister::UnsupportedCommand,
                    );
                }
                self.enqueue(&response);
                BulkOut::Queued
            },
            Command::PC_to_RDR_IccPowerOff { .. } => {
                let mut response = Response::new(h);
                response.set_status(
                    SlotStatusRegister::ICCInactiveSuccess,
                    SlotErrorRegister::UnsupportedCommand,
                );
                let release = self.drop_card();
                self.enqueue(&response);
                if release {
                    BulkOut::QueuedReleaseCard
                } else {
                    BulkOut::Queued
                }
            },
            Command::PC_to_RDR_IccPowerOn { .. } => BulkOut::PowerOn { header: h, connect: !self.card_connected },
            Command::PC_to_RDR_XfrBlock { abData, .. } => {
                assert(abData@ =~= req@.subrange(10, req@.len() as int));
                if h.dwLength > 0 {
                    BulkOut::Transmit { header: h, apdu: abData }
                } else {
                    let response = Response::new(h);
                    self.enqueue(&response);
                    BulkOut::Queued
                }
            },
            Command::PC_to_RDR_GetParameters { .. } => {
                match &self.parameter {
                    Some(p) => {
                        let mut response = Response::new(h);
                        let _ = response.append(p.as_slice());
                        self.enqueue(&response);
                    },
                    None => {
                        let response = Response::new_with_status(
                            h,
                            SlotStatusRegister::ICCActiveFailure,
                            SlotErrorRegister::UnsupportedCommand,
                        );
                        self.enqueue(&response);
                    },
                }
                BulkOut::Queued
            },
            _ => {
                let response = Response::new_with_status(
                    h,
                    SlotStatusRegister::ICCActiveFailure,
                    SlotErrorRegister::UnsupportedCommand,
                );
                self.enqueue(&response);
                BulkOut::Queued
            },
        }
    }

    /// Finishes a power-on request with the outcome of its card work and queues the
    /// response. A card is held afterwards unless the connection failed.
    pub fn complete_power_on(&mut self, header: CommonMessageHeader, outcome: PowerOnOutcome)
        ensures
            final(self)@ == (CcidView {
                card: card_after_power_on(old(self)@.card, outcome),
                queue: old(self)@.queue.push(spec_power_on_response(header, outcome).bytes()),
                ..old(self)@
            }),
    {
        let mut response = Response::new(header);
        match outcome {
            PowerOnOutcome::ConnectFailed => {
                response.set_status(
                    SlotStatusRegister::ICCInactiveFailure,
                    SlotErrorRegister::HardwareError,
                );
            },
            PowerOnOutcome::StatusFailed => {
                self.card_connected = true;
                response.set_status(
                    SlotStatusRegister::ICCInactiveFailure,
                    SlotErrorRegister::HardwareError,
                );
            },
            PowerOnOutcome::Atr(atr) => {
                self.card_connected = true;
                if atr.len() as u64 <= u32::MAX as u64 {
                    let _ = response.append(atr.as_slice());
                } else {
                    response.set_status(
                        SlotStatusRegister::ICCInactiveFailure,
                        SlotErrorRegister::HardwareError,
                    );
                }
            },
        }
        self.enqueue(&response);
    }

    /// Finishes a transmit request with the outcome of its card work and queues the
    /// response; the card stays as it was.
    pub fn complete_transmit(&mut self, header: CommonMessageHeader, outcome: TransmitOutcome)
        ensures
            final(self)@ == (CcidView {
                queue: old(self)@.queue.push(spec_transmit_response(header, outcome).bytes()),
                ..old(self)@
            }),
    {
        let mut response = Response::new(header);
        match outcome {
            TransmitOutcome::Failed => {
                response.set_status(
                    SlotStatusRegister::ICCActiveFailure,
                    SlotErrorRegister::CommandSlotBusy,
                );
            },
            TransmitOutcome::Reply(apdu) => {
                if apdu.len() as u64 <= u32::MAX as u64 {
                    let _ = response.append(apdu.as_slice());
                } else {
                    response.set_status(
                        SlotStatusRegister::ICCActiveFailure,
                        SlotErrorRegister::CommandSlotBusy,
                    );
                }
            },
        }
        self.enqueue(&response);
    }
}


/// One event on the bulk pipe: a response frame queued for an accepted Bulk-OUT
/// message, or one Bulk-IN read.
pub enum BulkEvent {
    Out(Seq<u8>),
    In,
}

/// Runs `events` on `queue` as `enqueue` and `bulk_in` do: the frames returned by
/// Bulk-IN reads that found one, and the queue left over.
pub open spec fn run_bulk(queue: Seq<Seq<u8>>, events: Seq<BulkEvent>) -> (Seq<Seq<u8>>, Seq<Seq<u8>>)
    decreases events.len(),
{
    if events.len() == 0 {
        (Seq::empty(), queue)
    } else {
        let (reads, q) = run_bulk(queue, events.drop_last());
        match events.last() {
            BulkEvent::Out(frame) => (reads, q.push(frame)),
            BulkEvent::In => if q.len() > 0 {
                (reads.push(q[0]), q.drop_first())
            } else {
                (reads, q)
            },
        }
    }
}

/// The frames queued by `events`, in order.
pub open spec fn queued_frames(events: Seq<BulkEvent>) -> Seq<Seq<u8>>
    decreases events.len(),
{
    if events.len() == 0 {
        Seq::empty()
    } else {
        match events.last() {
            BulkEvent::Out(frame) => queued_frames(events.drop_last()).push(frame),
            BulkEvent::In => queued_frames(events.drop_last()),
        }
    }
}

/// Nothing is lost or reordered: the frames read so far followed by those still
/// queued are the frames that were waiting followed by those queued since.
pub proof fn lemma_bulk_conservation(queue: Seq<Seq<u8>>, events: Seq<BulkEvent>)
    ensures
        run_bulk(queue, events).0 + run_bulk(queue, events).1 == queue + queued_frames(events),
    decreases events.len(),
{
    if events.len() > 0 {
        lemma_bulk_conservation(queue, events.drop_last());
        let (reads, q) = run_bulk(queue, events.drop_last());
        match events.last() {
            BulkEvent::Out(frame) => {
                assert(reads + q.push(frame) =~= (reads + q).push(frame));
                assert(queue + queued_frames(events.drop_last()).push(frame) =~= (queue
                    + queued_frames(events.drop_last())).push(frame));
            },
            BulkEvent::In => {
                if q.len() > 0 {
                    assert(reads.push(q[0]) + q.drop_first() =~= reads + q);
                }
            },
        }
    }
}

/// Responses come out in the order their commands came in: starting from an empty
/// queue, the i-th Bulk-IN read that returns a frame returns the i-th queued frame.
pub proof fn lemma_bulk_fifo(events: Seq<BulkEvent>, i: int)
    requires
        0 <= i < run_bulk(Seq::empty(), events).0.len(),
    ensures
        i < queued_frames(events).len(),
        run_bulk(Seq::empty(), events).0[i] == queued_frames(events)[i],
{
    lemma_bulk_conservation(Seq::empty(), events);
    let (reads, q) = run_bulk(Seq::empty(), events);
    assert(Seq::<Seq<u8>>::empty() + queued_frames(events) =~= queued_frames(events));
    assert((reads + q)[i] == reads[i]);
}

/// A command addressed to a slot other than 0 never changes the card: it is
/// answered at once, whatever its type, with an absent-card failure and parameter
/// error 5.
pub proof fn lemma_other_slot_keeps_card(s: Seq<u8>, card: bool, parameter: Option<Seq<u8>>)
    requires
        s.len() >= 7,
        header_of(s).bSlot != 0,
    ensures
        spec_step(s, card, parameter) == (StepView::Reply {
            response: spec_report(
                header_of(s),
                SlotStatusRegister::ICCAbsentFailure,
                SlotErrorRegister::InvalidParameter(5),
            ),
            card,
        }),
        ({
            let h = spec_report(
                header_of(s),
                SlotStatusRegister::ICCAbsentFailure,
                SlotErrorRegister::InvalidParameter(5),
            ).header();
            &&& h.bStatus == SlotStatusRegister::ICCAbsentFailure
            &&& h.bError == SlotErrorRegister::InvalidParameter(5)
            &&& h.inner.bSlot == header_of(s).bSlot
            &&& h.inner.bSeq == header_of(s).bSeq
        }),
{
}

/// While no card is held, a command other than power-on, power-off and slot status
/// never reaches the card: it is answered at once with an absent-card failure and
/// parameter error 5, and still no card is held.
pub proof fn lemma_no_card_refuses(s: Seq<u8>, parameter: Option<Seq<u8>>)
    requires
        s.len() >= 7,
        header_of(s).bMessageType != consts::PC_to_RDR_IccPowerOn,
        header_of(s).bMessageType != consts::PC_to_RDR_IccPowerOff,
        header_of(s).bMessageType != consts::PC_to_RDR_GetSlotStatus,
    ensures
        spec_step(s, false, parameter) == (StepView::Reply {
            response: spec_report(
                header_of(s),
                SlotStatusRegister::ICCAbsentFailure,
                SlotErrorRegister::InvalidParameter(5),
            ),
            card: false,
        }),
        spec_report(
            header_of(s),
            SlotStatusRegister::ICCAbsentFailure,
            SlotErrorRegister::InvalidParameter(5),
        ).header().bStatus == SlotStatusRegister::ICCAbsentFailure,
        spec_report(
            header_of(s),
            SlotStatusRegister::ICCAbsentFailure,
            SlotErrorRegister::InvalidParameter(5),
        ).header().bError == SlotErrorRegister::InvalidParameter(5),
{
}

/// After an accepted power-off on slot 0 no card is held.
pub proof fn lemma_power_off_releases(s: Seq<u8>, card: bool, parameter: Option<Seq<u8>>)
    requires
        s.len() >= 7,
        header_of(s).bMessageType == consts::PC_to_RDR_IccPowerOff,
        header_of(s).bSlot == 0,
    ensures
        spec_step(s, card, parameter) matches StepView::Reply { card: after, .. } && !after,
{
}

/// Power-on with no card held asks for a connection; when the card answers with its
/// ATR, a card is held afterwards and the response carries the ATR.
pub proof fn lemma_power_on_connects(s: Seq<u8>, parameter: Option<Seq<u8>>, atr: Vec<u8>)
    requires
        s.len() >= 7,
        header_of(s).bMessageType == consts::PC_to_RDR_IccPowerOn,
        header_of(s).bSlot == 0,
    ensures
        spec_step(s, false, parameter) == (StepView::PowerOn { header: header_of(s), connect: true }),
        card_after_power_on(false, PowerOnOutcome::Atr(atr)),
        atr@.len() <= u32::MAX ==> (spec_power_on_response(header_of(s), PowerOnOutcome::Atr(atr))
            matches ResponseView::DataBlock { data, .. } && data == atr@),
{
}

/// Whether a card is held after power-on work with `outcome`, starting from `card`.
pub open spec fn card_after_power_on(card: bool, outcome: PowerOnOutcome) -> bool {
    card || !(outcome is ConnectFailed)
}

/// Every response queued for an accepted command is well formed, so its length
/// field equals the size of its payload, which ends the message.
pub proof fn lemma_step_response_length(s: Seq<u8>, b: CCIDInterfaceHandler)
    requires
        s.len() >= 7,
    ensures
        spec_step(s, b@.card, b@.parameter) matches StepView::Reply { response, .. } ==> {
            &&& response.wf()
            &&& header_of(response.bytes()).dwLength == response.payload().len()
            &&& response.bytes().subrange(
                response.bytes().len() - response.payload().len(),
                response.bytes().len() as int,
            ) == response.payload()
        },
{
    if let StepView::Reply { response, .. } = spec_step(s, b@.card, b@.parameter) {
        vstd::bytes::lemma_auto_spec_u32_to_from_le_bytes();
        crate::proto::lemma_response_length_field(response);
    }
}

/// The same holds of the responses that finish power-on and transmit requests.
pub proof fn lemma_completion_response_length(
    h: CommonMessageHeader,
    power_on: PowerOnOutcome,
    transmit: TransmitOutcome,
)
    ensures
        spec_power_on_response(h, power_on).wf(),
        header_of(spec_power_on_response(h, power_on).bytes()).dwLength == spec_power_on_response(
            h,
            power_on,
        ).payload().len(),
        spec_transmit_response(h, transmit).wf(),
        header_of(spec_transmit_response(h, transmit).bytes()).dwLength == spec_transmit_response(
            h,
            transmit,
        ).payload().len(),
{
    vstd::bytes::lemma_auto_spec_u32_to_from_le_bytes();
    crate::proto::lemma_response_length_field(spec_power_on_response(h, power_on));
    crate::proto::lemma_response_length_field(spec_transmit_response(h, transmit));
}

} // verus!
