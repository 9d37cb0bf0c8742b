//! The WebUSB interface: vendor control transfers relayed to the backing device,
//! and the device capability descriptors it contributes to the BOS descriptor.
use crate::ccid::{CCIDInterfaceHandler, CcidView};
use crate::control::{ControlIn, ControlOut, ControlSetup, Recipient, describes, spec_is_in};
use crate::device::{DESCRIPTOR_TYPE_BOS, REQUEST_GET_STATUS};
use crate::usb::{SetupPacket, UrbError};
use vstd::prelude::*;

verus! {

/// Interface class code of a vendor-specific interface.
pub const CLASS_VENDOR_SPECIFIC: u8 = 0xFF;

/// An interface of the backing device: its number and the class of each of its
/// alternate settings.
#[derive(Debug)]
pub struct InterfaceClasses {
    pub interface_number: u8,
    pub classes: Vec<u8>,
}

/// Whether an interface has a vendor-specific alternate setting.
pub open spec fn is_vendor_interface(i: InterfaceClasses) -> bool {
    i.classes@.contains(CLASS_VENDOR_SPECIFIC)
}

/// The number of the first interface with a vendor-specific alternate setting.
pub fn find_vendor_interface(interfaces: &Vec<InterfaceClasses>) -> (r: Option<u8>)
    ensures
        r is None <==> forall|k: int| 0 <= k < interfaces@.len() ==> !is_vendor_interface(
            #[trigger] interfaces@[k],
        ),
        r matches Some(n) ==> exists|k: int|
            0 <= k < interfaces@.len() && is_vendor_interface(#[trigger] interfaces@[k])
                && interfaces@[k].interface_number == n && forall|m: int|
                0 <= m < k ==> !is_vendor_interface(#[trigger] interfaces@[m]),
{
    let mut k: usize = 0;
    while k < interfaces.len()
        invariant
            k <= interfaces@.len(),
            forall|m: int| 0 <= m < k ==> !is_vendor_interface(#[trigger] interfaces@[m]),
        decreases interfaces@.len() - k,
    {
        let classes = &interfaces[k].classes;
        let mut j: usize = 0;
        while j < classes.len()
            invariant
                k < interfaces@.len(),
                *classes == interfaces@[k as int].classes,
                forall|m: int| 0 <= m < k ==> !is_vendor_interface(#[trigger] interfaces@[m]),
                j <= classes@.len(),
                forall|m: int| 0 <= m < j ==> classes@[m] != CLASS_VENDOR_SPECIFIC,
            decreases classes@.len() - j,
        {
            if classes[j] == CLASS_VENDOR_SPECIFIC {
                assert(classes@[j as int] == CLASS_VENDOR_SPECIFIC);
                assert(is_vendor_interface(interfaces@[k as int]));
                return Some(interfaces[k].interface_number);
            }
            j = j + 1;
        }
        assert(!is_vendor_interface(interfaces@[k as int]));
        k = k + 1;
    }
    None
}

/// Splits a run of descriptors, each led by its length byte, into the descriptors;
/// `None` when a length byte is zero or runs past the end.
pub open spec fn split_descriptors(s: Seq<u8>) -> Option<Seq<Seq<u8>>>
    decreases s.len(),
{
    if s.len() == 0 {
        Some(Seq::empty())
    } else if s[0] == 0 || s[0] > s.len() {
        None
    } else {
        match split_descriptors(s.subrange(s[0] as int, s.len() as int)) {
            Some(rest) => Some(seq![s.subrange(0, s[0] as int)] + rest),
            None => None,
        }
    }
}

/// Whether `bos` has a sound BOS header: five bytes long, type BOS, a total length
/// equal to the buffer's, and at least one capability.
pub open spec fn bos_header_ok(bos: Seq<u8>) -> bool {
    bos.len() >= 5 && bos[0] == 5 && bos[1] == DESCRIPTOR_TYPE_BOS && bos[4] != 0 && bos[2] + 256
        * bos[3] == bos.len()
}

/// The device capability descriptors of a BOS descriptor; none when it is malformed.
pub open spec fn spec_capability_descriptors(bos: Seq<u8>) -> Seq<Seq<u8>> {
    if !bos_header_ok(bos) {
        Seq::empty()
    } else {
        match split_descriptors(bos.subrange(5, bos.len() as int)) {
            Some(fs) => fs,
            None => Seq::empty(),
        }
    }
}

/// `acc` followed by each descriptor of `o`, if any.
pub open spec fn after(acc: Seq<Seq<u8>>, o: Option<Seq<Seq<u8>>>) -> Option<Seq<Seq<u8>>> {
    match o {
        Some(rest) => Some(acc + rest),
        None => None,
    }
}

/// Extracts the device capability descriptors from the backing device's BOS
/// descriptor.
pub fn capability_descriptors(bos: &[u8]) -> (r: Vec<Vec<u8>>)
    ensures
        r@.map_values(|v: Vec<u8>| v@) == spec_capability_descriptors(bos@),
{
    let n = bos.len();
    if n < 5 || bos[0] != 5 || bos[1] != DESCRIPTOR_TYPE_BOS {
        return Vec::new();
    }
    let total = bos[2] as usize + 256 * bos[3] as usize;
    if bos[4] == 0 || total != n {
        return Vec::new();
    }
    let ghost body = bos@.subrange(5, n as int);
    let mut out: Vec<Vec<u8>> = Vec::new();
    let mut pos: usize = 5;
    while pos < n
        invariant
            5 <= pos <= n == bos@.len(),
            body == bos@.subrange(5, n as int),
            split_descriptors(body) == after(
                out@.map_values(|v: Vec<u8>| v@),
                split_descriptors(bos@.subrange(pos as int, n as int)),
            ),
        decreases n - pos,
    {
        let len = bos[pos] as usize;
        let ghost rest = bos@.subrange(pos as int, n as int);
        if len == 0 || len > n - pos {
            assert(split_descriptors(rest) is None);
            return Vec::new();
        }
        let piece = crate::proto::slice_subrange(bos, pos, pos + len);
        let ghost acc = out@.map_values(|v: Vec<u8>| v@);
        assert(rest.subrange(len as int, rest.len() as int) =~= bos@.subrange(
            (pos + len) as int,
            n as int,
        ));
        assert(rest.subrange(0, len as int) =~= piece@);
        out.push(piece);
        assert(out@.map_values(|v: Vec<u8>| v@) =~= acc.push(piece@));
        proof {
            match split_descriptors(bos@.subrange((pos + len) as int, n as int)) {
                Some(tail) => {
                    assert(acc.push(piece@) + tail =~= acc + (seq![piece@] + tail));
                },
                None => {},
            }
        }
        pos = pos + len;
    }
    assert(bos@.subrange(n as int, n as int) =~= Seq::<u8>::empty());
    assert(out@.map_values(|v: Vec<u8>| v@) + Seq::<Seq<u8>>::empty() =~= out@.map_values(
        |v: Vec<u8>| v@,
    ));
    out
}

/// What the WebUSB interface does with a control request addressed to it.
#[derive(Debug)]
pub enum WebUsbControl {
    /// Answer with these bytes.
    Reply(Vec<u8>),
    /// The CCID bridge has let go of the card (disconnect it with reset when
    /// `release_card`); send `control` to the backing interface and answer with its
    /// result, cut to the transfer buffer length.
    Forward { control: ControlSetup, release_card: bool },
}

/// The WebUSB interface of the composite device.
pub struct WebUSBInterfaceHandler {
    pub interface_number: u8,
}

/// `index` with its low byte replaced by the backing interface number.
pub open spec fn spec_rewrite_index(index: u16, interface_number: u8) -> u16 {
    ((index / 256) * 256 + interface_number) as u16
}

impl WebUSBInterfaceHandler {
    /// The handler for the backing device's vendor interface `interface_number`.
    pub fn new(interface_number: u8) -> (r: WebUSBInterfaceHandler)
        ensures
            r.interface_number == interface_number,
    {
        WebUSBInterfaceHandler { interface_number }
    }

    /// A vendor request addressed to the device goes to the backing device as it is.
    pub fn handle_device_control(&self, setup: &SetupPacket, req: &[u8]) -> (r: Result<ControlSetup, UrbError>)
        ensures
            match r {
                Ok(c) => describes(c, *setup, req@),
                Err(e) => e == UrbError::InvalidInput,
            },
            r is Err <==> crate::control::spec_control_type(setup.request_type) is None
                || crate::control::spec_recipient(setup.request_type) is None,
    {
        ControlSetup::new(setup, req)
    }

    /// A request addressed to the interface: an IN GetStatus is answered with two
    /// zero bytes; anything else is forwarded, with the low byte of the index set
    /// to the backing interface number when the recipient is the interface. Before
    /// anything is forwarded, the CCID bridge gives up the card, so that the two
    /// never use it at once.
    pub fn handle_control(
        &self,
        setup: &SetupPacket,
        req: &[u8],
        ccid: &mut CCIDInterfaceHandler,
    ) -> (r: Result<WebUsbControl, UrbError>)
        ensures
            crate::control::spec_control_type(setup.request_type) is None
                || crate::control::spec_recipient(setup.request_type) is None ==> r == Err::<
                WebUsbControl,
                UrbError,
            >(UrbError::InvalidInput),
            crate::control::spec_control_type(setup.request_type) is Some
                && crate::control::spec_recipient(setup.request_type) is Some ==> if spec_is_in(
                setup.request_type,
            ) && setup.request == REQUEST_GET_STATUS {
                r matches Ok(WebUsbControl::Reply(v)) && v@ == seq![0x00u8, 0x00u8]
            } else {
                r matches Ok(WebUsbControl::Forward { control: c, release_card }) && describes(
                    c,
                    if crate::control::spec_recipient(setup.request_type) == Some(
                        Recipient::Interface,
                    ) {
                        SetupPacket {
                            index: spec_rewrite_index(setup.index, self.interface_number),
                            ..*setup
                        }
                    } else {
                        *setup
                    },
                    req@,
                ) && release_card == old(ccid)@.card
            },
            r matches Ok(WebUsbControl::Forward { .. }) ==> final(ccid)@ == (CcidView {
                card: false,
                ..old(ccid)@
            }),
            !(r matches Ok(WebUsbControl::Forward { .. })) ==> final(ccid)@ == old(ccid)@,
    {
        let control = ControlSetup::new(setup, req)?;
        match control {
            ControlSetup::In(c) => {
                if c.request == REQUEST_GET_STATUS {
                    return Ok(WebUsbControl::Reply(vec![0x00, 0x00]));
                }
                let index = if c.recipient == Recipient::Interface {
                    self.rewrite_index(c.index)
                } else {
                    c.index
                };
                let release_card = ccid.drop_card();
                Ok(
                    WebUsbControl::Forward {
                        control: ControlSetup::In(ControlIn { index, ..c }),
                        release_card,
                    },
                )
            },
            ControlSetup::Out(c) => {
                let index = if c.recipient == Recipient::Interface {
                    self.rewrite_index(c.index)
                } else {
                    c.index
                };
                let release_card = ccid.drop_card();
                Ok(
                    WebUsbControl::Forward {
                        control: ControlSetup::Out(
                            ControlOut {
                                control_type: c.control_type,
                                recipient: c.recipient,
                                request: c.request,
                                value: c.value,
                                index,
                                data: c.data,
                            },
                        ),
                        release_card,
                    },
                )
            },
        }
    }

    fn rewrite_index(&self, index: u16) -> (r: u16)
        ensures
            r == spec_rewrite_index(index, self.interface_number),
    {
        (index / 256) * 256 + self.interface_number as u16
    }

    /// The WebUSB interface has no class-specific descriptor.
    pub fn get_class_specific_descriptor(&self) -> (r: Vec<u8>)
        ensures
            r@ == Seq::<u8>::empty(),
    {
        Vec::new()
    }
}

} // verus!
