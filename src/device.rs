//! The composite device's own control requests: vendor requests go to the vendor
//! interfaces, GetStatus is answered, and the BOS descriptor is assembled from the
//! device capability descriptors that the vendor interfaces contribute.
use crate::control::{ControlSetup, ControlType, Recipient, spec_control_type, spec_is_in, spec_recipient};
use crate::usb::{SetupPacket, UrbError};
use vstd::prelude::*;
use vstd::seq_lib::group_seq_properties;

verus! {

pub const DESCRIPTOR_TYPE_BOS: u8 = 0x0F;
pub const REQUEST_GET_STATUS: u8 = 0x00;
pub const REQUEST_GET_DESCRIPTOR: u8 = 0x06;

/// The five-byte BOS header for a descriptor of `total` bytes holding `count`
/// capabilities.
pub open spec fn bos_header(total: int, count: int) -> Seq<u8> {
    seq![0x05u8, DESCRIPTOR_TYPE_BOS, (total % 256) as u8, (total / 256) as u8, count as u8]
}

/// Whether the capability descriptors `fs` fit one BOS descriptor: its total length
/// in 16 bits and their number in 8 bits.
pub open spec fn bos_fits(fs: Seq<Seq<u8>>) -> bool {
    5 + fs.flatten().len() <= 0xFFFF && fs.len() <= 0xFF
}

/// The capability descriptors that the BOS descriptor carries: all of `fs`, or none
/// when they do not fit.
pub open spec fn bos_emitted(fs: Seq<Seq<u8>>) -> Seq<Seq<u8>> {
    if bos_fits(fs) {
        fs
    } else {
        Seq::empty()
    }
}

/// The BOS descriptor for the capability descriptors `fs`, in order; the empty BOS
/// descriptor when they do not fit.
pub open spec fn spec_bos_descriptor(fs: Seq<Seq<u8>>) -> Seq<u8> {
    let e = bos_emitted(fs);
    bos_header(5 + e.flatten().len() as int, e.len() as int) + e.flatten()
}

/// The contents of each byte vector.
pub open spec fn byte_seqs(v: Seq<Vec<u8>>) -> Seq<Seq<u8>> {
    v.map_values(|x: Vec<u8>| x@)
}

/// Assembles the BOS descriptor from capability descriptors.
pub fn build_bos_descriptor(fragments: &Vec<Vec<u8>>) -> (r: Vec<u8>)
    ensures
        r@ == spec_bos_descriptor(byte_seqs(fragments@)),
{
    let ghost fs = byte_seqs(fragments@);
    let default: Vec<u8> = vec![0x05, DESCRIPTOR_TYPE_BOS, 0x05, 0x00, 0x00];
    proof {
        broadcast use group_seq_properties;
        assert(Seq::<Seq<u8>>::empty().flatten() =~= Seq::<u8>::empty());
        assert(default@ =~= spec_bos_descriptor(Seq::empty()));
    }
    let mut total: usize = 5;
    let mut i: usize = 0;
    while i < fragments.len()
        invariant
            fs == byte_seqs(fragments@),
            default@ == spec_bos_descriptor(Seq::empty()),
            i <= fragments@.len(),
            total == 5 + fs.subrange(0, i as int).flatten().len(),
            total <= 0xFFFF,
        decreases fragments@.len() - i,
    {
        proof {
            assert(fs.subrange(0, i + 1) =~= fs.subrange(0, i as int).push(fs[i as int]));
            fs.subrange(0, i as int).lemma_flatten_push(fs[i as int]);
        }
        let len = fragments[i].len();
        if len > 0xFFFF - total {
            proof {
                assert(fs[i as int] == fragments@[i as int]@);
                lemma_flatten_prefix_len(fs, i as int + 1);
                assert(!bos_fits(fs));
                assert(bos_emitted(fs) == Seq::<Seq<u8>>::empty());
            }
            return default;
        }
        total = total + len;
        i = i + 1;
    }
    proof {
        assert(fs.subrange(0, fs.len() as int) =~= fs);
    }
    if fragments.len() > 0xFF {
        return default;
    }
    let mut out: Vec<u8> = vec![
        0x05,
        DESCRIPTOR_TYPE_BOS,
        (total % 256) as u8,
        (total / 256) as u8,
        fragments.len() as u8,
    ];
    let ghost head = out@;
    assert(head =~= bos_header(total as int, fs.len() as int));
    let mut j: usize = 0;
    while j < fragments.len()
        invariant
            fs == byte_seqs(fragments@),
            j <= fragments@.len(),
            out@ == head + fs.subrange(0, j as int).flatten(),
        decreases fragments@.len() - j,
    {
        proof {
            assert(fs.subrange(0, j + 1) =~= fs.subrange(0, j as int).push(fs[j as int]));
            fs.subrange(0, j as int).lemma_flatten_push(fs[j as int]);
        }
        crate::proto::push_all(&mut out, fragments[j].as_slice());
        assert(out@ =~= head + fs.subrange(0, j + 1).flatten());
        j = j + 1;
    }
    assert(fs.subrange(0, fs.len() as int) =~= fs);
    out
}

/// The flattened prefix of `fs` is no longer than the whole.
proof fn lemma_flatten_prefix_len(fs: Seq<Seq<u8>>, k: int)
    requires
        0 <= k <= fs.len(),
    ensures
        fs.subrange(0, k).flatten().len() <= fs.flatten().len(),
    decreases fs.len() - k,
{
    broadcast use group_seq_properties;

    if k < fs.len() {
        lemma_flatten_prefix_len(fs, k + 1);
        assert(fs.subrange(0, k + 1) =~= fs.subrange(0, k).push(fs[k]));
        fs.subrange(0, k).lemma_flatten_push(fs[k]);
    } else {
        assert(fs.subrange(0, k) =~= fs);
    }
}

/// In every BOS descriptor built, the total length field equals the descriptor's
/// length and fits 16 bits, and the count field equals the number of capability
/// descriptors carried and fits 8 bits; those follow the header in order.
pub proof fn lemma_bos_descriptor_fields(fs: Seq<Seq<u8>>)
    ensures
        ({
            let d = spec_bos_descriptor(fs);
            let e = bos_emitted(fs);
            &&& d.len() <= 0xFFFF
            &&& d[2] + 256 * d[3] == d.len()
            &&& d[4] == e.len()
            &&& e.len() <= 0xFF
            &&& d.subrange(5, d.len() as int) == e.flatten()
            &&& bos_fits(fs) ==> e == fs
        }),
{
    broadcast use group_seq_properties;

    let e = bos_emitted(fs);
    assert(Seq::<Seq<u8>>::empty().flatten() =~= Seq::<u8>::empty());
    let d = spec_bos_descriptor(fs);
    assert(d.subrange(5, d.len() as int) =~= e.flatten());
}

/// What the device handler does with a control request.
#[derive(Debug)]
pub enum DeviceControl {
    /// Offer the request to the vendor interfaces in order, as `vendor_first` and
    /// `vendor_next` direct: the first success is the answer, and when none
    /// succeeds the request is invalid data.
    Vendor,
    /// Answer with these bytes.
    Reply(Vec<u8>),
    /// The BOS descriptor is not built yet: collect the vendor interfaces'
    /// capability descriptors and hand them to `init_bos_descriptor`.
    CollectCapabilities,
}

/// The next step in offering a vendor request to the vendor interfaces.
#[derive(Debug)]
pub enum VendorStep {
    /// Offer the request to the vendor interface at this position.
    Ask(usize),
    /// An interface handled the request: answer with these bytes.
    Answer(Vec<u8>),
    /// No interface handled the request.
    Unhandled,
}

/// The first step for `count` vendor interfaces.
pub fn vendor_first(count: usize) -> (r: VendorStep)
    ensures
        count == 0 ==> r is Unhandled,
        count > 0 ==> (r matches VendorStep::Ask(i) && i == 0),
{
    if count == 0 {
        VendorStep::Unhandled
    } else {
        VendorStep::Ask(0)
    }
}

/// The step after the interface at `index`, of `count`, answered `outcome`: its
/// answer when it succeeded, else the next interface, else no one.
pub fn vendor_next(count: usize, index: usize, outcome: Result<Vec<u8>, UrbError>) -> (r: VendorStep)
    ensures
        outcome matches Ok(v) ==> (r matches VendorStep::Answer(a) && a@ == v@),
        outcome is Err && index + 1 < count ==> (r matches VendorStep::Ask(i) && i == index + 1),
        outcome is Err && index + 1 >= count ==> r is Unhandled,
{
    match outcome {
        Ok(v) => VendorStep::Answer(v),
        Err(_) => {
            if count > 0 && index < count - 1 {
                VendorStep::Ask(index + 1)
            } else {
                VendorStep::Unhandled
            }
        },
    }
}

/// The standard requests the device answers itself.
pub enum DeviceRequest {
    GetStatus,
    GetBosDescriptor,
}

/// Which standard request `setup` is, if the device answers it: GetStatus (IN), or
/// GetDescriptor (IN, to the device) for the BOS descriptor.
pub open spec fn spec_device_request(setup: SetupPacket) -> Option<DeviceRequest> {
    let standard_in = spec_is_in(setup.request_type) && spec_control_type(setup.request_type)
        == Some(ControlType::Standard) && spec_recipient(setup.request_type) is Some;
    if standard_in && setup.request == REQUEST_GET_STATUS {
        Some(DeviceRequest::GetStatus)
    } else if standard_in && spec_recipient(setup.request_type) == Some(Recipient::Device)
        && setup.request == REQUEST_GET_DESCRIPTOR && setup.value / 256 == DESCRIPTOR_TYPE_BOS as int {
        Some(DeviceRequest::GetBosDescriptor)
    } else {
        None
    }
}

/// The control multiplexer of the composite device.
pub struct CanokeyVirtDeviceHandler {
    bos_descriptor: Option<Vec<u8>>,
}

impl CanokeyVirtDeviceHandler {
    pub closed spec fn spec_bos(&self) -> Option<Seq<u8>> {
        match self.bos_descriptor {
            Some(d) => Some(d@),
            None => None,
        }
    }

    pub fn new() -> (r: CanokeyVirtDeviceHandler)
        ensures
            r.spec_bos() is None,
    {
        CanokeyVirtDeviceHandler { bos_descriptor: None }
    }

    /// Routes a control request addressed to the device.
    pub fn handle_control(&self, setup: &SetupPacket, req: &[u8]) -> (r: Result<DeviceControl, UrbError>)
        ensures
            spec_control_type(setup.request_type) is None || spec_recipient(setup.request_type) is None
                ==> r == Err::<DeviceControl, UrbError>(UrbError::InvalidInput),
            spec_control_type(setup.request_type) == Some(ControlType::Vendor) && spec_recipient(
                setup.request_type,
            ) is Some ==> r matches Ok(DeviceControl::Vendor),
            spec_control_type(setup.request_type) is Some && spec_control_type(setup.request_type)
                != Some(ControlType::Vendor) && spec_recipient(setup.request_type) is Some ==> match spec_device_request(*setup) {
                Some(DeviceRequest::GetStatus) => (r matches Ok(DeviceControl::Reply(v)) && v@ == seq![0x00u8, 0x00u8]),
                Some(DeviceRequest::GetBosDescriptor) => match self.spec_bos() {
                    Some(d) => (r matches Ok(DeviceControl::Reply(v)) && v@ == d),
                    None => r matches Ok(DeviceControl::CollectCapabilities),
                },
                None => r == Err::<DeviceControl, UrbError>(UrbError::InvalidData),
            },
    {
        let control = ControlSetup::new(setup, req)?;
        match control {
            ControlSetup::In(c) => {
                if c.control_type == ControlType::Vendor {
                    return Ok(DeviceControl::Vendor);
                }
                if c.control_type == ControlType::Standard && c.request == REQUEST_GET_STATUS {
                    return Ok(DeviceControl::Reply(vec![0x00, 0x00]));
                }
                if c.control_type == ControlType::Standard && c.recipient == Recipient::Device
                    && c.request == REQUEST_GET_DESCRIPTOR && c.value / 256 == DESCRIPTOR_TYPE_BOS as u16 {
                    return match &self.bos_descriptor {
                        Some(d) => {
                            let mut v: Vec<u8> = Vec::new();
                            crate::proto::push_all(&mut v, d.as_slice());
                            Ok(DeviceControl::Reply(v))
                        },
                        None => Ok(DeviceControl::CollectCapabilities),
                    };
                }
                Err(UrbError::InvalidData)
            },
            ControlSetup::Out(c) => {
                if c.control_type == ControlType::Vendor {
                    Ok(DeviceControl::Vendor)
                } else {
                    Err(UrbError::InvalidData)
                }
            },
        }
    }

    /// Builds the BOS descriptor once; later calls return the first one built.
    pub fn init_bos_descriptor(&mut self, fragments: &Vec<Vec<u8>>) -> (r: Vec<u8>)
        ensures
            old(self).spec_bos() is None ==> r@ == spec_bos_descriptor(byte_seqs(fragments@)),
            old(self).spec_bos() matches Some(d) ==> r@ == d,
            final(self).spec_bos() == Some(r@),
    {
        match &self.bos_descriptor {
            Some(d) => {
                let mut v: Vec<u8> = Vec::new();
                crate::proto::push_all(&mut v, d.as_slice());
                v
            },
            None => {
                let d = build_bos_descriptor(fragments);
                let mut v: Vec<u8> = Vec::new();
                crate::proto::push_all(&mut v, d.as_slice());
                self.bos_descriptor = Some(d);
                v
            },
        }
    }
}

} // verus!
