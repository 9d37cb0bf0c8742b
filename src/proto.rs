//! CCID bulk messages: header, register values, commands and responses, and
//! their byte encodings.
use crate::consts;
use vstd::bytes::{
    lemma_auto_spec_u16_to_from_le_bytes, lemma_auto_spec_u32_to_from_le_bytes, spec_u16_to_le_bytes,
    spec_u32_from_le_bytes, spec_u32_to_le_bytes, u16_from_le_bytes,
    u32_from_le_bytes, u32_to_le_bytes,
};
use vstd::prelude::*;

verus! {

/// The first seven bytes shared by every CCID bulk message.
#[derive(Debug, Copy, Clone, PartialEq, Eq, Structural)]
pub struct CommonMessageHeader {
    pub bMessageType: u8,
    pub dwLength: u32,
    pub bSlot: u8,
    pub bSeq: u8,
}

/// Wire form of a common header: type, little-endian length, slot, sequence.
pub open spec fn header_bytes(h: CommonMessageHeader) -> Seq<u8> {
    seq![h.bMessageType] + spec_u32_to_le_bytes(h.dwLength) + seq![h.bSlot, h.bSeq]
}

/// The common header held by the first seven bytes of `s`.
pub open spec fn header_of(s: Seq<u8>) -> CommonMessageHeader
    recommends
        s.len() >= 7,
{
    CommonMessageHeader {
        bMessageType: s[0],
        dwLength: spec_u32_from_le_bytes(s.subrange(1, 5)),
        bSlot: s[5],
        bSeq: s[6],
    }
}

impl CommonMessageHeader {
    /// Reads the common header from the first seven bytes of `input`.
    pub fn decode(input: &[u8]) -> (r: Option<CommonMessageHeader>)
        ensures
            input@.len() < 7 ==> r is None,
            input@.len() >= 7 ==> r == Some(header_of(input@)),
    {
        if input.len() < 7 {
            return None;
        }
        let len_bytes = slice_subrange(input, 1, 5);
        Some(CommonMessageHeader {
            bMessageType: input[0],
            dwLength: u32_from_le_bytes(len_bytes.as_slice()),
            bSlot: input[5],
            bSeq: input[6],
        })
    }

    /// Appends the seven header bytes to `out`.
    pub fn encode(&self, out: &mut Vec<u8>)
        ensures
            final(out)@ == old(out)@ + header_bytes(*self),
    {
        out.push(self.bMessageType);
        let len = u32_to_le_bytes(self.dwLength);
        push_all(out, len.as_slice());
        out.push(self.bSlot);
        out.push(self.bSeq);
    }
}

/// Copy of `s[lo..hi]`.
pub fn slice_subrange(s: &[u8], lo: usize, hi: usize) -> (r: Vec<u8>)
    requires
        lo <= hi <= s@.len(),
    ensures
        r@ == s@.subrange(lo as int, hi as int),
{
    let mut r: Vec<u8> = Vec::new();
    let mut i: usize = lo;
    while i < hi
        invariant
            lo <= i <= hi <= s@.len(),
            r@ == s@.subrange(lo as int, i as int),
        decreases hi - i,
    {
        r.push(s[i]);
        i = i + 1;
    }
    r
}

/// Appends every byte of `data` to `out`.
pub fn push_all(out: &mut Vec<u8>, data: &[u8])
    ensures
        final(out)@ == old(out)@ + data@,
{
    let mut i: usize = 0;
    while i < data.len()
        invariant
            0 <= i <= data@.len(),
            out@ == old(out)@ + data@.subrange(0, i as int),
        decreases data@.len() - i,
    {
        out.push(data[i]);
        i = i + 1;
    }
    assert(data@.subrange(0, data@.len() as int) == data@);
}


/// Voltage requested by `PC_to_RDR_IccPowerOn`.
#[derive(Debug, Copy, Clone, PartialEq, Eq, Structural)]
pub enum ICCVoltage {
    AUTO,
    V_5_0,
    V_3_0,
    V_1_8,
}

impl ICCVoltage {
    pub open spec fn spec_to_u8(self) -> u8 {
        match self {
            ICCVoltage::AUTO => 0x00,
            ICCVoltage::V_5_0 => 0x01,
            ICCVoltage::V_3_0 => 0x02,
            ICCVoltage::V_1_8 => 0x03,
        }
    }

    pub open spec fn spec_from_u8(v: u8) -> Option<ICCVoltage> {
        if v == 0 {
            Some(ICCVoltage::AUTO)
        } else if v == 1 {
            Some(ICCVoltage::V_5_0)
        } else if v == 2 {
            Some(ICCVoltage::V_3_0)
        } else if v == 3 {
            Some(ICCVoltage::V_1_8)
        } else {
            None
        }
    }

    pub fn to_u8(self) -> (r: u8)
        ensures
            r == self.spec_to_u8(),
    {
        match self {
            ICCVoltage::AUTO => 0x00,
            ICCVoltage::V_5_0 => 0x01,
            ICCVoltage::V_3_0 => 0x02,
            ICCVoltage::V_1_8 => 0x03,
        }
    }

    /// The voltage coded by `v`; any other value is parameter error 7.
    pub fn try_from_u8(v: u8) -> (r: Result<ICCVoltage, SlotErrorRegister>)
        ensures
            r == spec_field_result(ICCVoltage::spec_from_u8(v)),
    {
        match v {
            0x00 => Ok(ICCVoltage::AUTO),
            0x01 => Ok(ICCVoltage::V_5_0),
            0x02 => Ok(ICCVoltage::V_3_0),
            0x03 => Ok(ICCVoltage::V_1_8),
            _ => Err(SlotErrorRegister::InvalidParameter(0x07)),
        }
    }
}

/// A decoded enumerated field, or the parameter error of a bad value at offset 7.
pub open spec fn spec_field_result<T>(o: Option<T>) -> Result<T, SlotErrorRegister> {
    match o {
        Some(x) => Ok(x),
        None => Err(SlotErrorRegister::InvalidParameter(0x07)),
    }
}

/// The slot error register of a response.
#[derive(Debug, Copy, Clone, PartialEq, Eq, Structural)]
pub enum SlotErrorRegister {
    CommandAbort,
    ICCMute,
    TransferParityError,
    TransferOverrun,
    HardwareError,
    BadATRTS,
    BadATRTCK,
    UnsupportedICCProtocol,
    UnsupportedICCClass,
    ProcedureByteConflict,
    DeactivatedProtocol,
    BusyWithAutoSequence,
    PINTimeout,
    PINCancelled,
    CommandSlotBusy,
    UnsupportedCommand,
    UserDefined(u8),
    RFU(u8),
    InvalidParameter(u8),
}

/// Codes that CCID reserves for future use.
pub open spec fn is_rfu_error_code(v: u8) -> bool {
    v == 0xF9 || v == 0xFA || v == 0xF1 || (0xE1 <= v <= 0xEE) || v == 0x80 || (0xC1 <= v <= 0xDF)
}

impl SlotErrorRegister {
    pub open spec fn spec_to_u8(self) -> u8 {
        match self {
            SlotErrorRegister::CommandAbort => consts::CMD_ABORTED,
            SlotErrorRegister::ICCMute => consts::ICC_MUTE,
            SlotErrorRegister::TransferParityError => consts::XFR_PARITY_ERROR,
            SlotErrorRegister::TransferOverrun => consts::XFR_OVERRUN,
            SlotErrorRegister::HardwareError => consts::HW_ERROR,
            SlotErrorRegister::BadATRTS => consts::BAD_ATR_TS,
            SlotErrorRegister::BadATRTCK => consts::BAD_ATR_TCK,
            SlotErrorRegister::UnsupportedICCProtocol => consts::ICC_PROTOCOL_NOT_SUPPORTED,
            SlotErrorRegister::UnsupportedICCClass => consts::ICC_CLASS_NOT_SUPPORTED,
            SlotErrorRegister::ProcedureByteConflict => consts::PROCEDURE_BYTE_CONFLICT,
            SlotErrorRegister::DeactivatedProtocol => consts::DEACTIVATED_PROTOCOL,
            SlotErrorRegister::BusyWithAutoSequence => consts::BUSY_WITH_AUTO_SEQUENCE,
            SlotErrorRegister::PINTimeout => consts::PIN_TIMEOUT,
            SlotErrorRegister::PINCancelled => consts::PIN_CANCELLED,
            SlotErrorRegister::CommandSlotBusy => consts::CMD_SLOT_BUSY,
            SlotErrorRegister::UnsupportedCommand => consts::CMD_NOT_SUPPORTED,
            SlotErrorRegister::UserDefined(x) => x,
            SlotErrorRegister::RFU(x) => x,
            SlotErrorRegister::InvalidParameter(x) => x,
        }
    }

    /// The register named by a code: each named code, then the three numeric ranges.
    pub open spec fn spec_from_u8(v: u8) -> SlotErrorRegister {
        if v == consts::CMD_ABORTED {
            SlotErrorRegister::CommandAbort
        } else if v == consts::ICC_MUTE {
            SlotErrorRegister::ICCMute
        } else if v == consts::XFR_PARITY_ERROR {
            SlotErrorRegister::TransferParityError
        } else if v == consts::XFR_OVERRUN {
            SlotErrorRegister::TransferOverrun
        } else if v == consts::HW_ERROR {
            SlotErrorRegister::HardwareError
        } else if v == consts::BAD_ATR_TS {
            SlotErrorRegister::BadATRTS
        } else if v == consts::BAD_ATR_TCK {
            SlotErrorRegister::BadATRTCK
        } else if v == consts::ICC_PROTOCOL_NOT_SUPPORTED {
            SlotErrorRegister::UnsupportedICCProtocol
        } else if v == consts::ICC_CLASS_NOT_SUPPORTED {
            SlotErrorRegister::UnsupportedICCClass
        } else if v == consts::PROCEDURE_BYTE_CONFLICT {
            SlotErrorRegister::ProcedureByteConflict
        } else if v == consts::DEACTIVATED_PROTOCOL {
            SlotErrorRegister::DeactivatedProtocol
        } else if v == consts::BUSY_WITH_AUTO_SEQUENCE {
            SlotErrorRegister::BusyWithAutoSequence
        } else if v == consts::PIN_TIMEOUT {
            SlotErrorRegister::PINTimeout
        } else if v == consts::PIN_CANCELLED {
            SlotErrorRegister::PINCancelled
        } else if v == consts::CMD_SLOT_BUSY {
            SlotErrorRegister::CommandSlotBusy
        } else if v == consts::CMD_NOT_SUPPORTED {
            SlotErrorRegister::UnsupportedCommand
        } else if 0x81 <= v <= 0xC0 {
            SlotErrorRegister::UserDefined(v)
        } else if 0x01 <= v <= 0x7F {
            SlotErrorRegister::InvalidParameter(v)
        } else {
            SlotErrorRegister::RFU(v)
        }
    }

    /// A register whose numeric payload lies in the range of its variant.
    pub open spec fn wf(self) -> bool {
        match self {
            SlotErrorRegister::UserDefined(x) => 0x81 <= x <= 0xC0,
            SlotErrorRegister::RFU(x) => is_rfu_error_code(x),
            SlotErrorRegister::InvalidParameter(x) => 0x01 <= x <= 0x7F,
            _ => true,
        }
    }

    pub fn to_u8(self) -> (r: u8)
        ensures
            r == self.spec_to_u8(),
    {
        match self {
            SlotErrorRegister::CommandAbort => consts::CMD_ABORTED,
            SlotErrorRegister::ICCMute => consts::ICC_MUTE,
            SlotErrorRegister::TransferParityError => consts::XFR_PARITY_ERROR,
            SlotErrorRegister::TransferOverrun => consts::XFR_OVERRUN,
            SlotErrorRegister::HardwareError => consts::HW_ERROR,
            SlotErrorRegister::BadATRTS => consts::BAD_ATR_TS,
            SlotErrorRegister::BadATRTCK => consts::BAD_ATR_TCK,
            SlotErrorRegister::UnsupportedICCProtocol => consts::ICC_PROTOCOL_NOT_SUPPORTED,
            SlotErrorRegister::UnsupportedICCClass => consts::ICC_CLASS_NOT_SUPPORTED,
            SlotErrorRegister::ProcedureByteConflict => consts::PROCEDURE_BYTE_CONFLICT,
            SlotErrorRegister::DeactivatedProtocol => consts::DEACTIVATED_PROTOCOL,
            SlotErrorRegister::BusyWithAutoSequence => consts::BUSY_WITH_AUTO_SEQUENCE,
            SlotErrorRegister::PINTimeout => consts::PIN_TIMEOUT,
            SlotErrorRegister::PINCancelled => consts::PIN_CANCELLED,
            SlotErrorRegister::CommandSlotBusy => consts::CMD_SLOT_BUSY,
            SlotErrorRegister::UnsupportedCommand => consts::CMD_NOT_SUPPORTED,
            SlotErrorRegister::UserDefined(x) => x,
            SlotErrorRegister::RFU(x) => x,
            SlotErrorRegister::InvalidParameter(x) => x,
        }
    }

    pub fn from_u8(v: u8) -> (r: SlotErrorRegister)
        ensures
            r == SlotErrorRegister::spec_from_u8(v),
            r.wf(),
            r.spec_to_u8() == v,
    {
        match v {
            consts::CMD_ABORTED => SlotErrorRegister::CommandAbort,
            consts::ICC_MUTE => SlotErrorRegister::ICCMute,
            consts::XFR_PARITY_ERROR => SlotErrorRegister::TransferParityError,
            consts::XFR_OVERRUN => SlotErrorRegister::TransferOverrun,
            consts::HW_ERROR => SlotErrorRegister::HardwareError,
            consts::BAD_ATR_TS => SlotErrorRegister::BadATRTS,
            consts::BAD_ATR_TCK => SlotErrorRegister::BadATRTCK,
            consts::ICC_PROTOCOL_NOT_SUPPORTED => SlotErrorRegister::UnsupportedICCProtocol,
            consts::ICC_CLASS_NOT_SUPPORTED => SlotErrorRegister::UnsupportedICCClass,
            consts::PROCEDURE_BYTE_CONFLICT => SlotErrorRegister::ProcedureByteConflict,
            consts::DEACTIVATED_PROTOCOL => SlotErrorRegister::DeactivatedProtocol,
            consts::BUSY_WITH_AUTO_SEQUENCE => SlotErrorRegister::BusyWithAutoSequence,
            consts::PIN_TIMEOUT => SlotErrorRegister::PINTimeout,
            consts::PIN_CANCELLED => SlotErrorRegister::PINCancelled,
            consts::CMD_SLOT_BUSY => SlotErrorRegister::CommandSlotBusy,
            consts::CMD_NOT_SUPPORTED => SlotErrorRegister::UnsupportedCommand,
            0x81..=0xC0 => SlotErrorRegister::UserDefined(v),
            0x01..=0x7F => SlotErrorRegister::InvalidParameter(v),
            _ => SlotErrorRegister::RFU(v),
        }
    }
}

/// Every well-formed slot error register is recovered from its code.
pub proof fn lemma_slot_error_round_trip(e: SlotErrorRegister)
    requires
        e.wf(),
    ensures
        SlotErrorRegister::spec_from_u8(e.spec_to_u8()) == e,
{
}


/// Presence state of the card, bits 0-1 of the slot status register.
#[derive(Debug, Copy, Clone, PartialEq, Eq, Structural)]
pub enum ICCStatus {
    Active,
    Inactive,
    Absent,
}

impl ICCStatus {
    pub open spec fn spec_to_u8(self) -> u8 {
        match self {
            ICCStatus::Active => 0x00,
            ICCStatus::Inactive => 0x01,
            ICCStatus::Absent => 0x02,
        }
    }

    pub fn to_u8(self) -> (r: u8)
        ensures
            r == self.spec_to_u8(),
    {
        match self {
            ICCStatus::Active => 0x00,
            ICCStatus::Inactive => 0x01,
            ICCStatus::Absent => 0x02,
        }
    }

    pub fn try_from_u8(v: u8) -> (r: Option<ICCStatus>)
        ensures
            v <= 2 <==> r is Some,
            r matches Some(s) ==> s.spec_to_u8() == v,
    {
        match v {
            0x00 => Some(ICCStatus::Active),
            0x01 => Some(ICCStatus::Inactive),
            0x02 => Some(ICCStatus::Absent),
            _ => None,
        }
    }
}

/// Outcome of the command, bits 6-7 of the slot status register.
#[derive(Debug, Copy, Clone, PartialEq, Eq, Structural)]
pub enum CommandStatus {
    Success,
    Failure,
    TimeExtensionRequested,
}

impl CommandStatus {
    pub open spec fn spec_to_u8(self) -> u8 {
        match self {
            CommandStatus::Success => 0x00,
            CommandStatus::Failure => 0x01,
            CommandStatus::TimeExtensionRequested => 0x02,
        }
    }

    pub fn to_u8(self) -> (r: u8)
        ensures
            r == self.spec_to_u8(),
    {
        match self {
            CommandStatus::Success => 0x00,
            CommandStatus::Failure => 0x01,
            CommandStatus::TimeExtensionRequested => 0x02,
        }
    }

    pub fn try_from_u8(v: u8) -> (r: Option<CommandStatus>)
        ensures
            v <= 2 <==> r is Some,
            r matches Some(s) ==> s.spec_to_u8() == v,
    {
        match v {
            0x00 => Some(CommandStatus::Success),
            0x01 => Some(CommandStatus::Failure),
            0x02 => Some(CommandStatus::TimeExtensionRequested),
            _ => None,
        }
    }
}

/// The packed slot status register: card presence and command outcome.
#[derive(Debug, Copy, Clone, PartialEq, Eq, Structural)]
pub enum SlotStatusRegister {
    ICCActiveSuccess,
    ICCActiveFailure,
    ICCActiveTimeExtensionRequested,
    ICCInactiveSuccess,
    ICCInactiveFailure,
    ICCInactiveTimeExtensionRequested,
    ICCAbsentSuccess,
    ICCAbsentFailure,
    ICCAbsentTimeExtensionRequested,
}

/// The status byte packing `icc` into bits 0-1 and `command` into bits 6-7.
pub open spec fn spec_combine_slot_status(icc: ICCStatus, command: CommandStatus) -> u8 {
    (icc.spec_to_u8() + 64 * command.spec_to_u8()) as u8
}

/// Packs card presence and command outcome into one status byte.
pub fn combine_slot_status(icc: ICCStatus, command: CommandStatus) -> (r: u8)
    ensures
        r == spec_combine_slot_status(icc, command),
        r & 0x03 == icc.spec_to_u8(),
        r >> 6 == command.spec_to_u8(),
{
    let i = icc.to_u8();
    let c = command.to_u8();
    let r = i | (c << 6u8);
    assert(i <= 2 && c <= 2 ==> (i | (c << 6u8)) == i + 64 * c && (i | (c << 6u8)) & 0x03 == i
        && (i | (c << 6u8)) >> 6u8 == c) by (bit_vector);
    r
}

impl SlotStatusRegister {
    pub open spec fn spec_icc(self) -> ICCStatus {
        match self {
            SlotStatusRegister::ICCActiveSuccess
            | SlotStatusRegister::ICCActiveFailure
            | SlotStatusRegister::ICCActiveTimeExtensionRequested => ICCStatus::Active,
            SlotStatusRegister::ICCInactiveSuccess
            | SlotStatusRegister::ICCInactiveFailure
            | SlotStatusRegister::ICCInactiveTimeExtensionRequested => ICCStatus::Inactive,
            _ => ICCStatus::Absent,
        }
    }

    pub open spec fn spec_command(self) -> CommandStatus {
        match self {
            SlotStatusRegister::ICCActiveSuccess
            | SlotStatusRegister::ICCInactiveSuccess
            | SlotStatusRegister::ICCAbsentSuccess => CommandStatus::Success,
            SlotStatusRegister::ICCActiveFailure
            | SlotStatusRegister::ICCInactiveFailure
            | SlotStatusRegister::ICCAbsentFailure => CommandStatus::Failure,
            _ => CommandStatus::TimeExtensionRequested,
        }
    }

    pub open spec fn spec_to_u8(self) -> u8 {
        spec_combine_slot_status(self.spec_icc(), self.spec_command())
    }

    /// The register whose presence and outcome fields are `icc` and `command`.
    pub open spec fn spec_from_parts(icc: ICCStatus, command: CommandStatus) -> SlotStatusRegister {
        match (icc, command) {
            (ICCStatus::Active, CommandStatus::Success) => SlotStatusRegister::ICCActiveSuccess,
            (ICCStatus::Active, CommandStatus::Failure) => SlotStatusRegister::ICCActiveFailure,
            (ICCStatus::Active, CommandStatus::TimeExtensionRequested) =>
                SlotStatusRegister::ICCActiveTimeExtensionRequested,
            (ICCStatus::Inactive, CommandStatus::Success) => SlotStatusRegister::ICCInactiveSuccess,
            (ICCStatus::Inactive, CommandStatus::Failure) => SlotStatusRegister::ICCInactiveFailure,
            (ICCStatus::Inactive, CommandStatus::TimeExtensionRequested) =>
                SlotStatusRegister::ICCInactiveTimeExtensionRequested,
            (ICCStatus::Absent, CommandStatus::Success) => SlotStatusRegister::ICCAbsentSuccess,
            (ICCStatus::Absent, CommandStatus::Failure) => SlotStatusRegister::ICCAbsentFailure,
            (ICCStatus::Absent, CommandStatus::TimeExtensionRequested) =>
                SlotStatusRegister::ICCAbsentTimeExtensionRequested,
        }
    }

    /// Card presence, read from bits 0-1 of the packed register.
    pub fn ICCStatus(self) -> (r: ICCStatus)
        ensures
            r == self.spec_icc(),
            r.spec_to_u8() == self.spec_to_u8() & 0x03,
    {
        let v = self.to_u8();
        match v & 0x03 {
            0x00 => ICCStatus::Active,
            0x01 => ICCStatus::Inactive,
            _ => ICCStatus::Absent,
        }
    }

    /// Command outcome, read from bits 6-7 of the packed register.
    pub fn CommandStatus(self) -> (r: CommandStatus)
        ensures
            r == self.spec_command(),
            r.spec_to_u8() == self.spec_to_u8() >> 6,
    {
        let v = self.to_u8();
        match v >> 6u8 {
            0x00 => CommandStatus::Success,
            0x01 => CommandStatus::Failure,
            _ => CommandStatus::TimeExtensionRequested,
        }
    }

    pub fn to_u8(self) -> (r: u8)
        ensures
            r == self.spec_to_u8(),
            r & 0x03 == self.spec_icc().spec_to_u8(),
            r >> 6 == self.spec_command().spec_to_u8(),
    {
        match self {
            SlotStatusRegister::ICCActiveSuccess => combine_slot_status(
                ICCStatus::Active,
                CommandStatus::Success,
            ),
            SlotStatusRegister::ICCActiveFailure => combine_slot_status(
                ICCStatus::Active,
                CommandStatus::Failure,
            ),
            SlotStatusRegister::ICCActiveTimeExtensionRequested => combine_slot_status(
                ICCStatus::Active,
                CommandStatus::TimeExtensionRequested,
            ),
            SlotStatusRegister::ICCInactiveSuccess => combine_slot_status(
                ICCStatus::Inactive,
                CommandStatus::Success,
            ),
            SlotStatusRegister::ICCInactiveFailure => combine_slot_status(
                ICCStatus::Inactive,
                CommandStatus::Failure,
            ),
            SlotStatusRegister::ICCInactiveTimeExtensionRequested => combine_slot_status(
                ICCStatus::Inactive,
                CommandStatus::TimeExtensionRequested,
            ),
            SlotStatusRegister::ICCAbsentSuccess => combine_slot_status(
                ICCStatus::Absent,
                CommandStatus::Success,
            ),
            SlotStatusRegister::ICCAbsentFailure => combine_slot_status(
                ICCStatus::Absent,
                CommandStatus::Failure,
            ),
            SlotStatusRegister::ICCAbsentTimeExtensionRequested => combine_slot_status(
                ICCStatus::Absent,
                CommandStatus::TimeExtensionRequested,
            ),
        }
    }

    /// The register whose status byte is `v`, if there is one.
    pub open spec fn spec_from_u8(v: u8) -> Option<SlotStatusRegister> {
        if exists|s: SlotStatusRegister| s.spec_to_u8() == v {
            Some(choose|s: SlotStatusRegister| s.spec_to_u8() == v)
        } else {
            None
        }
    }

    /// The register packed in `v`, if both of its fields hold a defined value and the
    /// reserved bits 2-5 are clear.
    pub fn try_from_u8(v: u8) -> (r: Option<SlotStatusRegister>)
        ensures
            r == SlotStatusRegister::spec_from_u8(v),
            r matches Some(s) ==> s.spec_to_u8() == v,
    {
        let r = SlotStatusRegister::try_from_u8_exact(v);
        proof {
            if let Some(x) = r {
                let c = choose|s: SlotStatusRegister| s.spec_to_u8() == v;
                lemma_slot_status_injective(x, c);
            }
        }
        r
    }

    fn try_from_u8_exact(v: u8) -> (r: Option<SlotStatusRegister>)
        ensures
            r matches Some(s) ==> s.spec_to_u8() == v,
            (exists|s: SlotStatusRegister| s.spec_to_u8() == v) ==> r is Some,
    {
        let icc = ICCStatus::try_from_u8(v & 0x03);
        let command = CommandStatus::try_from_u8(v >> 6u8);
        if v & 0x3C != 0 {
            assert forall|s: SlotStatusRegister| s.spec_to_u8() != v by {
                let i = s.spec_icc().spec_to_u8();
                let c = s.spec_command().spec_to_u8();
                assert(i <= 2 && c <= 2 ==> ((i + 64 * c) as u8) & 0x3C == 0) by (bit_vector);
            }
            return None;
        }
        match (icc, command) {
            (Some(i), Some(c)) => {
                let r = SlotStatusRegister::from_parts(i, c);
                assert(v & 0x3C == 0 ==> v == (v & 0x03) + 64 * (v >> 6)) by (bit_vector);
                Some(r)
            },
            _ => {
                assert forall|s: SlotStatusRegister| s.spec_to_u8() != v by {
                    let i = s.spec_icc().spec_to_u8();
                    let c = s.spec_command().spec_to_u8();
                    assert(i <= 2 && c <= 2 ==> ((i + 64 * c) as u8) & 0x03 == i && ((i + 64
                        * c) as u8) >> 6 == c) by (bit_vector);
                }
                None
            },
        }
    }

    pub fn from_parts(icc: ICCStatus, command: CommandStatus) -> (r: SlotStatusRegister)
        ensures
            r == SlotStatusRegister::spec_from_parts(icc, command),
            r.spec_icc() == icc,
            r.spec_command() == command,
    {
        match (icc, command) {
            (ICCStatus::Active, CommandStatus::Success) => SlotStatusRegister::ICCActiveSuccess,
            (ICCStatus::Active, CommandStatus::Failure) => SlotStatusRegister::ICCActiveFailure,
            (ICCStatus::Active, CommandStatus::TimeExtensionRequested) =>
                SlotStatusRegister::ICCActiveTimeExtensionRequested,
            (ICCStatus::Inactive, CommandStatus::Success) => SlotStatusRegister::ICCInactiveSuccess,
            (ICCStatus::Inactive, CommandStatus::Failure) => SlotStatusRegister::ICCInactiveFailure,
            (ICCStatus::Inactive, CommandStatus::TimeExtensionRequested) =>
                SlotStatusRegister::ICCInactiveTimeExtensionRequested,
            (ICCStatus::Absent, CommandStatus::Success) => SlotStatusRegister::ICCAbsentSuccess,
            (ICCStatus::Absent, CommandStatus::Failure) => SlotStatusRegister::ICCAbsentFailure,
            (ICCStatus::Absent, CommandStatus::TimeExtensionRequested) =>
                SlotStatusRegister::ICCAbsentTimeExtensionRequested,
        }
    }
}

/// Distinct slot status registers have distinct status bytes.
pub proof fn lemma_slot_status_injective(a: SlotStatusRegister, b: SlotStatusRegister)
    requires
        a.spec_to_u8() == b.spec_to_u8(),
    ensures
        a == b,
{
    let ia = a.spec_icc().spec_to_u8();
    let ca = a.spec_command().spec_to_u8();
    let ib = b.spec_icc().spec_to_u8();
    let cb = b.spec_command().spec_to_u8();
    assert(ia <= 2 && ca <= 2 && ib <= 2 && cb <= 2 && ((ia + 64 * ca) as u8) == ((ib + 64
        * cb) as u8) ==> ia == ib && ca == cb) by (bit_vector);
}


/// Transmission protocol of the card.
#[derive(Debug, Copy, Clone, PartialEq, Eq, Structural)]
pub enum ICCProtocol {
    T0,
    T1,
}

impl ICCProtocol {
    pub open spec fn spec_to_u8(self) -> u8 {
        match self {
            ICCProtocol::T0 => 0x00,
            ICCProtocol::T1 => 0x01,
        }
    }

    pub open spec fn spec_from_u8(v: u8) -> Option<ICCProtocol> {
        if v == 0x00 {
            Some(ICCProtocol::T0)
        } else if v == 0x01 {
            Some(ICCProtocol::T1)
        } else {
            None
        }
    }

    pub fn to_u8(self) -> (r: u8)
        ensures
            r == self.spec_to_u8(),
            ICCProtocol::spec_from_u8(r) == Some(self),
    {
        match self {
            ICCProtocol::T0 => 0x00,
            ICCProtocol::T1 => 0x01,
        }
    }

    /// The value coded by `v`; any other value is parameter error 7.
    pub fn try_from_u8(v: u8) -> (r: Result<ICCProtocol, SlotErrorRegister>)
        ensures
            r == spec_field_result(ICCProtocol::spec_from_u8(v)),
    {
        match v {
            0x00 => Ok(ICCProtocol::T0),
            0x01 => Ok(ICCProtocol::T1),
            _ => Err(SlotErrorRegister::InvalidParameter(0x07)),
        }
    }
}

/// Clock command of `PC_to_RDR_IccClock`.
#[derive(Debug, Copy, Clone, PartialEq, Eq, Structural)]
pub enum ICCClockCommand {
    Restart,
    Stop,
}

impl ICCClockCommand {
    pub open spec fn spec_to_u8(self) -> u8 {
        match self {
            ICCClockCommand::Restart => 0x00,
            ICCClockCommand::Stop => 0x01,
        }
    }

    pub open spec fn spec_from_u8(v: u8) -> Option<ICCClockCommand> {
        if v == 0x00 {
            Some(ICCClockCommand::Restart)
        } else if v == 0x01 {
            Some(ICCClockCommand::Stop)
        } else {
            None
        }
    }

    pub fn to_u8(self) -> (r: u8)
        ensures
            r == self.spec_to_u8(),
            ICCClockCommand::spec_from_u8(r) == Some(self),
    {
        match self {
            ICCClockCommand::Restart => 0x00,
            ICCClockCommand::Stop => 0x01,
        }
    }

    /// The value coded by `v`; any other value is parameter error 7.
    pub fn try_from_u8(v: u8) -> (r: Result<ICCClockCommand, SlotErrorRegister>)
        ensures
            r == spec_field_result(ICCClockCommand::spec_from_u8(v)),
    {
        match v {
            0x00 => Ok(ICCClockCommand::Restart),
            0x01 => Ok(ICCClockCommand::Stop),
            _ => Err(SlotErrorRegister::InvalidParameter(0x07)),
        }
    }
}

/// Class bytes changed by `PC_to_RDR_T0APDU`.
#[derive(Debug, Copy, Clone, PartialEq, Eq, Structural)]
pub enum T0APDUClassChange {
    NoChange,
    GetResponse,
    Envelope,
    Both,
}

impl T0APDUClassChange {
    pub open spec fn spec_to_u8(self) -> u8 {
        match self {
            T0APDUClassChange::NoChange => 0x00,
            T0APDUClassChange::GetResponse => 0x01,
            T0APDUClassChange::Envelope => 0x02,
            T0APDUClassChange::Both => 0x03,
        }
    }

    pub open spec fn spec_from_u8(v: u8) -> Option<T0APDUClassChange> {
        if v == 0x00 {
            Some(T0APDUClassChange::NoChange)
        } else if v == 0x01 {
            Some(T0APDUClassChange::GetResponse)
        } else if v == 0x02 {
            Some(T0APDUClassChange::Envelope)
        } else if v == 0x03 {
            Some(T0APDUClassChange::Both)
        } else {
            None
        }
    }

    pub fn to_u8(self) -> (r: u8)
        ensures
            r == self.spec_to_u8(),
            T0APDUClassChange::spec_from_u8(r) == Some(self),
    {
        match self {
            T0APDUClassChange::NoChange => 0x00,
            T0APDUClassChange::GetResponse => 0x01,
            T0APDUClassChange::Envelope => 0x02,
            T0APDUClassChange::Both => 0x03,
        }
    }

    /// The value coded by `v`; any other value is parameter error 7.
    pub fn try_from_u8(v: u8) -> (r: Result<T0APDUClassChange, SlotErrorRegister>)
        ensures
            r == spec_field_result(T0APDUClassChange::spec_from_u8(v)),
    {
        match v {
            0x00 => Ok(T0APDUClassChange::NoChange),
            0x01 => Ok(T0APDUClassChange::GetResponse),
            0x02 => Ok(T0APDUClassChange::Envelope),
            0x03 => Ok(T0APDUClassChange::Both),
            _ => Err(SlotErrorRegister::InvalidParameter(0x07)),
        }
    }
}

/// Function requested by `PC_to_RDR_Mechanical`.
#[derive(Debug, Copy, Clone, PartialEq, Eq, Structural)]
pub enum ICCMechanicalFunction {
    AcceptCard,
    EjectCard,
    CaptureCard,
    LockCard,
    UnlockCard,
}

impl ICCMechanicalFunction {
    pub open spec fn spec_to_u8(self) -> u8 {
        match self {
            ICCMechanicalFunction::AcceptCard => 0x01,
            ICCMechanicalFunction::EjectCard => 0x02,
            ICCMechanicalFunction::CaptureCard => 0x03,
            ICCMechanicalFunction::LockCard => 0x04,
            ICCMechanicalFunction::UnlockCard => 0x05,
        }
    }

    pub open spec fn spec_from_u8(v: u8) -> Option<ICCMechanicalFunction> {
        if v == 0x01 {
            Some(ICCMechanicalFunction::AcceptCard)
        } else if v == 0x02 {
            Some(ICCMechanicalFunction::EjectCard)
        } else if v == 0x03 {
            Some(ICCMechanicalFunction::CaptureCard)
        } else if v == 0x04 {
            Some(ICCMechanicalFunction::LockCard)
        } else if v == 0x05 {
            Some(ICCMechanicalFunction::UnlockCard)
        } else {
            None
        }
    }

    pub fn to_u8(self) -> (r: u8)
        ensures
            r == self.spec_to_u8(),
            ICCMechanicalFunction::spec_from_u8(r) == Some(self),
    {
        match self {
            ICCMechanicalFunction::AcceptCard => 0x01,
            ICCMechanicalFunction::EjectCard => 0x02,
            ICCMechanicalFunction::CaptureCard => 0x03,
            ICCMechanicalFunction::LockCard => 0x04,
            ICCMechanicalFunction::UnlockCard => 0x05,
        }
    }

    /// The value coded by `v`; any other value is parameter error 7.
    pub fn try_from_u8(v: u8) -> (r: Result<ICCMechanicalFunction, SlotErrorRegister>)
        ensures
            r == spec_field_result(ICCMechanicalFunction::spec_from_u8(v)),
    {
        match v {
            0x01 => Ok(ICCMechanicalFunction::AcceptCard),
            0x02 => Ok(ICCMechanicalFunction::EjectCard),
            0x03 => Ok(ICCMechanicalFunction::CaptureCard),
            0x04 => Ok(ICCMechanicalFunction::LockCard),
            0x05 => Ok(ICCMechanicalFunction::UnlockCard),
            _ => Err(SlotErrorRegister::InvalidParameter(0x07)),
        }
    }
}

/// Clock state reported in `RDR_to_PC_SlotStatus`.
#[derive(Debug, Copy, Clone, PartialEq, Eq, Structural)]
pub enum ICCClockStatus {
    Running,
    StoppedInL,
    StoppedInH,
    StoppedUnknown,
}

impl ICCClockStatus {
    pub open spec fn spec_to_u8(self) -> u8 {
        match self {
            ICCClockStatus::Running => 0x00,
            ICCClockStatus::StoppedInL => 0x01,
            ICCClockStatus::StoppedInH => 0x02,
            ICCClockStatus::StoppedUnknown => 0x03,
        }
    }

    pub open spec fn spec_from_u8(v: u8) -> Option<ICCClockStatus> {
        if v == 0x00 {
            Some(ICCClockStatus::Running)
        } else if v == 0x01 {
            Some(ICCClockStatus::StoppedInL)
        } else if v == 0x02 {
            Some(ICCClockStatus::StoppedInH)
        } else if v == 0x03 {
            Some(ICCClockStatus::StoppedUnknown)
        } else {
            None
        }
    }

    pub fn to_u8(self) -> (r: u8)
        ensures
            r == self.spec_to_u8(),
            ICCClockStatus::spec_from_u8(r) == Some(self),
    {
        match self {
            ICCClockStatus::Running => 0x00,
            ICCClockStatus::StoppedInL => 0x01,
            ICCClockStatus::StoppedInH => 0x02,
            ICCClockStatus::StoppedUnknown => 0x03,
        }
    }

    pub fn try_from_u8(v: u8) -> (r: Option<ICCClockStatus>)
        ensures
            r == ICCClockStatus::spec_from_u8(v),
    {
        match v {
            0x00 => Some(ICCClockStatus::Running),
            0x01 => Some(ICCClockStatus::StoppedInL),
            0x02 => Some(ICCClockStatus::StoppedInH),
            0x03 => Some(ICCClockStatus::StoppedUnknown),
            _ => None,
        }
    }
}


/// A response header: the common header followed by the two slot registers.
#[derive(Debug, Copy, Clone, PartialEq, Eq, Structural)]
pub struct ResponseMessageHeader {
    pub inner: CommonMessageHeader,
    pub bStatus: SlotStatusRegister,
    pub bError: SlotErrorRegister,
}

impl ResponseMessageHeader {
    pub fn new(
        command: CommonMessageHeader,
        status: SlotStatusRegister,
        error: SlotErrorRegister,
    ) -> (r: ResponseMessageHeader)
        ensures
            r == (ResponseMessageHeader { inner: command, bStatus: status, bError: error }),
    {
        ResponseMessageHeader { inner: command, bStatus: status, bError: error }
    }

    /// Appends the nine header bytes (common header, status, error) to `out`.
    pub fn encode(&self, out: &mut Vec<u8>)
        ensures
            final(out)@ == old(out)@ + response_header_bytes(*self),
    {
        self.inner.encode(out);
        out.push(self.bStatus.to_u8());
        out.push(self.bError.to_u8());
    }
}

/// Wire form of a response header.
pub open spec fn response_header_bytes(h: ResponseMessageHeader) -> Seq<u8> {
    header_bytes(h.inner) + seq![h.bStatus.spec_to_u8(), h.bError.spec_to_u8()]
}

/// Why a command could not be decoded.
#[derive(Debug, Copy, Clone, PartialEq, Eq, Structural)]
pub enum CCIDError {
    /// Fewer bytes than a common header.
    BadCommand,
    /// The header was read; the response header to send back in place of a result.
    CommandError(ResponseMessageHeader),
}

impl CCIDError {
    pub fn command_error(
        command: CommonMessageHeader,
        status: SlotStatusRegister,
        error: SlotErrorRegister,
    ) -> (r: CCIDError)
        ensures
            r == CCIDError::CommandError(
                ResponseMessageHeader { inner: command, bStatus: status, bError: error },
            ),
    {
        CCIDError::CommandError(ResponseMessageHeader { inner: command, bStatus: status, bError: error })
    }
}

/// A host-to-reader CCID command.
#[allow(inconsistent_fields)]
#[derive(Debug)]
pub enum Command {
    PC_to_RDR_IccPowerOn { header: CommonMessageHeader, bPowerSelect: ICCVoltage, abRFU: [u8; 2] },
    PC_to_RDR_IccPowerOff { header: CommonMessageHeader, abRFU: [u8; 3] },
    PC_to_RDR_GetSlotStatus { header: CommonMessageHeader, abRFU: [u8; 3] },
    PC_to_RDR_XfrBlock {
        header: CommonMessageHeader,
        bBWI: u8,
        wLevelParameter: u16,
        abData: Vec<u8>,
    },
    PC_to_RDR_GetParameters { header: CommonMessageHeader, abRFU: [u8; 3] },
    PC_to_RDR_ResetParameters { header: CommonMessageHeader, abRFU: [u8; 3] },
    PC_to_RDR_SetParameters {
        header: CommonMessageHeader,
        bProtocolNum: ICCProtocol,
        abRFU: [u8; 2],
        abData: Vec<u8>,
    },
    PC_to_RDR_Escape { header: CommonMessageHeader, abRFU: [u8; 3], abData: Vec<u8> },
    PC_to_RDR_IccClock {
        header: CommonMessageHeader,
        bClockCommand: ICCClockCommand,
        abRFU: [u8; 2],
    },
    PC_to_RDR_T0APDU {
        header: CommonMessageHeader,
        bmChanges: T0APDUClassChange,
        bClassGetResponse: u8,
        bClassEnvelope: u8,
    },
    PC_to_RDR_Secure {
        header: CommonMessageHeader,
        bBWI: u8,
        wLevelParameter: u16,
        abData: Vec<u8>,
    },
    PC_to_RDR_Mechanical {
        header: CommonMessageHeader,
        bFunction: ICCMechanicalFunction,
        abRFU: [u8; 2],
    },
    PC_to_RDR_Abort { header: CommonMessageHeader, abRFU: [u8; 3] },
    PC_to_RDR_SetDataRateAndClockFrequency {
        header: CommonMessageHeader,
        abRFU: [u8; 3],
        dwClockFrequency: u32,
        dwDataRate: u32,
    },
}

/// The message types of the fourteen commands.
pub open spec fn is_command_type(t: u8) -> bool {
    t == consts::PC_to_RDR_IccPowerOn || t == consts::PC_to_RDR_IccPowerOff || t
        == consts::PC_to_RDR_GetSlotStatus || t == consts::PC_to_RDR_XfrBlock || t
        == consts::PC_to_RDR_GetParameters || t == consts::PC_to_RDR_ResetParameters || t
        == consts::PC_to_RDR_SetParameters || t == consts::PC_to_RDR_Escape || t
        == consts::PC_to_RDR_IccClock || t == consts::PC_to_RDR_T0APDU || t
        == consts::PC_to_RDR_Secure || t == consts::PC_to_RDR_Mechanical || t
        == consts::PC_to_RDR_Abort || t == consts::PC_to_RDR_SetDataRateAndClockFrequency
}


impl Command {
    pub open spec fn spec_header(self) -> CommonMessageHeader {
        match self {
            Command::PC_to_RDR_IccPowerOn { header, .. } => header,
            Command::PC_to_RDR_IccPowerOff { header, .. } => header,
            Command::PC_to_RDR_GetSlotStatus { header, .. } => header,
            Command::PC_to_RDR_XfrBlock { header, .. } => header,
            Command::PC_to_RDR_GetParameters { header, .. } => header,
            Command::PC_to_RDR_ResetParameters { header, .. } => header,
            Command::PC_to_RDR_SetParameters { header, .. } => header,
            Command::PC_to_RDR_Escape { header, .. } => header,
            Command::PC_to_RDR_IccClock { header, .. } => header,
            Command::PC_to_RDR_T0APDU { header, .. } => header,
            Command::PC_to_RDR_Secure { header, .. } => header,
            Command::PC_to_RDR_Mechanical { header, .. } => header,
            Command::PC_to_RDR_Abort { header, .. } => header,
            Command::PC_to_RDR_SetDataRateAndClockFrequency { header, .. } => header,
        }
    }

    /// The bytes after the common header.
    pub open spec fn body_bytes(self) -> Seq<u8> {
        match self {
            Command::PC_to_RDR_IccPowerOn { bPowerSelect, abRFU, .. } => seq![
                bPowerSelect.spec_to_u8(),
            ] + abRFU@,
            Command::PC_to_RDR_IccPowerOff { abRFU, .. } => abRFU@,
            Command::PC_to_RDR_GetSlotStatus { abRFU, .. } => abRFU@,
            Command::PC_to_RDR_XfrBlock { bBWI, wLevelParameter, abData, .. } => seq![bBWI]
                + spec_u16_to_le_bytes(wLevelParameter) + abData@,
            Command::PC_to_RDR_GetParameters { abRFU, .. } => abRFU@,
            Command::PC_to_RDR_ResetParameters { abRFU, .. } => abRFU@,
            Command::PC_to_RDR_SetParameters { bProtocolNum, abRFU, abData, .. } => seq![
                bProtocolNum.spec_to_u8(),
            ] + abRFU@ + abData@,
            Command::PC_to_RDR_Escape { abRFU, abData, .. } => abRFU@ + abData@,
            Command::PC_to_RDR_IccClock { bClockCommand, abRFU, .. } => seq![
                bClockCommand.spec_to_u8(),
            ] + abRFU@,
            Command::PC_to_RDR_T0APDU { bmChanges, bClassGetResponse, bClassEnvelope, .. } => seq![
                bmChanges.spec_to_u8(),
                bClassGetResponse,
                bClassEnvelope,
            ],
            Command::PC_to_RDR_Secure { bBWI, wLevelParameter, abData, .. } => seq![bBWI]
                + spec_u16_to_le_bytes(wLevelParameter) + abData@,
            Command::PC_to_RDR_Mechanical { bFunction, abRFU, .. } => seq![bFunction.spec_to_u8()]
                + abRFU@,
            Command::PC_to_RDR_Abort { abRFU, .. } => abRFU@,
            Command::PC_to_RDR_SetDataRateAndClockFrequency {
                abRFU,
                dwClockFrequency,
                dwDataRate,
                ..
            } => abRFU@ + spec_u32_to_le_bytes(dwClockFrequency) + spec_u32_to_le_bytes(dwDataRate),
        }
    }

    /// The whole message on the wire.
    pub open spec fn spec_bytes(self) -> Seq<u8> {
        header_bytes(self.spec_header()) + self.body_bytes()
    }

    /// The message type fits the variant and the length field counts its payload.
    pub open spec fn wf(self) -> bool {
        let h = self.spec_header();
        match self {
            Command::PC_to_RDR_IccPowerOn { .. } => h.bMessageType == consts::PC_to_RDR_IccPowerOn
                && h.dwLength == 0,
            Command::PC_to_RDR_IccPowerOff { .. } => h.bMessageType
                == consts::PC_to_RDR_IccPowerOff && h.dwLength == 0,
            Command::PC_to_RDR_GetSlotStatus { .. } => h.bMessageType
                == consts::PC_to_RDR_GetSlotStatus && h.dwLength == 0,
            Command::PC_to_RDR_XfrBlock { abData, .. } => h.bMessageType
                == consts::PC_to_RDR_XfrBlock && h.dwLength == abData@.len(),
            Command::PC_to_RDR_GetParameters { .. } => h.bMessageType
                == consts::PC_to_RDR_GetParameters && h.dwLength == 0,
            Command::PC_to_RDR_ResetParameters { .. } => h.bMessageType
                == consts::PC_to_RDR_ResetParameters && h.dwLength == 0,
            Command::PC_to_RDR_SetParameters { abData, .. } => h.bMessageType
                == consts::PC_to_RDR_SetParameters && h.dwLength == abData@.len(),
            Command::PC_to_RDR_Escape { abData, .. } => h.bMessageType == consts::PC_to_RDR_Escape
                && h.dwLength == abData@.len(),
            Command::PC_to_RDR_IccClock { .. } => h.bMessageType == consts::PC_to_RDR_IccClock
                && h.dwLength == 0,
            Command::PC_to_RDR_T0APDU { .. } => h.bMessageType == consts::PC_to_RDR_T0APDU
                && h.dwLength == 0,
            Command::PC_to_RDR_Secure { abData, .. } => h.bMessageType == consts::PC_to_RDR_Secure
                && h.dwLength == abData@.len(),
            Command::PC_to_RDR_Mechanical { .. } => h.bMessageType
                == consts::PC_to_RDR_Mechanical && h.dwLength == 0,
            Command::PC_to_RDR_Abort { .. } => h.bMessageType == consts::PC_to_RDR_Abort
                && h.dwLength == 0,
            Command::PC_to_RDR_SetDataRateAndClockFrequency { .. } => h.bMessageType
                == consts::PC_to_RDR_SetDataRateAndClockFrequency && h.dwLength == 8,
        }
    }

    pub fn get_header(&self) -> (r: &CommonMessageHeader)
        ensures
            *r == self.spec_header(),
    {
        match self {
            Command::PC_to_RDR_IccPowerOn { header, .. } => header,
            Command::PC_to_RDR_IccPowerOff { header, .. } => header,
            Command::PC_to_RDR_GetSlotStatus { header, .. } => header,
            Command::PC_to_RDR_XfrBlock { header, .. } => header,
            Command::PC_to_RDR_GetParameters { header, .. } => header,
            Command::PC_to_RDR_ResetParameters { header, .. } => header,
            Command::PC_to_RDR_SetParameters { header, .. } => header,
            Command::PC_to_RDR_Escape { header, .. } => header,
            Command::PC_to_RDR_IccClock { header, .. } => header,
            Command::PC_to_RDR_T0APDU { header, .. } => header,
            Command::PC_to_RDR_Secure { header, .. } => header,
            Command::PC_to_RDR_Mechanical { header, .. } => header,
            Command::PC_to_RDR_Abort { header, .. } => header,
            Command::PC_to_RDR_SetDataRateAndClockFrequency { header, .. } => header,
        }
    }
}


/// Whether `v` is a defined value of the enumerated field at offset 7 of a command of type `t`.
pub open spec fn field_value_ok(t: u8, v: u8) -> bool {
    if t == consts::PC_to_RDR_IccPowerOn {
        ICCVoltage::spec_from_u8(v) is Some
    } else if t == consts::PC_to_RDR_IccClock {
        ICCClockCommand::spec_from_u8(v) is Some
    } else if t == consts::PC_to_RDR_Mechanical {
        ICCMechanicalFunction::spec_from_u8(v) is Some
    } else if t == consts::PC_to_RDR_T0APDU {
        T0APDUClassChange::spec_from_u8(v) is Some
    } else if t == consts::PC_to_RDR_SetParameters {
        ICCProtocol::spec_from_u8(v) is Some
    } else {
        true
    }
}

/// For a message of at least ten bytes and a known command type: the offset of the
/// first field that is out of range or missing (1 for the length field itself and
/// for a payload whose size disagrees with it), or `None` when the message is sound.
pub open spec fn bad_field(s: Seq<u8>) -> Option<u8> {
    let h = header_of(s);
    let t = h.bMessageType;
    let n = s.len();
    let len = h.dwLength;
    if t == consts::PC_to_RDR_IccPowerOn || t == consts::PC_to_RDR_IccClock || t
        == consts::PC_to_RDR_Mechanical || t == consts::PC_to_RDR_T0APDU {
        if len != 0 {
            Some(1u8)
        } else if !field_value_ok(t, s[7]) {
            Some(7u8)
        } else if n > 10 {
            Some(1u8)
        } else {
            None
        }
    } else if t == consts::PC_to_RDR_XfrBlock || t == consts::PC_to_RDR_Secure || t
        == consts::PC_to_RDR_SetParameters {
        if !field_value_ok(t, s[7]) {
            Some(7u8)
        } else if n != 10 + len {
            Some(1u8)
        } else {
            None
        }
    } else if t == consts::PC_to_RDR_Escape {
        if n != 10 + len {
            Some(1u8)
        } else {
            None
        }
    } else if t == consts::PC_to_RDR_SetDataRateAndClockFrequency {
        if len != 8 {
            Some(1u8)
        } else if n < 14 {
            Some(0x0Au8)
        } else if n < 18 {
            Some(0x0Eu8)
        } else if n > 18 {
            Some(1u8)
        } else {
            None
        }
    } else {
        if len != 0 || n > 10 {
            Some(1u8)
        } else {
            None
        }
    }
}

/// The error that decoding `s` as a command yields, or `None` when it decodes. Every
/// command is at least ten bytes long; a shorter message is a bad command.
pub open spec fn decode_error(s: Seq<u8>) -> Option<CCIDError> {
    if s.len() < 10 {
        Some(CCIDError::BadCommand)
    } else if !is_command_type(s[0]) {
        Some(
            CCIDError::CommandError(
                ResponseMessageHeader {
                    inner: header_of(s),
                    bStatus: SlotStatusRegister::ICCActiveFailure,
                    bError: SlotErrorRegister::UnsupportedCommand,
                },
            ),
        )
    } else {
        match bad_field(s) {
            Some(code) => Some(
                CCIDError::CommandError(
                    ResponseMessageHeader {
                        inner: header_of(s),
                        bStatus: SlotStatusRegister::ICCInactiveFailure,
                        bError: SlotErrorRegister::InvalidParameter(code),
                    },
                ),
            ),
            None => None,
        }
    }
}

/// The seven header bytes of a message are the wire form of the header read from them.
pub proof fn lemma_header_bytes(s: Seq<u8>)
    requires
        s.len() >= 7,
    ensures
        header_bytes(header_of(s)) == s.subrange(0, 7),
{
    lemma_auto_spec_u32_to_from_le_bytes();
    assert(s.subrange(1, 5).len() == 4);
    assert(header_bytes(header_of(s)) =~= s.subrange(0, 7));
}

/// A parameter error at `code` for the command whose header is `header`.
fn invalid(header: CommonMessageHeader, code: u8) -> (r: CCIDError)
    ensures
        r == CCIDError::CommandError(
            ResponseMessageHeader {
                inner: header,
                bStatus: SlotStatusRegister::ICCInactiveFailure,
                bError: SlotErrorRegister::InvalidParameter(code),
            },
        ),
{
    CCIDError::command_error(
        header,
        SlotStatusRegister::ICCInactiveFailure,
        SlotErrorRegister::InvalidParameter(code),
    )
}

impl Command {
    /// Decodes one command message. A message is accepted exactly when it is the
    /// wire form of a well-formed command; otherwise the error says why.
    pub fn decode(input: &[u8]) -> (r: Result<Command, CCIDError>)
        ensures
            (r is Ok) == (decode_error(input@) is None),
            r matches Ok(c) ==> c.wf() && c.spec_bytes() == input@,
            r matches Err(e) ==> decode_error(input@) == Some(e),
    {
        if input.len() < 10 {
            return Err(CCIDError::BadCommand);
        }
        let header = match CommonMessageHeader::decode(input) {
            Some(h) => h,
            None => return Err(CCIDError::BadCommand),
        };
        let ghost s = input@;
        proof {
            lemma_header_bytes(s);
            lemma_auto_spec_u16_to_from_le_bytes();
            lemma_auto_spec_u32_to_from_le_bytes();
        }
        let n = input.len();
        let t = header.bMessageType;
        let len = header.dwLength;
        if t == consts::PC_to_RDR_IccPowerOn || t == consts::PC_to_RDR_IccClock || t
            == consts::PC_to_RDR_Mechanical || t == consts::PC_to_RDR_T0APDU {
            if len != 0 {
                return Err(invalid(header, 1));
            }
            let v = input[7];
            let cmd = if t == consts::PC_to_RDR_IccPowerOn {
                match ICCVoltage::try_from_u8(v) {
                    Ok(x) => Command::PC_to_RDR_IccPowerOn {
                        header,
                        bPowerSelect: x,
                        abRFU: [input[8], input[9]],
                    },
                    Err(_) => return Err(invalid(header, 7)),
                }
            } else if t == consts::PC_to_RDR_IccClock {
                match ICCClockCommand::try_from_u8(v) {
                    Ok(x) => Command::PC_to_RDR_IccClock {
                        header,
                        bClockCommand: x,
                        abRFU: [input[8], input[9]],
                    },
                    Err(_) => return Err(invalid(header, 7)),
                }
            } else if t == consts::PC_to_RDR_Mechanical {
                match ICCMechanicalFunction::try_from_u8(v) {
                    Ok(x) => Command::PC_to_RDR_Mechanical {
                        header,
                        bFunction: x,
                        abRFU: [input[8], input[9]],
                    },
                    Err(_) => return Err(invalid(header, 7)),
                }
            } else {
                match T0APDUClassChange::try_from_u8(v) {
                    Ok(x) => Command::PC_to_RDR_T0APDU {
                        header,
                        bmChanges: x,
                        bClassGetResponse: input[8],
                        bClassEnvelope: input[9],
                    },
                    Err(_) => return Err(invalid(header, 7)),
                }
            };
            if n > 10 {
                return Err(invalid(header, 1));
            }
            assert(cmd.spec_bytes() =~= s);
            Ok(cmd)
        } else if t == consts::PC_to_RDR_XfrBlock || t == consts::PC_to_RDR_Secure || t
            == consts::PC_to_RDR_SetParameters {
            let first = input[7];
            let protocol = if t == consts::PC_to_RDR_SetParameters {
                match ICCProtocol::try_from_u8(first) {
                    Ok(x) => x,
                    Err(_) => return Err(invalid(header, 7)),
                }
            } else {
                ICCProtocol::T1
            };
            if n - 10 != len as usize {
                return Err(invalid(header, 1));
            }
            let data = slice_subrange(input, 10, n);
            let cmd = if t == consts::PC_to_RDR_SetParameters {
                Command::PC_to_RDR_SetParameters {
                    header,
                    bProtocolNum: protocol,
                    abRFU: [input[8], input[9]],
                    abData: data,
                }
            } else {
                let level_bytes = slice_subrange(input, 8, 10);
                let level = u16_from_le_bytes(level_bytes.as_slice());
                assert(spec_u16_to_le_bytes(level) == s.subrange(8, 10));
                if t == consts::PC_to_RDR_XfrBlock {
                    Command::PC_to_RDR_XfrBlock {
                        header,
                        bBWI: first,
                        wLevelParameter: level,
                        abData: data,
                    }
                } else {
                    Command::PC_to_RDR_Secure {
                        header,
                        bBWI: first,
                        wLevelParameter: level,
                        abData: data,
                    }
                }
            };
            assert(cmd.spec_bytes() =~= s);
            Ok(cmd)
        } else if t == consts::PC_to_RDR_Escape {
            if n - 10 != len as usize {
                return Err(invalid(header, 1));
            }
            let data = slice_subrange(input, 10, n);
            let cmd = Command::PC_to_RDR_Escape {
                header,
                abRFU: [input[7], input[8], input[9]],
                abData: data,
            };
            assert(cmd.spec_bytes() =~= s);
            Ok(cmd)
        } else if t == consts::PC_to_RDR_SetDataRateAndClockFrequency {
            if len != 8 {
                return Err(invalid(header, 1));
            }
            if n < 14 {
                return Err(invalid(header, 0x0A));
            }
            if n < 18 {
                return Err(invalid(header, 0x0E));
            }
            if n > 18 {
                return Err(invalid(header, 1));
            }
            let clock_bytes = slice_subrange(input, 10, 14);
            let rate_bytes = slice_subrange(input, 14, 18);
            let clock = u32_from_le_bytes(clock_bytes.as_slice());
            let rate = u32_from_le_bytes(rate_bytes.as_slice());
            assert(spec_u32_to_le_bytes(clock) == s.subrange(10, 14));
            assert(spec_u32_to_le_bytes(rate) == s.subrange(14, 18));
            let cmd = Command::PC_to_RDR_SetDataRateAndClockFrequency {
                header,
                abRFU: [input[7], input[8], input[9]],
                dwClockFrequency: clock,
                dwDataRate: rate,
            };
            assert(cmd.spec_bytes() =~= s);
            Ok(cmd)
        } else if t == consts::PC_to_RDR_IccPowerOff || t == consts::PC_to_RDR_GetSlotStatus || t
            == consts::PC_to_RDR_GetParameters || t == consts::PC_to_RDR_ResetParameters || t
            == consts::PC_to_RDR_Abort {
            if len != 0 || n > 10 {
                return Err(invalid(header, 1));
            }
            let rfu = [input[7], input[8], input[9]];
            let cmd = if t == consts::PC_to_RDR_IccPowerOff {
                Command::PC_to_RDR_IccPowerOff { header, abRFU: rfu }
            } else if t == consts::PC_to_RDR_GetSlotStatus {
                Command::PC_to_RDR_GetSlotStatus { header, abRFU: rfu }
            } else if t == consts::PC_to_RDR_GetParameters {
                Command::PC_to_RDR_GetParameters { header, abRFU: rfu }
            } else if t == consts::PC_to_RDR_ResetParameters {
                Command::PC_to_RDR_ResetParameters { header, abRFU: rfu }
            } else {
                Command::PC_to_RDR_Abort { header, abRFU: rfu }
            };
            assert(cmd.spec_bytes() =~= s);
            Ok(cmd)
        } else {
            Err(
                CCIDError::CommandError(
                    ResponseMessageHeader::new(
                        header,
                        SlotStatusRegister::ICCActiveFailure,
                        SlotErrorRegister::UnsupportedCommand,
                    ),
                ),
            )
        }
    }
}


/// A reader-to-host CCID response.
#[derive(Debug)]
pub enum Response {
    RDR_to_PC_DataBlock { header: ResponseMessageHeader, bChainParameter: u8, abData: Vec<u8> },
    RDR_to_PC_SlotStatus { header: ResponseMessageHeader, bClockStatus: ICCClockStatus },
    RDR_to_PC_Parameters {
        header: ResponseMessageHeader,
        bProtocolNum: ICCProtocol,
        abData: Vec<u8>,
    },
    RDR_to_PC_Escape { header: ResponseMessageHeader, abData: Vec<u8> },
    RDR_to_PC_DataRateAndClockFrequency {
        header: ResponseMessageHeader,
        dwClockFrequency: u32,
        dwDataRate: u32,
    },
    /// The answer to a command that failed as unsupported: a slot status message.
    RDR_to_PC_UnsupportedCommand { header: ResponseMessageHeader },
}

/// The mathematical value of a response: its fields, with payloads as sequences.
pub enum ResponseView {
    DataBlock { header: ResponseMessageHeader, chain: u8, data: Seq<u8> },
    SlotStatus { header: ResponseMessageHeader, clock: ICCClockStatus },
    Parameters { header: ResponseMessageHeader, protocol: ICCProtocol, data: Seq<u8> },
    Escape { header: ResponseMessageHeader, data: Seq<u8> },
    DataRateAndClockFrequency { header: ResponseMessageHeader, clock_frequency: u32, data_rate: u32 },
    UnsupportedCommand { header: ResponseMessageHeader },
}

impl View for Response {
    type V = ResponseView;

    open spec fn view(&self) -> ResponseView {
        match self {
            Response::RDR_to_PC_DataBlock { header, bChainParameter, abData } =>
                ResponseView::DataBlock { header: *header, chain: *bChainParameter, data: abData@ },
            Response::RDR_to_PC_SlotStatus { header, bClockStatus } => ResponseView::SlotStatus {
                header: *header,
                clock: *bClockStatus,
            },
            Response::RDR_to_PC_Parameters { header, bProtocolNum, abData } =>
                ResponseView::Parameters { header: *header, protocol: *bProtocolNum, data: abData@ },
            Response::RDR_to_PC_Escape { header, abData } => ResponseView::Escape {
                header: *header,
                data: abData@,
            },
            Response::RDR_to_PC_DataRateAndClockFrequency {
                header,
                dwClockFrequency,
                dwDataRate,
            } => ResponseView::DataRateAndClockFrequency {
                header: *header,
                clock_frequency: *dwClockFrequency,
                data_rate: *dwDataRate,
            },
            Response::RDR_to_PC_UnsupportedCommand { header } => ResponseView::UnsupportedCommand {
                header: *header,
            },
        }
    }
}

impl ResponseView {
    pub open spec fn header(self) -> ResponseMessageHeader {
        match self {
            ResponseView::DataBlock { header, .. } => header,
            ResponseView::SlotStatus { header, .. } => header,
            ResponseView::Parameters { header, .. } => header,
            ResponseView::Escape { header, .. } => header,
            ResponseView::DataRateAndClockFrequency { header, .. } => header,
            ResponseView::UnsupportedCommand { header } => header,
        }
    }

    /// The payload that the header's length field counts.
    pub open spec fn payload(self) -> Seq<u8> {
        match self {
            ResponseView::DataBlock { data, .. } => data,
            ResponseView::Parameters { data, .. } => data,
            ResponseView::Escape { data, .. } => data,
            ResponseView::DataRateAndClockFrequency { clock_frequency, data_rate, .. } =>
                spec_u32_to_le_bytes(data_rate) + spec_u32_to_le_bytes(clock_frequency),
            _ => Seq::empty(),
        }
    }

    /// The bytes that follow the nine-byte response header.
    pub open spec fn trailer(self) -> Seq<u8> {
        match self {
            ResponseView::DataBlock { chain, data, .. } => seq![chain] + data,
            ResponseView::SlotStatus { clock, .. } => seq![clock.spec_to_u8()],
            ResponseView::Parameters { protocol, data, .. } => seq![protocol.spec_to_u8()] + data,
            ResponseView::Escape { data, .. } => data,
            ResponseView::DataRateAndClockFrequency { .. } => self.payload(),
            ResponseView::UnsupportedCommand { .. } => seq![0u8],
        }
    }

    /// The whole message on the wire.
    pub open spec fn bytes(self) -> Seq<u8> {
        response_header_bytes(self.header()) + self.trailer()
    }

    /// The message type belongs to the variant, the length field counts the payload,
    /// the error register is well formed, and a slot status message is told apart
    /// from the answer to an unsupported command.
    pub open spec fn wf(self) -> bool {
        let h = self.header();
        &&& h.bError.wf()
        &&& h.inner.dwLength == self.payload().len()
        &&& match self {
            ResponseView::DataBlock { .. } => h.inner.bMessageType == consts::RDR_to_PC_DataBlock,
            ResponseView::SlotStatus { clock, .. } => h.inner.bMessageType
                == consts::RDR_to_PC_SlotStatus && !is_unsupported_status(h.bStatus, h.bError),
            ResponseView::Parameters { .. } => h.inner.bMessageType
                == consts::RDR_to_PC_Parameters,
            ResponseView::Escape { .. } => h.inner.bMessageType == consts::RDR_to_PC_Escape,
            ResponseView::DataRateAndClockFrequency { .. } => h.inner.bMessageType
                == consts::RDR_to_PC_DataRateAndClockFrequency,
            ResponseView::UnsupportedCommand { .. } => h.inner.bMessageType
                == consts::RDR_to_PC_SlotStatus && is_unsupported_status(h.bStatus, h.bError),
        }
    }
}

/// A failed command with the "command not supported" error.
pub open spec fn is_unsupported_status(status: SlotStatusRegister, error: SlotErrorRegister) -> bool {
    status.spec_command() == CommandStatus::Failure && error == SlotErrorRegister::UnsupportedCommand
}

/// The response decoded from `s`, if `s` is the wire form of a well-formed response.
pub open spec fn spec_decode_response(s: Seq<u8>) -> Option<ResponseView> {
    if s.len() < 9 {
        None
    } else {
        let inner = header_of(s);
        let n = s.len();
        let payload_len = inner.dwLength as int;
        match SlotStatusRegister::spec_from_u8(s[7]) {
            None => None,
            Some(status) => {
                let header = ResponseMessageHeader {
                    inner,
                    bStatus: status,
                    bError: SlotErrorRegister::spec_from_u8(s[8]),
                };
                let t = inner.bMessageType;
                if t == consts::RDR_to_PC_DataBlock {
                    if n == 10 + payload_len {
                        Some(ResponseView::DataBlock { header, chain: s[9], data: s.subrange(10, n as int) })
                    } else {
                        None
                    }
                } else if t == consts::RDR_to_PC_SlotStatus {
                    if n != 10 || payload_len != 0 {
                        None
                    } else if is_unsupported_status(header.bStatus, header.bError) {
                        if s[9] == 0 {
                            Some(ResponseView::UnsupportedCommand { header })
                        } else {
                            None
                        }
                    } else {
                        match ICCClockStatus::spec_from_u8(s[9]) {
                            Some(clock) => Some(ResponseView::SlotStatus { header, clock }),
                            None => None,
                        }
                    }
                } else if t == consts::RDR_to_PC_Parameters {
                    if n != 10 + payload_len {
                        None
                    } else {
                        match ICCProtocol::spec_from_u8(s[9]) {
                            Some(protocol) => Some(
                                ResponseView::Parameters { header, protocol, data: s.subrange(10, n as int) },
                            ),
                            None => None,
                        }
                    }
                } else if t == consts::RDR_to_PC_Escape {
                    if n == 9 + payload_len {
                        Some(ResponseView::Escape { header, data: s.subrange(9, n as int) })
                    } else {
                        None
                    }
                } else if t == consts::RDR_to_PC_DataRateAndClockFrequency {
                    if n == 17 && payload_len == 8 {
                        Some(
                            ResponseView::DataRateAndClockFrequency {
                                header,
                                data_rate: spec_u32_from_le_bytes(s.subrange(9, 13)),
                                clock_frequency: spec_u32_from_le_bytes(s.subrange(13, 17)),
                            },
                        )
                    } else {
                        None
                    }
                } else {
                    None
                }
            },
        }
    }
}

/// The message type of the response that answers each command type.
pub open spec fn response_type_for(command_type: u8) -> Option<u8> {
    if command_type == consts::PC_to_RDR_IccPowerOn || command_type == consts::PC_to_RDR_XfrBlock
        || command_type == consts::PC_to_RDR_Secure {
        Some(consts::RDR_to_PC_DataBlock)
    } else if command_type == consts::PC_to_RDR_IccPowerOff || command_type
        == consts::PC_to_RDR_GetSlotStatus || command_type == consts::PC_to_RDR_IccClock
        || command_type == consts::PC_to_RDR_T0APDU || command_type
        == consts::PC_to_RDR_Mechanical || command_type == consts::PC_to_RDR_Abort {
        Some(consts::RDR_to_PC_SlotStatus)
    } else if command_type == consts::PC_to_RDR_GetParameters || command_type
        == consts::PC_to_RDR_ResetParameters || command_type == consts::PC_to_RDR_SetParameters {
        Some(consts::RDR_to_PC_Parameters)
    } else if command_type == consts::PC_to_RDR_SetDataRateAndClockFrequency {
        Some(consts::RDR_to_PC_DataRateAndClockFrequency)
    } else {
        None
    }
}

/// The empty response to `command` carrying `status` and `error`: the variant comes
/// from `response_type_for`, and a failure with "command not supported", or a
/// command type that the table does not name, gives the unsupported-command answer.
pub open spec fn spec_new_with_status(
    command: CommonMessageHeader,
    status: SlotStatusRegister,
    error: SlotErrorRegister,
) -> ResponseView {
    let with_type = |t: u8, len: u32|
        CommonMessageHeader { bMessageType: t, dwLength: len, ..command };
    if is_unsupported_status(status, error) {
        ResponseView::UnsupportedCommand {
            header: ResponseMessageHeader {
                inner: with_type(consts::RDR_to_PC_SlotStatus, 0),
                bStatus: status,
                bError: error,
            },
        }
    } else {
        match response_type_for(command.bMessageType) {
            Some(t) => {
                let header = ResponseMessageHeader {
                    inner: with_type(t, if t == consts::RDR_to_PC_DataRateAndClockFrequency { 8 } else { 0 }),
                    bStatus: status,
                    bError: error,
                };
                if t == consts::RDR_to_PC_DataBlock {
                    ResponseView::DataBlock { header, chain: 0, data: Seq::empty() }
                } else if t == consts::RDR_to_PC_SlotStatus {
                    ResponseView::SlotStatus { header, clock: ICCClockStatus::Running }
                } else if t == consts::RDR_to_PC_Parameters {
                    ResponseView::Parameters { header, protocol: ICCProtocol::T1, data: Seq::empty() }
                } else {
                    ResponseView::DataRateAndClockFrequency { header, clock_frequency: 0, data_rate: 0 }
                }
            },
            None => ResponseView::UnsupportedCommand {
                header: ResponseMessageHeader {
                    inner: with_type(consts::RDR_to_PC_SlotStatus, 0),
                    bStatus: SlotStatusRegister::ICCActiveFailure,
                    bError: SlotErrorRegister::UnsupportedCommand,
                },
            },
        }
    }
}


impl Response {
    /// The empty response to `command` with the given registers (see
    /// `spec_new_with_status`).
    pub fn new_with_status(
        command: CommonMessageHeader,
        status: SlotStatusRegister,
        error: SlotErrorRegister,
    ) -> (r: Response)
        ensures
            r@ == spec_new_with_status(command, status, error),
            error.wf() ==> r@.wf(),
    {
        let mut header = ResponseMessageHeader::new(command, status, error);
        header.inner.dwLength = 0;
        if status.CommandStatus() == CommandStatus::Failure && error
            == SlotErrorRegister::UnsupportedCommand {
            header.inner.bMessageType = consts::RDR_to_PC_SlotStatus;
            return Response::RDR_to_PC_UnsupportedCommand { header };
        }
        let t = command.bMessageType;
        if t == consts::PC_to_RDR_IccPowerOn || t == consts::PC_to_RDR_XfrBlock || t
            == consts::PC_to_RDR_Secure {
            header.inner.bMessageType = consts::RDR_to_PC_DataBlock;
            Response::RDR_to_PC_DataBlock { header, bChainParameter: 0, abData: Vec::new() }
        } else if t == consts::PC_to_RDR_IccPowerOff || t == consts::PC_to_RDR_GetSlotStatus || t
            == consts::PC_to_RDR_IccClock || t == consts::PC_to_RDR_T0APDU || t
            == consts::PC_to_RDR_Mechanical || t == consts::PC_to_RDR_Abort {
            header.inner.bMessageType = consts::RDR_to_PC_SlotStatus;
            Response::RDR_to_PC_SlotStatus { header, bClockStatus: ICCClockStatus::Running }
        } else if t == consts::PC_to_RDR_GetParameters || t == consts::PC_to_RDR_ResetParameters
            || t == consts::PC_to_RDR_SetParameters {
            header.inner.bMessageType = consts::RDR_to_PC_Parameters;
            Response::RDR_to_PC_Parameters {
                header,
                bProtocolNum: ICCProtocol::T1,
                abData: Vec::new(),
            }
        } else if t == consts::PC_to_RDR_SetDataRateAndClockFrequency {
            header.inner.bMessageType = consts::RDR_to_PC_DataRateAndClockFrequency;
            header.inner.dwLength = 8;
            proof {
                lemma_auto_spec_u32_to_from_le_bytes();
            }
            Response::RDR_to_PC_DataRateAndClockFrequency {
                header,
                dwClockFrequency: 0,
                dwDataRate: 0,
            }
        } else {
            header.inner.bMessageType = consts::RDR_to_PC_SlotStatus;
            header.bStatus = SlotStatusRegister::ICCActiveFailure;
            header.bError = SlotErrorRegister::UnsupportedCommand;
            Response::RDR_to_PC_UnsupportedCommand { header }
        }
    }

    /// The empty successful response to `command`.
    pub fn new(command: CommonMessageHeader) -> (r: Response)
        ensures
            r@ == spec_new_with_status(
                command,
                SlotStatusRegister::ICCActiveSuccess,
                SlotErrorRegister::UnsupportedCommand,
            ),
            r@.wf(),
    {
        Response::new_with_status(
            command,
            SlotStatusRegister::ICCActiveSuccess,
            SlotErrorRegister::UnsupportedCommand,
        )
    }

    /// The empty response that reports the registers of `header` for its command.
    pub fn new_with_error(header: ResponseMessageHeader) -> (r: Response)
        ensures
            r@ == spec_new_with_status(header.inner, header.bStatus, header.bError),
            header.bError.wf() ==> r@.wf(),
    {
        Response::new_with_status(header.inner, header.bStatus, header.bError)
    }

    /// Overrides both registers; the unsupported-command answer keeps its own.
    pub fn set_status(&mut self, status: SlotStatusRegister, error: SlotErrorRegister)
        ensures
            final(self)@ == spec_set_status(old(self)@, status, error),
    {
        match self {
            Response::RDR_to_PC_SlotStatus { header, .. } => set_registers(header, status, error),
            Response::RDR_to_PC_Parameters { header, .. } => set_registers(header, status, error),
            Response::RDR_to_PC_DataBlock { header, .. } => set_registers(header, status, error),
            Response::RDR_to_PC_DataRateAndClockFrequency { header, .. } => set_registers(
                header,
                status,
                error,
            ),
            Response::RDR_to_PC_Escape { header, .. } => set_registers(header, status, error),
            Response::RDR_to_PC_UnsupportedCommand { .. } => {},
        }
    }

    /// Appends `data` to the payload of a data block, parameters or escape response
    /// and grows the length field with it. Any other variant, or a length that would
    /// not fit the field, is refused and leaves the response unchanged.
    pub fn append(&mut self, data: &[u8]) -> (r: Result<(), ()>)
        ensures
            r is Ok <==> has_payload(old(self)@) && old(self)@.header().inner.dwLength + data@.len()
                <= u32::MAX,
            r is Ok ==> final(self)@ == spec_append(old(self)@, data@),
            r is Err ==> final(self)@ == old(self)@,
    {
        match self {
            Response::RDR_to_PC_DataBlock { header, abData, .. } => append_payload(header, abData, data),
            Response::RDR_to_PC_Parameters { header, abData, .. } => append_payload(header, abData, data),
            Response::RDR_to_PC_Escape { header, abData } => append_payload(header, abData, data),
            _ => Err(()),
        }
    }

    /// The wire form of the response.
    pub fn encode(&self) -> (r: Vec<u8>)
        ensures
            r@ == self@.bytes(),
    {
        let mut out: Vec<u8> = Vec::new();
        match self {
            Response::RDR_to_PC_DataBlock { header, bChainParameter, abData } => {
                header.encode(&mut out);
                out.push(*bChainParameter);
                push_all(&mut out, abData.as_slice());
            },
            Response::RDR_to_PC_SlotStatus { header, bClockStatus } => {
                header.encode(&mut out);
                out.push(bClockStatus.to_u8());
            },
            Response::RDR_to_PC_Parameters { header, bProtocolNum, abData } => {
                header.encode(&mut out);
                out.push(bProtocolNum.to_u8());
                push_all(&mut out, abData.as_slice());
            },
            Response::RDR_to_PC_Escape { header, abData } => {
                header.encode(&mut out);
                push_all(&mut out, abData.as_slice());
            },
            Response::RDR_to_PC_DataRateAndClockFrequency {
                header,
                dwClockFrequency,
                dwDataRate,
            } => {
                header.encode(&mut out);
                let rate = u32_to_le_bytes(*dwDataRate);
                let clock = u32_to_le_bytes(*dwClockFrequency);
                push_all(&mut out, rate.as_slice());
                push_all(&mut out, clock.as_slice());
            },
            Response::RDR_to_PC_UnsupportedCommand { header } => {
                header.encode(&mut out);
                out.push(0u8);
            },
        }
        assert(out@ =~= self@.bytes());
        out
    }
}

/// The response that reports `status` and `error` for `command`. A command type
/// with a row in `response_type_for`, or the unsupported-command failure, gets
/// `spec_new_with_status`; any other type gets a slot status message carrying the
/// two registers, so that they reach the host whatever the type.
pub open spec fn spec_report(
    command: CommonMessageHeader,
    status: SlotStatusRegister,
    error: SlotErrorRegister,
) -> ResponseView {
    if response_type_for(command.bMessageType) is Some || is_unsupported_status(status, error) {
        spec_new_with_status(command, status, error)
    } else {
        ResponseView::SlotStatus {
            header: ResponseMessageHeader {
                inner: CommonMessageHeader {
                    bMessageType: consts::RDR_to_PC_SlotStatus,
                    dwLength: 0,
                    ..command
                },
                bStatus: status,
                bError: error,
            },
            clock: ICCClockStatus::Running,
        }
    }
}

impl Response {
    /// The empty response that reports `status` and `error` for `command` (see
    /// `spec_report`).
    pub fn new_report(
        command: CommonMessageHeader,
        status: SlotStatusRegister,
        error: SlotErrorRegister,
    ) -> (r: Response)
        ensures
            r@ == spec_report(command, status, error),
            error.wf() ==> r@.wf(),
    {
        let t = command.bMessageType;
        let known = t == consts::PC_to_RDR_IccPowerOn || t == consts::PC_to_RDR_XfrBlock || t
            == consts::PC_to_RDR_Secure || t == consts::PC_to_RDR_IccPowerOff || t
            == consts::PC_to_RDR_GetSlotStatus || t == consts::PC_to_RDR_IccClock || t
            == consts::PC_to_RDR_T0APDU || t == consts::PC_to_RDR_Mechanical || t
            == consts::PC_to_RDR_Abort || t == consts::PC_to_RDR_GetParameters || t
            == consts::PC_to_RDR_ResetParameters || t == consts::PC_to_RDR_SetParameters || t
            == consts::PC_to_RDR_SetDataRateAndClockFrequency;
        if known || (status.CommandStatus() == CommandStatus::Failure && error
            == SlotErrorRegister::UnsupportedCommand) {
            return Response::new_with_status(command, status, error);
        }
        let inner = CommonMessageHeader {
            bMessageType: consts::RDR_to_PC_SlotStatus,
            dwLength: 0,
            bSlot: command.bSlot,
            bSeq: command.bSeq,
        };
        Response::RDR_to_PC_SlotStatus {
            header: ResponseMessageHeader { inner, bStatus: status, bError: error },
            bClockStatus: ICCClockStatus::Running,
        }
    }
}

/// Data block, parameters and escape responses carry a variable payload.
pub open spec fn has_payload(r: ResponseView) -> bool {
    r is DataBlock || r is Parameters || r is Escape
}

/// `r` with both registers overridden, unless it answers an unsupported command.
pub open spec fn spec_set_status(
    r: ResponseView,
    status: SlotStatusRegister,
    error: SlotErrorRegister,
) -> ResponseView {
    let h = ResponseMessageHeader { bStatus: status, bError: error, ..r.header() };
    match r {
        ResponseView::DataBlock { chain, data, .. } => ResponseView::DataBlock { header: h, chain, data },
        ResponseView::SlotStatus { clock, .. } => ResponseView::SlotStatus { header: h, clock },
        ResponseView::Parameters { protocol, data, .. } => ResponseView::Parameters {
            header: h,
            protocol,
            data,
        },
        ResponseView::Escape { data, .. } => ResponseView::Escape { header: h, data },
        ResponseView::DataRateAndClockFrequency { clock_frequency, data_rate, .. } =>
            ResponseView::DataRateAndClockFrequency { header: h, clock_frequency, data_rate },
        ResponseView::UnsupportedCommand { header } => ResponseView::UnsupportedCommand { header },
    }
}

/// `r` with `data` added to its payload and counted in its length field.
pub open spec fn spec_append(r: ResponseView, data: Seq<u8>) -> ResponseView {
    let old_h = r.header();
    let h = ResponseMessageHeader {
        inner: CommonMessageHeader {
            dwLength: (old_h.inner.dwLength + data.len()) as u32,
            ..old_h.inner
        },
        ..old_h
    };
    match r {
        ResponseView::DataBlock { chain, data: d, .. } => ResponseView::DataBlock {
            header: h,
            chain,
            data: d + data,
        },
        ResponseView::Parameters { protocol, data: d, .. } => ResponseView::Parameters {
            header: h,
            protocol,
            data: d + data,
        },
        ResponseView::Escape { data: d, .. } => ResponseView::Escape { header: h, data: d + data },
        _ => r,
    }
}


fn set_registers(header: &mut ResponseMessageHeader, status: SlotStatusRegister, error: SlotErrorRegister)
    ensures
        *final(header) == (ResponseMessageHeader { bStatus: status, bError: error, ..*old(header) }),
{
    header.bStatus = status;
    header.bError = error;
}

/// Adds `data` to `payload` and to the length field of `header`, if the length fits.
fn append_payload(header: &mut ResponseMessageHeader, payload: &mut Vec<u8>, data: &[u8]) -> (r: Result<(), ()>)
    ensures
        r is Ok <==> old(header).inner.dwLength + data@.len() <= u32::MAX,
        r is Ok ==> final(payload)@ == old(payload)@ + data@ && *final(header) == (ResponseMessageHeader {
            inner: CommonMessageHeader {
                dwLength: (old(header).inner.dwLength + data@.len()) as u32,
                ..old(header).inner
            },
            ..*old(header)
        }),
        r is Err ==> *final(header) == *old(header) && final(payload)@ == old(payload)@,
{
    if data.len() as u64 > (u32::MAX - header.inner.dwLength) as u64 {
        return Err(());
    }
    push_all(payload, data);
    header.inner.dwLength = header.inner.dwLength + data.len() as u32;
    Ok(())
}


impl Response {
    /// Decodes one response message; `None` unless the bytes are the wire form of a
    /// well-formed response.
    pub fn decode(input: &[u8]) -> (r: Option<Response>)
        ensures
            match r {
                Some(x) => spec_decode_response(input@) == Some(x@),
                None => spec_decode_response(input@) is None,
            },
    {
        let inner = match CommonMessageHeader::decode(input) {
            Some(h) => h,
            None => return None,
        };
        let n = input.len();
        if n < 9 {
            return None;
        }
        let status = match SlotStatusRegister::try_from_u8(input[7]) {
            Some(st) => st,
            None => return None,
        };
        let header = ResponseMessageHeader {
            inner,
            bStatus: status,
            bError: SlotErrorRegister::from_u8(input[8]),
        };
        let len = inner.dwLength as usize;
        let t = inner.bMessageType;
        if t == consts::RDR_to_PC_DataBlock {
            if n < 10 || n - 10 != len {
                return None;
            }
            Some(
                Response::RDR_to_PC_DataBlock {
                    header,
                    bChainParameter: input[9],
                    abData: slice_subrange(input, 10, n),
                },
            )
        } else if t == consts::RDR_to_PC_SlotStatus {
            if n != 10 || len != 0 {
                return None;
            }
            if status.CommandStatus() == CommandStatus::Failure && header.bError
                == SlotErrorRegister::UnsupportedCommand {
                if input[9] == 0 {
                    Some(Response::RDR_to_PC_UnsupportedCommand { header })
                } else {
                    None
                }
            } else {
                match ICCClockStatus::try_from_u8(input[9]) {
                    Some(clock) => Some(Response::RDR_to_PC_SlotStatus { header, bClockStatus: clock }),
                    None => None,
                }
            }
        } else if t == consts::RDR_to_PC_Parameters {
            if n < 10 || n - 10 != len {
                return None;
            }
            match ICCProtocol::try_from_u8(input[9]) {
                Ok(protocol) => Some(
                    Response::RDR_to_PC_Parameters {
                        header,
                        bProtocolNum: protocol,
                        abData: slice_subrange(input, 10, n),
                    },
                ),
                Err(_) => None,
            }
        } else if t == consts::RDR_to_PC_Escape {
            if n - 9 != len {
                return None;
            }
            Some(Response::RDR_to_PC_Escape { header, abData: slice_subrange(input, 9, n) })
        } else if t == consts::RDR_to_PC_DataRateAndClockFrequency {
            if n != 17 || len != 8 {
                return None;
            }
            let rate_bytes = slice_subrange(input, 9, 13);
            let clock_bytes = slice_subrange(input, 13, 17);
            Some(
                Response::RDR_to_PC_DataRateAndClockFrequency {
                    header,
                    dwDataRate: u32_from_le_bytes(rate_bytes.as_slice()),
                    dwClockFrequency: u32_from_le_bytes(clock_bytes.as_slice()),
                },
            )
        } else {
            None
        }
    }
}

/// The common header is read back from its wire form, whatever follows it.
pub proof fn lemma_header_of_bytes(h: CommonMessageHeader, rest: Seq<u8>)
    ensures
        header_of(header_bytes(h) + rest) == h,
        (header_bytes(h) + rest).len() == 7 + rest.len(),
{
    lemma_auto_spec_u32_to_from_le_bytes();
    let s = header_bytes(h) + rest;
    assert(s.subrange(1, 5) =~= spec_u32_to_le_bytes(h.dwLength));
}

/// A slot status register is read back from its status byte.
pub proof fn lemma_slot_status_round_trip(st: SlotStatusRegister)
    ensures
        SlotStatusRegister::spec_from_u8(st.spec_to_u8()) == Some(st),
{
    let c = choose|s: SlotStatusRegister| s.spec_to_u8() == st.spec_to_u8();
    lemma_slot_status_injective(c, st);
}

/// Decoding the encoding of a well-formed response gives the response back.
pub proof fn lemma_response_round_trip(r: ResponseView)
    requires
        r.wf(),
    ensures
        spec_decode_response(r.bytes()) == Some(r),
{
    let h = r.header();
    let s = r.bytes();
    let rest = seq![h.bStatus.spec_to_u8(), h.bError.spec_to_u8()] + r.trailer();
    assert(s =~= header_bytes(h.inner) + rest);
    lemma_header_of_bytes(h.inner, rest);
    lemma_slot_status_round_trip(h.bStatus);
    lemma_slot_error_round_trip(h.bError);
    lemma_auto_spec_u32_to_from_le_bytes();
    assert(s[7] == h.bStatus.spec_to_u8());
    assert(s[8] == h.bError.spec_to_u8());
    match r {
        ResponseView::DataBlock { data, .. } => {
            assert(s.subrange(10, s.len() as int) =~= data);
        },
        ResponseView::Parameters { data, protocol, .. } => {
            assert(s.subrange(10, s.len() as int) =~= data);
            assert(ICCProtocol::spec_from_u8(protocol.spec_to_u8()) == Some(protocol));
        },
        ResponseView::Escape { data, .. } => {
            assert(s.subrange(9, s.len() as int) =~= data);
        },
        ResponseView::SlotStatus { clock, .. } => {
            assert(ICCClockStatus::spec_from_u8(clock.spec_to_u8()) == Some(clock));
        },
        ResponseView::DataRateAndClockFrequency { clock_frequency, data_rate, .. } => {
            assert(s.subrange(9, 13) =~= spec_u32_to_le_bytes(data_rate));
            assert(s.subrange(13, 17) =~= spec_u32_to_le_bytes(clock_frequency));
        },
        ResponseView::UnsupportedCommand { .. } => {},
    }
}

/// In the encoding of a well-formed response, the length field equals the size of
/// the payload, which is the tail of the message.
pub proof fn lemma_response_length_field(r: ResponseView)
    requires
        r.wf(),
    ensures
        header_of(r.bytes()).dwLength == r.payload().len(),
        r.bytes().subrange(r.bytes().len() - r.payload().len(), r.bytes().len() as int)
            == r.payload(),
{
    let h = r.header();
    let rest = seq![h.bStatus.spec_to_u8(), h.bError.spec_to_u8()] + r.trailer();
    assert(r.bytes() =~= header_bytes(h.inner) + rest);
    lemma_header_of_bytes(h.inner, rest);
    lemma_auto_spec_u32_to_from_le_bytes();
    assert(r.bytes().subrange(r.bytes().len() - r.payload().len(), r.bytes().len() as int)
        =~= r.payload());
}


/// Every well-formed command is accepted by the decoder, which then returns a
/// command with the same wire form.
pub proof fn lemma_command_accepted(c: Command)
    requires
        c.wf(),
    ensures
        decode_error(c.spec_bytes()) is None,
{
    let s = c.spec_bytes();
    lemma_header_of_bytes(c.spec_header(), c.body_bytes());
    lemma_auto_spec_u16_to_from_le_bytes();
    lemma_auto_spec_u32_to_from_le_bytes();
    assert(s[7] == c.body_bytes()[0]);
    match c {
        Command::PC_to_RDR_IccPowerOn { bPowerSelect, .. } => {
            assert(ICCVoltage::spec_from_u8(bPowerSelect.spec_to_u8()) == Some(bPowerSelect));
        },
        Command::PC_to_RDR_SetParameters { bProtocolNum, .. } => {
            assert(ICCProtocol::spec_from_u8(bProtocolNum.spec_to_u8()) == Some(bProtocolNum));
        },
        Command::PC_to_RDR_IccClock { bClockCommand, .. } => {
            assert(ICCClockCommand::spec_from_u8(bClockCommand.spec_to_u8()) == Some(bClockCommand));
        },
        Command::PC_to_RDR_T0APDU { bmChanges, .. } => {
            assert(T0APDUClassChange::spec_from_u8(bmChanges.spec_to_u8()) == Some(bmChanges));
        },
        Command::PC_to_RDR_Mechanical { bFunction, .. } => {
            assert(ICCMechanicalFunction::spec_from_u8(bFunction.spec_to_u8()) == Some(bFunction));
        },
        _ => {},
    }
}


// Conversions between register and field values and their bytes.

/// A decoded value, or `Err(())` for a byte that codes none.
pub open spec fn spec_option_result<T>(o: Option<T>) -> Result<T, ()> {
    match o {
        Some(x) => Ok(x),
        None => Err(()),
    }
}

impl From<ICCVoltage> for u8 {
    fn from(value: ICCVoltage) -> (r: u8)
        ensures
            r == value.spec_to_u8(),
    {
        value.to_u8()
    }
}

impl vstd::std_specs::convert::FromSpecImpl<ICCVoltage> for u8 {
    open spec fn obeys_from_spec() -> bool {
        true
    }

    open spec fn from_spec(v: ICCVoltage) -> u8 {
        v.spec_to_u8()
    }
}

impl TryFrom<u8> for ICCVoltage {
    type Error = SlotErrorRegister;

    fn try_from(value: u8) -> (r: Result<ICCVoltage, SlotErrorRegister>)
        ensures
            r == spec_field_result(ICCVoltage::spec_from_u8(value)),
    {
        ICCVoltage::try_from_u8(value)
    }
}

impl vstd::std_specs::convert::TryFromSpecImpl<u8> for ICCVoltage {
    open spec fn obeys_try_from_spec() -> bool {
        true
    }

    open spec fn try_from_spec(v: u8) -> Result<ICCVoltage, SlotErrorRegister> {
        spec_field_result(ICCVoltage::spec_from_u8(v))
    }
}

impl From<ICCProtocol> for u8 {
    fn from(value: ICCProtocol) -> (r: u8)
        ensures
            r == value.spec_to_u8(),
    {
        value.to_u8()
    }
}

impl vstd::std_specs::convert::FromSpecImpl<ICCProtocol> for u8 {
    open spec fn obeys_from_spec() -> bool {
        true
    }

    open spec fn from_spec(v: ICCProtocol) -> u8 {
        v.spec_to_u8()
    }
}

impl TryFrom<u8> for ICCProtocol {
    type Error = SlotErrorRegister;

    fn try_from(value: u8) -> (r: Result<ICCProtocol, SlotErrorRegister>)
        ensures
            r == spec_field_result(ICCProtocol::spec_from_u8(value)),
    {
        ICCProtocol::try_from_u8(value)
    }
}

impl vstd::std_specs::convert::TryFromSpecImpl<u8> for ICCProtocol {
    open spec fn obeys_try_from_spec() -> bool {
        true
    }

    open spec fn try_from_spec(v: u8) -> Result<ICCProtocol, SlotErrorRegister> {
        spec_field_result(ICCProtocol::spec_from_u8(v))
    }
}

impl From<ICCClockCommand> for u8 {
    fn from(value: ICCClockCommand) -> (r: u8)
        ensures
            r == value.spec_to_u8(),
    {
        value.to_u8()
    }
}

impl vstd::std_specs::convert::FromSpecImpl<ICCClockCommand> for u8 {
    open spec fn obeys_from_spec() -> bool {
        true
    }

    open spec fn from_spec(v: ICCClockCommand) -> u8 {
        v.spec_to_u8()
    }
}

impl TryFrom<u8> for ICCClockCommand {
    type Error = SlotErrorRegister;

    fn try_from(value: u8) -> (r: Result<ICCClockCommand, SlotErrorRegister>)
        ensures
            r == spec_field_result(ICCClockCommand::spec_from_u8(value)),
    {
        ICCClockCommand::try_from_u8(value)
    }
}

impl vstd::std_specs::convert::TryFromSpecImpl<u8> for ICCClockCommand {
    open spec fn obeys_try_from_spec() -> bool {
        true
    }

    open spec fn try_from_spec(v: u8) -> Result<ICCClockCommand, SlotErrorRegister> {
        spec_field_result(ICCClockCommand::spec_from_u8(v))
    }
}

impl From<T0APDUClassChange> for u8 {
    fn from(value: T0APDUClassChange) -> (r: u8)
        ensures
            r == value.spec_to_u8(),
    {
        value.to_u8()
    }
}

impl vstd::std_specs::convert::FromSpecImpl<T0APDUClassChange> for u8 {
    open spec fn obeys_from_spec() -> bool {
        true
    }

    open spec fn from_spec(v: T0APDUClassChange) -> u8 {
        v.spec_to_u8()
    }
}

impl TryFrom<u8> for T0APDUClassChange {
    type Error = SlotErrorRegister;

    fn try_from(value: u8) -> (r: Result<T0APDUClassChange, SlotErrorRegister>)
        ensures
            r == spec_field_result(T0APDUClassChange::spec_from_u8(value)),
    {
        T0APDUClassChange::try_from_u8(value)
    }
}

impl vstd::std_specs::convert::TryFromSpecImpl<u8> for T0APDUClassChange {
    open spec fn obeys_try_from_spec() -> bool {
        true
    }

    open spec fn try_from_spec(v: u8) -> Result<T0APDUClassChange, SlotErrorRegister> {
        spec_field_result(T0APDUClassChange::spec_from_u8(v))
    }
}

impl From<ICCMechanicalFunction> for u8 {
    fn from(value: ICCMechanicalFunction) -> (r: u8)
        ensures
            r == value.spec_to_u8(),
    {
        value.to_u8()
    }
}

impl vstd::std_specs::convert::FromSpecImpl<ICCMechanicalFunction> for u8 {
    open spec fn obeys_from_spec() -> bool {
        true
    }

    open spec fn from_spec(v: ICCMechanicalFunction) -> u8 {
        v.spec_to_u8()
    }
}

impl TryFrom<u8> for ICCMechanicalFunction {
    type Error = SlotErrorRegister;

    fn try_from(value: u8) -> (r: Result<ICCMechanicalFunction, SlotErrorRegister>)
        ensures
            r == spec_field_result(ICCMechanicalFunction::spec_from_u8(value)),
    {
        ICCMechanicalFunction::try_from_u8(value)
    }
}

impl vstd::std_specs::convert::TryFromSpecImpl<u8> for ICCMechanicalFunction {
    open spec fn obeys_try_from_spec() -> bool {
        true
    }

    open spec fn try_from_spec(v: u8) -> Result<ICCMechanicalFunction, SlotErrorRegister> {
        spec_field_result(ICCMechanicalFunction::spec_from_u8(v))
    }
}

impl From<SlotStatusRegister> for u8 {
    fn from(value: SlotStatusRegister) -> (r: u8)
        ensures
            r == value.spec_to_u8(),
    {
        value.to_u8()
    }
}

impl vstd::std_specs::convert::FromSpecImpl<SlotStatusRegister> for u8 {
    open spec fn obeys_from_spec() -> bool {
        true
    }

    open spec fn from_spec(v: SlotStatusRegister) -> u8 {
        v.spec_to_u8()
    }
}

impl TryFrom<u8> for SlotStatusRegister {
    type Error = ();

    fn try_from(value: u8) -> (r: Result<SlotStatusRegister, ()>)
        ensures
            r == spec_option_result(SlotStatusRegister::spec_from_u8(value)),
    {
        match SlotStatusRegister::try_from_u8(value) {
            Some(x) => Ok(x),
            None => Err(()),
        }
    }
}

impl vstd::std_specs::convert::TryFromSpecImpl<u8> for SlotStatusRegister {
    open spec fn obeys_try_from_spec() -> bool {
        true
    }

    open spec fn try_from_spec(v: u8) -> Result<SlotStatusRegister, ()> {
        spec_option_result(SlotStatusRegister::spec_from_u8(v))
    }
}

impl From<ICCClockStatus> for u8 {
    fn from(value: ICCClockStatus) -> (r: u8)
        ensures
            r == value.spec_to_u8(),
    {
        value.to_u8()
    }
}

impl vstd::std_specs::convert::FromSpecImpl<ICCClockStatus> for u8 {
    open spec fn obeys_from_spec() -> bool {
        true
    }

    open spec fn from_spec(v: ICCClockStatus) -> u8 {
        v.spec_to_u8()
    }
}

impl TryFrom<u8> for ICCClockStatus {
    type Error = ();

    fn try_from(value: u8) -> (r: Result<ICCClockStatus, ()>)
        ensures
            r == spec_option_result(ICCClockStatus::spec_from_u8(value)),
    {
        match ICCClockStatus::try_from_u8(value) {
            Some(x) => Ok(x),
            None => Err(()),
        }
    }
}

impl vstd::std_specs::convert::TryFromSpecImpl<u8> for ICCClockStatus {
    open spec fn obeys_try_from_spec() -> bool {
        true
    }

    open spec fn try_from_spec(v: u8) -> Result<ICCClockStatus, ()> {
        spec_option_result(ICCClockStatus::spec_from_u8(v))
    }
}

impl From<ICCStatus> for u8 {
    fn from(value: ICCStatus) -> (r: u8)
        ensures
            r == value.spec_to_u8(),
    {
        value.to_u8()
    }
}

impl vstd::std_specs::convert::FromSpecImpl<ICCStatus> for u8 {
    open spec fn obeys_from_spec() -> bool {
        true
    }

    open spec fn from_spec(v: ICCStatus) -> u8 {
        v.spec_to_u8()
    }
}

impl From<CommandStatus> for u8 {
    fn from(value: CommandStatus) -> (r: u8)
        ensures
            r == value.spec_to_u8(),
    {
        value.to_u8()
    }
}

impl vstd::std_specs::convert::FromSpecImpl<CommandStatus> for u8 {
    open spec fn obeys_from_spec() -> bool {
        true
    }

    open spec fn from_spec(v: CommandStatus) -> u8 {
        v.spec_to_u8()
    }
}

impl From<SlotErrorRegister> for u8 {
    fn from(value: SlotErrorRegister) -> (r: u8)
        ensures
            r == value.spec_to_u8(),
    {
        value.to_u8()
    }
}

impl vstd::std_specs::convert::FromSpecImpl<SlotErrorRegister> for u8 {
    open spec fn obeys_from_spec() -> bool {
        true
    }

    open spec fn from_spec(v: SlotErrorRegister) -> u8 {
        v.spec_to_u8()
    }
}

impl From<u8> for SlotErrorRegister {
    fn from(value: u8) -> (r: SlotErrorRegister)
        ensures
            r == SlotErrorRegister::spec_from_u8(value),
    {
        SlotErrorRegister::from_u8(value)
    }
}

impl vstd::std_specs::convert::FromSpecImpl<u8> for SlotErrorRegister {
    open spec fn obeys_from_spec() -> bool {
        true
    }

    open spec fn from_spec(v: u8) -> SlotErrorRegister {
        SlotErrorRegister::spec_from_u8(v)
    }
}

} // verus!
