use smredir::proto::{
    combine_slot_status, CCIDError, Command, CommandStatus, CommonMessageHeader, ICCClockStatus,
    ICCMechanicalFunction, ICCProtocol, ICCStatus, ICCVoltage, Response, ResponseMessageHeader,
    SlotErrorRegister, SlotStatusRegister, T0APDUClassChange,
};

fn header(t: u8, len: u32, slot: u8, seq: u8) -> CommonMessageHeader {
    CommonMessageHeader { bMessageType: t, dwLength: len, bSlot: slot, bSeq: seq }
}

fn error_of(r: Result<Command, CCIDError>) -> (SlotStatusRegister, SlotErrorRegister) {
    match r {
        Err(CCIDError::CommandError(h)) => (h.bStatus, h.bError),
        other => panic!("expected a command error, got {:?}", other),
    }
}

#[test]
fn slot_status_bytes() {
    assert_eq!(SlotStatusRegister::ICCActiveSuccess.to_u8(), 0x00);
    assert_eq!(SlotStatusRegister::ICCActiveFailure.to_u8(), 0x40);
    assert_eq!(SlotStatusRegister::ICCInactiveSuccess.to_u8(), 0x01);
    assert_eq!(SlotStatusRegister::ICCInactiveFailure.to_u8(), 0x41);
    assert_eq!(SlotStatusRegister::ICCAbsentFailure.to_u8(), 0x42);
    assert_eq!(SlotStatusRegister::ICCAbsentTimeExtensionRequested.to_u8(), 0x82);
    assert_eq!(combine_slot_status(ICCStatus::Inactive, CommandStatus::TimeExtensionRequested), 0x81);
    assert_eq!(SlotStatusRegister::ICCInactiveFailure.ICCStatus(), ICCStatus::Inactive);
    assert_eq!(SlotStatusRegister::ICCInactiveFailure.CommandStatus(), CommandStatus::Failure);
    assert_eq!(SlotStatusRegister::ICCAbsentSuccess.ICCStatus(), ICCStatus::Absent);
    assert_eq!(SlotStatusRegister::try_from_u8(0x42), Some(SlotStatusRegister::ICCAbsentFailure));
    assert_eq!(SlotStatusRegister::try_from_u8(0x03), None);
    assert_eq!(SlotStatusRegister::try_from_u8(0x44), None);
    assert_eq!(SlotStatusRegister::try_from_u8(0xC0), None);
}

#[test]
fn slot_error_codes() {
    assert_eq!(SlotErrorRegister::HardwareError.to_u8(), 0xFB);
    assert_eq!(SlotErrorRegister::CommandSlotBusy.to_u8(), 0xE0);
    assert_eq!(SlotErrorRegister::UnsupportedCommand.to_u8(), 0x00);
    assert_eq!(SlotErrorRegister::from_u8(0xFF), SlotErrorRegister::CommandAbort);
    assert_eq!(SlotErrorRegister::from_u8(0xEF), SlotErrorRegister::PINCancelled);
    assert_eq!(SlotErrorRegister::from_u8(0x05), SlotErrorRegister::InvalidParameter(0x05));
    assert_eq!(SlotErrorRegister::from_u8(0x7F), SlotErrorRegister::InvalidParameter(0x7F));
    assert_eq!(SlotErrorRegister::from_u8(0x80), SlotErrorRegister::RFU(0x80));
    assert_eq!(SlotErrorRegister::from_u8(0x81), SlotErrorRegister::UserDefined(0x81));
    assert_eq!(SlotErrorRegister::from_u8(0xC0), SlotErrorRegister::UserDefined(0xC0));
    assert_eq!(SlotErrorRegister::from_u8(0xC1), SlotErrorRegister::RFU(0xC1));
    assert_eq!(SlotErrorRegister::from_u8(0xF9), SlotErrorRegister::RFU(0xF9));
    for v in 0u8..=255 {
        assert_eq!(SlotErrorRegister::from_u8(v).to_u8(), v);
    }
}

#[test]
fn enumerated_field_values() {
    assert_eq!(ICCVoltage::try_from_u8(0x02), Ok(ICCVoltage::V_3_0));
    assert_eq!(ICCVoltage::try_from_u8(0x04), Err(SlotErrorRegister::InvalidParameter(7)));
    assert_eq!(ICCProtocol::try_from_u8(0x01), Ok(ICCProtocol::T1));
    assert_eq!(ICCProtocol::try_from_u8(0x02), Err(SlotErrorRegister::InvalidParameter(7)));
    assert_eq!(ICCMechanicalFunction::try_from_u8(0x00), Err(SlotErrorRegister::InvalidParameter(7)));
    assert_eq!(ICCMechanicalFunction::UnlockCard.to_u8(), 0x05);
    assert_eq!(T0APDUClassChange::Both.to_u8(), 0x03);
    assert_eq!(ICCClockStatus::try_from_u8(0x03), Some(ICCClockStatus::StoppedUnknown));
    assert_eq!(ICCClockStatus::try_from_u8(0x04), None);
}

#[test]
fn header_round_trip() {
    let h = header(0x6F, 0x0102_0304, 0x00, 0x42);
    let mut out = Vec::new();
    h.encode(&mut out);
    assert_eq!(out, vec![0x6F, 0x04, 0x03, 0x02, 0x01, 0x00, 0x42]);
    assert_eq!(CommonMessageHeader::decode(&out), Some(h));
    assert_eq!(CommonMessageHeader::decode(&out[..6]), None);
}

#[test]
fn decode_each_command() {
    match Command::decode(&[0x62, 0, 0, 0, 0, 0, 1, 0x01, 0xAA, 0xBB]) {
        Ok(Command::PC_to_RDR_IccPowerOn { header: h, bPowerSelect, abRFU }) => {
            assert_eq!(h, header(0x62, 0, 0, 1));
            assert_eq!(bPowerSelect, ICCVoltage::V_5_0);
            assert_eq!(abRFU, [0xAA, 0xBB]);
        }
        other => panic!("{:?}", other),
    }
    match Command::decode(&[0x6F, 2, 0, 0, 0, 0, 2, 0x05, 0x34, 0x12, 0xDE, 0xAD]) {
        Ok(Command::PC_to_RDR_XfrBlock { header: h, bBWI, wLevelParameter, abData }) => {
            assert_eq!(h, header(0x6F, 2, 0, 2));
            assert_eq!(bBWI, 0x05);
            assert_eq!(wLevelParameter, 0x1234);
            assert_eq!(abData, vec![0xDE, 0xAD]);
        }
        other => panic!("{:?}", other),
    }
    match Command::decode(&[0x61, 1, 0, 0, 0, 0, 3, 0x01, 0, 0, 0x77]) {
        Ok(Command::PC_to_RDR_SetParameters { bProtocolNum, abData, .. }) => {
            assert_eq!(bProtocolNum, ICCProtocol::T1);
            assert_eq!(abData, vec![0x77]);
        }
        other => panic!("{:?}", other),
    }
    match Command::decode(&[0x6A, 0, 0, 0, 0, 0, 4, 0x02, 0x11, 0x22]) {
        Ok(Command::PC_to_RDR_T0APDU { bmChanges, bClassGetResponse, bClassEnvelope, .. }) => {
            assert_eq!(bmChanges, T0APDUClassChange::Envelope);
            assert_eq!(bClassGetResponse, 0x11);
            assert_eq!(bClassEnvelope, 0x22);
        }
        other => panic!("{:?}", other),
    }
    match Command::decode(&[0x73, 8, 0, 0, 0, 0, 5, 0, 0, 0, 0x10, 0, 0, 0, 0x20, 0, 0, 0]) {
        Ok(Command::PC_to_RDR_SetDataRateAndClockFrequency { dwClockFrequency, dwDataRate, .. }) => {
            assert_eq!(dwClockFrequency, 0x10);
            assert_eq!(dwDataRate, 0x20);
        }
        other => panic!("{:?}", other),
    }
    assert!(matches!(
        Command::decode(&[0x71, 0, 0, 0, 0, 0, 6, 0x03, 0, 0]),
        Ok(Command::PC_to_RDR_Mechanical { bFunction: ICCMechanicalFunction::CaptureCard, .. })
    ));
    assert!(matches!(Command::decode(&[0x72, 0, 0, 0, 0, 0, 7, 0, 0, 0]), Ok(Command::PC_to_RDR_Abort { .. })));
    assert!(matches!(Command::decode(&[0x6D, 0, 0, 0, 0, 0, 8, 0, 0, 0]), Ok(Command::PC_to_RDR_ResetParameters { .. })));
    assert!(matches!(Command::decode(&[0x6B, 1, 0, 0, 0, 0, 9, 0, 0, 0, 0x01]), Ok(Command::PC_to_RDR_Escape { .. })));
    assert!(matches!(Command::decode(&[0x69, 0, 0, 0, 0, 0, 10, 0, 0, 0]), Ok(Command::PC_to_RDR_Secure { .. })));
    assert!(matches!(Command::decode(&[0x6E, 0, 0, 0, 0, 0, 11, 1, 0, 0]), Ok(Command::PC_to_RDR_IccClock { bClockCommand: _, .. })));
    let c = Command::decode(&[0x63, 0, 0, 0, 0, 3, 12, 0, 0, 0]).unwrap();
    assert_eq!(*c.get_header(), header(0x63, 0, 3, 12));
}

#[test]
fn decode_error_offsets() {
    let inactive_failure = SlotStatusRegister::ICCInactiveFailure;
    let invalid = SlotErrorRegister::InvalidParameter;
    // fewer than ten bytes is a bad command, whatever the type
    assert!(matches!(Command::decode(&[0x62, 0, 0, 0, 0, 0]), Err(CCIDError::BadCommand)));
    assert!(matches!(Command::decode(&[0x99, 0, 0, 0, 0, 0, 1]), Err(CCIDError::BadCommand)));
    assert!(matches!(Command::decode(&[0x65, 0, 0, 0, 0, 0, 1, 0, 0]), Err(CCIDError::BadCommand)));
    // undefined enumerated fields
    assert_eq!(error_of(Command::decode(&[0x62, 0, 0, 0, 0, 0, 1, 4, 0, 0])), (inactive_failure, invalid(7)));
    assert_eq!(error_of(Command::decode(&[0x6E, 0, 0, 0, 0, 0, 1, 2, 0, 0])), (inactive_failure, invalid(7)));
    assert_eq!(error_of(Command::decode(&[0x6A, 0, 0, 0, 0, 0, 1, 4, 0, 0])), (inactive_failure, invalid(7)));
    assert_eq!(error_of(Command::decode(&[0x61, 0, 0, 0, 0, 0, 1, 9, 0, 0])), (inactive_failure, invalid(7)));
    // short data rate and clock frequency fields
    assert_eq!(error_of(Command::decode(&[0x73, 8, 0, 0, 0, 0, 1, 0, 0, 0, 1])), (inactive_failure, invalid(0x0A)));
    assert_eq!(error_of(Command::decode(&[0x73, 8, 0, 0, 0, 0, 1, 0, 0, 0, 1, 2, 3, 4, 5])), (inactive_failure, invalid(0x0E)));
    // length field and payload size
    assert_eq!(error_of(Command::decode(&[0x65, 1, 0, 0, 0, 0, 1, 0, 0, 0])), (inactive_failure, invalid(1)));
    assert_eq!(error_of(Command::decode(&[0x73, 0, 0, 0, 0, 0, 1, 0, 0, 0])), (inactive_failure, invalid(1)));
    assert_eq!(error_of(Command::decode(&[0x6F, 3, 0, 0, 0, 0, 1, 0, 0, 0, 1, 2])), (inactive_failure, invalid(1)));
    assert_eq!(error_of(Command::decode(&[0x6F, 1, 0, 0, 0, 0, 1, 0, 0, 0, 1, 2])), (inactive_failure, invalid(1)));
    assert_eq!(error_of(Command::decode(&[0x62, 0, 0, 0, 0, 0, 1, 0, 0, 0, 0])), (inactive_failure, invalid(1)));
    // unknown type
    assert_eq!(
        error_of(Command::decode(&[0x99, 0, 0, 0, 0, 0, 1, 0, 0, 0])),
        (SlotStatusRegister::ICCActiveFailure, SlotErrorRegister::UnsupportedCommand)
    );
}

#[test]
fn response_for_each_command_type() {
    let kind = |t: u8| match Response::new(header(t, 0, 0, 0)) {
        Response::RDR_to_PC_DataBlock { .. } => 0x80,
        Response::RDR_to_PC_SlotStatus { .. } => 0x81,
        Response::RDR_to_PC_Parameters { .. } => 0x82,
        Response::RDR_to_PC_Escape { .. } => 0x83,
        Response::RDR_to_PC_DataRateAndClockFrequency { .. } => 0x84,
        Response::RDR_to_PC_UnsupportedCommand { .. } => 0,
    };
    for t in [0x62, 0x6F, 0x69] {
        assert_eq!(kind(t), 0x80);
    }
    for t in [0x63, 0x65, 0x6E, 0x6A, 0x71, 0x72] {
        assert_eq!(kind(t), 0x81);
    }
    for t in [0x6C, 0x6D, 0x61] {
        assert_eq!(kind(t), 0x82);
    }
    assert_eq!(kind(0x73), 0x84);
    assert_eq!(kind(0x6B), 0);
    assert_eq!(kind(0x83), 0);
    assert_eq!(kind(0x00), 0);
    let r = Response::new_with_status(header(0x62, 0, 0, 0), SlotStatusRegister::ICCActiveFailure, SlotErrorRegister::UnsupportedCommand);
    assert!(matches!(r, Response::RDR_to_PC_UnsupportedCommand { .. }));
}

#[test]
fn response_encodings() {
    let mut r = Response::new(header(0x62, 0, 0, 9));
    assert_eq!(r.append(&[1, 2, 3]), Ok(()));
    assert_eq!(r.encode(), vec![0x80, 3, 0, 0, 0, 0, 9, 0, 0, 0, 1, 2, 3]);
    let mut s = Response::new(header(0x65, 0, 0, 9));
    assert_eq!(s.append(&[1]), Err(()));
    s.set_status(SlotStatusRegister::ICCInactiveSuccess, SlotErrorRegister::HardwareError);
    assert_eq!(s.encode(), vec![0x81, 0, 0, 0, 0, 0, 9, 0x01, 0xFB, 0x00]);
    let d = Response::new(header(0x73, 0, 0, 9));
    assert_eq!(d.encode(), vec![0x84, 8, 0, 0, 0, 0, 9, 0, 0, 0, 0, 0, 0, 0, 0, 0, 0]);
    let mut u = Response::new_with_error(ResponseMessageHeader::new(
        header(0x77, 0, 0, 9),
        SlotStatusRegister::ICCActiveFailure,
        SlotErrorRegister::UnsupportedCommand,
    ));
    u.set_status(SlotStatusRegister::ICCActiveSuccess, SlotErrorRegister::HardwareError);
    assert_eq!(u.encode(), vec![0x81, 0, 0, 0, 0, 0, 9, 0x40, 0x00, 0x00]);
    let mut p = Response::new(header(0x6C, 0, 0, 9));
    p.append(&[7, 7]).unwrap();
    p.append(&[8]).unwrap();
    assert_eq!(p.encode(), vec![0x82, 3, 0, 0, 0, 0, 9, 0, 0, 0x01, 7, 7, 8]);
}

#[test]
fn response_round_trip() {
    let mut block = Response::new(header(0x6F, 0, 0, 1));
    block.append(&[0x90, 0x00]).unwrap();
    let mut params = Response::new(header(0x6C, 0, 0, 2));
    params.append(&[1, 2, 3, 4, 5, 6, 7]).unwrap();
    let mut escape = Response::RDR_to_PC_Escape {
        header: ResponseMessageHeader::new(
            header(0x83, 0, 0, 3),
            SlotStatusRegister::ICCActiveSuccess,
            SlotErrorRegister::UnsupportedCommand,
        ),
        abData: vec![],
    };
    escape.append(&[0xEE]).unwrap();
    let rate = Response::RDR_to_PC_DataRateAndClockFrequency {
        header: ResponseMessageHeader::new(
            header(0x84, 8, 0, 4),
            SlotStatusRegister::ICCActiveSuccess,
            SlotErrorRegister::UnsupportedCommand,
        ),
        dwClockFrequency: 4000,
        dwDataRate: 9600,
    };
    let unsupported = Response::new_with_status(
        header(0x77, 0, 0, 5),
        SlotStatusRegister::ICCActiveFailure,
        SlotErrorRegister::UnsupportedCommand,
    );
    let mut status = Response::new(header(0x65, 0, 1, 6));
    status.set_status(SlotStatusRegister::ICCAbsentFailure, SlotErrorRegister::InvalidParameter(5));
    for r in [block, params, escape, rate, unsupported, status] {
        let bytes = r.encode();
        let back = Response::decode(&bytes).expect("decodes");
        assert_eq!(back.encode(), bytes);
        assert_eq!(format!("{:?}", back), format!("{:?}", r));
    }
    assert!(Response::decode(&[0x81, 0, 0, 0, 0, 0, 0, 0x03, 0, 0]).is_none());
    assert!(Response::decode(&[0x80, 5, 0, 0, 0, 0, 0, 0, 0, 0, 1]).is_none());
    assert!(Response::decode(&[0x85, 0, 0, 0, 0, 0, 0, 0, 0, 0]).is_none());
}

#[test]
fn std_conversions() {
    assert_eq!(u8::from(ICCVoltage::V_1_8), 0x03);
    assert_eq!(ICCVoltage::try_from(0x01u8), Ok(ICCVoltage::V_5_0));
    assert_eq!(ICCProtocol::try_from(0x05u8), Err(SlotErrorRegister::InvalidParameter(7)));
    assert_eq!(u8::from(SlotStatusRegister::ICCInactiveFailure), 0x41);
    assert_eq!(SlotStatusRegister::try_from(0x81u8), Ok(SlotStatusRegister::ICCInactiveTimeExtensionRequested));
    assert_eq!(SlotStatusRegister::try_from(0xC0u8), Err(()));
    assert_eq!(ICCClockStatus::try_from(0x01u8), Ok(ICCClockStatus::StoppedInL));
    assert_eq!(u8::from(ICCStatus::Absent), 0x02);
    assert_eq!(u8::from(CommandStatus::Failure), 0x01);
    assert_eq!(u8::from(SlotErrorRegister::BadATRTS), 0xF8);
    assert_eq!(SlotErrorRegister::from(0xF7u8), SlotErrorRegister::BadATRTCK);
    let v: u8 = T0APDUClassChange::GetResponse.into();
    assert_eq!(v, 0x01);
    assert_eq!(u8::from(ICCMechanicalFunction::EjectCard), 0x02);
    assert_eq!(u8::from(ICCClockStatus::StoppedInH), 0x02);
}

#[test]
fn report_for_type_without_response_row() {
    let r = Response::new_report(header(0x6B, 0, 1, 7), SlotStatusRegister::ICCAbsentFailure, SlotErrorRegister::InvalidParameter(5));
    assert_eq!(r.encode(), vec![0x81, 0, 0, 0, 0, 1, 7, 0x42, 0x05, 0x00]);
    let p = Response::new_report(header(0x6C, 0, 1, 7), SlotStatusRegister::ICCAbsentFailure, SlotErrorRegister::InvalidParameter(5));
    assert_eq!(p.encode(), vec![0x82, 0, 0, 0, 0, 1, 7, 0x42, 0x05, 0x01]);
    let u = Response::new_report(header(0x77, 0, 0, 7), SlotStatusRegister::ICCActiveFailure, SlotErrorRegister::UnsupportedCommand);
    assert_eq!(u.encode(), vec![0x81, 0, 0, 0, 0, 0, 7, 0x40, 0x00, 0x00]);
}
