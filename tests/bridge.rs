use smredir::ccid::{
    ccid_descriptor, is_ccid_class_descriptor, BulkOut, CCIDInterfaceHandler, CcidEndpoint,
    CcidSetupError, PowerOnOutcome, TransmitOutcome,
};
use smredir::usb::{SetupPacket, UrbError, UsbEndpoint};

fn device_descriptor() -> Vec<u8> {
    let mut d = vec![0u8; 0x36];
    d[0] = 0x36;
    d[1] = 0x21;
    for i in 2..0x36 {
        d[i] = i as u8;
    }
    d
}

// TS=3B, T0=D5 (TA1, TC1, TD1), TA1=18, TC1=FF, TD1=81 (TD2), TD2=31 (TA3, TB3), TA3=FE, TB3=45
fn sample_atr() -> Vec<u8> {
    vec![0x3B, 0xD5, 0x18, 0xFF, 0x81, 0x31, 0xFE, 0x45, 0x80, 0x31, 0xC0]
}

fn bridge() -> CCIDInterfaceHandler {
    CCIDInterfaceHandler::new(&device_descriptor(), &sample_atr()).unwrap()
}

fn queued(b: &mut CCIDInterfaceHandler, req: &[u8]) -> Vec<u8> {
    match b.bulk_out(req) {
        BulkOut::Queued => {}
        other => panic!("unexpected step {:?}", other),
    }
    b.bulk_in()
}

#[test]
fn power_on_without_card() {
    let mut b = bridge();
    assert!(b.drop_card());
    let req = [0x62, 0, 0, 0, 0, 0x00, 0x01, 0x00, 0x00, 0x00];
    let header = match b.bulk_out(&req) {
        BulkOut::PowerOn { header, connect } => {
            assert!(connect);
            header
        }
        other => panic!("unexpected step {:?}", other),
    };
    assert!(b.bulk_in().is_empty());
    let atr = sample_atr();
    b.complete_power_on(header, PowerOnOutcome::Atr(atr.clone()));
    assert!(b.has_card());
    let mut expected = vec![0x80, atr.len() as u8, 0, 0, 0, 0x00, 0x01, 0x00, 0x00, 0x00];
    expected.extend_from_slice(&atr);
    assert_eq!(b.bulk_in(), expected);
}

#[test]
fn power_on_connect_refused() {
    let mut b = bridge();
    b.drop_card();
    let req = [0x62, 0, 0, 0, 0, 0x00, 0x02, 0x00, 0x00, 0x00];
    let header = match b.bulk_out(&req) {
        BulkOut::PowerOn { header, connect: true } => header,
        other => panic!("unexpected step {:?}", other),
    };
    b.complete_power_on(header, PowerOnOutcome::ConnectFailed);
    assert!(!b.has_card());
    assert_eq!(b.bulk_in(), vec![0x80, 0, 0, 0, 0, 0x00, 0x02, 0x41, 0xFB, 0x00]);
}

#[test]
fn power_on_with_card_reads_status_only() {
    let mut b = bridge();
    let req = [0x62, 0, 0, 0, 0, 0x00, 0x07, 0x00, 0x00, 0x00];
    let header = match b.bulk_out(&req) {
        BulkOut::PowerOn { header, connect: false } => header,
        other => panic!("unexpected step {:?}", other),
    };
    b.complete_power_on(header, PowerOnOutcome::StatusFailed);
    assert!(b.has_card());
    assert_eq!(b.bulk_in(), vec![0x80, 0, 0, 0, 0, 0x00, 0x07, 0x41, 0xFB, 0x00]);
}

#[test]
fn xfr_block_select() {
    let mut b = bridge();
    let apdu = [0x00, 0xA4, 0x04, 0x00, 0x05, 0xF0, 0x00, 0x00, 0x00, 0x00];
    let mut req = vec![0x6F, apdu.len() as u8, 0, 0, 0, 0x00, 0x03, 0x00, 0x00, 0x00];
    req.extend_from_slice(&apdu);
    let header = match b.bulk_out(&req) {
        BulkOut::Transmit { header, apdu: sent } => {
            assert_eq!(sent, apdu.to_vec());
            header
        }
        other => panic!("unexpected step {:?}", other),
    };
    b.complete_transmit(header, TransmitOutcome::Reply(vec![0x90, 0x00]));
    assert_eq!(
        b.bulk_in(),
        vec![0x80, 0x02, 0, 0, 0, 0x00, 0x03, 0x00, 0x00, 0x00, 0x90, 0x00]
    );
}

#[test]
fn xfr_block_whose_length_field_undercounts_is_refused() {
    let mut b = bridge();
    let req = [
        0x6F, 0x05, 0, 0, 0, 0x00, 0x03, 0x00, 0x00, 0x00, 0x00, 0xA4, 0x04, 0x00, 0x05, 0xF0,
        0x00, 0x00, 0x00, 0x00,
    ];
    assert_eq!(
        queued(&mut b, &req),
        vec![0x80, 0, 0, 0, 0, 0x00, 0x03, 0x41, 0x01, 0x00]
    );
}

#[test]
fn xfr_block_transmit_failure_is_slot_busy() {
    let mut b = bridge();
    let req = [0x6F, 0x01, 0, 0, 0, 0x00, 0x09, 0x00, 0x00, 0x00, 0xAA];
    let header = match b.bulk_out(&req) {
        BulkOut::Transmit { header, .. } => header,
        other => panic!("unexpected step {:?}", other),
    };
    b.complete_transmit(header, TransmitOutcome::Failed);
    assert!(b.has_card());
    assert_eq!(b.bulk_in(), vec![0x80, 0, 0, 0, 0, 0x00, 0x09, 0x40, 0xE0, 0x00]);
}

#[test]
fn empty_xfr_block_is_answered_without_card_work() {
    let mut b = bridge();
    let req = [0x6F, 0, 0, 0, 0, 0x00, 0x0A, 0x00, 0x00, 0x00];
    assert_eq!(queued(&mut b, &req), vec![0x80, 0, 0, 0, 0, 0x00, 0x0A, 0x00, 0x00, 0x00]);
}

#[test]
fn get_slot_status_card_absent() {
    let mut b = bridge();
    b.drop_card();
    let req = [0x65, 0, 0, 0, 0, 0x00, 0x04, 0x00, 0x00, 0x00];
    assert_eq!(queued(&mut b, &req), vec![0x81, 0, 0, 0, 0, 0x00, 0x04, 0x01, 0x00, 0x00]);
}

#[test]
fn get_slot_status_card_present() {
    let mut b = bridge();
    let req = [0x65, 0, 0, 0, 0, 0x00, 0x0B, 0x00, 0x00, 0x00];
    assert_eq!(queued(&mut b, &req), vec![0x81, 0, 0, 0, 0, 0x00, 0x0B, 0x00, 0x00, 0x00]);
}

#[test]
fn command_on_other_slot() {
    let mut b = bridge();
    let req = [0x65, 0, 0, 0, 0, 0x01, 0x05, 0x00, 0x00, 0x00];
    assert_eq!(queued(&mut b, &req), vec![0x81, 0, 0, 0, 0, 0x01, 0x05, 0x42, 0x05, 0x00]);
    assert!(b.has_card());
}

#[test]
fn power_off_on_other_slot_keeps_card() {
    let mut b = bridge();
    let req = [0x63, 0, 0, 0, 0, 0x01, 0x0C, 0x00, 0x00, 0x00];
    assert_eq!(queued(&mut b, &req), vec![0x81, 0, 0, 0, 0, 0x01, 0x0C, 0x42, 0x05, 0x00]);
    assert!(b.has_card());
}

#[test]
fn unknown_message_type() {
    let mut b = bridge();
    let req = [0x77, 0, 0, 0, 0, 0x00, 0x06, 0x00, 0x00, 0x00];
    assert_eq!(queued(&mut b, &req), vec![0x81, 0, 0, 0, 0, 0x00, 0x06, 0x40, 0x00, 0x00]);
}

#[test]
fn power_off_releases_card() {
    let mut b = bridge();
    let req = [0x63, 0, 0, 0, 0, 0x00, 0x0D, 0x00, 0x00, 0x00];
    assert!(matches!(b.bulk_out(&req), BulkOut::QueuedReleaseCard));
    assert!(!b.has_card());
    assert_eq!(b.bulk_in(), vec![0x81, 0, 0, 0, 0, 0x00, 0x0D, 0x01, 0x00, 0x00]);
    // a second power-off has no card left to release
    let req = [0x63, 0, 0, 0, 0, 0x00, 0x0E, 0x00, 0x00, 0x00];
    assert!(matches!(b.bulk_out(&req), BulkOut::Queued));
    assert!(!b.has_card());
}

#[test]
fn commands_without_card_are_refused() {
    let mut b = bridge();
    b.drop_card();
    let req = [0x6C, 0, 0, 0, 0, 0x00, 0x0F, 0x00, 0x00, 0x00];
    assert_eq!(queued(&mut b, &req), vec![0x82, 0, 0, 0, 0, 0x00, 0x0F, 0x42, 0x05, 0x01]);
}

#[test]
fn get_parameters_returns_atr_block() {
    let mut b = bridge();
    let req = [0x6C, 0, 0, 0, 0, 0x00, 0x10, 0x00, 0x00, 0x00];
    assert_eq!(
        queued(&mut b, &req),
        vec![
            0x82, 0x07, 0, 0, 0, 0x00, 0x10, 0x00, 0x00, 0x01, 0x18, 0x11, 0xFF, 0x45, 0x00, 0xFE,
            0x00
        ]
    );
}

#[test]
fn get_parameters_without_block_is_unsupported() {
    let mut b = CCIDInterfaceHandler::new(&device_descriptor(), &[0x3B, 0x00]).unwrap();
    let req = [0x6C, 0, 0, 0, 0, 0x00, 0x11, 0x00, 0x00, 0x00];
    assert_eq!(queued(&mut b, &req), vec![0x81, 0, 0, 0, 0, 0x00, 0x11, 0x40, 0x00, 0x00]);
}

#[test]
fn abort_succeeds() {
    let mut b = bridge();
    let req = [0x72, 0, 0, 0, 0, 0x00, 0x12, 0x00, 0x00, 0x00];
    assert_eq!(queued(&mut b, &req), vec![0x81, 0, 0, 0, 0, 0x00, 0x12, 0x00, 0x00, 0x00]);
}

#[test]
fn other_commands_are_unsupported() {
    let mut b = bridge();
    // IccClock restart
    let req = [0x6E, 0, 0, 0, 0, 0x00, 0x13, 0x00, 0x00, 0x00];
    assert_eq!(queued(&mut b, &req), vec![0x81, 0, 0, 0, 0, 0x00, 0x13, 0x40, 0x00, 0x00]);
    // SetDataRateAndClockFrequency
    let req = [
        0x73, 0x08, 0, 0, 0, 0x00, 0x14, 0x00, 0x00, 0x00, 1, 2, 3, 4, 5, 6, 7, 8,
    ];
    assert_eq!(queued(&mut b, &req), vec![0x81, 0, 0, 0, 0, 0x00, 0x14, 0x40, 0x00, 0x00]);
    // Escape with a payload
    let req = [0x6B, 0x01, 0, 0, 0, 0x00, 0x15, 0x00, 0x00, 0x00, 0x42];
    assert_eq!(queued(&mut b, &req), vec![0x81, 0, 0, 0, 0, 0x00, 0x15, 0x40, 0x00, 0x00]);
}

#[test]
fn decode_errors_are_queued() {
    let mut b = bridge();
    // power-on with a non-zero length field
    let req = [0x62, 0x01, 0, 0, 0, 0x00, 0x16, 0x00, 0x00, 0x00];
    assert_eq!(queued(&mut b, &req), vec![0x80, 0, 0, 0, 0, 0x00, 0x16, 0x41, 0x01, 0x00]);
    // power-on with an undefined voltage
    let req = [0x62, 0, 0, 0, 0, 0x00, 0x17, 0x09, 0x00, 0x00];
    assert_eq!(queued(&mut b, &req), vec![0x80, 0, 0, 0, 0, 0x00, 0x17, 0x41, 0x07, 0x00]);
    // slot status with a trailing byte
    let req = [0x65, 0, 0, 0, 0, 0x00, 0x18, 0x00, 0x00, 0x00, 0xEE];
    assert_eq!(queued(&mut b, &req), vec![0x81, 0, 0, 0, 0, 0x00, 0x18, 0x41, 0x01, 0x00]);
}

#[test]
fn short_bulk_out_is_answered_on_the_queue() {
    let mut b = bridge();
    assert!(matches!(b.bulk_out(&[0x65, 0, 0, 0, 0, 0x00, 0x19, 0, 0]), BulkOut::Queued));
    assert_eq!(b.bulk_in(), vec![0x81, 0, 0, 0, 0, 0x00, 0x19, 0x41, 0x01, 0x00]);
    // a header cut short reads its missing bytes as zero
    assert!(matches!(b.bulk_out(&[0x6F, 0x01]), BulkOut::Queued));
    assert_eq!(b.bulk_in(), vec![0x80, 0, 0, 0, 0, 0x00, 0x00, 0x41, 0x01, 0x00]);
    assert!(matches!(b.bulk_out(&[]), BulkOut::Queued));
    assert_eq!(b.bulk_in(), vec![0x81, 0, 0, 0, 0, 0x00, 0x00, 0x41, 0x01, 0x00]);
    assert!(b.has_card());
}

#[test]
fn escape_on_other_slot_is_refused() {
    let mut b = bridge();
    let req = [0x6B, 0x01, 0, 0, 0, 0x01, 0x1A, 0x00, 0x00, 0x00, 0x42];
    assert_eq!(queued(&mut b, &req), vec![0x81, 0, 0, 0, 0, 0x01, 0x1A, 0x42, 0x05, 0x00]);
    assert!(b.has_card());
}

#[test]
fn escape_without_card_is_refused() {
    let mut b = bridge();
    b.drop_card();
    let req = [0x6B, 0x00, 0, 0, 0, 0x00, 0x1B, 0x00, 0x00, 0x00];
    assert_eq!(queued(&mut b, &req), vec![0x81, 0, 0, 0, 0, 0x00, 0x1B, 0x42, 0x05, 0x00]);
}

#[test]
fn escape_decode_error_keeps_its_code() {
    let mut b = bridge();
    let req = [0x6B, 0x02, 0, 0, 0, 0x00, 0x1C, 0x00, 0x00, 0x00, 0x42];
    assert_eq!(queued(&mut b, &req), vec![0x81, 0, 0, 0, 0, 0x00, 0x1C, 0x41, 0x01, 0x00]);
}

#[test]
fn responses_drain_in_order() {
    let mut b = bridge();
    for seq in 0x20u8..0x24 {
        let req = [0x65, 0, 0, 0, 0, 0x00, seq, 0x00, 0x00, 0x00];
        assert!(matches!(b.bulk_out(&req), BulkOut::Queued));
    }
    for seq in 0x20u8..0x24 {
        assert_eq!(b.bulk_in()[6], seq);
    }
    assert!(b.bulk_in().is_empty());
}

#[test]
fn bridge_construction_errors() {
    let mut bad = device_descriptor();
    bad[1] = 0x22;
    assert!(matches!(
        CCIDInterfaceHandler::new(&bad, &sample_atr()),
        Err(CcidSetupError::NoClassDescriptor)
    ));
    assert!(matches!(
        CCIDInterfaceHandler::new(&device_descriptor(), &[0x3B]),
        Err(CcidSetupError::ShortAtr)
    ));
    assert!(is_ccid_class_descriptor(&device_descriptor()));
    assert!(!is_ccid_class_descriptor(&device_descriptor()[..0x35]));
}

#[test]
fn class_descriptor_copies_clock_and_rate_windows() {
    let dev = device_descriptor();
    let d = ccid_descriptor(&dev);
    assert_eq!(d.len(), 0x36);
    assert_eq!(&d[0..10], &[0x36, 0x21, 0x10, 0x01, 0x00, 0x07, 0x02, 0x00, 0x00, 0x00]);
    assert_eq!(&d[10..18], &dev[10..18]);
    assert_eq!(d[18], 0x00);
    assert_eq!(&d[19..27], &dev[19..27]);
    assert_eq!(&d[27..29], &[0x00, 0xF6]);
    assert_eq!(&d[46..54], &[0x01, 0x00, 0xFF, 0xFF, 0x00, 0x00, 0x00, 0x01]);
    assert_eq!(bridge().get_class_specific_descriptor(), d);
}

#[test]
fn bulk_endpoints() {
    let eps = CCIDInterfaceHandler::endpoints();
    assert_eq!(
        eps,
        vec![
            UsbEndpoint { address: 0x81, attributes: 2, max_packet_size: 512, interval: 0 },
            UsbEndpoint { address: 0x01, attributes: 2, max_packet_size: 512, interval: 0 },
        ]
    );
}

#[test]
fn control_requests_on_ccid_interface() {
    let b = bridge();
    let setup = |request: u8| SetupPacket {
        request_type: 0x21,
        request,
        value: 0,
        index: 2,
        length: 0,
    };
    assert_eq!(b.handle_control(&setup(0x01)), Ok(vec![]));
    assert_eq!(b.handle_control(&setup(0x02)), Err(UrbError::InvalidInput));
    assert_eq!(b.handle_control(&setup(0x03)), Err(UrbError::InvalidInput));
    assert_eq!(b.handle_control(&setup(0x04)), Err(UrbError::InvalidInput));
}

#[test]
fn ccid_endpoint_routing() {
    let ep = |address: u8| UsbEndpoint { address, attributes: 2, max_packet_size: 512, interval: 0 };
    let setup = |request_type: u8| SetupPacket { request_type, request: 0, value: 0, index: 0, length: 0 };
    assert_eq!(CCIDInterfaceHandler::endpoint_kind(&ep(0x00), &setup(0x80)), CcidEndpoint::Control);
    assert_eq!(CCIDInterfaceHandler::endpoint_kind(&ep(0x80), &setup(0x00)), CcidEndpoint::Control);
    assert_eq!(CCIDInterfaceHandler::endpoint_kind(&ep(0x81), &setup(0x00)), CcidEndpoint::BulkIn);
    assert_eq!(CCIDInterfaceHandler::endpoint_kind(&ep(0x01), &setup(0x80)), CcidEndpoint::BulkIn);
    assert_eq!(CCIDInterfaceHandler::endpoint_kind(&ep(0x01), &setup(0x00)), CcidEndpoint::BulkOut);
    assert_eq!(CCIDInterfaceHandler::endpoint_kind(&ep(0x02), &setup(0x00)), CcidEndpoint::Other);
}

#[test]
fn length_field_counts_payload() {
    let mut b = bridge();
    let mut frames = Vec::new();
    let apdu = [0x00, 0xCA, 0x00, 0x6E, 0x00];
    let mut xfr = vec![0x6F, apdu.len() as u8, 0, 0, 0, 0x00, 0x30, 0x00, 0x00, 0x00];
    xfr.extend_from_slice(&apdu);
    if let BulkOut::Transmit { header, .. } = b.bulk_out(&xfr) {
        b.complete_transmit(header, TransmitOutcome::Reply(vec![0x6E, 0x03, 0x01, 0x02, 0x03, 0x90, 0x00]));
    } else {
        panic!("expected a transmit request");
    }
    frames.push(b.bulk_in());
    for req in [
        [0x6C, 0, 0, 0, 0, 0x00, 0x31, 0x00, 0x00, 0x00],
        [0x65, 0, 0, 0, 0, 0x00, 0x32, 0x00, 0x00, 0x00],
        [0x6E, 0, 0, 0, 0, 0x00, 0x33, 0x00, 0x00, 0x00],
        [0x63, 0, 0, 0, 0, 0x00, 0x34, 0x00, 0x00, 0x00],
    ] {
        b.bulk_out(&req);
        frames.push(b.bulk_in());
    }
    for f in frames {
        let len = u32::from_le_bytes([f[1], f[2], f[3], f[4]]) as usize;
        assert_eq!(f.len(), 10 + len, "frame {:02X?}", f);
    }
}

#[test]
fn pending_power_on_keeps_order() {
    let mut b = bridge();
    b.bulk_out(&[0x65, 0, 0, 0, 0, 0x00, 0x40, 0x00, 0x00, 0x00]);
    let header = match b.bulk_out(&[0x62, 0, 0, 0, 0, 0x00, 0x41, 0x00, 0x00, 0x00]) {
        BulkOut::PowerOn { header, .. } => header,
        other => panic!("unexpected step {:?}", other),
    };
    b.complete_power_on(header, PowerOnOutcome::Atr(vec![0x3B, 0x00]));
    b.bulk_out(&[0x72, 0, 0, 0, 0, 0x00, 0x42, 0x00, 0x00, 0x00]);
    assert_eq!(b.bulk_in()[6], 0x40);
    assert_eq!(b.bulk_in()[6], 0x41);
    assert_eq!(b.bulk_in()[6], 0x42);
    assert!(b.bulk_in().is_empty());
}
