use smredir::atr::atr_parameters;
use smredir::ccid::CCIDInterfaceHandler;
use smredir::control::{ControlSetup, ControlType, Recipient};
use smredir::device::{build_bos_descriptor, CanokeyVirtDeviceHandler, DeviceControl};
use smredir::fido::{
    input_report, is_fido_device, is_hid_class_descriptor, output_report, FIDOInterfaceHandler,
    FidoControl, FidoEndpoint,
};
use smredir::reserved::ReservedInterfaceHandler;
use smredir::usb::{truncate_to, SetupPacket, UrbError, UsbEndpoint};
use smredir::webusb::{
    capability_descriptors, find_vendor_interface, InterfaceClasses, WebUSBInterfaceHandler,
    WebUsbControl,
};

fn setup(request_type: u8, request: u8, value: u16, index: u16, length: u16) -> SetupPacket {
    SetupPacket { request_type, request, value, index, length }
}

#[test]
fn atr_with_tc1_and_td1() {
    let atr = [0x3B, 0xD5, 0x18, 0xFF, 0x81, 0x31, 0xFE, 0x45, 0x80];
    assert_eq!(atr_parameters(&atr), Some([0x18, 0x11, 0xFF, 0x45, 0x00, 0xFE, 0x00]));
    let inverse = [0x3F, 0xD5, 0x18, 0xFE, 0x81, 0x31, 0xFE, 0x45];
    assert_eq!(atr_parameters(&inverse), Some([0x18, 0x12, 0xFE, 0x45, 0x00, 0xFE, 0x00]));
}

#[test]
fn atr_with_all_first_interface_bytes() {
    // Y1 = F: TA1, TB1, TC1, TD1; Y2 = C: TC2 and TD2; Y3 = 7: TA3, TB3, TC3
    let atr = [0x3B, 0xF0, 0x11, 0x00, 0x01, 0xC1, 0x00, 0xB1, 0xAA, 0xBB, 0x00];
    assert_eq!(atr_parameters(&atr), Some([0x11, 0x11, 0x01, 0xBB, 0x00, 0xAA, 0x00]));
}

#[test]
fn atr_shapes_without_parameters() {
    // TS neither direct nor inverse
    assert_eq!(atr_parameters(&[0x3C, 0xD5, 0x18, 0xFF, 0x81, 0x31, 0xFE, 0x45]), None);
    // TA1 absent
    assert_eq!(atr_parameters(&[0x3B, 0xC5, 0xFF, 0x81, 0x31, 0xFE, 0x45, 0x00]), None);
    // TC1 absent (TA1 and TD1 only)
    assert_eq!(atr_parameters(&[0x3B, 0x95, 0x18, 0x81, 0x31, 0xFE, 0x45, 0x00]), None);
    // TD1 does not announce TD2
    assert_eq!(atr_parameters(&[0x3B, 0xD5, 0x18, 0xFF, 0x71, 0x31, 0xFE, 0x45]), None);
    // TD2 announces only TA3
    assert_eq!(atr_parameters(&[0x3B, 0xD5, 0x18, 0xFF, 0x81, 0x11, 0xFE, 0x45]), None);
    // TD2 announces neither TA3 nor TB3
    assert_eq!(atr_parameters(&[0x3B, 0xD5, 0x18, 0xFF, 0x81, 0x01, 0xFE, 0x45]), None);
    // too short for TB3
    assert_eq!(atr_parameters(&[0x3B, 0xD5, 0x18, 0xFF, 0x81, 0x31, 0xFE]), None);
    assert_eq!(atr_parameters(&[0x3B]), None);
    assert_eq!(atr_parameters(&[]), None);
}

#[test]
fn bos_from_fragments() {
    let frags = vec![vec![0x03, 0x10, 0x01], vec![0x04, 0x10, 0x02, 0x03]];
    assert_eq!(
        build_bos_descriptor(&frags),
        vec![0x05, 0x0F, 0x0C, 0x00, 0x02, 0x03, 0x10, 0x01, 0x04, 0x10, 0x02, 0x03]
    );
    assert_eq!(build_bos_descriptor(&vec![]), vec![0x05, 0x0F, 0x05, 0x00, 0x00]);
}

#[test]
fn bos_falls_back_when_too_large() {
    let long = vec![vec![0u8; 0xFFFB]];
    assert_eq!(build_bos_descriptor(&long), vec![0x05, 0x0F, 0x05, 0x00, 0x00]);
    let fits = vec![vec![0u8; 0xFFFA]];
    let d = build_bos_descriptor(&fits);
    assert_eq!(d.len(), 0xFFFF);
    assert_eq!(&d[..5], &[0x05, 0x0F, 0xFF, 0xFF, 0x01]);
    let many = vec![vec![0x03, 0x10, 0x00]; 256];
    assert_eq!(build_bos_descriptor(&many), vec![0x05, 0x0F, 0x05, 0x00, 0x00]);
    let most = vec![vec![0x03, 0x10, 0x00]; 255];
    let d = build_bos_descriptor(&most);
    assert_eq!(d.len(), 5 + 3 * 255);
    assert_eq!(d[4], 0xFF);
    assert_eq!(d[2] as usize + 256 * d[3] as usize, d.len());
}

#[test]
fn device_control_routing() {
    let mut dev = CanokeyVirtDeviceHandler::new();
    assert!(matches!(dev.handle_control(&setup(0x80, 0x00, 0, 0, 2), &[]), Ok(DeviceControl::Reply(v)) if v == vec![0, 0]));
    assert!(matches!(dev.handle_control(&setup(0xC0, 0x02, 0, 7, 64), &[]), Ok(DeviceControl::Vendor)));
    assert!(matches!(dev.handle_control(&setup(0x40, 0x02, 0, 7, 0), &[1]), Ok(DeviceControl::Vendor)));
    assert!(matches!(dev.handle_control(&setup(0x80, 0x06, 0x0F00, 0, 5), &[]), Ok(DeviceControl::CollectCapabilities)));
    let first = dev.init_bos_descriptor(&vec![vec![0x03, 0x10, 0x01]]);
    assert_eq!(first, vec![0x05, 0x0F, 0x08, 0x00, 0x01, 0x03, 0x10, 0x01]);
    let again = dev.init_bos_descriptor(&vec![]);
    assert_eq!(again, first);
    assert!(matches!(dev.handle_control(&setup(0x80, 0x06, 0x0F00, 0, 5), &[]), Ok(DeviceControl::Reply(v)) if v == first));
    assert!(matches!(dev.handle_control(&setup(0x80, 0x06, 0x0100, 0, 18), &[]), Err(UrbError::InvalidData)));
    assert!(matches!(dev.handle_control(&setup(0x00, 0x09, 1, 0, 0), &[]), Err(UrbError::InvalidData)));
    assert!(matches!(dev.handle_control(&setup(0xE0, 0x00, 0, 0, 0), &[]), Err(UrbError::InvalidInput)));
}

#[test]
fn control_setup_fields() {
    match ControlSetup::new(&setup(0xC1, 0x02, 0x1234, 0x0007, 64), &[]) {
        Ok(ControlSetup::In(c)) => {
            assert_eq!(c.control_type, ControlType::Vendor);
            assert_eq!(c.recipient, Recipient::Interface);
            assert_eq!((c.request, c.value, c.index, c.length), (0x02, 0x1234, 0x0007, 64));
        }
        other => panic!("{:?}", other),
    }
    let out = ControlSetup::new(&setup(0x22, 0x01, 1, 2, 3), &[9, 8, 7]).unwrap();
    assert_eq!(out.control_type(), ControlType::Class);
    assert_eq!(out.recipient(), Recipient::Endpoint);
    assert_eq!((out.request(), out.value(), out.index()), (0x01, 1, 2));
    assert!(matches!(out, ControlSetup::Out(ref o) if o.data == vec![9, 8, 7]));
    assert!(matches!(ControlSetup::new(&setup(0x60, 0, 0, 0, 0), &[]), Err(UrbError::InvalidInput)));
    assert!(matches!(ControlSetup::new(&setup(0x04, 0, 0, 0, 0), &[]), Err(UrbError::InvalidInput)));
}

#[test]
fn bos_capabilities_of_device() {
    let bos = [0x05, 0x0F, 0x0C, 0x00, 0x02, 0x03, 0x10, 0x01, 0x04, 0x10, 0x02, 0x03];
    assert_eq!(capability_descriptors(&bos), vec![vec![0x03, 0x10, 0x01], vec![0x04, 0x10, 0x02, 0x03]]);
    // total length disagrees with the buffer
    let mut bad = bos;
    bad[2] = 0x0D;
    assert!(capability_descriptors(&bad).is_empty());
    // no capability announced
    let mut none = bos;
    none[4] = 0;
    assert!(capability_descriptors(&none).is_empty());
    // an item that runs past the end
    let overrun = [0x05, 0x0F, 0x08, 0x00, 0x01, 0x04, 0x10, 0x01];
    assert!(capability_descriptors(&overrun).is_empty());
    // an item of length zero
    let zero = [0x05, 0x0F, 0x07, 0x00, 0x01, 0x00, 0x10];
    assert!(capability_descriptors(&zero).is_empty());
    assert!(capability_descriptors(&[0x05, 0x0F, 0x05]).is_empty());
}

#[test]
fn vendor_interface_is_found() {
    let ifaces = vec![
        InterfaceClasses { interface_number: 0, classes: vec![0x03] },
        InterfaceClasses { interface_number: 1, classes: vec![0x00, 0xFF] },
        InterfaceClasses { interface_number: 2, classes: vec![0xFF] },
    ];
    assert_eq!(find_vendor_interface(&ifaces), Some(1));
    assert_eq!(find_vendor_interface(&ifaces[..1].iter().map(|i| InterfaceClasses { interface_number: i.interface_number, classes: i.classes.clone() }).collect()), None);
}

fn ccid_bridge() -> CCIDInterfaceHandler {
    let mut desc = vec![0u8; 0x36];
    desc[0] = 0x36;
    desc[1] = 0x21;
    CCIDInterfaceHandler::new(&desc, &[0x3B, 0x00]).unwrap()
}

#[test]
fn webusb_interface_control() {
    let w = WebUSBInterfaceHandler::new(1);
    let mut ccid = ccid_bridge();
    assert!(matches!(w.handle_control(&setup(0x81, 0x00, 0, 2, 2), &[], &mut ccid), Ok(WebUsbControl::Reply(v)) if v == vec![0, 0]));
    assert!(ccid.has_card());
    match w.handle_control(&setup(0xC1, 0x02, 0, 0x1202, 1), &[], &mut ccid) {
        Ok(WebUsbControl::Forward { control: ControlSetup::In(c), release_card }) => {
            assert_eq!(c.index, 0x1201);
            assert!(release_card);
        }
        other => panic!("{:?}", other),
    }
    assert!(!ccid.has_card());
    match w.handle_control(&setup(0x41, 0x00, 0, 0x0002, 0), &[1, 2], &mut ccid) {
        Ok(WebUsbControl::Forward { control: ControlSetup::Out(c), release_card }) => {
            assert_eq!(c.index, 0x0001);
            assert_eq!(c.data, vec![1, 2]);
            assert!(!release_card);
        }
        other => panic!("{:?}", other),
    }
    match w.handle_control(&setup(0xC0, 0x02, 0, 0x0007, 1), &[], &mut ccid) {
        Ok(WebUsbControl::Forward { control: ControlSetup::In(c), .. }) => assert_eq!(c.index, 0x0007),
        other => panic!("{:?}", other),
    }
    assert!(matches!(w.handle_control(&setup(0x7F, 0x00, 0, 0, 0), &[], &mut ccid), Err(UrbError::InvalidInput)));
    assert!(matches!(w.handle_device_control(&setup(0xC0, 0x02, 0, 7, 9), &[]), Ok(ControlSetup::In(c)) if c.index == 7 && c.length == 9));
    assert!(w.get_class_specific_descriptor().is_empty());
}

#[test]
fn truncation_to_transfer_length() {
    let mut v = vec![1, 2, 3, 4];
    truncate_to(&mut v, 2);
    assert_eq!(v, vec![1, 2]);
    truncate_to(&mut v, 10);
    assert_eq!(v, vec![1, 2]);
}

#[test]
fn fido_reports() {
    assert_eq!(output_report(&[0xAA, 0xBB]), vec![0x00, 0xAA, 0xBB]);
    assert_eq!(output_report(&[]), vec![0x00]);
    assert_eq!(input_report(vec![1, 2, 3, 4], Some(2)), vec![1, 2]);
    assert_eq!(input_report(vec![1, 2], Some(5)), vec![1, 2]);
    assert_eq!(input_report(vec![1, 2], None), Vec::<u8>::new());
    assert!(is_fido_device(0xF1D0, 0x20A0, 0x42D4, 0x20A0, 0x42D4));
    assert!(!is_fido_device(0xF1D0, 0x20A0, 0x42D5, 0x20A0, 0x42D4));
    assert!(!is_fido_device(0x0001, 0x20A0, 0x42D4, 0x20A0, 0x42D4));
    assert!(is_hid_class_descriptor(&[0x09, 0x21, 0x11, 0x01, 0x00, 0x01, 0x22, 0x22, 0x00]));
    assert!(!is_hid_class_descriptor(&[0x09, 0x24, 0x11, 0x01, 0x00, 0x01, 0x22, 0x22, 0x00]));
}

#[test]
fn fido_control_and_endpoints() {
    let class_desc = vec![0x09, 0x21, 0x11, 0x01, 0x00, 0x01, 0x22, 0x22, 0x00];
    let mut f = FIDOInterfaceHandler::new(class_desc.clone());
    assert_eq!(f.get_class_specific_descriptor(), class_desc);
    let get_report = setup(0x81, 0x06, 0x2200, 0, 4);
    assert!(matches!(f.handle_control(&get_report, &[], 4), Ok(FidoControl::FetchReportDescriptor)));
    f.store_report_descriptor(vec![0x06, 0xD0, 0xF1, 0x09, 0x01, 0xA1]);
    assert!(matches!(f.handle_control(&get_report, &[], 4), Ok(FidoControl::Reply(v)) if v == vec![0x06, 0xD0, 0xF1, 0x09]));
    assert_eq!(f.report_descriptor_reply(100).len(), 6);
    assert!(matches!(f.handle_control(&setup(0x21, 0x0A, 0, 0, 0), &[], 0), Ok(FidoControl::Reply(v)) if v.is_empty()));
    assert!(matches!(f.handle_control(&setup(0x81, 0x06, 0x2100, 0, 9), &[], 9), Err(UrbError::Unsupported)));
    assert!(matches!(f.handle_control(&setup(0x21, 0x0B, 0, 0, 0), &[], 0), Err(UrbError::Unsupported)));
    let eps = FIDOInterfaceHandler::endpoints();
    assert_eq!(eps[0], UsbEndpoint { address: 0x82, attributes: 3, max_packet_size: 64, interval: 6 });
    assert_eq!(eps[1], UsbEndpoint { address: 0x02, attributes: 3, max_packet_size: 64, interval: 6 });
    assert_eq!(FIDOInterfaceHandler::endpoint_kind(&eps[0]), Ok(FidoEndpoint::InterruptIn));
    assert_eq!(FIDOInterfaceHandler::endpoint_kind(&eps[1]), Ok(FidoEndpoint::InterruptOut));
    let ep0 = UsbEndpoint { address: 0x80, attributes: 0, max_packet_size: 64, interval: 0 };
    assert_eq!(FIDOInterfaceHandler::endpoint_kind(&ep0), Ok(FidoEndpoint::Control));
    let other = UsbEndpoint { address: 0x83, attributes: 3, max_packet_size: 64, interval: 6 };
    assert_eq!(FIDOInterfaceHandler::endpoint_kind(&other), Err(UrbError::InvalidInput));
}

#[test]
fn reserved_interface_refuses() {
    let r = ReservedInterfaceHandler::new();
    assert_eq!(r.handle_urb(), Err(UrbError::Unsupported));
    assert!(r.get_class_specific_descriptor().is_empty());
}

#[test]
fn vendor_steps_stop_at_first_success() {
    use_step(smredir::device::vendor_first(0), None);
    use_step(smredir::device::vendor_first(2), Some(0));
    assert!(matches!(
        smredir::device::vendor_next(2, 0, Err(UrbError::Backend)),
        smredir::device::VendorStep::Ask(1)
    ));
    assert!(matches!(
        smredir::device::vendor_next(2, 1, Err(UrbError::Backend)),
        smredir::device::VendorStep::Unhandled
    ));
    assert!(matches!(
        smredir::device::vendor_next(2, 0, Ok(vec![7])),
        smredir::device::VendorStep::Answer(v) if v == vec![7]
    ));
}

fn use_step(step: smredir::device::VendorStep, ask: Option<usize>) {
    match (step, ask) {
        (smredir::device::VendorStep::Ask(i), Some(j)) => assert_eq!(i, j),
        (smredir::device::VendorStep::Unhandled, None) => {}
        (other, _) => panic!("{:?}", other),
    }
}
