use rknx::protocol::knxnetip_structures::{Dib, IpConfigDib, MfrDataDib};
use rknx::protocol::layers::data::apdu::Apdu;
use rknx::errors::KnxError;
use rknx::protocol::cemi::Cemi;
use rknx::protocol::cemi_adapter::CemiAdapter;
use rknx::protocol::control_field::{ControlField, FrameType, Priority};
use rknx::protocol::knxnetip_enum::KnxNetIpServiceType;
use rknx::protocol::knxnetip_header::KnxNetIpHeader;
use rknx::protocol::layers::interfaces::apci::{Apci, ApciEnum};
use rknx::protocol::layers::interfaces::tpci::Tpci;
use rknx::protocol::control_field_extended::ExtendedControlField;

#[test]
fn headers_round_trip() {
    let h = KnxNetIpHeader::new(KnxNetIpServiceType::TunnellingRequest, 21);
    let b = h.to_buffer();
    assert_eq!(b, vec![0x06, 0x10, 0x04, 0x20, 0x00, 0x15]);
    let back = KnxNetIpHeader::from_buffer(&b).unwrap();
    assert_eq!(back.service_type, KnxNetIpServiceType::TunnellingRequest);
    assert_eq!(back.total_length, 21);
    assert_eq!(KnxNetIpHeader::from_buffer(&[0x06, 0x10, 0x04]).err(), Some(KnxError::InvalidParametersForDpt));
    assert_eq!(KnxNetIpHeader::from_buffer(&[0x06, 0x10, 0x7F, 0x7F, 0, 6]).err(), Some(KnxError::InvalidParametersForDpt));
}

#[test]
fn control_field_bits() {
    let mut cf = ControlField::new(0xBC);
    assert_eq!(cf.get_frame_type(), FrameType::Standard);
    assert!(cf.get_repeat());
    assert!(cf.get_system_broadcast());
    assert_eq!(cf.get_priority(), Priority::Low);
    assert!(!cf.get_ack_request());
    assert!(!cf.get_confirm());
    cf.set_priority(Priority::System);
    assert_eq!(cf.get_priority(), Priority::System);
    cf.set_ack_request(true);
    assert!(cf.get_ack_request());
    assert_eq!(cf.get_buffer(), &[0xB2]);
}

#[test]
fn apci_values_and_names() {
    assert_eq!(ApciEnum::AGroupValueWrite.code(), 0x80);
    assert_eq!(ApciEnum::from_u16(0x40), Some(ApciEnum::AGroupValueResponse));
    let mut a = Apci::new(0xFFFF);
    assert_eq!(a.get_value(), 0x03FF);
    a.set_command(ApciEnum::AGroupValueRead);
    assert_eq!(a.get_value(), 0);
    assert_eq!(Apci::new(0x0281).pack_number(), (0x02, 0x81));
    assert_eq!(Apci::unpack_number(0x02, 0x81), 0x0281);
}

#[test]
fn cemi_frames_round_trip() {
    let bytes = [0x29, 0x00, 0xBC, 0xE0, 0x11, 0x0A, 0x09, 0x01, 0x01, 0x00, 0x81];
    let cemi = Cemi::from_buffer(&bytes).unwrap();
    match &cemi {
        Cemi::LDataInd(ld) => {
            assert_eq!(ld.source_address, "1.1.10");
            assert_eq!(ld.destination_address, "1/1/1");
            assert_eq!(ld.tpdu.apdu.apci.get_value(), 0x80);
        }
        other => panic!("unexpected {:?}", other),
    }
    assert_eq!(cemi.get_message_code(), 0x29);
    assert_eq!(cemi.to_buffer(), bytes.to_vec());
    assert_eq!(Cemi::from_buffer(&[0x29, 0x00, 0xBC]).err(), Some(KnxError::InvalidParametersForDpt));
}

#[test]
fn emi_frames_become_cemi() {
    // An EMI2 L_Data.ind: code, control field, source, destination, NPCI (TPDU length 3), TPCI, APCI, data.
    let emi = [0x29, 0xBC, 0x11, 0x0A, 0x09, 0x01, 0xE3, 0x00, 0x80, 0x05];
    let cemi = CemiAdapter::emi_to_cemi(&emi).unwrap();
    match &cemi {
        Cemi::LDataInd(ld) => {
            assert_eq!(ld.source_address, "1.1.10");
            assert_eq!(ld.destination_address, "1/1/1");
            assert_eq!(ld.tpdu.apdu.apci.get_value(), 0x80);
            assert_eq!(ld.tpdu.apdu.data, vec![0x05]);
        }
        other => panic!("unexpected {:?}", other),
    }
    let back = CemiAdapter::cemi_to_emi(&cemi).unwrap();
    assert_eq!(back.get_message_code(), 0x29);
}

#[test]
fn descriptions_follow_the_documented_form() {
    let d = ControlField::new(0xBC).describe();
    assert_eq!(d.obj, "ControlField");
    assert_eq!(d.hex, "0xbc");
    assert_eq!(d.frame_type, "Data");
    assert_eq!(d.priority, "Low");
    assert_eq!(d.confirm, "NoConfirm");
    let bytes = [0x29, 0x00, 0xBC, 0xE0, 0x11, 0x0A, 0x09, 0x01, 0x01, 0x00, 0x81];
    let cemi = Cemi::from_buffer(&bytes).unwrap();
    let c = cemi.describe();
    assert_eq!(c.obj, "L_Data_ind");
    assert_eq!(c.message_code, 41);
    assert_eq!(c.source_address.as_deref(), Some("1.1.10"));
    assert_eq!(c.destination_address.as_deref(), Some("1/1/1"));
    assert_eq!(c.control_field1.unwrap().hex, "0xbc");
}

#[test]
fn raw_tpci_values_and_hop_count_limits() {
    let mut t = Tpci::new(0);
    t.set_value(0x80);
    assert_eq!(t.get_value(), 0x80);
    let mut e = ExtendedControlField::new(0xE0);
    assert_eq!(e.set_hop_count(8), Err("HopCount debe estar entre 0..7"));
    assert_eq!(e.set_hop_count(5), Ok(()));
    assert_eq!(e.get_hop_count(), 5);
}

#[test]
fn blocks_and_units_are_read_back_as_written() {
    let ip = Dib::IpConfig(IpConfigDib {
        ip_address: [192, 168, 1, 10],
        subnet_mask: [255, 255, 255, 0],
        default_gateway: [192, 168, 1, 1],
        ip_capabilities: 1,
        ip_assignment_method: 2,
    });
    let bytes = ip.to_buffer();
    assert_eq!(bytes.len(), 16);
    assert_eq!(Dib::from_buffer(&bytes), Ok(ip));
    let mfr = Dib::MfrData(MfrDataDib { manufacturer_id: 0x00C5, data: vec![1, 2, 3] });
    assert_eq!(Dib::from_buffer(&mfr.to_buffer()), Ok(mfr));
    for unit in [vec![0x00u8, 0x80, 0x05, 0x06], vec![0x00, 0x81]] {
        assert_eq!(Apdu::from_buffer(&unit).unwrap().to_buffer(), unit);
    }
}
