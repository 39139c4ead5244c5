use omron_link::btutil::{same_address, BTEvent, BTUtil, BTWait, Error};

const ADDR: [u8; 6] = [0xaa, 0xbb, 0xcc, 0x01, 0x02, 0x03];
const OTHER: [u8; 6] = [0xaa, 0xbb, 0xcc, 0x01, 0x02, 0x04];

#[test]
fn get_string_decodes_utf8() {
    assert_eq!(BTUtil::get_string(b"OMRONHEALTHCARE".to_vec()), Ok("OMRONHEALTHCARE".to_string()));
    assert_eq!(BTUtil::get_string(vec![0xc3, 0xa9]), Ok("\u{e9}".to_string()));
    assert_eq!(BTUtil::get_string(vec![]), Ok(String::new()));
}

#[test]
fn get_string_rejects_malformed_text() {
    assert_eq!(BTUtil::get_string(vec![0x4f, 0xff]), Err(Error::Decode));
    assert_eq!(BTUtil::get_string(vec![0xc3]), Err(Error::Decode));
}

#[test]
fn get_device_info_takes_three_texts() {
    let info = BTUtil::get_device_info(
        b"OMRONHEALTHCARE".to_vec(),
        b"M7 Intelli IT".to_vec(),
        b"1.2.3".to_vec(),
    )
    .unwrap();
    assert_eq!(info.manufacturer, "OMRONHEALTHCARE");
    assert_eq!(info.model, "M7 Intelli IT");
    assert_eq!(info.firmware, "1.2.3");
    let bad = BTUtil::get_device_info(b"OMRON".to_vec(), vec![0x80], b"1".to_vec());
    assert_eq!(bad.err(), Some(Error::Decode));
}

#[test]
fn addresses_compare_byte_by_byte() {
    assert!(same_address(&ADDR, &ADDR));
    assert!(!same_address(&ADDR, &OTHER));
}

#[test]
fn discovery_waits_for_the_device() {
    assert_eq!(BTUtil::get_device(&ADDR, BTEvent::Found(OTHER)), BTWait::Listen);
    assert_eq!(BTUtil::get_device(&ADDR, BTEvent::Other), BTWait::Listen);
    assert_eq!(BTUtil::get_device(&ADDR, BTEvent::Found(ADDR)), BTWait::Ready);
    assert_eq!(BTUtil::get_device(&ADDR, BTEvent::Closed), BTWait::Ready);
}

#[test]
fn advertisement_wait_fails_when_the_monitor_closes() {
    assert_eq!(BTUtil::wait_for_adv(&ADDR, BTEvent::Found(OTHER)), Ok(BTWait::Listen));
    assert_eq!(BTUtil::wait_for_adv(&ADDR, BTEvent::Other), Ok(BTWait::Listen));
    assert_eq!(BTUtil::wait_for_adv(&ADDR, BTEvent::Found(ADDR)), Ok(BTWait::Ready));
    assert_eq!(
        BTUtil::wait_for_adv(&ADDR, BTEvent::Closed),
        Err(Error::AdvertisementTimeout)
    );
}

#[test]
fn errors_have_a_text() {
    assert_eq!(Error::Transport.message(), "Unable to receive packet");
    assert_eq!(Error::AdvertisementTimeout.message(), "Failed to receive advertisements");
    assert_eq!(Error::ShortPacket.message(), "Received packet is too short");
    assert_eq!(Error::CrcMismatch.message(), "CRC error in received packet");
    assert_eq!(Error::ProtocolViolation.message(), "Invalid response");
    assert_eq!(Error::UnknownDevice.message(), "Unknown device");
    assert_eq!(Error::AlreadyPaired.message(), "Device is already paired");
    assert_eq!(Error::NotPaired.message(), "Device is not yet paired");
    assert_eq!(Error::PacketTooLarge.message(), "Packet is too large");
    assert_eq!(Error::Decode.message(), "Unable to decode value");
    assert_eq!(Error::Clock.message(), "Clock is out of range");
    assert_eq!(Error::Sink.message(), "DB error");
}
