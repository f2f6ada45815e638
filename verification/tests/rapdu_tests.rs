use emv::rapdu::{Status, RAPDU};
use emv::tlv::Tag;

#[test]
fn sw1_61_yields_response_available_for_every_sw2() {
    for sw2 in 0..=255u8 {
        assert_eq!(Status::new(0x61, sw2), Status::ResponseAvailable { length: sw2 });
    }
}

#[test]
fn sw1_6c_yields_wrong_length_le_for_every_sw2() {
    for sw2 in 0..=255u8 {
        assert_eq!(Status::new(0x6C, sw2), Status::WrongLengthLe { length: sw2 });
    }
}

#[test]
fn fixed_table_codes_decode_to_their_variants() {
    assert_eq!(Status::new(0x62, 0x83), Status::SelectedFileInvalidated);
    assert_eq!(Status::new(0x67, 0x00), Status::WrongLength);
    assert_eq!(Status::new(0x69, 0x82), Status::SecurityConditionNotSatisfied);
    assert_eq!(Status::new(0x69, 0x85), Status::ConditionsOfUseNotSatisfied);
    assert_eq!(Status::new(0x6A, 0x82), Status::FileNotFound);
    assert_eq!(Status::new(0x6A, 0x88), Status::ReferencedDataNotFound);
    assert_eq!(Status::new(0x6D, 0x00), Status::InstructionCodeNotSupported);
    assert_eq!(Status::new(0x90, 0x00), Status::Success);
}

#[test]
fn any_other_code_decodes_to_unknown() {
    assert_eq!(Status::new(0x6A, 0x81), Status::Unknown);
    assert_eq!(Status::new(0x90, 0x01), Status::Unknown);
    assert_eq!(Status::new(0x00, 0x00), Status::Unknown);
    assert_eq!(Status::new(0xFF, 0xFF), Status::Unknown);
}

#[test]
fn envelope_keeps_raw_bytes_and_decodes_records() {
    let payload = [0x50, 0x03, 0x41, 0x42, 0x43];
    let r = RAPDU::new(Status::Success, &payload);
    assert_eq!(r.status, Status::Success);
    assert_eq!(r.raw, vec![0x50, 0x03, 0x41, 0x42, 0x43]);
    assert_eq!(r.data.len(), 1);
    assert_eq!(r.data[0].tag, Tag::ApplicationLabel);
    assert_eq!(r.data[0].value, vec![0x41, 0x42, 0x43]);
}

#[test]
fn envelope_with_undecodable_payload_keeps_raw_and_empties_records() {
    // 0x01 names no tag: decoding fails, raw bytes stay available.
    let payload = [0x01, 0x02, 0x03, 0x04];
    let r = RAPDU::new(Status::Success, &payload);
    assert_eq!(r.raw, vec![0x01, 0x02, 0x03, 0x04]);
    assert_eq!(r.data.len(), 0);
}

#[test]
fn envelope_with_empty_payload_has_no_records() {
    let r = RAPDU::new(Status::ResponseAvailable { length: 0x1A }, &[]);
    assert_eq!(r.raw, Vec::<u8>::new());
    assert_eq!(r.data.len(), 0);
}

#[test]
fn from_bytes_splits_the_status_word_off_the_tail() {
    let reply = [0x50, 0x03, 0x41, 0x42, 0x43, 0x90, 0x00];
    let r = RAPDU::from_bytes(&reply);
    assert_eq!(r.status, Status::Success);
    assert_eq!(r.raw, vec![0x50, 0x03, 0x41, 0x42, 0x43]);
    assert_eq!(r.data.len(), 1);
}

#[test]
fn from_bytes_with_a_bare_status_word() {
    let reply = [0x61, 0x1A];
    let r = RAPDU::from_bytes(&reply);
    assert_eq!(r.status, Status::ResponseAvailable { length: 0x1A });
    assert_eq!(r.raw, Vec::<u8>::new());
    assert_eq!(r.data.len(), 0);
}
