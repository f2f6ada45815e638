use emv::tlv::{Tag, TlvError, TLV};

#[test]
fn round_trip_of_primitive_records() {
    // [tag, length, value] for a sequence of known primitive tags,
    // concatenated and decoded, comes back as that exact ordered sequence.
    let buffer = vec![
        0x50, 0x03, 0x41, 0x42, 0x43, // ApplicationLabel "ABC"
        0x5A, 0x02, 0x12, 0x34, // ApplicationPrimaryAccountNumber
        0x9F, 0x17, 0x01, 0x03, // PinTryCounter (two-byte tag)
    ];
    let records = TLV::decode(buffer).expect("a clean decode");
    assert_eq!(records.len(), 3);
    assert_eq!(records[0].tag, Tag::ApplicationLabel);
    assert_eq!(records[0].length, 3);
    assert_eq!(records[0].value, vec![0x41, 0x42, 0x43]);
    assert_eq!(records[1].tag, Tag::ApplicationPrimaryAccountNumber);
    assert_eq!(records[1].length, 2);
    assert_eq!(records[1].value, vec![0x12, 0x34]);
    assert_eq!(records[2].tag, Tag::PinTryCounter);
    assert_eq!(records[2].length, 1);
    assert_eq!(records[2].value, vec![0x03]);
}

#[test]
fn template_is_unwrapped_not_emitted() {
    // An outer template wrapping one DedicatedFileName record decodes to the
    // inner record alone.
    let buffer = vec![0x6F, 0x05, 0x84, 0x03, 0x01, 0x02, 0x03];
    let records = TLV::decode(buffer).expect("a clean decode");
    assert_eq!(records.len(), 1);
    assert_eq!(records[0].tag, Tag::DedicatedFileName);
    assert_eq!(records[0].length, 3);
    assert_eq!(records[0].value, vec![0x01, 0x02, 0x03]);
}

#[test]
fn records_after_a_template_are_kept() {
    // A sibling record after a template at the outer level is visited too.
    let buffer = vec![0x6F, 0x05, 0x84, 0x03, 0x01, 0x02, 0x03, 0x50, 0x01, 0x58];
    let records = TLV::decode(buffer).expect("a clean decode");
    assert_eq!(records.len(), 2);
    assert_eq!(records[0].tag, Tag::DedicatedFileName);
    assert_eq!(records[1].tag, Tag::ApplicationLabel);
    assert_eq!(records[1].value, vec![0x58]);
}

#[test]
fn short_value_is_a_truncation_error() {
    // The declared length says five bytes; only one follows.
    assert_eq!(TLV::decode(vec![0x50, 0x05, 0x01]), Err(TlvError::Truncated));
}

#[test]
fn short_header_is_a_truncation_error() {
    assert_eq!(TLV::decode(vec![0x84]), Err(TlvError::Truncated));
    // A two-byte tag with no room left for its length byte.
    assert_eq!(TLV::decode(vec![0x9F, 0x17]), Err(TlvError::Truncated));
}

#[test]
fn unknown_tag_is_an_error() {
    assert_eq!(TLV::decode(vec![0x01, 0x02, 0xAA, 0xBB]), Err(TlvError::UnknownTag));
}

#[test]
fn truncation_inside_a_template_aborts_the_buffer() {
    // The template's value decodes on its own and is short.
    assert_eq!(
        TLV::decode(vec![0x6F, 0x03, 0x84, 0x03, 0x01]),
        Err(TlvError::Truncated)
    );
}

#[test]
fn empty_buffer_decodes_to_no_records() {
    let records = TLV::decode(Vec::new()).expect("a clean decode");
    assert_eq!(records.len(), 0);
}

#[test]
fn parse_splits_one_record_off() {
    let (tlv, rest) = TLV::parse(vec![0x50, 0x01, 0x58, 0x5A, 0x01, 0x99]).expect("a record");
    assert_eq!(tlv.tag, Tag::ApplicationLabel);
    assert_eq!(tlv.length, 1);
    assert_eq!(tlv.value, vec![0x58]);
    assert_eq!(rest, vec![0x5A, 0x01, 0x99]);
}

#[test]
fn one_byte_tag_table() {
    assert_eq!(Tag::from_u8(0x50), Some(Tag::ApplicationLabel));
    assert_eq!(Tag::from_u8(0x5A), Some(Tag::ApplicationPrimaryAccountNumber));
    assert_eq!(Tag::from_u8(0x6F), Some(Tag::FileControlInformationTemplate));
    assert_eq!(Tag::from_u8(0x77), Some(Tag::ResponseMessageTemplateFormat2));
    assert_eq!(Tag::from_u8(0x82), Some(Tag::ApplicationInterchangeProfile));
    assert_eq!(Tag::from_u8(0x84), Some(Tag::DedicatedFileName));
    assert_eq!(Tag::from_u8(0x87), Some(Tag::ApplicationPriorityIndicator));
    assert_eq!(Tag::from_u8(0x8C), Some(Tag::CardRiskManagementDataObjectList1));
    assert_eq!(Tag::from_u8(0x8D), Some(Tag::CardRiskManagementDataObjectList2));
    assert_eq!(Tag::from_u8(0x8E), Some(Tag::CardholderVerificationMethodList));
    assert_eq!(Tag::from_u8(0x94), Some(Tag::ApplicationFileLocator));
    assert_eq!(Tag::from_u8(0xA5), Some(Tag::FileControlInformationProprietaryTemplate));
    assert_eq!(Tag::from_u8(0x9F), None);
    assert_eq!(Tag::from_u8(0x00), None);
}

#[test]
fn two_byte_tag_table() {
    assert_eq!(Tag::from_u16(0x5F24), Some(Tag::ApplicationExpirationDate));
    assert_eq!(Tag::from_u16(0x5F25), Some(Tag::ApplicationEffectiveDate));
    assert_eq!(Tag::from_u16(0x5F28), Some(Tag::IssuerCountryCode));
    assert_eq!(Tag::from_u16(0x5F2D), Some(Tag::LanguagePreference));
    assert_eq!(
        Tag::from_u16(0x5F34),
        Some(Tag::ApplicationPrimaryAccountNumberSequenceNumber)
    );
    assert_eq!(Tag::from_u16(0x7081), Some(Tag::EMVProprietaryTemplate));
    assert_eq!(Tag::from_u16(0x9F07), Some(Tag::ApplicationUsageControl));
    assert_eq!(Tag::from_u16(0x9F0D), Some(Tag::IssuerActionCodeDefault));
    assert_eq!(Tag::from_u16(0x9F0E), Some(Tag::IssuerActionCodeDenial));
    assert_eq!(Tag::from_u16(0x9F0F), Some(Tag::IssuerActionCodeOnline));
    assert_eq!(Tag::from_u16(0x9F10), Some(Tag::IssuerApplicationData));
    assert_eq!(Tag::from_u16(0x9F11), Some(Tag::IssuerCodeTableIndex));
    assert_eq!(Tag::from_u16(0x9F12), Some(Tag::ApplicationPreferredName));
    assert_eq!(Tag::from_u16(0x9F17), Some(Tag::PinTryCounter));
    assert_eq!(Tag::from_u16(0x9F26), Some(Tag::ApplicationCryptogram));
    assert_eq!(Tag::from_u16(0x9F27), Some(Tag::CryptogramInformationData));
    assert_eq!(Tag::from_u16(0x9F36), Some(Tag::ApplicationTransactionCounter));
    assert_eq!(Tag::from_u16(0x9F42), Some(Tag::ApplicationCurrencyCode));
    assert_eq!(Tag::from_u16(0x9F4A), Some(Tag::StaticDataAuthenticationTagList));
    assert_eq!(Tag::from_u16(0x9F4D), Some(Tag::LogEntry));
    assert_eq!(Tag::from_u16(0x9F5D), Some(Tag::UnknownTag));
    assert_eq!(Tag::from_u16(0x9F6E), Some(Tag::UnknownTag));
    assert_eq!(
        Tag::from_u16(0xBF0C),
        Some(Tag::FileControlInformationIssuerDiscretionaryData)
    );
    assert_eq!(Tag::from_u16(0x9F99), None);
}

#[test]
fn template_tags_are_constructed() {
    assert!(Tag::EMVProprietaryTemplate.is_template());
    assert!(Tag::ResponseMessageTemplateFormat2.is_template());
    assert!(Tag::FileControlInformationTemplate.is_template());
    assert!(Tag::FileControlInformationProprietaryTemplate.is_template());
    assert!(Tag::FileControlInformationIssuerDiscretionaryData.is_template());
    assert!(!Tag::ApplicationLabel.is_template());
    assert!(!Tag::DedicatedFileName.is_template());
    assert!(!Tag::UnknownTag.is_template());
}
