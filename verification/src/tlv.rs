//! TLV codec: decodes a byte buffer into an ordered sequence of
//! tag/length/value records, descending into constructed (template) tags.

use vstd::prelude::*;
use crate::utils::Extendable;

verus! {

/// The catalog of data-object identifiers, each known by a one- or two-byte
/// code.
#[derive(Clone, Copy, Debug, PartialEq, Eq, Structural)]
pub enum Tag {
    ApplicationCryptogram,
    ApplicationCurrencyCode,
    ApplicationEffectiveDate,
    ApplicationExpirationDate,
    ApplicationFileLocator,
    ApplicationInterchangeProfile,
    ApplicationLabel,
    ApplicationPreferredName,
    ApplicationPrimaryAccountNumber,
    ApplicationPrimaryAccountNumberSequenceNumber,
    ApplicationPriorityIndicator,
    ApplicationTransactionCounter,
    ApplicationUsageControl,
    CardholderVerificationMethodList,
    CardRiskManagementDataObjectList1,
    CardRiskManagementDataObjectList2,
    CryptogramInformationData,
    DedicatedFileName,
    EMVProprietaryTemplate,
    FileControlInformationIssuerDiscretionaryData,
    FileControlInformationProprietaryTemplate,
    FileControlInformationTemplate,
    IssuerActionCodeDefault,
    IssuerActionCodeDenial,
    IssuerActionCodeOnline,
    IssuerApplicationData,
    IssuerCodeTableIndex,
    IssuerCountryCode,
    LanguagePreference,
    LogEntry,
    PinTryCounter,
    ResponseMessageTemplateFormat2,
    StaticDataAuthenticationTagList,
    UnknownTag,
}

/// The tag known by a one-byte code, if any.
pub open spec fn spec_tag_from_u8(value: u8) -> Option<Tag> {
    match value {
        0x50 => Some(Tag::ApplicationLabel),
        0x5A => Some(Tag::ApplicationPrimaryAccountNumber),
        0x6F => Some(Tag::FileControlInformationTemplate),
        0x77 => Some(Tag::ResponseMessageTemplateFormat2),
        0x82 => Some(Tag::ApplicationInterchangeProfile),
        0x84 => Some(Tag::DedicatedFileName),
        0x87 => Some(Tag::ApplicationPriorityIndicator),
        0x8C => Some(Tag::CardRiskManagementDataObjectList1),
        0x8D => Some(Tag::CardRiskManagementDataObjectList2),
        0x8E => Some(Tag::CardholderVerificationMethodList),
        0x94 => Some(Tag::ApplicationFileLocator),
        0xA5 => Some(Tag::FileControlInformationProprietaryTemplate),
        _ => None,
    }
}

/// The tag known by a two-byte code, if any.
pub open spec fn spec_tag_from_u16(value: u16) -> Option<Tag> {
    match value {
        0x5F24 => Some(Tag::ApplicationExpirationDate),
        0x5F25 => Some(Tag::ApplicationEffectiveDate),
        0x5F28 => Some(Tag::IssuerCountryCode),
        0x5F2D => Some(Tag::LanguagePreference),
        0x5F34 => Some(Tag::ApplicationPrimaryAccountNumberSequenceNumber),
        0x7081 => Some(Tag::EMVProprietaryTemplate),
        0x9F07 => Some(Tag::ApplicationUsageControl),
        0x9F0D => Some(Tag::IssuerActionCodeDefault),
        0x9F0E => Some(Tag::IssuerActionCodeDenial),
        0x9F0F => Some(Tag::IssuerActionCodeOnline),
        0x9F10 => Some(Tag::IssuerApplicationData),
        0x9F11 => Some(Tag::IssuerCodeTableIndex),
        0x9F12 => Some(Tag::ApplicationPreferredName),
        0x9F17 => Some(Tag::PinTryCounter),
        0x9F26 => Some(Tag::ApplicationCryptogram),
        0x9F27 => Some(Tag::CryptogramInformationData),
        0x9F36 => Some(Tag::ApplicationTransactionCounter),
        0x9F42 => Some(Tag::ApplicationCurrencyCode),
        0x9F4A => Some(Tag::StaticDataAuthenticationTagList),
        0x9F4D => Some(Tag::LogEntry),
        0x9F5D => Some(Tag::UnknownTag),
        0x9F6E => Some(Tag::UnknownTag),
        0xBF0C => Some(Tag::FileControlInformationIssuerDiscretionaryData),
        _ => None,
    }
}

/// The tag is constructed: its value is itself a TLV-encoded buffer.
pub open spec fn spec_is_template(tag: Tag) -> bool {
    match tag {
        Tag::EMVProprietaryTemplate => true,
        Tag::ResponseMessageTemplateFormat2 => true,
        Tag::FileControlInformationTemplate => true,
        Tag::FileControlInformationProprietaryTemplate => true,
        Tag::FileControlInformationIssuerDiscretionaryData => true,
        _ => false,
    }
}

impl Tag {
    /// The tag known by a one-byte code, if any.
    pub fn from_u8(value: u8) -> (r: Option<Tag>)
        ensures
            r == spec_tag_from_u8(value),
    {
        match value {
            0x50 => Some(Tag::ApplicationLabel),
            0x5A => Some(Tag::ApplicationPrimaryAccountNumber),
            0x6F => Some(Tag::FileControlInformationTemplate),
            0x77 => Some(Tag::ResponseMessageTemplateFormat2),
            0x82 => Some(Tag::ApplicationInterchangeProfile),
            0x84 => Some(Tag::DedicatedFileName),
            0x87 => Some(Tag::ApplicationPriorityIndicator),
            0x8C => Some(Tag::CardRiskManagementDataObjectList1),
            0x8D => Some(Tag::CardRiskManagementDataObjectList2),
            0x8E => Some(Tag::CardholderVerificationMethodList),
            0x94 => Some(Tag::ApplicationFileLocator),
            0xA5 => Some(Tag::FileControlInformationProprietaryTemplate),
            _ => None,
        }
    }

    /// The tag known by a two-byte code, if any.
    pub fn from_u16(value: u16) -> (r: Option<Tag>)
        ensures
            r == spec_tag_from_u16(value),
    {
        match value {
            0x5F24 => Some(Tag::ApplicationExpirationDate),
            0x5F25 => Some(Tag::ApplicationEffectiveDate),
            0x5F28 => Some(Tag::IssuerCountryCode),
            0x5F2D => Some(Tag::LanguagePreference),
            0x5F34 => Some(Tag::ApplicationPrimaryAccountNumberSequenceNumber),
            0x7081 => Some(Tag::EMVProprietaryTemplate),
            0x9F07 => Some(Tag::ApplicationUsageControl),
            0x9F0D => Some(Tag::IssuerActionCodeDefault),
            0x9F0E => Some(Tag::IssuerActionCodeDenial),
            0x9F0F => Some(Tag::IssuerActionCodeOnline),
            0x9F10 => Some(Tag::IssuerApplicationData),
            0x9F11 => Some(Tag::IssuerCodeTableIndex),
            0x9F12 => Some(Tag::ApplicationPreferredName),
            0x9F17 => Some(Tag::PinTryCounter),
            0x9F26 => Some(Tag::ApplicationCryptogram),
            0x9F27 => Some(Tag::CryptogramInformationData),
            0x9F36 => Some(Tag::ApplicationTransactionCounter),
            0x9F42 => Some(Tag::ApplicationCurrencyCode),
            0x9F4A => Some(Tag::StaticDataAuthenticationTagList),
            0x9F4D => Some(Tag::LogEntry),
            0x9F5D => Some(Tag::UnknownTag),
            0x9F6E => Some(Tag::UnknownTag),
            0xBF0C => Some(Tag::FileControlInformationIssuerDiscretionaryData),
            _ => None,
        }
    }

    /// The tag is constructed: its value is itself a TLV-encoded buffer.
    pub fn is_template(&self) -> (r: bool)
        ensures
            r == spec_is_template(*self),
    {
        match self {
            Tag::EMVProprietaryTemplate => true,
            Tag::ResponseMessageTemplateFormat2 => true,
            Tag::FileControlInformationTemplate => true,
            Tag::FileControlInformationProprietaryTemplate => true,
            Tag::FileControlInformationIssuerDiscretionaryData => true,
            _ => false,
        }
    }
}

/// The mathematical value of a decoded record.
#[verifier::ext_equal]
pub ghost struct TlvView {
    pub tag: Tag,
    pub length: u8,
    pub value: Seq<u8>,
}

/// Why a buffer could not be decoded.
#[derive(Clone, Copy, Debug, PartialEq, Eq, Structural)]
pub enum TlvError {
    /// Fewer bytes remain than a record header or its declared value needs.
    Truncated,
    /// The leading byte or byte pair names no tag of the catalog.
    UnknownTag,
}

/// One decoded tag/length/value record. A primitive record's value is opaque
/// bytes; a constructed record's value was itself decoded in place.
#[derive(Debug, PartialEq, Eq)]
pub struct TLV {
    pub tag: Tag,
    pub length: u8,
    pub value: Vec<u8>,
}

impl View for TLV {
    type V = TlvView;

    open spec fn view(&self) -> TlvView {
        TlvView { tag: self.tag, length: self.length, value: self.value@ }
    }
}

/// The first record of the buffer and the bytes after it. The tag is read
/// from the first byte, or from the first two where one byte names no tag;
/// the next byte is the value's length; exactly that many bytes follow as
/// the value.
pub open spec fn spec_parse(data: Seq<u8>) -> Result<(TlvView, Seq<u8>), TlvError> {
    if data.len() < 2 {
        Err(TlvError::Truncated)
    } else {
        match spec_tag_from_u8(data[0]) {
            Some(tag) => {
                let len = data[1] as int;
                if data.len() < 2 + len {
                    Err(TlvError::Truncated)
                } else {
                    Ok(
                        (
                            TlvView { tag, length: data[1], value: data.subrange(2, 2 + len) },
                            data.skip(2 + len),
                        ),
                    )
                }
            },
            None => match spec_tag_from_u16(data[0].spec_extend(data[1])) {
                Some(tag) => {
                    if data.len() < 3 {
                        Err(TlvError::Truncated)
                    } else {
                        let len = data[2] as int;
                        if data.len() < 3 + len {
                            Err(TlvError::Truncated)
                        } else {
                            Ok(
                                (
                                    TlvView {
                                        tag,
                                        length: data[2],
                                        value: data.subrange(3, 3 + len),
                                    },
                                    data.skip(3 + len),
                                ),
                            )
                        }
                    }
                },
                None => Err(TlvError::UnknownTag),
            },
        }
    }
}

/// All records of the buffer, in order. A constructed record is replaced by
/// the records of its own value; the records after it at the same nesting
/// level follow. An empty buffer holds no records; an error anywhere aborts
/// the whole buffer with no partial result.
pub open spec fn spec_decode(data: Seq<u8>) -> Result<Seq<TlvView>, TlvError>
    decreases data.len(),
{
    if data.len() == 0 {
        Ok(Seq::empty())
    } else {
        match spec_parse(data) {
            Err(e) => Err(e),
            Ok((tlv, rest)) => if spec_is_template(tlv.tag) {
                match spec_decode(tlv.value) {
                    Err(e) => Err(e),
                    Ok(inner) => match spec_decode(rest) {
                        Err(e) => Err(e),
                        Ok(tail) => Ok(inner + tail),
                    },
                }
            } else {
                match spec_decode(rest) {
                    Err(e) => Err(e),
                    Ok(tail) => Ok(seq![tlv] + tail),
                }
            },
        }
    }
}

impl TLV {
    /// Split the first record off the buffer, returning it with the bytes
    /// that follow it.
    pub fn parse(data: Vec<u8>) -> (r: Result<(TLV, Vec<u8>), TlvError>)
        ensures
            match r {
                Ok(p) => spec_parse(data@) == Ok::<_, TlvError>((p.0@, p.1@)),
                Err(e) => spec_parse(data@) == Err::<(TlvView, Seq<u8>), _>(e),
            },
    {
        if data.len() < 2 {
            return Err(TlvError::Truncated);
        }
        let first = data[0];
        match Tag::from_u8(first) {
            Some(tag) => {
                let length = data[1];
                let len = length as usize;
                if data.len() < 2 + len {
                    return Err(TlvError::Truncated);
                }
                let value = vstd::slice::slice_to_vec(
                    vstd::slice::slice_subrange(data.as_slice(), 2, 2 + len),
                );
                let rest = vstd::slice::slice_to_vec(
                    vstd::slice::slice_subrange(data.as_slice(), 2 + len, data.len()),
                );
                let tlv = TLV { tag, length, value };
                proof {
                    assert(rest@ =~= data@.skip(2 + len as int));
                }
                Ok((tlv, rest))
            },
            None => {
                let second = data[1];
                match Tag::from_u16(first.extend(second)) {
                    Some(tag) => {
                        if data.len() < 3 {
                            return Err(TlvError::Truncated);
                        }
                        let length = data[2];
                        let len = length as usize;
                        if data.len() < 3 + len {
                            return Err(TlvError::Truncated);
                        }
                        let value = vstd::slice::slice_to_vec(
                            vstd::slice::slice_subrange(data.as_slice(), 3, 3 + len),
                        );
                        let rest = vstd::slice::slice_to_vec(
                            vstd::slice::slice_subrange(data.as_slice(), 3 + len, data.len()),
                        );
                        let tlv = TLV { tag, length, value };
                        proof {
                            assert(rest@ =~= data@.skip(3 + len as int));
                        }
                        Ok((tlv, rest))
                    },
                    None => Err(TlvError::UnknownTag),
                }
            },
        }
    }

    /// Decode all records of the buffer, in order, descending into
    /// constructed tags.
    pub fn decode(data: Vec<u8>) -> (r: Result<Vec<TLV>, TlvError>)
        ensures
            match r {
                Ok(v) => spec_decode(data@) == Ok::<_, TlvError>(
                    v@.map_values(|t: TLV| t@),
                ),
                Err(e) => spec_decode(data@) == Err::<Seq<TlvView>, _>(e),
            },
        decreases data@.len(),
    {
        if data.len() == 0 {
            let out: Vec<TLV> = Vec::new();
            proof {
                assert(out@.map_values(|t: TLV| t@) =~= Seq::<TlvView>::empty());
            }
            return Ok(out);
        }
        match TLV::parse(data) {
            Err(e) => Err(e),
            Ok((tlv, rest)) => {
                let ghost tv = tlv@;
                let TLV { tag, length, value } = tlv;
                if tag.is_template() {
                    match TLV::decode(value) {
                        Err(e) => Err(e),
                        Ok(mut inner) => match TLV::decode(rest) {
                            Err(e) => Err(e),
                            Ok(mut tail) => {
                                let ghost inner0 = inner@;
                                let ghost tail0 = tail@;
                                inner.append(&mut tail);
                                proof {
                                    assert(inner@.map_values(|t: TLV| t@) =~= inner0.map_values(
                                        |t: TLV| t@,
                                    ) + tail0.map_values(|t: TLV| t@));
                                }
                                Ok(inner)
                            },
                        },
                    }
                } else {
                    match TLV::decode(rest) {
                        Err(e) => Err(e),
                        Ok(tail) => {
                            let mut out: Vec<TLV> = Vec::new();
                            out.push(TLV { tag, length, value });
                            let mut tail = tail;
                            let ghost out0 = out@;
                            let ghost tail0 = tail@;
                            out.append(&mut tail);
                            proof {
                                assert(out0.map_values(|t: TLV| t@) =~= seq![tv]);
                                assert(out@.map_values(|t: TLV| t@) =~= out0.map_values(
                                    |t: TLV| t@,
                                ) + tail0.map_values(|t: TLV| t@));
                            }
                            Ok(out)
                        },
                    }
                }
            },
        }
    }
}

/// A buffer that declares more value bytes than it holds — its leading tag
/// is known, but the length byte after the tag exceeds what remains — always
/// decodes to a truncation error, never to records.
pub proof fn lemma_truncated_decode(data: Seq<u8>)
    requires
        data.len() >= 2,
        match spec_tag_from_u8(data[0]) {
            Some(_) => data.len() < 2 + data[1] as int,
            None => spec_tag_from_u16(data[0].spec_extend(data[1])) is Some && (data.len() < 3
                || data.len() < 3 + data[2] as int),
        },
    ensures
        spec_decode(data) == Err::<Seq<TlvView>, _>(TlvError::Truncated),
{
}

/// `bytes` writes the record `t` down as `[tag, length, value]`: its tag's
/// one- or two-byte code, one length byte, and exactly that many value
/// bytes. The tag must be primitive and known to the catalog.
pub open spec fn record_encoding(bytes: Seq<u8>, t: TlvView) -> bool {
    &&& !spec_is_template(t.tag)
    &&& t.value.len() == t.length as int
    &&& {
        ||| (bytes.len() == 2 + t.value.len() && spec_tag_from_u8(bytes[0]) == Some(t.tag)
            && bytes == seq![bytes[0], t.length] + t.value)
        ||| (bytes.len() == 3 + t.value.len() && spec_tag_from_u8(bytes[0]) is None
            && spec_tag_from_u16(bytes[0].spec_extend(bytes[1])) == Some(t.tag) && bytes == seq![
            bytes[0],
            bytes[1],
            t.length,
        ] + t.value)
    }
}

/// A record's encoding is self-delimiting: parsing it with any bytes after
/// it yields exactly that record and leaves exactly those bytes.
proof fn lemma_parse_record(bytes: Seq<u8>, t: TlvView, suffix: Seq<u8>)
    requires
        record_encoding(bytes, t),
    ensures
        spec_parse(bytes + suffix) == Ok::<_, TlvError>((t, suffix)),
{
    let d = bytes + suffix;
    if spec_tag_from_u8(bytes[0]) == Some(t.tag) && bytes.len() == 2 + t.value.len() {
        assert(d[0] == bytes[0]);
        assert(d[1] == bytes[1] && bytes[1] == t.length);
        let len = t.length as int;
        assert(d.subrange(2, 2 + len) =~= t.value);
        assert(d.skip(2 + len) =~= suffix);
    } else {
        assert(d[0] == bytes[0]);
        assert(d[1] == bytes[1]);
        assert(d[2] == bytes[2] && bytes[2] == t.length);
        let len = t.length as int;
        assert(d.subrange(3, 3 + len) =~= t.value);
        assert(d.skip(3 + len) =~= suffix);
    }
}

/// Round trip: writing any sequence of known primitive records down as
/// `[tag, length, value]` each, one after the other, and decoding the whole
/// buffer yields back exactly that ordered sequence of records.
pub proof fn lemma_tlv_round_trip(encodings: Seq<Seq<u8>>, records: Seq<TlvView>)
    requires
        encodings.len() == records.len(),
        forall|i: int|
            0 <= i < records.len() ==> record_encoding(#[trigger] encodings[i], records[i]),
    ensures
        spec_decode(encodings.flatten()) == Ok::<_, TlvError>(records),
    decreases encodings.len(),
{
    if encodings.len() == 0 {
        assert(records =~= Seq::<TlvView>::empty());
        assert(spec_decode(encodings.flatten()) == Ok::<_, TlvError>(records));
    } else {
        let first = encodings.first();
        let rest = encodings.drop_first();
        let flat = encodings.flatten();
        assert(flat == first + rest.flatten());
        assert(record_encoding(encodings[0], records[0]));
        lemma_parse_record(first, records[0], rest.flatten());
        assert forall|i: int| 0 <= i < rest.len() implies record_encoding(
            #[trigger] rest[i],
            records.drop_first()[i],
        ) by {
            assert(rest[i] == encodings[i + 1]);
            assert(records.drop_first()[i] == records[i + 1]);
        }
        lemma_tlv_round_trip(rest, records.drop_first());
        assert(flat.len() > 0);
        assert(spec_parse(flat) == Ok::<_, TlvError>((records[0], rest.flatten())));
        assert(seq![records[0]] + records.drop_first() =~= records);
    }
}

} // verus!
