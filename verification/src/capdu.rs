//! Command encoder: canonical byte sequences for each card operation,
//! ordered `CLA, INS, P1, P2, [Lc, [DATA]], [LE]`.

use vstd::prelude::*;
use crate::utils::Splitable;

verus! {

/// The mathematical value of a command: its header bytes and optional
/// length, data and expected-length fields.
#[verifier::ext_equal]
pub ghost struct ApduView {
    pub name: Seq<char>,
    pub cla: u8,
    pub ins: u8,
    pub p1: u8,
    pub p2: u8,
    pub lc: Option<u8>,
    pub data: Option<Seq<u8>>,
    pub le: Option<u8>,
}

impl ApduView {
    /// A command is well formed when a data field is always announced by a
    /// matching Lc byte.
    pub open spec fn wf(self) -> bool {
        match self.data {
            Some(d) => d.len() <= 255 && self.lc == Some(d.len() as u8),
            None => true,
        }
    }

    /// The bytes of the command as sent on the wire:
    /// `CLA, INS, P1, P2, [Lc, [DATA]], [LE]`.
    pub open spec fn wire(self) -> Seq<u8> {
        seq![self.cla, self.ins, self.p1, self.p2] + (match self.lc {
            Some(l) => seq![l],
            None => Seq::empty(),
        }) + (match self.data {
            Some(d) => d,
            None => Seq::empty(),
        }) + (match self.le {
            Some(l) => seq![l],
            None => Seq::empty(),
        })
    }
}

/// A command to the card.
#[derive(Debug)]
pub struct APDU {
    pub name: &'static str,
    cla: u8,
    ins: u8,
    p1: u8,
    p2: u8,
    lc: Option<u8>,
    data: Option<Vec<u8>>,
    le: Option<u8>,
}

impl View for APDU {
    type V = ApduView;

    closed spec fn view(&self) -> ApduView {
        ApduView {
            name: self.name@,
            cla: self.cla,
            ins: self.ins,
            p1: self.p1,
            p2: self.p2,
            lc: self.lc,
            data: match self.data {
                Some(d) => Some(d@),
                None => None,
            },
            le: self.le,
        }
    }
}

impl APDU {
    /// A command made of the given fields, exactly.
    pub fn new(
        name: &'static str,
        cla: u8,
        ins: u8,
        p1: u8,
        p2: u8,
        lc: Option<u8>,
        data: Option<Vec<u8>>,
        le: Option<u8>,
    ) -> (r: APDU)
        ensures
            r@ == (ApduView {
                name: name@,
                cla,
                ins,
                p1,
                p2,
                lc,
                data: match data {
                    Some(d) => Some(d@),
                    None => None,
                },
                le,
            }),
    {
        APDU { name, cla, ins, p1, p2, lc, data, le }
    }

    /// A case-1 command: header only.
    pub fn new1(name: &'static str, cla: u8, ins: u8, p1: u8, p2: u8) -> (r: APDU)
        ensures
            r@ == (ApduView { name: name@, cla, ins, p1, p2, lc: None, data: None, le: None }),
            r@.wf(),
    {
        APDU::new(name, cla, ins, p1, p2, None, None, None)
    }

    /// A case-2 command: header and an Lc byte, no data.
    pub fn new2(name: &'static str, cla: u8, ins: u8, p1: u8, p2: u8, lc: u8) -> (r: APDU)
        ensures
            r@ == (ApduView {
                name: name@,
                cla,
                ins,
                p1,
                p2,
                lc: Some(lc),
                data: None,
                le: None,
            }),
            r@.wf(),
    {
        APDU::new(name, cla, ins, p1, p2, Some(lc), None, None)
    }

    /// A case-3 command: header, Lc and the data it announces.
    pub fn new3(name: &'static str, cla: u8, ins: u8, p1: u8, p2: u8, lc: u8, data: Vec<u8>) -> (r:
        APDU)
        ensures
            r@ == (ApduView {
                name: name@,
                cla,
                ins,
                p1,
                p2,
                lc: Some(lc),
                data: Some(data@),
                le: None,
            }),
            data@.len() <= 255 && lc == data@.len() ==> r@.wf(),
    {
        APDU::new(name, cla, ins, p1, p2, Some(lc), Some(data), None)
    }

    /// A case-4 command: header, Lc, data and an expected-length byte.
    pub fn new4(
        name: &'static str,
        cla: u8,
        ins: u8,
        p1: u8,
        p2: u8,
        lc: u8,
        data: Vec<u8>,
        le: u8,
    ) -> (r: APDU)
        ensures
            r@ == (ApduView {
                name: name@,
                cla,
                ins,
                p1,
                p2,
                lc: Some(lc),
                data: Some(data@),
                le: Some(le),
            }),
            data@.len() <= 255 && lc == data@.len() ==> r@.wf(),
    {
        APDU::new(name, cla, ins, p1, p2, Some(lc), Some(data), Some(le))
    }

    /// The bytes of the command as sent on the wire.
    pub fn to_array(&self) -> (r: Vec<u8>)
        ensures
            r@ == self@.wire(),
    {
        let mut out: Vec<u8> = Vec::new();
        out.push(self.cla);
        out.push(self.ins);
        out.push(self.p1);
        out.push(self.p2);
        match &self.lc {
            Some(l) => out.push(*l),
            None => (),
        }
        match &self.data {
            Some(d) => out.extend_from_slice(d.as_slice()),
            None => (),
        }
        match &self.le {
            Some(l) => out.push(*l),
            None => (),
        }
        proof {
            assert(out@ =~= self@.wire());
        }
        out
    }

    /// The same header with Lc replaced by `length`, and any data or
    /// expected-length field dropped: the command to resend once the card
    /// has revealed the true expected length.
    pub fn with_length(&self, length: u8) -> (r: APDU)
        ensures
            r@ == (ApduView {
                name: self@.name,
                cla: self@.cla,
                ins: self@.ins,
                p1: self@.p1,
                p2: self@.p2,
                lc: Some(length),
                data: None,
                le: None,
            }),
            r@.wf(),
    {
        APDU::new2(self.name, self.cla, self.ins, self.p1, self.p2, length)
    }
}

/// The kind of cryptogram requested from the card.
#[derive(Clone, Copy, Debug, PartialEq, Eq, Structural)]
pub enum CryptogramType {
    AAC,
    ARQC,
    TC,
}

impl CryptogramType {
    /// The reference-control byte naming this cryptogram type, used as P1 of
    /// the cryptogram-request command.
    pub open spec fn spec_reference_control(self) -> u8 {
        match self {
            CryptogramType::AAC => 0x00,
            CryptogramType::ARQC => 0x80,
            CryptogramType::TC => 0x40,
        }
    }

    /// The reference-control byte naming this cryptogram type.
    pub fn to_reference_control(&self) -> (r: u8)
        ensures
            r == self.spec_reference_control(),
    {
        match self {
            CryptogramType::AAC => 0x00,
            CryptogramType::ARQC => 0x80,
            CryptogramType::TC => 0x40,
        }
    }

    /// The cryptogram type written `AAC`, `ARQC` or `TC`.
    pub fn from_str(s: &str) -> (r: CryptogramType)
        requires
            s@ == "AAC"@ || s@ == "ARQC"@ || s@ == "TC"@,
        ensures
            s@ == "AAC"@ ==> r == CryptogramType::AAC,
            s@ == "ARQC"@ ==> r == CryptogramType::ARQC,
            s@ == "TC"@ ==> r == CryptogramType::TC,
    {
        proof {
            reveal_strlit("AAC");
            reveal_strlit("ARQC");
            reveal_strlit("TC");
        }
        let n = s.unicode_len();
        if n == 3 {
            CryptogramType::AAC
        } else if n == 4 {
            CryptogramType::ARQC
        } else {
            CryptogramType::TC
        }
    }
}

/// SELECT: pick the application named by `aid`.
pub fn select(aid: Vec<u8>) -> (r: APDU)
    requires
        aid@.len() <= 255,
    ensures
        r@ == (ApduView {
            name: "SELECT"@,
            cla: 0x00,
            ins: 0xA4,
            p1: 0x04,
            p2: 0x00,
            lc: Some(aid@.len() as u8),
            data: Some(aid@),
            le: None,
        }),
        r@.wf(),
{
    let length = aid.len() as u8;
    APDU::new("SELECT", 0x00, 0xA4, 0x04, 0x00, Some(length), Some(aid), None)
}

/// GET RESPONSE: retrieve `length` bytes held back by the card; the length
/// rides in the expected-length byte, and the command carries no data.
pub fn get_response(length: u8) -> (r: APDU)
    ensures
        r@ == (ApduView {
            name: "GET RESPONSE"@,
            cla: 0x00,
            ins: 0xC0,
            p1: 0x00,
            p2: 0x00,
            lc: None,
            data: None,
            le: Some(length),
        }),
        r@.wf(),
{
    APDU::new("GET RESPONSE", 0x00, 0xC0, 0x00, 0x00, None, None, Some(length))
}

/// GET DATA: read the value of `tag`, named by its two bytes in P1/P2.
pub fn get_data(tag: u16) -> (r: APDU)
    ensures
        r@ == (ApduView {
            name: "GET DATA"@,
            cla: 0x80,
            ins: 0xCA,
            p1: tag.spec_msb(),
            p2: tag.spec_lsb(),
            lc: None,
            data: None,
            le: None,
        }),
        r@.wf(),
{
    APDU::new("GET DATA", 0x80, 0xCA, tag.msb(), tag.lsb(), None, None, None)
}

/// PUT DATA: write `data` to `tag`; the class byte says whether the
/// operation is secured.
pub fn put_data(secure: bool, tag: u16, data: Vec<u8>) -> (r: APDU)
    requires
        data@.len() <= 255,
    ensures
        r@ == (ApduView {
            name: "PUT DATA"@,
            cla: if secure {
                0x84
            } else {
                0x80
            },
            ins: 0xDA,
            p1: tag.spec_msb(),
            p2: tag.spec_lsb(),
            lc: Some(data@.len() as u8),
            data: Some(data@),
            le: None,
        }),
        r@.wf(),
{
    let class: u8 = if secure {
        0x84
    } else {
        0x80
    };
    let length = data.len() as u8;
    APDU::new("PUT DATA", class, 0xDA, tag.msb(), tag.lsb(), Some(length), Some(data), None)
}

/// GET PROCESSING OPTIONS: start a transaction; fixed two-byte body.
pub fn get_processing_options() -> (r: APDU)
    ensures
        r@ == (ApduView {
            name: "GET PROCESSING OPTIONS"@,
            cla: 0x80,
            ins: 0xA8,
            p1: 0x00,
            p2: 0x00,
            lc: Some(0x02),
            data: Some(seq![0x83u8, 0x00u8]),
            le: None,
        }),
        r@.wf(),
{
    let data: Vec<u8> = vec![0x83, 0x00];
    proof {
        assert(data@ =~= seq![0x83u8, 0x00u8]);
    }
    APDU::new("GET PROCESSING OPTIONS", 0x80, 0xA8, 0x00, 0x00, Some(0x02), Some(data), None)
}

/// READ RECORD: read record `record_id` of the file named by `sfi`; the
/// length is negotiated by a wrong-length retry.
pub fn read_record(record_id: u8, sfi: u8) -> (r: APDU)
    ensures
        r@ == (ApduView {
            name: "READ RECORD"@,
            cla: 0x00,
            ins: 0xB2,
            p1: record_id,
            p2: sfi,
            lc: None,
            data: None,
            le: None,
        }),
        r@.wf(),
{
    APDU::new("READ RECORD", 0x00, 0xB2, record_id, sfi, None, None, None)
}

/// EXTERNAL AUTHENTICATE: present issuer authentication data.
pub fn external_authenticate(issuer_authentication_data: Vec<u8>) -> (r: APDU)
    requires
        issuer_authentication_data@.len() <= 255,
    ensures
        r@ == (ApduView {
            name: "EXTERNAL AUTHENTICATE"@,
            cla: 0x00,
            ins: 0x82,
            p1: 0x00,
            p2: 0x00,
            lc: Some(issuer_authentication_data@.len() as u8),
            data: Some(issuer_authentication_data@),
            le: None,
        }),
        r@.wf(),
{
    let length = issuer_authentication_data.len() as u8;
    APDU::new(
        "EXTERNAL AUTHENTICATE",
        0x00,
        0x82,
        0x00,
        0x00,
        Some(length),
        Some(issuer_authentication_data),
        None,
    )
}

/// GENERATE AC: request a cryptogram of the given type over the card-risk
/// data `cdol_data`; P1 carries the type's reference-control byte.
pub fn generate_ac(cryptogram_type: CryptogramType, cdol_data: Vec<u8>) -> (r: APDU)
    requires
        cdol_data@.len() <= 255,
    ensures
        r@ == (ApduView {
            name: "GENERATE AC"@,
            cla: 0x80,
            ins: 0xAE,
            p1: cryptogram_type.spec_reference_control(),
            p2: 0x00,
            lc: Some(cdol_data@.len() as u8),
            data: Some(cdol_data@),
            le: None,
        }),
        r@.wf(),
{
    let length = cdol_data.len() as u8;
    let reference_control = cryptogram_type.to_reference_control();
    APDU::new("GENERATE AC", 0x80, 0xAE, reference_control, 0x00, Some(length), Some(cdol_data), None)
}

/// PIN CHANGE/UNBLOCK: reset the PIN try counter, authenticated by `mac`.
pub fn reset_pin_try_counter(mac: Vec<u8>) -> (r: APDU)
    requires
        mac@.len() <= 255,
    ensures
        r@ == (ApduView {
            name: "PIN CHANGE/UNBLOCK"@,
            cla: 0x84,
            ins: 0x24,
            p1: 0x00,
            p2: 0x00,
            lc: Some(mac@.len() as u8),
            data: Some(mac@),
            le: None,
        }),
        r@.wf(),
{
    let length = mac.len() as u8;
    APDU::new("PIN CHANGE/UNBLOCK", 0x84, 0x24, 0x00, 0x00, Some(length), Some(mac), None)
}

/// OFFLINE CHANGE PIN: replace the PIN with `new_pin`.
pub fn offline_change_pin(new_pin: Vec<u8>) -> (r: APDU)
    requires
        new_pin@.len() <= 255,
    ensures
        r@ == (ApduView {
            name: "OFFLINE CHANGE PIN"@,
            cla: 0x80,
            ins: 0xD2,
            p1: 0x00,
            p2: 0x88,
            lc: Some(new_pin@.len() as u8),
            data: Some(new_pin@),
            le: None,
        }),
        r@.wf(),
{
    let length = new_pin.len() as u8;
    APDU::new("OFFLINE CHANGE PIN", 0x80, 0xD2, 0x00, 0x88, Some(length), Some(new_pin), None)
}

/// VERIFY: check the plaintext PIN.
pub fn verify(pin: Vec<u8>) -> (r: APDU)
    requires
        pin@.len() <= 255,
    ensures
        r@ == (ApduView {
            name: "VERIFY"@,
            cla: 0x00,
            ins: 0x20,
            p1: 0x00,
            p2: 0x80,
            lc: Some(pin@.len() as u8),
            data: Some(pin@),
            le: None,
        }),
        r@.wf(),
{
    let length = pin.len() as u8;
    APDU::new("VERIFY", 0x00, 0x20, 0x00, 0x80, Some(length), Some(pin), None)
}

/// APPLICATION BLOCK: block the selected application, authenticated by the
/// eight-byte `mac`.
pub fn application_block(mac: Vec<u8>) -> (r: APDU)
    requires
        mac@.len() == 8,
    ensures
        r@ == (ApduView {
            name: "APPLICATION BLOCK"@,
            cla: 0x84,
            ins: 0x1E,
            p1: 0x00,
            p2: 0x00,
            lc: Some(0x08),
            data: Some(mac@),
            le: None,
        }),
        r@.wf(),
{
    APDU::new("APPLICATION BLOCK", 0x84, 0x1E, 0x00, 0x00, Some(0x08), Some(mac), None)
}

/// APPLICATION UNBLOCK: unblock the selected application, authenticated by
/// the eight-byte `mac`.
pub fn application_unblock(mac: Vec<u8>) -> (r: APDU)
    requires
        mac@.len() == 8,
    ensures
        r@ == (ApduView {
            name: "APPLICATION UNBLOCK"@,
            cla: 0x84,
            ins: 0x18,
            p1: 0x00,
            p2: 0x00,
            lc: Some(0x08),
            data: Some(mac@),
            le: None,
        }),
        r@.wf(),
{
    APDU::new("APPLICATION UNBLOCK", 0x84, 0x18, 0x00, 0x00, Some(0x08), Some(mac), None)
}

} // verus!
