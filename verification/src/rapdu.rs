//! Status decoder and response envelope: the two trailing status-word bytes
//! of a reply are mapped to a semantic outcome, and the payload is kept raw
//! beside its decoded TLV records.

use vstd::prelude::*;
use crate::tlv::{TLV, TlvView, spec_decode};
use crate::utils::Extendable;

verus! {

/// The semantic outcome named by the two status-word bytes.
#[derive(Clone, Copy, Debug, PartialEq, Eq, Structural)]
pub enum Status {
    /// The card holds `length` more bytes, to retrieve with GET RESPONSE.
    ResponseAvailable { length: u8 },
    /// The command must be resent with its length fields set to `length`.
    WrongLengthLe { length: u8 },
    WrongLength,
    ReferencedDataNotFound,
    ConditionsOfUseNotSatisfied,
    SecurityConditionNotSatisfied,
    InstructionCodeNotSupported,
    SelectedFileInvalidated,
    FileNotFound,
    Success,
    Unknown,
}

/// The outcome named by a combined 16-bit status word with no associated
/// length: a fixed table, and `Unknown` for every word outside it.
pub open spec fn spec_status_word(sw: int) -> Status {
    if sw == 0x6283 {
        Status::SelectedFileInvalidated
    } else if sw == 0x6700 {
        Status::WrongLength
    } else if sw == 0x6982 {
        Status::SecurityConditionNotSatisfied
    } else if sw == 0x6985 {
        Status::ConditionsOfUseNotSatisfied
    } else if sw == 0x6A82 {
        Status::FileNotFound
    } else if sw == 0x6A88 {
        Status::ReferencedDataNotFound
    } else if sw == 0x6D00 {
        Status::InstructionCodeNotSupported
    } else if sw == 0x9000 {
        Status::Success
    } else {
        Status::Unknown
    }
}

/// The outcome named by the status-word bytes `sw1, sw2`: `0x61` and `0x6C`
/// carry `sw2` as an associated length; every other pair is looked up as one
/// 16-bit word.
pub open spec fn spec_status(sw1: u8, sw2: u8) -> Status {
    if sw1 == 0x61 {
        Status::ResponseAvailable { length: sw2 }
    } else if sw1 == 0x6C {
        Status::WrongLengthLe { length: sw2 }
    } else {
        spec_status_word((sw1 as int) * 256 + (sw2 as int))
    }
}

impl Status {
    /// Decode the two status-word bytes.
    pub fn new(sw1: u8, sw2: u8) -> (r: Status)
        ensures
            r == spec_status(sw1, sw2),
            sw1 == 0x61 ==> r == (Status::ResponseAvailable { length: sw2 }),
            sw1 == 0x6C ==> r == (Status::WrongLengthLe { length: sw2 }),
    {
        match sw1 {
            0x61 => Status::ResponseAvailable { length: sw2 },
            0x6C => Status::WrongLengthLe { length: sw2 },
            _ => Status::check_sw2(sw1.extend(sw2)),
        }
    }

    /// Look a combined status word up in the fixed table.
    fn check_sw2(sw: u16) -> (r: Status)
        ensures
            r == spec_status_word(sw as int),
    {
        match sw {
            0x6283 => Status::SelectedFileInvalidated,
            0x6700 => Status::WrongLength,
            0x6982 => Status::SecurityConditionNotSatisfied,
            0x6985 => Status::ConditionsOfUseNotSatisfied,
            0x6A82 => Status::FileNotFound,
            0x6A88 => Status::ReferencedDataNotFound,
            0x6D00 => Status::InstructionCodeNotSupported,
            0x9000 => Status::Success,
            _ => Status::Unknown,
        }
    }
}

/// A reply from the card: its decoded status, the raw payload bytes, and
/// the TLV records decoded from them. The raw bytes are authoritative; the
/// records are empty where decoding failed.
#[derive(Debug)]
pub struct RAPDU {
    pub status: Status,
    pub raw: Vec<u8>,
    pub data: Vec<TLV>,
}

impl RAPDU {
    /// Couple a decoded status with its payload bytes; the payload's TLV
    /// records are decoded here, and a decode failure leaves them empty
    /// rather than failing the reply.
    pub fn new(status: Status, data: &[u8]) -> (r: RAPDU)
        ensures
            r.status == status,
            r.raw@ == data@,
            match spec_decode(data@) {
                Ok(records) => r.data@.map_values(|t: TLV| t@) == records,
                Err(_) => r.data@ == Seq::<TLV>::empty(),
            },
    {
        let raw = vstd::slice::slice_to_vec(data);
        match TLV::decode(vstd::slice::slice_to_vec(data)) {
            Ok(records) => RAPDU { status, raw, data: records },
            Err(_) => {
                let empty: Vec<TLV> = Vec::new();
                proof {
                    assert(empty@ =~= Seq::<TLV>::empty());
                }
                RAPDU { status, raw, data: empty }
            },
        }
    }

    /// Split a raw reply at its tail: the last two bytes are the status
    /// word, the bytes before them the payload.
    pub fn from_bytes(response: &[u8]) -> (r: RAPDU)
        requires
            response@.len() >= 2,
        ensures
            r.status == spec_status(
                response@[response@.len() - 2],
                response@[response@.len() - 1],
            ),
            r.raw@ == response@.subrange(0, response@.len() - 2),
            match spec_decode(r.raw@) {
                Ok(records) => r.data@.map_values(|t: TLV| t@) == records,
                Err(_) => r.data@ == Seq::<TLV>::empty(),
            },
    {
        let n = response.len();
        let sw1 = *vstd::slice::slice_index_get(response, n - 2);
        let sw2 = *vstd::slice::slice_index_get(response, n - 1);
        let payload = vstd::slice::slice_subrange(response, 0, n - 2);
        RAPDU::new(Status::new(sw1, sw2), payload)
    }
}

} // verus!
