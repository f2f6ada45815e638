//! Byte utilities: combining and splitting 16-bit values, and reading
//! hexadecimal text into bytes.

use vstd::prelude::*;
use vstd::string::StringSliceAdditionalSpecFns;

verus! {

/// The byte is an ASCII hexadecimal digit: `0`-`9`, `A`-`F` or `a`-`f`.
pub open spec fn is_hex_digit(b: u8) -> bool {
    (0x30 <= b <= 0x39) || (0x41 <= b <= 0x46) || (0x61 <= b <= 0x66)
}

/// The numeric value of an ASCII hexadecimal digit.
pub open spec fn hex_digit_value(b: u8) -> u8
    recommends
        is_hex_digit(b),
{
    if 0x30 <= b <= 0x39 {
        (b - 0x30) as u8
    } else if 0x41 <= b <= 0x46 {
        ((b - 0x41) + 10) as u8
    } else {
        ((b - 0x61) + 10) as u8
    }
}

/// Every byte of the sequence is an ASCII hexadecimal digit.
pub open spec fn all_hex_digits(s: Seq<u8>) -> bool {
    forall|i: int| 0 <= i < s.len() ==> is_hex_digit(#[trigger] s[i])
}

/// The byte written by two hexadecimal digits, high digit first.
pub open spec fn hex_pair(hi: u8, lo: u8) -> u8
    recommends
        is_hex_digit(hi),
        is_hex_digit(lo),
{
    (hex_digit_value(hi) * 16 + hex_digit_value(lo)) as u8
}

/// The bytes written by a sequence of hexadecimal digits, two digits per byte.
pub open spec fn hex_bytes(s: Seq<u8>) -> Seq<u8>
    recommends
        s.len() % 2 == 0,
        all_hex_digits(s),
    decreases s.len(),
{
    if s.len() < 2 {
        Seq::empty()
    } else {
        seq![hex_pair(s[0], s[1])] + hex_bytes(s.skip(2))
    }
}

/// Why a hexadecimal string could not be decoded.
#[derive(Clone, Copy, Debug, PartialEq, Eq, Structural)]
pub enum HexError {
    /// The string holds an odd number of digits.
    OddLength,
    /// A byte of the string is not a hexadecimal digit.
    InvalidChar,
    /// The decoded bytes would not fit the caller's buffer; never returned
    /// when decoding into a growable vector.
    BadLength,
}

/// Relies on hex::decode: an even-length string of hexadecimal digits decodes
/// to one byte per digit pair, high digit first; an odd-length string is
/// rejected, and otherwise a non-digit byte is rejected. Decoding into a
/// vector never reports a length mismatch.
#[verifier::external_body]
fn hex_decode(s: &str) -> (r: Result<Vec<u8>, HexError>)
    ensures
        match r {
            Ok(v) => s.spec_bytes().len() % 2 == 0 && all_hex_digits(s.spec_bytes()) && v@
                == hex_bytes(s.spec_bytes()),
            Err(HexError::OddLength) => s.spec_bytes().len() % 2 != 0,
            Err(HexError::InvalidChar) => s.spec_bytes().len() % 2 == 0 && !all_hex_digits(
                s.spec_bytes(),
            ),
            Err(HexError::BadLength) => false,
        },
{
    match hex::decode(s) {
        Ok(v) => Ok(v),
        Err(hex::FromHexError::OddLength) => Err(HexError::OddLength),
        Err(hex::FromHexError::InvalidHexCharacter { .. }) => Err(HexError::InvalidChar),
        Err(hex::FromHexError::InvalidStringLength) => Err(HexError::BadLength),
    }
}

/// Combining a high byte with a low byte into a 16-bit value.
pub trait Extendable {
    /// The 16-bit value with `self` as high byte and `value` as low byte.
    spec fn spec_extend(&self, value: u8) -> u16;

    /// Combine `self` (high byte) with `value` (low byte).
    fn extend(&self, value: u8) -> (r: u16)
        ensures
            r == self.spec_extend(value),
    ;
}

impl Extendable for u8 {
    open spec fn spec_extend(&self, value: u8) -> u16 {
        ((*self as int) * 256 + (value as int)) as u16
    }

    fn extend(&self, value: u8) -> (r: u16) {
        let r = ((*self as u16) << 8) | (value as u16);
        proof {
            let hi = *self;
            let lo = value;
            assert((((hi as u16) << 8) | (lo as u16)) == (hi as u16) * 256 + (lo as u16))
                by (bit_vector);
        }
        r
    }
}

/// Splitting a 16-bit value into its high and low bytes.
pub trait Splitable {
    /// The high byte of `self`.
    spec fn spec_msb(&self) -> u8;

    /// The low byte of `self`.
    spec fn spec_lsb(&self) -> u8;

    /// The high byte of `self`.
    fn msb(&self) -> (r: u8)
        ensures
            r == self.spec_msb(),
    ;

    /// The low byte of `self`.
    fn lsb(&self) -> (r: u8)
        ensures
            r == self.spec_lsb(),
    ;
}

impl Splitable for u16 {
    open spec fn spec_msb(&self) -> u8 {
        ((*self as int) / 256) as u8
    }

    open spec fn spec_lsb(&self) -> u8 {
        ((*self as int) % 256) as u8
    }

    fn msb(&self) -> (r: u8) {
        let r = ((*self & 0xFF00) >> 8) as u8;
        proof {
            let v = *self;
            assert((((v & 0xFF00) >> 8) as u8) == (v / 256) as u8) by (bit_vector);
        }
        r
    }

    fn lsb(&self) -> (r: u8) {
        let r = (*self & 0x00FF) as u8;
        proof {
            let v = *self;
            assert(((v & 0x00FF) as u8) == (v % 256) as u8) by (bit_vector);
        }
        r
    }
}

/// Reading hexadecimal text as a number or a byte vector.
pub trait Hexadecimal {
    /// The bytes of the hexadecimal text.
    spec fn hex_input(&self) -> Seq<u8>;

    /// The byte written by exactly two hexadecimal digits.
    fn to_u8(&self) -> (r: u8)
        requires
            self.hex_input().len() == 2,
            all_hex_digits(self.hex_input()),
        ensures
            r == hex_pair(self.hex_input()[0], self.hex_input()[1]),
    ;

    /// The 16-bit value written by exactly four hexadecimal digits, high
    /// byte first.
    fn to_u16(&self) -> (r: u16)
        requires
            self.hex_input().len() == 4,
            all_hex_digits(self.hex_input()),
        ensures
            r == (hex_pair(self.hex_input()[0], self.hex_input()[1]) as int) * 256 + (hex_pair(
                self.hex_input()[2],
                self.hex_input()[3],
            ) as int),
    ;

    /// The bytes written by an even number of hexadecimal digits.
    fn to_vec_u8(&self) -> (r: Vec<u8>)
        requires
            self.hex_input().len() % 2 == 0,
            all_hex_digits(self.hex_input()),
        ensures
            r@ == hex_bytes(self.hex_input()),
    ;
}

impl Hexadecimal for &str {
    open spec fn hex_input(&self) -> Seq<u8> {
        self.spec_bytes()
    }

    fn to_u8(&self) -> (r: u8) {
        str_to_u8(self)
    }

    fn to_u16(&self) -> (r: u16) {
        str_to_u16(self)
    }

    fn to_vec_u8(&self) -> (r: Vec<u8>) {
        str_to_vec_u8(self)
    }
}

/// Unfolds `hex_bytes` on a sequence of exactly two digits.
proof fn lemma_hex_bytes_two(s: Seq<u8>)
    requires
        s.len() == 2,
    ensures
        hex_bytes(s) == seq![hex_pair(s[0], s[1])],
{
    assert(hex_bytes(s.skip(2)) == Seq::<u8>::empty());
    assert(hex_bytes(s) =~= seq![hex_pair(s[0], s[1])]);
}

/// Unfolds `hex_bytes` on a sequence of exactly four digits.
proof fn lemma_hex_bytes_four(s: Seq<u8>)
    requires
        s.len() == 4,
    ensures
        hex_bytes(s) == seq![hex_pair(s[0], s[1]), hex_pair(s[2], s[3])],
{
    let rest = s.skip(2);
    lemma_hex_bytes_two(rest);
    assert(rest[0] == s[2] && rest[1] == s[3]);
    assert(hex_bytes(s) =~= seq![hex_pair(s[0], s[1]), hex_pair(s[2], s[3])]);
}

/// The byte written by a two-digit hexadecimal string.
pub fn str_to_u8(s: &str) -> (r: u8)
    requires
        s.spec_bytes().len() == 2,
        all_hex_digits(s.spec_bytes()),
    ensures
        r == hex_pair(s.spec_bytes()[0], s.spec_bytes()[1]),
{
    let decoded = hex_decode(s);
    match decoded {
        Ok(v) => {
            proof {
                lemma_hex_bytes_two(s.spec_bytes());
            }
            v[0]
        },
        Err(_) => vstd::pervasive::unreached(),
    }
}

/// The 16-bit value written by a four-digit hexadecimal string, high byte
/// first.
pub fn str_to_u16(s: &str) -> (r: u16)
    requires
        s.spec_bytes().len() == 4,
        all_hex_digits(s.spec_bytes()),
    ensures
        r == (hex_pair(s.spec_bytes()[0], s.spec_bytes()[1]) as int) * 256 + (hex_pair(
            s.spec_bytes()[2],
            s.spec_bytes()[3],
        ) as int),
{
    let decoded = hex_decode(s);
    match decoded {
        Ok(v) => {
            proof {
                lemma_hex_bytes_four(s.spec_bytes());
            }
            v[0].extend(v[1])
        },
        Err(_) => vstd::pervasive::unreached(),
    }
}

/// The bytes written by an even-length hexadecimal string.
pub fn str_to_vec_u8(s: &str) -> (r: Vec<u8>)
    requires
        s.spec_bytes().len() % 2 == 0,
        all_hex_digits(s.spec_bytes()),
    ensures
        r@ == hex_bytes(s.spec_bytes()),
{
    let decoded = hex_decode(s);
    match decoded {
        Ok(v) => v,
        Err(_) => vstd::pervasive::unreached(),
    }
}

} // verus!
