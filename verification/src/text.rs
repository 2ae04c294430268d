//! Text fields: a PMX file declares in its globals block whether strings are
//! UTF-16LE or UTF-8, and every length-prefixed text block is decoded through
//! that declaration.

use vstd::prelude::*;

use crate::error::PmxError;
use crate::utils::le16;

verus! {

/// The text encoding declared by slot 0 of the globals block.
#[derive(Debug, Copy, Clone, Eq, PartialEq, Hash, Structural)]
pub enum TextEncodingType {
    UTF16LE,
    UTF8,
}

/// What `str::from_utf8` decides for a byte sequence: `Some` of the decoded
/// characters exactly when the bytes are valid UTF-8. The relation is a pure
/// function of the bytes; it is named rather than spelled out.
pub uninterp spec fn utf8_decode(bytes: Seq<u8>) -> Option<Seq<char>>;

/// What `String::from_utf16` decides for a code-unit sequence: `Some` of the
/// decoded characters exactly when the units are well-formed UTF-16.
pub uninterp spec fn utf16_decode(units: Seq<u16>) -> Option<Seq<char>>;

/// The little-endian 16-bit code units held by a byte sequence of even length.
pub open spec fn utf16_units(bytes: Seq<u8>) -> Seq<u16> {
    Seq::new((bytes.len() / 2) as nat, |i: int| le16(bytes, 2 * i) as u16)
}

/// The text carried by a raw byte block under an encoding, or
/// `TextDecodeError` when the bytes are not valid in that encoding
/// (for UTF-16LE an odd byte length is already invalid).
pub open spec fn spec_decode_text(enc: TextEncodingType, bytes: Seq<u8>) -> Result<
    Seq<char>,
    PmxError,
> {
    match enc {
        TextEncodingType::UTF8 => match utf8_decode(bytes) {
            Some(s) => Ok(s),
            None => Err(PmxError::TextDecodeError),
        },
        TextEncodingType::UTF16LE => if bytes.len() % 2 != 0 {
            Err(PmxError::TextDecodeError)
        } else {
            match utf16_decode(utf16_units(bytes)) {
                Some(s) => Ok(s),
                None => Err(PmxError::TextDecodeError),
            }
        },
    }
}

/// Relies on `core::str::from_utf8` (and `to_string` on the borrowed result):
/// whether bytes are valid UTF-8, and the decoded text, depend on the bytes
/// alone.
#[verifier::external_body]
fn string_from_utf8(bytes: &[u8]) -> (r: Option<String>)
    ensures
        match utf8_decode(bytes@) {
            Some(s) => r matches Some(t) && t@ == s,
            None => r is None,
        },
{
    match core::str::from_utf8(bytes) {
        Ok(s) => Some(s.to_string()),
        Err(_) => None,
    }
}

/// Relies on `String::from_utf16`: whether code units are well-formed UTF-16,
/// and the decoded text, depend on the units alone.
#[verifier::external_body]
fn string_from_utf16(units: &[u16]) -> (r: Option<String>)
    ensures
        match utf16_decode(units@) {
            Some(s) => r matches Some(t) && t@ == s,
            None => r is None,
        },
{
    match String::from_utf16(units) {
        Ok(s) => Some(s),
        Err(_) => None,
    }
}

impl TextEncodingType {
    /// Decode the bytes of a raw length-prefixed text block into a string
    /// under this encoding.
    pub fn parse_text(&self, raw: &(i32, Vec<u8>)) -> (r: Result<String, PmxError>)
        ensures
            match spec_decode_text(*self, raw.1@) {
                Ok(s) => r matches Ok(t) && t@ == s,
                Err(e) => r matches Err(a) && a == e,
            },
    {
        match *self {
            TextEncodingType::UTF8 => match string_from_utf8(raw.1.as_slice()) {
                Some(s) => Ok(s),
                None => Err(PmxError::TextDecodeError),
            },
            TextEncodingType::UTF16LE => {
                let n = raw.1.len();
                if n % 2 != 0 {
                    return Err(PmxError::TextDecodeError);
                }
                let mut units: Vec<u16> = Vec::new();
                let mut i: usize = 0;
                while i + 1 < n
                    invariant
                        n == raw.1@.len(),
                        n % 2 == 0,
                        i % 2 == 0,
                        i <= n,
                        units@.len() == i / 2,
                        forall|j: int|
                            0 <= j < units@.len() ==> units@[j] == le16(raw.1@, 2 * j) as u16,
                    decreases n - i,
                {
                    let b0 = raw.1[i] as u16;
                    let b1 = raw.1[i + 1] as u16;
                    units.push(b0 + 0x100 * b1);
                    i = i + 2;
                }
                assert(units@ =~= utf16_units(raw.1@));
                match string_from_utf16(units.as_slice()) {
                    Some(s) => Ok(s),
                    None => Err(PmxError::TextDecodeError),
                }
            },
        }
    }

    /// The encoding selected by raw globals value `value`: 0 is UTF-16LE and
    /// 1 is UTF-8; anything else is `InvalidEnumValue`.
    pub open spec fn spec_from_raw(value: i8) -> Result<TextEncodingType, PmxError> {
        if value == 0 {
            Ok(TextEncodingType::UTF16LE)
        } else if value == 1 {
            Ok(TextEncodingType::UTF8)
        } else {
            Err(PmxError::InvalidEnumValue)
        }
    }

    /// Select the encoding named by a raw globals byte.
    pub fn from_raw(value: i8) -> (r: Result<TextEncodingType, PmxError>)
        ensures
            r == TextEncodingType::spec_from_raw(value),
    {
        match value {
            0 => Ok(TextEncodingType::UTF16LE),
            1 => Ok(TextEncodingType::UTF8),
            _ => Err(PmxError::InvalidEnumValue),
        }
    }
}

} // verus!
