//! Fixed-width identifiers: transaction identifiers and the 256-bit values
//! that name shielded notes.

use vstd::prelude::*;
use vstd::pervasive::unreached;
use crate::hex_codec::{hex_decode, hex_decoding, hex_encode, hex_encoding, is_hex, lemma_hex_round_trip};

verus! {

/// Whether two 32-byte strings hold the same bytes.
pub fn bytes32_eq(a: &[u8; 32], b: &[u8; 32]) -> (same: bool)
    ensures
        same == (*a == *b),
{
    let mut i: usize = 0;
    while i < 32
        invariant
            i <= 32,
            forall|k: int| 0 <= k < i ==> a[k] == b[k],
        decreases 32 - i,
    {
        if a[i] != b[i] {
            return false;
        }
        i += 1;
    }
    assert(*a =~= *b);
    true
}

/// The identifier of a transaction: 32 bytes, in the order the wallet holds
/// them.
#[derive(Clone, Copy, Debug, Hash)]
pub struct TxId {
    pub bytes: [u8; 32],
}

impl TxId {
    pub fn from_bytes(bytes: [u8; 32]) -> (id: TxId)
        ensures
            id.bytes == bytes,
    {
        TxId { bytes }
    }

    pub fn to_bytes(&self) -> (bytes: [u8; 32])
        ensures
            bytes == self.bytes,
    {
        self.bytes
    }
}

impl PartialEq for TxId {
    fn eq(&self, other: &TxId) -> (same: bool) {
        bytes32_eq(&self.bytes, &other.bytes)
    }
}

impl vstd::std_specs::cmp::PartialEqSpecImpl for TxId {
    open spec fn obeys_eq_spec() -> bool {
        true
    }

    open spec fn eq_spec(&self, other: &TxId) -> bool {
        *self == *other
    }
}

impl Eq for TxId {}

/// Why a text is not the hexadecimal form of a 256-bit value.
#[derive(Clone, Copy, Debug, PartialEq, Eq)]
pub enum ParseU256Error {
    /// The text is not an even number of hexadecimal digits.
    NotHex,
    /// The text is hexadecimal but stands for this many bytes, not 32.
    WrongLength { bytes: usize },
}

/// A 256-bit value, held as 32 bytes: a nullifier or a note commitment.
#[derive(Clone, Copy, Debug, Hash)]
pub struct U256 {
    pub bytes: [u8; 32],
}

impl U256 {
    pub fn from_bytes(bytes: [u8; 32]) -> (value: U256)
        ensures
            value.bytes == bytes,
    {
        U256 { bytes }
    }

    pub fn to_bytes(&self) -> (bytes: [u8; 32])
        ensures
            bytes == self.bytes,
    {
        self.bytes
    }

    /// What `from_hex` yields for `text`.
    pub open spec fn parse(text: Seq<char>) -> Result<Seq<u8>, ParseU256Error> {
        if !is_hex(text) {
            Err(ParseU256Error::NotHex)
        } else if text.len() != 64 {
            Err(ParseU256Error::WrongLength { bytes: (text.len() / 2) as usize })
        } else {
            Ok(hex_decoding(text))
        }
    }

    /// The value as 64 lowercase hexadecimal digits, first byte first.
    pub fn to_hex(&self) -> (text: String)
        ensures
            text@ == hex_encoding(self.bytes@),
    {
        hex_encode(self.bytes.as_slice())
    }

    /// Reads a value from 64 hexadecimal digits of either case, first byte
    /// first.
    pub fn from_hex(text: &str) -> (parsed: Result<U256, ParseU256Error>)
        ensures
            match parsed {
                Ok(value) => Self::parse(text@) == Ok::<Seq<u8>, ParseU256Error>(value.bytes@),
                Err(e) => Self::parse(text@) == Err::<Seq<u8>, ParseU256Error>(e),
            },
    {
        match hex_decode(text) {
            Err(_) => Err(ParseU256Error::NotHex),
            Ok(decoded) => {
                if decoded.len() != 32 {
                    Err(ParseU256Error::WrongLength { bytes: decoded.len() })
                } else {
                    let mut bytes = [0u8; 32];
                    let mut i: usize = 0;
                    while i < 32
                        invariant
                            i <= 32,
                            decoded@.len() == 32,
                            forall|k: int| 0 <= k < i ==> bytes[k] == decoded@[k],
                        decreases 32 - i,
                    {
                        bytes[i] = decoded[i];
                        i += 1;
                    }
                    assert(bytes@ =~= decoded@);
                    Ok(U256 { bytes })
                }
            },
        }
    }

    /// Carries 32 bytes into a `U256` by way of their hexadecimal text, as
    /// the interchange model takes its identifiers.
    pub fn from_bytes_via_hex(bytes: &[u8; 32]) -> (value: U256)
        ensures
            value.bytes == *bytes,
    {
        let text = hex_encode(bytes.as_slice());
        proof {
            lemma_hex_round_trip(bytes@);
        }
        match U256::from_hex(text.as_str()) {
            Ok(value) => {
                assert(value.bytes =~= *bytes);
                value
            },
            Err(_) => unreached(),
        }
    }
}

impl PartialEq for U256 {
    fn eq(&self, other: &U256) -> (same: bool) {
        bytes32_eq(&self.bytes, &other.bytes)
    }
}

impl vstd::std_specs::cmp::PartialEqSpecImpl for U256 {
    open spec fn obeys_eq_spec() -> bool {
        true
    }

    open spec fn eq_spec(&self, other: &U256) -> bool {
        *self == *other
    }
}

impl Eq for U256 {}

} // verus!
