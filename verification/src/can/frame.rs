//! Data length codes and frames.
use vstd::prelude::*;
use vstd::std_specs::convert::FromSpecImpl;
use vstd::std_specs::convert::TryFromSpecImpl;
use crate::can::msg::MessageId;

verus! {

/// Data length code of a CAN (FD) frame: the number of payload bytes.
#[derive(Clone, Copy, PartialEq, Eq, Structural, PartialOrd, Debug)]
pub enum DataLenghtCode {
    _0,
    _1,
    _2,
    _3,
    _4,
    _5,
    _6,
    _7,
    _8,
    _12,
    _16,
    _20,
    _24,
    _32,
    _48,
    _64,
}

/// Number of payload bytes of a data length code.
pub open spec fn dlc_length(d: DataLenghtCode) -> nat {
    match d {
        DataLenghtCode::_0 => 0,
        DataLenghtCode::_1 => 1,
        DataLenghtCode::_2 => 2,
        DataLenghtCode::_3 => 3,
        DataLenghtCode::_4 => 4,
        DataLenghtCode::_5 => 5,
        DataLenghtCode::_6 => 6,
        DataLenghtCode::_7 => 7,
        DataLenghtCode::_8 => 8,
        DataLenghtCode::_12 => 12,
        DataLenghtCode::_16 => 16,
        DataLenghtCode::_20 => 20,
        DataLenghtCode::_24 => 24,
        DataLenghtCode::_32 => 32,
        DataLenghtCode::_48 => 48,
        DataLenghtCode::_64 => 64,
    }
}

/// The 4-bit code that the message RAM stores for a data length code.
pub open spec fn dlc_code(d: DataLenghtCode) -> u8 {
    match d {
        DataLenghtCode::_0 => 0,
        DataLenghtCode::_1 => 1,
        DataLenghtCode::_2 => 2,
        DataLenghtCode::_3 => 3,
        DataLenghtCode::_4 => 4,
        DataLenghtCode::_5 => 5,
        DataLenghtCode::_6 => 6,
        DataLenghtCode::_7 => 7,
        DataLenghtCode::_8 => 8,
        DataLenghtCode::_12 => 9,
        DataLenghtCode::_16 => 10,
        DataLenghtCode::_20 => 11,
        DataLenghtCode::_24 => 12,
        DataLenghtCode::_32 => 13,
        DataLenghtCode::_48 => 14,
        DataLenghtCode::_64 => 15,
    }
}

/// Whether `n` is a payload length that a CAN FD frame can carry.
pub open spec fn is_valid_length(n: int) -> bool {
    (0 <= n <= 8) || n == 12 || n == 16 || n == 20 || n == 24 || n == 32 || n == 48 || n == 64
}

/// The data length code decoded from a 4-bit code (codes above 15 decode to nothing).
pub open spec fn dlc_from_code(v: u8) -> Option<DataLenghtCode> {
    if v == 0 { Some(DataLenghtCode::_0) }
    else if v == 1 { Some(DataLenghtCode::_1) }
    else if v == 2 { Some(DataLenghtCode::_2) }
    else if v == 3 { Some(DataLenghtCode::_3) }
    else if v == 4 { Some(DataLenghtCode::_4) }
    else if v == 5 { Some(DataLenghtCode::_5) }
    else if v == 6 { Some(DataLenghtCode::_6) }
    else if v == 7 { Some(DataLenghtCode::_7) }
    else if v == 8 { Some(DataLenghtCode::_8) }
    else if v == 9 { Some(DataLenghtCode::_12) }
    else if v == 10 { Some(DataLenghtCode::_16) }
    else if v == 11 { Some(DataLenghtCode::_20) }
    else if v == 12 { Some(DataLenghtCode::_24) }
    else if v == 13 { Some(DataLenghtCode::_32) }
    else if v == 14 { Some(DataLenghtCode::_48) }
    else if v == 15 { Some(DataLenghtCode::_64) }
    else { None }
}

/// The data length code of a payload of `n` bytes, for a valid length `n`.
pub open spec fn dlc_of_length(n: int) -> DataLenghtCode {
    if n <= 0 { DataLenghtCode::_0 }
    else if n == 1 { DataLenghtCode::_1 }
    else if n == 2 { DataLenghtCode::_2 }
    else if n == 3 { DataLenghtCode::_3 }
    else if n == 4 { DataLenghtCode::_4 }
    else if n == 5 { DataLenghtCode::_5 }
    else if n == 6 { DataLenghtCode::_6 }
    else if n == 7 { DataLenghtCode::_7 }
    else if n == 8 { DataLenghtCode::_8 }
    else if n <= 12 { DataLenghtCode::_12 }
    else if n <= 16 { DataLenghtCode::_16 }
    else if n <= 20 { DataLenghtCode::_20 }
    else if n <= 24 { DataLenghtCode::_24 }
    else if n <= 32 { DataLenghtCode::_32 }
    else if n <= 48 { DataLenghtCode::_48 }
    else { DataLenghtCode::_64 }
}

impl DataLenghtCode {
    /// The data length code of a payload of `length` bytes, if there is one.
    pub fn from_length(length: usize) -> (r: Option<Self>)
        ensures
            r is Some <==> is_valid_length(length as int),
            r matches Some(d) ==> dlc_length(d) == length && d == dlc_of_length(length as int),
    {
        match length {
            0 => Some(Self::_0),
            1 => Some(Self::_1),
            2 => Some(Self::_2),
            3 => Some(Self::_3),
            4 => Some(Self::_4),
            5 => Some(Self::_5),
            6 => Some(Self::_6),
            7 => Some(Self::_7),
            8 => Some(Self::_8),
            12 => Some(Self::_12),
            16 => Some(Self::_16),
            20 => Some(Self::_20),
            24 => Some(Self::_24),
            32 => Some(Self::_32),
            48 => Some(Self::_48),
            64 => Some(Self::_64),
            _ => None,
        }
    }

    /// Number of payload bytes.
    pub fn to_length(self) -> (r: usize)
        ensures
            r == dlc_length(self),
    {
        match self {
            Self::_0 => 0,
            Self::_1 => 1,
            Self::_2 => 2,
            Self::_3 => 3,
            Self::_4 => 4,
            Self::_5 => 5,
            Self::_6 => 6,
            Self::_7 => 7,
            Self::_8 => 8,
            Self::_12 => 12,
            Self::_16 => 16,
            Self::_20 => 20,
            Self::_24 => 24,
            Self::_32 => 32,
            Self::_48 => 48,
            Self::_64 => 64,
        }
    }
}

impl TryFrom<u8> for DataLenghtCode {
    type Error = ();

    fn try_from(value: u8) -> (r: Result<Self, Self::Error>) {
        match value {
            0 => Ok(Self::_0),
            1 => Ok(Self::_1),
            2 => Ok(Self::_2),
            3 => Ok(Self::_3),
            4 => Ok(Self::_4),
            5 => Ok(Self::_5),
            6 => Ok(Self::_6),
            7 => Ok(Self::_7),
            8 => Ok(Self::_8),
            9 => Ok(Self::_12),
            10 => Ok(Self::_16),
            11 => Ok(Self::_20),
            12 => Ok(Self::_24),
            13 => Ok(Self::_32),
            14 => Ok(Self::_48),
            15 => Ok(Self::_64),
            _ => Err(()),
        }
    }
}

impl TryFromSpecImpl<u8> for DataLenghtCode {
    open spec fn obeys_try_from_spec() -> bool {
        true
    }

    open spec fn try_from_spec(v: u8) -> Result<Self, ()> {
        match dlc_from_code(v) {
            Some(d) => Ok(d),
            None => Err(()),
        }
    }
}

impl From<DataLenghtCode> for u8 {
    fn from(value: DataLenghtCode) -> (r: u8) {
        match value {
            DataLenghtCode::_0 => 0,
            DataLenghtCode::_1 => 1,
            DataLenghtCode::_2 => 2,
            DataLenghtCode::_3 => 3,
            DataLenghtCode::_4 => 4,
            DataLenghtCode::_5 => 5,
            DataLenghtCode::_6 => 6,
            DataLenghtCode::_7 => 7,
            DataLenghtCode::_8 => 8,
            DataLenghtCode::_12 => 9,
            DataLenghtCode::_16 => 10,
            DataLenghtCode::_20 => 11,
            DataLenghtCode::_24 => 12,
            DataLenghtCode::_32 => 13,
            DataLenghtCode::_48 => 14,
            DataLenghtCode::_64 => 15,
        }
    }
}

impl FromSpecImpl<DataLenghtCode> for u8 {
    open spec fn obeys_from_spec() -> bool {
        true
    }

    open spec fn from_spec(v: DataLenghtCode) -> u8 {
        dlc_code(v)
    }
}

/// Decoding a length gives back the length: the data length code of
/// `d.to_length()` is `d`, and every valid length is the length of its code.
pub proof fn lemma_length_round_trip(d: DataLenghtCode, n: int)
    ensures
        is_valid_length(dlc_length(d) as int),
        is_valid_length(n) ==> exists|e: DataLenghtCode| dlc_length(e) == n,
        forall|e: DataLenghtCode| dlc_length(e) == dlc_length(d) ==> e == d,
{
    if is_valid_length(n) {
        if n == 0 { assert(dlc_length(DataLenghtCode::_0) == n); }
        else if n == 1 { assert(dlc_length(DataLenghtCode::_1) == n); }
        else if n == 2 { assert(dlc_length(DataLenghtCode::_2) == n); }
        else if n == 3 { assert(dlc_length(DataLenghtCode::_3) == n); }
        else if n == 4 { assert(dlc_length(DataLenghtCode::_4) == n); }
        else if n == 5 { assert(dlc_length(DataLenghtCode::_5) == n); }
        else if n == 6 { assert(dlc_length(DataLenghtCode::_6) == n); }
        else if n == 7 { assert(dlc_length(DataLenghtCode::_7) == n); }
        else if n == 8 { assert(dlc_length(DataLenghtCode::_8) == n); }
        else if n == 12 { assert(dlc_length(DataLenghtCode::_12) == n); }
        else if n == 16 { assert(dlc_length(DataLenghtCode::_16) == n); }
        else if n == 20 { assert(dlc_length(DataLenghtCode::_20) == n); }
        else if n == 24 { assert(dlc_length(DataLenghtCode::_24) == n); }
        else if n == 32 { assert(dlc_length(DataLenghtCode::_32) == n); }
        else if n == 48 { assert(dlc_length(DataLenghtCode::_48) == n); }
        else { assert(dlc_length(DataLenghtCode::_64) == n); }
    }
}

/// The 4-bit code round-trips: decoding `u8::from(d)` gives `d`, every code
/// below 16 decodes, and every decoded code encodes back to itself.
pub proof fn lemma_code_round_trip(d: DataLenghtCode, v: u8)
    ensures
        dlc_from_code(dlc_code(d)) == Some(d),
        dlc_code(d) < 16,
        dlc_from_code(v) is Some <==> v < 16,
        dlc_from_code(v) matches Some(e) ==> dlc_code(e) == v,
{
}

/// A frame to transmit: an identifier and at most 64 bytes of payload.
pub struct Frame<'a> {
    pub id: MessageId,
    pub data: &'a [u8],
}

impl<'a> Frame<'a> {
    /// A frame with `data` as payload, when `data` has at most 64 bytes.
    pub fn new(id: MessageId, data: &'a [u8]) -> (r: Option<Self>)
        ensures
            r is Some <==> data@.len() <= 64,
            r matches Some(f) ==> f.id == id && f.data@ == data@,
    {
        if data.len() > 64 {
            None
        } else {
            Some(Self { id, data })
        }
    }
}

} // verus!
