//! Decoding a JSON document into a typed configuration value.

use crate::hex::{HexError, HexFault};
use crate::hex_array::{decode_sized, HexArray};
use crate::json::{
    error_column, error_line, error_message, refusal_of, Member, MemberView, Refusal,
};
use vstd::prelude::*;

verus! {

/// Why a document does not decode into the value asked for.
#[derive(Clone, Debug, PartialEq, Eq)]
pub enum DecodeError {
    /// The document is not well-formed JSON, or not of the kind expected at
    /// its top level. The place and the words are the parser's.
    Syntax { line: usize, column: usize, message: String },
    /// The file could be opened but not read to its end.
    Interrupted,
    /// A required key is not in the document.
    MissingField { field: &'static str },
    /// The key holds a value that is no string.
    InvalidType { field: &'static str },
    /// The key holds a string that is not the hexadecimal text of a value of
    /// the width expected.
    InvalidHex { field: &'static str, fault: HexError },
}

/// The mathematical reading of a [`DecodeError`].
pub enum DecodeFault {
    Syntax { line: nat, column: nat, message: Seq<char> },
    Interrupted,
    MissingField { field: Seq<char> },
    InvalidType { field: Seq<char> },
    InvalidHex { field: Seq<char>, fault: HexFault },
}

impl View for DecodeError {
    type V = DecodeFault;

    open spec fn view(&self) -> DecodeFault {
        match self {
            DecodeError::Syntax { line, column, message } => DecodeFault::Syntax {
                line: *line as nat,
                column: *column as nat,
                message: message@,
            },
            DecodeError::Interrupted => DecodeFault::Interrupted,
            DecodeError::MissingField { field } => DecodeFault::MissingField { field: field@ },
            DecodeError::InvalidType { field } => DecodeFault::InvalidType { field: field@ },
            DecodeError::InvalidHex { field, fault } => DecodeFault::InvalidHex {
                field: field@,
                fault: fault@,
            },
        }
    }
}

/// A value that a JSON document can be decoded into.
///
/// `decoded` says, for every document, which value it stands for or why it
/// stands for none; `decode` computes exactly that. Decoding is
/// all-or-nothing: a document with any fault gives no value.
pub trait JsonDecode: View + Sized {
    /// What a document decodes to.
    spec fn decoded(document: Seq<u8>) -> Result<Self::V, DecodeFault>;

    /// Decodes a document.
    fn decode(document: &[u8]) -> (res: Result<Self, DecodeError>)
        ensures
            match res {
                Ok(value) => Self::decoded(document@) == Ok::<Self::V, DecodeFault>(value@),
                Err(e) => Self::decoded(document@) == Err::<Self::V, DecodeFault>(e@),
            },
    ;
}

/// What the member under `key` decodes to when a binary value of `size`
/// bytes is required there.
pub open spec fn decode_binary(member: MemberView, key: Seq<char>, size: nat) -> Result<
    Seq<u8>,
    DecodeFault,
> {
    match member {
        MemberView::Absent => Err(DecodeFault::MissingField { field: key }),
        MemberView::Other => Err(DecodeFault::InvalidType { field: key }),
        MemberView::Text(text) => match decode_sized(text, size) {
            Ok(bytes) => Ok(bytes),
            Err(fault) => Err(DecodeFault::InvalidHex { field: key, fault }),
        },
    }
}

/// Decodes the member found under the key `field` into a binary value of
/// `N` bytes. The member is required, has to be a string, and has to be the
/// hexadecimal text of exactly `N` bytes.
pub fn binary_field<const N: usize>(member: &Member, field: &'static str) -> (res: Result<
    HexArray<N>,
    DecodeError,
>)
    ensures
        match res {
            Ok(value) => decode_binary(member@, field@, N as nat) == Ok::<Seq<u8>, DecodeFault>(
                value@,
            ),
            Err(e) => decode_binary(member@, field@, N as nat) == Err::<Seq<u8>, DecodeFault>(e@),
        },
{
    match member {
        Member::Absent => Err(DecodeError::MissingField { field }),
        Member::Other => Err(DecodeError::InvalidType { field }),
        Member::Text(text) => match HexArray::<N>::from_hex(text.as_str()) {
            Ok(value) => Ok(value),
            Err(fault) => Err(DecodeError::InvalidHex { field, fault }),
        },
    }
}

/// The fault of a document that the parser refused as `refusal` says.
pub open spec fn syntax_fault(refusal: Refusal) -> DecodeFault {
    DecodeFault::Syntax { line: refusal.line, column: refusal.column, message: refusal.message }
}

/// The error for a document that the parser refused: a syntax error that
/// carries the line, the column and the words of the parser's own error.
pub fn syntax_error(error: &serde_json::Error) -> (res: DecodeError)
    ensures
        res@ == syntax_fault(refusal_of(*error)),
{
    DecodeError::Syntax {
        line: error_line(error),
        column: error_column(error),
        message: error_message(error),
    }
}

} // verus!
