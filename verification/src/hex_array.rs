//! Binary values of a fixed width that configuration files hold as
//! hexadecimal text: addresses and hashes.

use crate::hex::{decode_hex, decode_text, encode_bytes, encode_hex, HexError, HexFault};
use vstd::prelude::*;

verus! {

/// The number of bytes in an address.
pub const ADDRESS_SIZE: usize = 20;

/// The number of bytes in a hash.
pub const HASH_SIZE: usize = 32;

/// `N` bytes, read from and written as hexadecimal text.
#[derive(Clone, Debug, PartialEq, Eq)]
pub struct HexArray<const N: usize> {
    bytes: [u8; N],
}

/// Where a deployed artifact lives.
pub type Address = HexArray<ADDRESS_SIZE>;

/// The hash of a block.
pub type Hash = HexArray<HASH_SIZE>;

impl<const N: usize> View for HexArray<N> {
    type V = Seq<u8>;

    closed spec fn view(&self) -> Seq<u8> {
        self.bytes@
    }
}

/// What a text decodes to when `size` bytes are asked for: the bytes of the
/// text if there are that many, the fault of the text if it has one, and
/// otherwise the number of bytes found.
pub open spec fn decode_sized(text: Seq<char>, size: nat) -> Result<Seq<u8>, HexFault> {
    match decode_text(text) {
        Ok(bytes) => if bytes.len() == size {
            Ok(bytes)
        } else {
            Err(HexFault::IncorrectSize { found: bytes.len() })
        },
        Err(fault) => Err(fault),
    }
}

impl<const N: usize> HexArray<N> {
    /// Wraps `N` bytes.
    pub fn new(data: [u8; N]) -> (res: Self)
        ensures
            res@ == data@,
    {
        HexArray { bytes: data }
    }

    /// The bytes.
    pub fn inner(&self) -> (res: &[u8; N])
        ensures
            res@ == self@,
    {
        &self.bytes
    }

    /// Gives the bytes up.
    pub fn into_inner(self) -> (res: [u8; N])
        ensures
            res@ == self@,
    {
        self.bytes
    }

    /// A value always holds `N` bytes.
    pub proof fn lemma_len(self)
        ensures
            self@.len() == N,
    {
    }

    /// Reads a value from hexadecimal text that stands for exactly `N` bytes.
    pub fn from_hex(text: &str) -> (res: Result<Self, HexError>)
        ensures
            match res {
                Ok(value) => decode_sized(text@, N as nat) == Ok::<Seq<u8>, HexFault>(value@),
                Err(e) => decode_sized(text@, N as nat) == Err::<Seq<u8>, HexFault>(e@),
            },
    {
        let decoded = match decode_hex(text) {
            Ok(decoded) => decoded,
            Err(e) => {
                return Err(e);
            },
        };
        if decoded.len() != N {
            return Err(HexError::IncorrectSize { found: decoded.len() });
        }
        let mut bytes: [u8; N] = [0u8; N];
        let mut i: usize = 0;
        while i < N
            invariant
                i <= N,
                decoded@.len() == N,
                forall|k: int| 0 <= k < i ==> bytes@[k] == decoded@[k],
            decreases N - i,
        {
            bytes[i] = decoded[i];
            i += 1;
        }
        assert(bytes@ =~= decoded@);
        Ok(HexArray { bytes })
    }

    /// Writes the value as hexadecimal text.
    pub fn to_hex(&self) -> (res: String)
        ensures
            res@ == encode_bytes(self@),
    {
        encode_hex(self.bytes.as_slice())
    }
}

/// Writing a value of `N` bytes as text and reading `N` bytes from the text
/// gives the value back.
pub proof fn lemma_sized_round_trip(bytes: Seq<u8>)
    ensures
        decode_sized(encode_bytes(bytes), bytes.len()) == Ok::<Seq<u8>, HexFault>(bytes),
{
    crate::hex::lemma_encode_then_decode(bytes);
}

} // verus!
