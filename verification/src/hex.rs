//! Hexadecimal text, as configuration files write binary values.
//!
//! A text is an optional prefix `0x` followed by digits, two for each byte,
//! the high half first. Digits are read in either case and written in lower
//! case.

use vstd::prelude::*;
use vstd::string::*;

verus! {

/// Why a text is not the hexadecimal form of a byte string.
#[derive(Clone, Copy, Debug, PartialEq, Eq)]
pub enum HexError {
    /// The digits do not pair up into bytes.
    OddLength,
    /// The character at `index` of the text is not a hexadecimal digit.
    InvalidCharacter { index: usize },
    /// The text stands for `found` bytes where another number was asked for.
    IncorrectSize { found: usize },
}

/// The mathematical reading of a [`HexError`].
pub enum HexFault {
    OddLength,
    InvalidCharacter { index: int },
    IncorrectSize { found: nat },
}

impl View for HexError {
    type V = HexFault;

    open spec fn view(&self) -> HexFault {
        match *self {
            HexError::OddLength => HexFault::OddLength,
            HexError::InvalidCharacter { index } => HexFault::InvalidCharacter { index: index as int },
            HexError::IncorrectSize { found } => HexFault::IncorrectSize { found: found as nat },
        }
    }
}

/// The value of a hexadecimal digit, `None` for every other character.
pub open spec fn digit_value(c: char) -> Option<u8> {
    if '0' <= c <= '9' {
        Some((c as u32 - '0' as u32) as u8)
    } else if 'a' <= c <= 'f' {
        Some((c as u32 - 'a' as u32 + 10) as u8)
    } else if 'A' <= c <= 'F' {
        Some((c as u32 - 'A' as u32 + 10) as u8)
    } else {
        None
    }
}

/// The lower-case digit that stands for `n`, for `n` below 16.
pub open spec fn digit_char(n: u8) -> char {
    if n < 10 {
        ('0' as u32 + n as u32) as char
    } else {
        ('a' as u32 + n as u32 - 10) as char
    }
}

/// Whether the text opens with the prefix `0x`.
pub open spec fn has_prefix(text: Seq<char>) -> bool {
    text.len() >= 2 && text[0] == '0' && text[1] == 'x'
}

/// Where the digits of a text begin: behind the prefix, if it has one.
pub open spec fn digits_start(text: Seq<char>) -> int {
    if has_prefix(text) {
        2
    } else {
        0
    }
}

/// Whether `index` is the place of the first character from `start` on that
/// is no hexadecimal digit.
pub open spec fn is_first_invalid(text: Seq<char>, start: int, index: int) -> bool {
    &&& start <= index < text.len()
    &&& digit_value(text[index]) is None
    &&& forall|j: int| start <= j < index ==> (#[trigger] digit_value(text[j])) is Some
}

/// Whether every character from `start` on is a hexadecimal digit.
pub open spec fn all_digits(text: Seq<char>, start: int) -> bool {
    forall|j: int| start <= j < text.len() ==> (#[trigger] digit_value(text[j])) is Some
}

/// The byte that the two digits at `start + 2 * i` stand for.
pub open spec fn byte_at(text: Seq<char>, start: int, i: int) -> u8 {
    (16 * digit_value(text[start + 2 * i]).unwrap() + digit_value(
        text[start + 2 * i + 1],
    ).unwrap()) as u8
}

/// What a text decodes to: its bytes, or the first thing wrong with it. An
/// odd number of digits is reported before any character is looked at.
pub open spec fn decode_text(text: Seq<char>) -> Result<Seq<u8>, HexFault> {
    let start = digits_start(text);
    if (text.len() - start) % 2 == 1 {
        Err(HexFault::OddLength)
    } else if !all_digits(text, start) {
        Err(HexFault::InvalidCharacter { index: choose|i: int| is_first_invalid(text, start, i) })
    } else {
        Ok(Seq::new(((text.len() - start) / 2) as nat, |i: int| byte_at(text, start, i)))
    }
}

/// The text that bytes are written as: the prefix, then two lower-case
/// digits for each byte.
pub open spec fn encode_bytes(bytes: Seq<u8>) -> Seq<char> {
    Seq::new(
        2 + 2 * bytes.len(),
        |i: int|
            if i == 0 {
                '0'
            } else if i == 1 {
                'x'
            } else if i % 2 == 0 {
                digit_char(bytes[(i - 2) / 2] / 16)
            } else {
                digit_char(bytes[(i - 2) / 2] % 16)
            },
    )
}

/// Reads one digit from its ASCII code.
fn digit_of(b: u8) -> (res: Option<u8>)
    ensures
        res == digit_value(b as char),
        res matches Some(n) ==> n < 16,
{
    if b >= 0x30 && b <= 0x39 {
        Some(b - 0x30)
    } else if b >= 0x61 && b <= 0x66 {
        Some(b - 0x61 + 10)
    } else if b >= 0x41 && b <= 0x46 {
        Some(b - 0x41 + 10)
    } else {
        None
    }
}

/// Two places that are each the first invalid one are the same place.
pub proof fn lemma_first_invalid_unique(text: Seq<char>, start: int, a: int, b: int)
    requires
        is_first_invalid(text, start, a),
        is_first_invalid(text, start, b),
    ensures
        a == b,
{
    if a < b {
        assert(digit_value(text[a]) is Some);
    } else if b < a {
        assert(digit_value(text[b]) is Some);
    }
}

/// A text in which `index` is the first invalid place, and whose digits pair
/// up, decodes to the fault at `index`.
proof fn lemma_decode_invalid(text: Seq<char>, index: int)
    requires
        (text.len() - digits_start(text)) % 2 == 0,
        is_first_invalid(text, digits_start(text), index),
    ensures
        decode_text(text) == Err::<Seq<u8>, HexFault>(HexFault::InvalidCharacter { index }),
{
    let start = digits_start(text);
    assert(!all_digits(text, start));
    let chosen = choose|i: int| is_first_invalid(text, start, i);
    lemma_first_invalid_unique(text, start, chosen, index);
}

/// Finds the first character that is no digit, one character at a time.
/// Used for texts that hold characters outside ASCII, which always hold one.
fn first_invalid_char(text: &str, start: usize, len: usize) -> (index: usize)
    requires
        len == text@.len(),
        start <= len,
        !all_digits(text@, start as int),
    ensures
        is_first_invalid(text@, start as int, index as int),
{
    let mut i: usize = start;
    while i < len
        invariant
            start <= i <= len,
            len == text@.len(),
            forall|j: int| start <= j < i ==> (#[trigger] digit_value(text@[j])) is Some,
            !all_digits(text@, start as int),
        decreases len - i,
    {
        let c = text.get_char(i);
        if !(('0' <= c && c <= '9') || ('a' <= c && c <= 'f') || ('A' <= c && c <= 'F')) {
            return i;
        }
        i += 1;
    }
    // Not reached: a text without an invalid character was ruled out.
    proof {
        assert(all_digits(text@, start as int));
    }
    i
}

/// Decodes a hexadecimal text into the bytes it stands for.
pub fn decode_hex(text: &str) -> (res: Result<Vec<u8>, HexError>)
    ensures
        match res {
            Ok(bytes) => decode_text(text@) == Ok::<Seq<u8>, HexFault>(bytes@),
            Err(e) => decode_text(text@) == Err::<Seq<u8>, HexFault>(e@),
        },
{
    broadcast use is_ascii_spec_bytes;

    if !text.is_ascii() {
        let len = text.unicode_len();
        let start: usize = if len >= 2 && text.get_char(0) == '0' && text.get_char(1) == 'x' {
            2
        } else {
            0
        };
        if (len - start) % 2 == 1 {
            return Err(HexError::OddLength);
        }
        assert(!all_digits(text@, start as int)) by {
            if all_digits(text@, start as int) {
                assert forall|i: int| 0 <= i < text@.len() implies '\0' <= #[trigger] text@[i]
                    <= '\u{7f}' by {
                    if i >= start {
                        assert(digit_value(text@[i]) is Some);
                    }
                }
            }
        }
        let index = first_invalid_char(text, start, len);
        proof {
            lemma_decode_invalid(text@, index as int);
        }
        return Err(HexError::InvalidCharacter { index });
    }
    let codes = text.as_bytes();
    let len = codes.len();
    assert(len == text@.len());
    assert(forall|i: int| 0 <= i < len ==> (#[trigger] codes@[i]) as char == text@[i]);
    let start: usize = if len >= 2 && codes[0] == 0x30 && codes[1] == 0x78 {
        2
    } else {
        0
    };
    assert(start == digits_start(text@));
    if (len - start) % 2 == 1 {
        return Err(HexError::OddLength);
    }
    let mut bytes: Vec<u8> = Vec::new();
    let mut i: usize = start;
    while i < len
        invariant
            start <= i <= len,
            len == text@.len(),
            len == codes@.len(),
            start == digits_start(text@),
            (len - start) % 2 == 0,
            (i - start) % 2 == 0,
            forall|j: int| 0 <= j < len ==> (#[trigger] codes@[j]) as char == text@[j],
            forall|j: int| start <= j < i ==> (#[trigger] digit_value(text@[j])) is Some,
            bytes@.len() == (i - start) / 2,
            forall|k: int| 0 <= k < bytes@.len() ==> bytes@[k] == byte_at(text@, start as int, k),
        decreases len - i,
    {
        let high = match digit_of(codes[i]) {
            Some(n) => n,
            None => {
                proof {
                    lemma_decode_invalid(text@, i as int);
                }
                return Err(HexError::InvalidCharacter { index: i });
            },
        };
        let low = match digit_of(codes[i + 1]) {
            Some(n) => n,
            None => {
                proof {
                    lemma_decode_invalid(text@, i + 1);
                }
                return Err(HexError::InvalidCharacter { index: i + 1 });
            },
        };
        bytes.push(16 * high + low);
        i += 2;
    }
    proof {
        assert(all_digits(text@, start as int));
        assert(bytes@ =~= Seq::new(
            ((text@.len() - start) / 2) as nat,
            |k: int| byte_at(text@, start as int, k),
        ));
    }
    Ok(bytes)
}

/// The one-character text of the lower-case digit for `n`.
fn digit_str(n: u8) -> (res: &'static str)
    requires
        n < 16,
    ensures
        res@ == seq![digit_char(n)],
{
    proof {
        reveal_strlit("0");
        reveal_strlit("1");
        reveal_strlit("2");
        reveal_strlit("3");
        reveal_strlit("4");
        reveal_strlit("5");
        reveal_strlit("6");
        reveal_strlit("7");
        reveal_strlit("8");
        reveal_strlit("9");
        reveal_strlit("a");
        reveal_strlit("b");
        reveal_strlit("c");
        reveal_strlit("d");
        reveal_strlit("e");
        reveal_strlit("f");
    }
    let res = match n {
        0 => "0",
        1 => "1",
        2 => "2",
        3 => "3",
        4 => "4",
        5 => "5",
        6 => "6",
        7 => "7",
        8 => "8",
        9 => "9",
        10 => "a",
        11 => "b",
        12 => "c",
        13 => "d",
        14 => "e",
        _ => "f",
    };
    assert(res@ =~= seq![digit_char(n)]);
    res
}

/// Writes bytes as hexadecimal text.
pub fn encode_hex(bytes: &[u8]) -> (res: String)
    ensures
        res@ == encode_bytes(bytes@),
{
    proof {
        reveal_strlit("0x");
    }
    let mut text = String::from_str("0x");
    let mut i: usize = 0;
    while i < bytes.len()
        invariant
            i <= bytes@.len(),
            text@.len() == 2 + 2 * i,
            forall|k: int| 0 <= k < text@.len() ==> text@[k] == encode_bytes(bytes@)[k],
        decreases bytes@.len() - i,
    {
        let b = bytes[i];
        let ghost before = text@;
        text.append(digit_str(b / 16));
        text.append(digit_str(b % 16));
        assert(text@ =~= before.push(digit_char(b / 16)).push(digit_char(b % 16)));
        i += 1;
    }
    assert(text@ =~= encode_bytes(bytes@));
    text
}

/// Writing bytes as text and decoding the text gives the bytes back.
pub proof fn lemma_encode_then_decode(bytes: Seq<u8>)
    ensures
        decode_text(encode_bytes(bytes)) == Ok::<Seq<u8>, HexFault>(bytes),
{
    let text = encode_bytes(bytes);
    assert(has_prefix(text));
    assert forall|j: int| 2 <= j < text.len() implies (#[trigger] digit_value(text[j])) is Some by {
        let b = bytes[(j - 2) / 2];
        lemma_digit_round_trip(b / 16);
        lemma_digit_round_trip(b % 16);
    }
    assert(all_digits(text, 2));
    let decoded = Seq::new(((text.len() - 2) / 2) as nat, |i: int| byte_at(text, 2, i));
    assert forall|i: int| 0 <= i < bytes.len() implies decoded[i] == bytes[i] by {
        let b = bytes[i];
        lemma_digit_round_trip(b / 16);
        lemma_digit_round_trip(b % 16);
        assert(text[2 + 2 * i] == digit_char(b / 16));
        assert(text[2 + 2 * i + 1] == digit_char(b % 16));
    }
    assert(decoded =~= bytes);
}

/// The digit written for a value below 16 reads back as that value.
pub proof fn lemma_digit_round_trip(n: u8)
    requires
        n < 16,
    ensures
        digit_value(digit_char(n)) == Some(n),
{
}

} // verus!
