//! Hexadecimal text, as nullifier keys and hex-carried claim fields use it.

use vstd::prelude::*;
use vstd::string::StringExecFns;
use crate::error::{VpError, VpErrorView};

verus! {

/// The sixteen lowercase hexadecimal digits, by value.
pub open spec fn hex_digits() -> Seq<char> {
    seq!['0', '1', '2', '3', '4', '5', '6', '7', '8', '9', 'a', 'b', 'c', 'd', 'e', 'f']
}

/// The lowercase hexadecimal text of `data`: two digits per byte, the high
/// half first.
pub open spec fn hex_encoding(data: Seq<u8>) -> Seq<char> {
    Seq::new(
        2 * data.len(),
        |i: int|
            if i % 2 == 0 {
                hex_digits()[data[i / 2] as int / 16]
            } else {
                hex_digits()[data[i / 2] as int % 16]
            },
    )
}

/// The value of a hexadecimal digit of either case, or `-1` for any other
/// character.
pub open spec fn hex_value(c: char) -> int {
    let n = c as int;
    if 0x30 <= n <= 0x39 {
        n - 0x30
    } else if 0x61 <= n <= 0x66 {
        n - 0x61 + 10
    } else if 0x41 <= n <= 0x46 {
        n - 0x41 + 10
    } else {
        -1
    }
}

/// Whether `s` is hexadecimal text for whole bytes: an even number of
/// characters, each a digit of either case.
pub open spec fn is_hex(s: Seq<char>) -> bool {
    &&& s.len() % 2 == 0
    &&& forall|i: int| 0 <= i < s.len() ==> hex_value(#[trigger] s[i]) >= 0
}

/// The bytes that hexadecimal text stands for.
pub open spec fn hex_decoding(s: Seq<char>) -> Seq<u8> {
    Seq::new(
        s.len() / 2,
        |i: int| (16 * hex_value(s[2 * i]) + hex_value(s[2 * i + 1])) as u8,
    )
}

/// The words with which `hex::decode` turns down text that is not
/// hexadecimal.
pub uninterp spec fn hex_error_text(s: Seq<char>) -> Seq<char>;

/// Calls `hex::encode`.
///
/// Trusted: the result is the lowercase encoding of `data`, two digits per
/// byte, as the crate documents.
#[verifier::external_body]
pub(crate) fn hex_encode(data: &[u8]) -> (s: String)
    ensures
        s@ == hex_encoding(data@),
{
    hex::encode(data)
}

/// Calls `hex::decode`.
///
/// Trusted: the call succeeds exactly on an even number of hexadecimal digits
/// of either case and then returns the bytes they stand for; otherwise the
/// error's own words come back, which depend on the text alone.
#[verifier::external_body]
pub(crate) fn hex_decode_bytes(s: &str) -> (r: Result<Vec<u8>, String>)
    ensures
        match r {
            Ok(bytes) => is_hex(s@) && bytes@ == hex_decoding(s@),
            Err(text) => !is_hex(s@) && text@ == hex_error_text(s@),
        },
{
    hex::decode(s).map_err(|e| e.to_string())
}

/// Every digit that the encoding writes reads back as its own value.
pub proof fn lemma_hex_digit_value(v: int)
    requires
        0 <= v < 16,
    ensures
        hex_value(hex_digits()[v]) == v,
{
}

/// Encoding then decoding gives the bytes back: the encoding of any bytes is
/// hexadecimal text, and it stands for exactly those bytes.
pub proof fn lemma_hex_round_trip(data: Seq<u8>)
    ensures
        hex_encoding(data).len() == 2 * data.len(),
        is_hex(hex_encoding(data)),
        hex_decoding(hex_encoding(data)) == data,
{
    let s = hex_encoding(data);
    assert forall|i: int| 0 <= i < s.len() implies hex_value(#[trigger] s[i]) >= 0 by {
        let b = data[i / 2] as int;
        lemma_hex_digit_value(b / 16);
        lemma_hex_digit_value(b % 16);
    }
    let back = hex_decoding(s);
    assert forall|i: int| 0 <= i < data.len() implies back[i] == data[i] by {
        let b = data[i] as int;
        lemma_hex_digit_value(b / 16);
        lemma_hex_digit_value(b % 16);
    }
}

/// The encoding is injective: different bytes never share their text.
pub proof fn lemma_hex_encoding_injective(a: Seq<u8>, b: Seq<u8>)
    requires
        hex_encoding(a) == hex_encoding(b),
    ensures
        a == b,
{
    lemma_hex_round_trip(a);
    lemma_hex_round_trip(b);
}

/// The decimal digit of a value below ten, as text.
fn digit_text(d: usize) -> (text: &'static str)
    requires
        d < 10,
    ensures
        text@ == seq![hex_digits()[d as int]],
{
    proof {
        reveal_strlit("0");
        reveal_strlit("1");
        reveal_strlit("2");
        reveal_strlit("3");
        reveal_strlit("4");
        reveal_strlit("5");
        reveal_strlit("6");
        reveal_strlit("7");
        reveal_strlit("8");
        reveal_strlit("9");
    }
    match d {
        0 => "0",
        1 => "1",
        2 => "2",
        3 => "3",
        4 => "4",
        5 => "5",
        6 => "6",
        7 => "7",
        8 => "8",
        _ => "9",
    }
}

/// The decimal text of a number: no sign, no leading zero but for zero itself.
pub open spec fn decimal_text(n: nat) -> Seq<char>
    decreases n,
{
    if n < 10 {
        seq![hex_digits()[n as int]]
    } else {
        decimal_text(n / 10) + seq![hex_digits()[(n % 10) as int]]
    }
}

/// Writes `n` in decimal.
pub fn decimal(n: usize) -> (text: String)
    ensures
        text@ == decimal_text(n as nat),
    decreases n,
{
    let last = digit_text(n % 10);
    if n < 10 {
        last.to_owned()
    } else {
        let mut text = decimal(n / 10);
        text.append(last);
        text
    }
}

/// Copies `bytes` into an array of `N` bytes, if there are exactly `N`.
pub fn to_array<const N: usize>(bytes: &Vec<u8>) -> (array: Option<[u8; N]>)
    ensures
        array is Some <==> bytes@.len() == N,
        array matches Some(a) ==> a@ == bytes@,
{
    if bytes.len() != N {
        return None;
    }
    let mut array = [0u8; N];
    let mut i: usize = 0;
    while i < N
        invariant
            bytes@.len() == N,
            array@.len() == N,
            i <= N,
            forall|j: int| 0 <= j < i ==> array@[j] == bytes@[j],
        decreases N - i,
    {
        array[i] = bytes[i];
        i += 1;
    }
    Some(array)
}

/// Copies an array of bytes into a vector.
pub fn to_bytes<const N: usize>(array: &[u8; N]) -> (bytes: Vec<u8>)
    ensures
        bytes@ == array@,
{
    let mut bytes: Vec<u8> = Vec::new();
    let mut i: usize = 0;
    while i < N
        invariant
            array@.len() == N,
            i <= N,
            bytes@.len() == i,
            forall|j: int| 0 <= j < i ==> bytes@[j] == array@[j],
        decreases N - i,
    {
        bytes.push(array[i]);
        i += 1;
    }
    bytes
}

/// What a value of the wrong length is told: how many bytes were expected
/// and how many there are.
pub open spec fn spec_length_text(expected: nat, got: nat) -> Seq<char> {
    "expected "@ + decimal_text(expected) + " bytes, got "@ + decimal_text(got)
}

/// Says how many bytes were expected and how many there are.
pub fn length_text(expected: usize, got: usize) -> (text: String)
    ensures
        text@ == spec_length_text(expected as nat, got as nat),
{
    let mut text = "expected ".to_owned();
    text.append(decimal(expected).as_str());
    text.append(" bytes, got ");
    text.append(decimal(got).as_str());
    text
}

/// What decoding hexadecimal text into exactly `n` bytes gives: the bytes, or
/// the reason why there are none.
pub open spec fn spec_hex_decode(hex: Seq<char>, n: nat) -> Result<Seq<u8>, VpErrorView> {
    if !is_hex(hex) {
        Err(VpErrorView::InvalidHex(hex + ": "@ + hex_error_text(hex)))
    } else if hex.len() / 2 != n {
        Err(VpErrorView::InvalidHex(spec_length_text(n, hex.len() / 2)))
    } else {
        Ok(hex_decoding(hex))
    }
}

/// Decoding the text of any bytes into as many bytes gives the bytes back.
pub proof fn lemma_hex_decode_round_trip(data: Seq<u8>)
    ensures
        spec_hex_decode(hex_encoding(data), data.len()) == Ok::<Seq<u8>, VpErrorView>(data),
{
    lemma_hex_round_trip(data);
}

/// Decode a hex string to a fixed-size byte array.
///
/// Text that is not hexadecimal, and text that stands for more or fewer than
/// `N` bytes, is turned down: nothing is cut off and nothing is filled in.
pub fn hex_decode<const N: usize>(hex: &str) -> (r: Result<[u8; N], VpError>)
    ensures
        match r {
            Ok(array) => spec_hex_decode(hex@, N as nat) == Ok::<Seq<u8>, VpErrorView>(array@),
            Err(e) => spec_hex_decode(hex@, N as nat) == Err::<Seq<u8>, VpErrorView>(e@),
        },
{
    match hex_decode_bytes(hex) {
        Err(text) => {
            let mut message = hex.to_owned();
            message.append(": ");
            message.append(text.as_str());
            Err(VpError::InvalidHex(message))
        },
        Ok(bytes) => match to_array::<N>(&bytes) {
            Some(array) => Ok(array),
            None => Err(VpError::InvalidHex(length_text(N, bytes.len()))),
        },
    }
}

} // verus!
