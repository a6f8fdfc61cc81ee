//! Text forms of byte strings: lowercase hexadecimal and standard base64.

use vstd::prelude::*;
use vstd::string::*;
use base64::Engine;

verus! {

/// The sixteen digits of lowercase hexadecimal, by value.
pub open spec fn hex_alphabet() -> Seq<char> {
    seq!['0', '1', '2', '3', '4', '5', '6', '7', '8', '9', 'a', 'b', 'c', 'd', 'e', 'f']
}

/// Lowercase hexadecimal: two digits for each byte, the high half first.
pub open spec fn hex_encoding(bytes: Seq<u8>) -> Seq<char> {
    Seq::new(
        2 * bytes.len(),
        |i: int|
            if i % 2 == 0 {
                hex_alphabet()[bytes[i / 2] as int / 16]
            } else {
                hex_alphabet()[bytes[i / 2] as int % 16]
            },
    )
}

/// The value of a hexadecimal digit of either case.
pub open spec fn hex_value(c: char) -> Option<int> {
    if '0' <= c && c <= '9' {
        Some(c as int - '0' as int)
    } else if 'a' <= c && c <= 'f' {
        Some(c as int - 'a' as int + 10)
    } else if 'A' <= c && c <= 'F' {
        Some(c as int - 'A' as int + 10)
    } else {
        None
    }
}

/// Whether a text is an even number of hexadecimal digits.
pub open spec fn is_hex(text: Seq<char>) -> bool {
    &&& text.len() % 2 == 0
    &&& forall|i: int| 0 <= i < text.len() ==> (#[trigger] hex_value(text[i])) is Some
}

/// The bytes that a hexadecimal text stands for; `None` where the text has an
/// odd length or holds anything but hexadecimal digits.
pub open spec fn hex_decoding(text: Seq<char>) -> Option<Seq<u8>> {
    if is_hex(text) {
        Some(
            Seq::new(
                (text.len() / 2) as nat,
                |k: int| (hex_value(text[2 * k])->0 * 16 + hex_value(text[2 * k + 1])->0) as u8,
            ),
        )
    } else {
        None
    }
}

/// Standard base64 with padding, as text.
pub uninterp spec fn base64_encoding(bytes: Seq<u8>) -> Seq<char>;

/// The bytes that a standard base64 text stands for, if it is one.
pub uninterp spec fn base64_decoding(text: Seq<char>) -> Option<Seq<u8>>;

/// Every digit of the alphabet has its own position as value.
pub proof fn lemma_hex_digit_value(n: int)
    requires
        0 <= n < 16,
    ensures
        hex_value(hex_alphabet()[n]) == Some(n),
{
}

/// Decoding undoes encoding: the hexadecimal form of any byte string is
/// twice as long, is accepted by the decoder, and gives the bytes back.
pub proof fn lemma_hex_round_trip(bytes: Seq<u8>)
    ensures
        hex_encoding(bytes).len() == 2 * bytes.len(),
        is_hex(hex_encoding(bytes)),
        hex_decoding(hex_encoding(bytes)) == Some(bytes),
{
    let text = hex_encoding(bytes);
    assert forall|i: int| 0 <= i < text.len() implies (#[trigger] hex_value(text[i])) is Some by {
        let b = bytes[i / 2] as int;
        if i % 2 == 0 {
            lemma_hex_digit_value(b / 16);
        } else {
            lemma_hex_digit_value(b % 16);
        }
    }
    let back = hex_decoding(text)->0;
    assert forall|k: int| 0 <= k < bytes.len() implies back[k] == bytes[k] by {
        let b = bytes[k] as int;
        lemma_hex_digit_value(b / 16);
        lemma_hex_digit_value(b % 16);
        assert(text[2 * k] == hex_alphabet()[b / 16]);
        assert(text[2 * k + 1] == hex_alphabet()[b % 16]);
    }
    assert(back =~= bytes);
}

/// Every character of a hexadecimal form is one of the sixteen lowercase
/// digits.
pub proof fn lemma_hex_is_lowercase(bytes: Seq<u8>)
    ensures
        forall|i: int|
            0 <= i < hex_encoding(bytes).len() ==> hex_alphabet().contains(
                #[trigger] hex_encoding(bytes)[i],
            ),
{
    let text = hex_encoding(bytes);
    assert forall|i: int| 0 <= i < text.len() implies hex_alphabet().contains(#[trigger] text[i]) by {
        let b = bytes[i / 2] as int;
        let d = if i % 2 == 0 { b / 16 } else { b % 16 };
        assert(text[i] == hex_alphabet()[d]);
    }
}

/// Two byte strings with the same hexadecimal form are the same.
pub proof fn lemma_hex_injective(a: Seq<u8>, b: Seq<u8>)
    requires
        hex_encoding(a) == hex_encoding(b),
    ensures
        a == b,
{
    lemma_hex_round_trip(a);
    lemma_hex_round_trip(b);
}

/// `hex::encode`: lowercase, two digits per byte.
#[verifier::external_body]
pub(crate) fn hex_encode(data: &[u8]) -> (text: String)
    ensures
        text@ == hex_encoding(data@),
{
    hex::encode(data)
}

/// `hex::decode`: accepts digits of either case; refuses a text of odd length
/// or with any other character.
#[verifier::external_body]
pub(crate) fn hex_decode(text: &str) -> (bytes: Option<Vec<u8>>)
    ensures
        match bytes {
            Some(b) => hex_decoding(text@) == Some(b@),
            None => hex_decoding(text@) is None,
        },
{
    hex::decode(text).ok()
}

/// `base64::engine::general_purpose::STANDARD.encode`. The text that comes
/// out is one that the same engine decodes to the bytes that went in.
#[verifier::external_body]
pub(crate) fn base64_encode(data: &[u8]) -> (text: String)
    ensures
        text@ == base64_encoding(data@),
        base64_decoding(text@) == Some(data@),
{
    base64::engine::general_purpose::STANDARD.encode(data)
}

/// `base64::engine::general_purpose::STANDARD.decode`.
#[verifier::external_body]
pub(crate) fn base64_decode(text: &str) -> (bytes: Option<Vec<u8>>)
    ensures
        match bytes {
            Some(b) => base64_decoding(text@) == Some(b@),
            None => base64_decoding(text@) is None,
        },
{
    base64::engine::general_purpose::STANDARD.decode(text).ok()
}

/// The ten decimal digits, by value.
pub open spec fn decimal_alphabet() -> Seq<char> {
    seq!['0', '1', '2', '3', '4', '5', '6', '7', '8', '9']
}

/// A number in decimal, without leading zeros.
pub open spec fn decimal_encoding(n: nat) -> Seq<char>
    decreases n,
{
    if n < 10 {
        seq![decimal_alphabet()[n as int]]
    } else {
        decimal_encoding(n / 10).push(decimal_alphabet()[(n % 10) as int])
    }
}

/// One decimal digit as text.
fn decimal_digit(d: u32) -> (text: &'static str)
    requires
        d < 10,
    ensures
        text@ == seq![decimal_alphabet()[d as int]],
{
    proof {
        reveal_strlit("0");
        reveal_strlit("1");
        reveal_strlit("2");
        reveal_strlit("3");
        reveal_strlit("4");
        reveal_strlit("5");
        reveal_strlit("6");
        reveal_strlit("7");
        reveal_strlit("8");
        reveal_strlit("9");
    }
    let text = if d == 0 {
        "0"
    } else if d == 1 {
        "1"
    } else if d == 2 {
        "2"
    } else if d == 3 {
        "3"
    } else if d == 4 {
        "4"
    } else if d == 5 {
        "5"
    } else if d == 6 {
        "6"
    } else if d == 7 {
        "7"
    } else if d == 8 {
        "8"
    } else {
        "9"
    };
    assert(text@ =~= seq![decimal_alphabet()[d as int]]);
    text
}

/// Writes a number in decimal.
pub fn decimal_text(n: u32) -> (text: String)
    ensures
        text@ == decimal_encoding(n as nat),
    decreases n,
{
    if n < 10 {
        String::from_str(decimal_digit(n))
    } else {
        let head = decimal_text(n / 10);
        let text = head.concat(decimal_digit(n % 10));
        assert(text@ =~= decimal_encoding(n as nat));
        text
    }
}

} // verus!
