//! The text form of byte strings: two lower-case hexadecimal digits for
//! each byte, most significant digit first. Reading accepts upper-case
//! digits too.

use vstd::prelude::*;
use vstd::string::*;

verus! {

/// The digit that stands for a value below sixteen.
pub open spec fn digit_char(value: int) -> char {
    if value < 10 {
        (value + 48) as u8 as char
    } else {
        (value + 87) as u8 as char
    }
}

/// The value of a hexadecimal digit, or nothing for any other character.
pub open spec fn digit_value(c: char) -> Option<int> {
    if '0' <= c <= '9' {
        Some(c as int - 48)
    } else if 'a' <= c <= 'f' {
        Some(c as int - 87)
    } else if 'A' <= c <= 'F' {
        Some(c as int - 55)
    } else {
        None
    }
}

/// The text form of a byte string.
pub open spec fn hex_text(bytes: Seq<u8>) -> Seq<char> {
    Seq::new(
        2 * bytes.len(),
        |i: int|
            if i % 2 == 0 {
                digit_char(bytes[i / 2] as int / 16)
            } else {
                digit_char(bytes[i / 2] as int % 16)
            },
    )
}

/// A text is hexadecimal when it has an even number of characters, each of
/// them a hexadecimal digit.
pub open spec fn is_hex(text: Seq<char>) -> bool {
    &&& text.len() % 2 == 0
    &&& forall|i: int| 0 <= i < text.len() ==> (#[trigger] digit_value(text[i])) is Some
}

/// The byte string that a text stands for, or nothing where the text is not
/// hexadecimal.
pub open spec fn hex_bytes(text: Seq<char>) -> Option<Seq<u8>> {
    if is_hex(text) {
        Some(
            Seq::new(
                text.len() / 2,
                |i: int|
                    (16 * digit_value(text[2 * i]).unwrap() + digit_value(
                        text[2 * i + 1],
                    ).unwrap()) as u8,
            ),
        )
    } else {
        None
    }
}

/// Reading the text form of a byte string gives the byte string back.
pub proof fn lemma_hex_round_trip(bytes: Seq<u8>)
    ensures
        hex_bytes(hex_text(bytes)) == Some(bytes),
{
    let text = hex_text(bytes);
    assert forall|i: int| 0 <= i < text.len() implies (#[trigger] digit_value(text[i])) is Some by {
        let b = bytes[i / 2] as int;
        assert(0 <= b / 16 < 16 && 0 <= b % 16 < 16);
    }
    assert(is_hex(text));
    let back = hex_bytes(text).unwrap();
    assert forall|i: int| 0 <= i < bytes.len() implies back[i] == bytes[i] by {
        let b = bytes[i] as int;
        assert(0 <= b / 16 < 16 && 0 <= b % 16 < 16);
        assert((2 * i) / 2 == i && (2 * i + 1) / 2 == i);
        assert((2 * i) % 2 == 0 && (2 * i + 1) % 2 == 1);
        assert(digit_value(text[2 * i]) == Some(b / 16));
        assert(digit_value(text[2 * i + 1]) == Some(b % 16));
        assert(16 * (b / 16) + b % 16 == b);
    }
    assert(back =~= bytes);
}

/// Different byte strings have different text forms.
pub proof fn lemma_hex_text_is_injective(a: Seq<u8>, b: Seq<u8>)
    requires
        hex_text(a) == hex_text(b),
    ensures
        a == b,
{
    lemma_hex_round_trip(a);
    lemma_hex_round_trip(b);
}

/// The text form is made of ASCII characters only.
pub proof fn lemma_hex_text_is_ascii(bytes: Seq<u8>)
    ensures
        vstd::utf8::is_ascii_chars(hex_text(bytes)),
{
    let text = hex_text(bytes);
    assert forall|i: int| 0 <= i < text.len() implies '\0' <= #[trigger] text[i] <= '\u{7f}' by {
        let b = bytes[i / 2] as int;
        assert(0 <= b / 16 < 16 && 0 <= b % 16 < 16);
    }
}

fn digit(value: u8) -> (c: char)
    requires
        value < 16,
    ensures
        c == digit_char(value as int),
{
    if value < 10 {
        (value + 48) as char
    } else {
        (value + 87) as char
    }
}

fn value_of(code: u8) -> (res: Option<u8>)
    ensures
        res is Some <==> digit_value(code as char) is Some,
        res matches Some(v) ==> v < 16 && digit_value(code as char) == Some(v as int),
{
    if 48 <= code && code <= 57 {
        Some(code - 48)
    } else if 97 <= code && code <= 102 {
        Some(code - 87)
    } else if 65 <= code && code <= 70 {
        Some(code - 55)
    } else {
        None
    }
}

/// Writes a byte string as text.
pub fn encode(bytes: &[u8]) -> (text: String)
    ensures
        text@ == hex_text(bytes@),
{
    let mut text = String::new();
    let mut i: usize = 0;
    while i < bytes.len()
        invariant
            i <= bytes.len(),
            text@.len() == 2 * i,
            forall|j: int| 0 <= j < 2 * i ==> text@[j] == hex_text(bytes@)[j],
        decreases bytes.len() - i,
    {
        let b = bytes[i];
        text.push(digit(b / 16));
        text.push(digit(b % 16));
        proof {
            assert((2 * i) / 2 == i && (2 * i + 1) / 2 == i);
            assert((2 * i) % 2 == 0 && (2 * i + 1) % 2 == 1);
        }
        i += 1;
    }
    assert(text@ =~= hex_text(bytes@));
    text
}

/// Reads a text as a byte string. Fails exactly on the texts that are not
/// hexadecimal.
pub fn decode(text: &str) -> (res: Option<Vec<u8>>)
    ensures
        res is Some <==> is_hex(text@),
        res matches Some(bytes) ==> Some(bytes@) == hex_bytes(text@),
{
    if !text.is_ascii() {
        proof {
            let i = choose|i: int| 0 <= i < text@.len() && !('\0' <= #[trigger] text@[i] <= '\u{7f}');
            assert(digit_value(text@[i]) is None);
        }
        return None;
    }
    let codes = text.as_bytes();
    proof {
        vstd::utf8::is_ascii_chars_encode_utf8(text@);
    }
    if codes.len() % 2 != 0 {
        return None;
    }
    let mut bytes: Vec<u8> = Vec::new();
    let mut i: usize = 0;
    while i < codes.len() / 2
        invariant
            codes@.len() == text@.len(),
            codes@.len() % 2 == 0,
            forall|j: int| 0 <= j < text@.len() ==> text@[j] as u8 == #[trigger] codes@[j],
            vstd::utf8::is_ascii_chars(text@),
            i <= codes.len() / 2,
            bytes@.len() == i,
            forall|j: int| 0 <= j < 2 * i ==> (#[trigger] digit_value(text@[j])) is Some,
            forall|j: int|
                0 <= j < i ==> #[trigger] bytes@[j] == (16 * digit_value(text@[2 * j]).unwrap()
                    + digit_value(text@[2 * j + 1]).unwrap()) as u8,
        decreases codes.len() / 2 - i,
    {
        let high = value_of(codes[2 * i]);
        let low = value_of(codes[2 * i + 1]);
        proof {
            assert(text@[2 * i as int] as u8 == codes@[2 * i as int]);
            assert(text@[2 * i + 1] as u8 == codes@[2 * i + 1]);
            assert(codes@[2 * i as int] as char == text@[2 * i as int]);
            assert(codes@[2 * i + 1] as char == text@[2 * i + 1]);
        }
        match (high, low) {
            (Some(h), Some(l)) => {
                bytes.push(16 * h + l);
            },
            _ => {
                return None;
            },
        }
        i += 1;
    }
    proof {
        assert(is_hex(text@));
        assert(bytes@ =~= hex_bytes(text@).unwrap());
    }
    Some(bytes)
}

} // verus!
