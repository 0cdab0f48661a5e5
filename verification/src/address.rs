//! Addresses of contracts and tokens: twenty bytes, written as forty
//! hexadecimal digits.

use vstd::prelude::*;

verus! {

/// Whether `c` is one of the digits `0` to `9`, `a` to `f` or `A` to `F`.
pub open spec fn is_hex_digit(c: char) -> bool {
    ('0' as nat <= c as nat <= '9' as nat) || ('a' as nat <= c as nat <= 'f' as nat) || ('A' as nat
        <= c as nat <= 'F' as nat)
}

/// The number from 0 to 15 that a hexadecimal digit stands for.
pub open spec fn hex_digit_value(c: char) -> nat {
    if '0' as nat <= c as nat <= '9' as nat {
        (c as nat - '0' as nat) as nat
    } else if 'a' as nat <= c as nat <= 'f' as nat {
        (c as nat - 'a' as nat + 10) as nat
    } else {
        (c as nat - 'A' as nat + 10) as nat
    }
}

/// White space that may stand anywhere among the digits and counts for
/// nothing: space, carriage return, line feed and tab.
pub open spec fn is_skipped(c: char) -> bool {
    c == ' ' || c == '\r' || c == '\n' || c == '\t'
}

/// The text after a leading `0x`, or all of it where it has none.
pub open spec fn without_prefix(text: Seq<char>) -> Seq<char> {
    if text.len() >= 2 && text[0] == '0' && text[1] == 'x' {
        text.skip(2)
    } else {
        text
    }
}

/// What is left of the text once the prefix and the white space are gone.
pub open spec fn address_digits(text: Seq<char>) -> Seq<char> {
    without_prefix(text).filter(|c: char| !is_skipped(c))
}

/// Whether the text is an address: after an optional `0x`, and apart from
/// white space, exactly forty hexadecimal digits.
pub open spec fn is_address_text(text: Seq<char>) -> bool {
    let digits = address_digits(text);
    digits.len() == 40 && forall|i: int| 0 <= i < 40 ==> is_hex_digit(#[trigger] digits[i])
}

/// The byte that the digits at `2 * index` and `2 * index + 1` spell, the
/// first of the two being the higher half.
pub open spec fn address_byte(text: Seq<char>, index: int) -> u8 {
    let digits = address_digits(text);
    (16 * hex_digit_value(digits[2 * index]) + hex_digit_value(digits[2 * index + 1])) as u8
}

/// The twenty bytes that the text spells, in the order in which it spells them.
pub open spec fn address_bytes(text: Seq<char>) -> Seq<u8> {
    Seq::new(20, |index: int| address_byte(text, index))
}

/// The address of a contract or a token.
#[derive(Clone, Copy, Debug, PartialEq, Eq)]
pub struct Address {
    pub bytes: [u8; 20],
}

impl View for Address {
    type V = Seq<u8>;

    open spec fn view(&self) -> Seq<u8> {
        self.bytes@
    }
}

/// Reads an address by the `FromStr` impl that the ethers crate gives its
/// `H160`. That impl drops one leading `0x`, then reads the bytes of the text
/// two hexadecimal digits at a time and passes over space, carriage return,
/// line feed and tab; it fails on any other character, on fewer than forty
/// digits and on more.
#[verifier::external_body]
fn h160_from_str(text: &str) -> (bytes: Option<[u8; 20]>)
    ensures
        bytes.is_some() <==> is_address_text(text@),
        bytes matches Some(b) ==> b@ == address_bytes(text@),
{
    match text.parse::<ethers::types::H160>() {
        Ok(hash) => Some(hash.0),
        Err(_) => None,
    }
}

impl Address {
    /// The address that `text` spells, where it spells one.
    pub fn parse(text: &str) -> (parsed: Option<Address>)
        ensures
            parsed.is_some() <==> is_address_text(text@),
            parsed matches Some(address) ==> address@ == address_bytes(text@),
    {
        match h160_from_str(text) {
            Some(bytes) => Some(Address { bytes }),
            None => None,
        }
    }
}

} // verus!
