//! Texts that stand for identifiers: how an account is written, and how
//! numbers and parts are joined into keys and ids.

use vstd::prelude::*;
use linera_base::identifiers::{AccountOwner, ChainId};
use std::str::FromStr;

verus! {

/// Whether `c` is one of `0-9`, `a-f`, `A-F`.
pub open spec fn is_hex_digit(c: char) -> bool {
    let n = c as u32;
    (48 <= n <= 57) || (97 <= n <= 102) || (65 <= n <= 70)
}

/// The lower-case form of a hexadecimal digit.
pub open spec fn lower_hex_digit(c: char) -> char {
    let n = c as u32;
    if 65 <= n <= 70 {
        ((n + 32) as u8) as char
    } else {
        c
    }
}

/// Whether `text` is written as an account: `0x` and then 2, 40 or 64
/// hexadecimal digits.
pub open spec fn is_account_text(text: Seq<char>) -> bool {
    &&& (text.len() == 4 || text.len() == 42 || text.len() == 66)
    &&& text[0] == '0'
    &&& text[1] == 'x'
    &&& forall|i: int| 2 <= i < text.len() ==> is_hex_digit(#[trigger] text[i])
}

/// The canonical way to write the account that `text` names: its digits in
/// lower case.
pub open spec fn canonical_account_text(text: Seq<char>) -> Seq<char> {
    Seq::new(text.len(), |i: int| if i < 2 { text[i] } else { lower_hex_digit(text[i]) })
}

/// The account that `text` names, in canonical writing; `None` where `text`
/// is not written as an account.
pub open spec fn account_of_text(text: Seq<char>) -> Option<Seq<char>> {
    if is_account_text(text) {
        Some(canonical_account_text(text))
    } else {
        None
    }
}

/// Reads `text` as an account owner and writes the owner back in canonical
/// form.
///
/// Trusted: this calls `AccountOwner::from_str` of `linera-base` and, on
/// success, the owner's `Display`. The contract claims that `from_str` accepts
/// exactly `0x` followed by 2, 40 or 64 hexadecimal digits of either case (a
/// reserved, a 20-byte or a 32-byte address), and that `Display` writes `0x`
/// and the same digits in lower case.
#[verifier::external_body]
pub(crate) fn parse_account_owner(text: &str) -> (owner: Option<String>)
    ensures
        owner.deep_view() == account_of_text(text@),
{
    match AccountOwner::from_str(text) {
        Ok(owner) => Some(owner.to_string()),
        Err(_) => None,
    }
}

/// The account that `text` names, in canonical writing, if `text` is written
/// as an account.
pub fn account_owner(text: &String) -> (owner: Option<String>)
    ensures
        owner.deep_view() == account_of_text(text@),
{
    parse_account_owner(text.as_str())
}

/// Whether `text` is written as a chain: 64 hexadecimal digits.
pub open spec fn is_chain_text(text: Seq<char>) -> bool {
    &&& text.len() == 64
    &&& forall|i: int| 0 <= i < text.len() ==> is_hex_digit(#[trigger] text[i])
}

/// The chain that `text` names, in canonical writing, with its digits in
/// lower case; `None` where `text` is not written as a chain.
pub open spec fn chain_of_text(text: Seq<char>) -> Option<Seq<char>> {
    if is_chain_text(text) {
        Some(Seq::new(text.len(), |i: int| lower_hex_digit(text[i])))
    } else {
        None
    }
}

/// Reads `text` as a chain identifier and writes the identifier back in
/// canonical form.
///
/// Trusted: this calls `ChainId::from_str` of `linera-base` and, on success,
/// the identifier's `Display`. The contract claims that `from_str` accepts
/// exactly 64 hexadecimal digits of either case (a hash of 32 bytes), and
/// that `Display` writes the same digits in lower case.
#[verifier::external_body]
pub(crate) fn parse_chain_id(text: &str) -> (chain: Option<String>)
    ensures
        chain.deep_view() == chain_of_text(text@),
{
    match ChainId::from_str(text) {
        Ok(chain) => Some(chain.to_string()),
        Err(_) => None,
    }
}

/// The chain that `text` names, in canonical writing, if `text` is written
/// as a chain.
pub fn chain_id(text: &String) -> (chain: Option<String>)
    ensures
        chain.deep_view() == chain_of_text(text@),
{
    parse_chain_id(text.as_str())
}

/// The lower-case hexadecimal digit with the given value.
pub open spec fn hex_char(value: nat) -> char {
    if value < 10 {
        digit_char(value)
    } else if value == 10 {
        'a'
    } else if value == 11 {
        'b'
    } else if value == 12 {
        'c'
    } else if value == 13 {
        'd'
    } else if value == 14 {
        'e'
    } else {
        'f'
    }
}

/// Bytes written in hexadecimal: two lower-case digits per byte, the high
/// half first.
pub open spec fn hex_text(bytes: Seq<u8>) -> Seq<char> {
    Seq::new(
        2 * bytes.len(),
        |i: int|
            if i % 2 == 0 {
                hex_char((bytes[i / 2] / 16) as nat)
            } else {
                hex_char((bytes[i / 2] % 16) as nat)
            },
    )
}

/// Writes bytes in hexadecimal.
///
/// Trusted: this calls `hex::encode`. The contract claims what the function
/// documents: each byte is written as two lower-case hexadecimal digits, the
/// high half first.
#[verifier::external_body]
pub(crate) fn encode_hex(bytes: &Vec<u8>) -> (text: String)
    ensures
        text@ == hex_text(bytes@),
{
    hex::encode(bytes)
}

/// The character that writes a decimal digit.
pub open spec fn digit_char(digit: nat) -> char {
    if digit == 0 {
        '0'
    } else if digit == 1 {
        '1'
    } else if digit == 2 {
        '2'
    } else if digit == 3 {
        '3'
    } else if digit == 4 {
        '4'
    } else if digit == 5 {
        '5'
    } else if digit == 6 {
        '6'
    } else if digit == 7 {
        '7'
    } else if digit == 8 {
        '8'
    } else {
        '9'
    }
}

/// A number written in decimal, without leading zeros.
pub open spec fn decimal_digits(n: nat) -> Seq<char>
    decreases n,
{
    if n < 10 {
        seq![digit_char(n)]
    } else {
        decimal_digits(n / 10).push(digit_char(n % 10))
    }
}

fn digit_text(digit: u64) -> (text: &'static str)
    requires
        digit < 10,
    ensures
        text@ == seq![digit_char(digit as nat)],
{
    proof {
        reveal_strlit("0");
        reveal_strlit("1");
        reveal_strlit("2");
        reveal_strlit("3");
        reveal_strlit("4");
        reveal_strlit("5");
        reveal_strlit("6");
        reveal_strlit("7");
        reveal_strlit("8");
        reveal_strlit("9");
    }
    let text = if digit == 0 {
        "0"
    } else if digit == 1 {
        "1"
    } else if digit == 2 {
        "2"
    } else if digit == 3 {
        "3"
    } else if digit == 4 {
        "4"
    } else if digit == 5 {
        "5"
    } else if digit == 6 {
        "6"
    } else if digit == 7 {
        "7"
    } else if digit == 8 {
        "8"
    } else {
        "9"
    };
    assert(text@ =~= seq![digit_char(digit as nat)]);
    text
}

/// Writes a number in decimal.
pub fn decimal_text(n: u64) -> (text: String)
    ensures
        text@ == decimal_digits(n as nat),
{
    let mut text = digit_text(n % 10).to_owned();
    let mut rest = n / 10;
    proof {
        assert(Seq::<char>::empty() + text@ =~= text@);
        if n >= 10 {
            assert(decimal_digits(rest as nat) + text@ =~= decimal_digits(rest as nat).push(
                digit_char((n % 10) as nat),
            ));
        }
    }
    while rest > 0
        invariant
            decimal_digits(n as nat) == (if rest > 0 {
                decimal_digits(rest as nat)
            } else {
                Seq::<char>::empty()
            }) + text@,
        decreases rest,
    {
        let ghost tail = text@;
        let ghost head = digit_char((rest % 10) as nat);
        text = digit_text(rest % 10).to_owned().concat(text.as_str());
        proof {
            assert(text@ =~= seq![head] + tail);
            if rest < 10 {
                assert(decimal_digits(rest as nat) + tail =~= Seq::<char>::empty() + text@);
            } else {
                assert(decimal_digits(rest as nat) + tail =~= decimal_digits((rest / 10) as nat)
                    + text@);
            }
        }
        rest = rest / 10;
    }
    assert(Seq::<char>::empty() + text@ =~= text@);
    text
}

/// Two texts joined.
pub fn join(first: &str, second: &str) -> (joined: String)
    ensures
        joined@ == first@ + second@,
{
    first.to_owned().concat(second)
}

/// Whether a text is empty.
pub fn text_is_empty(text: &String) -> (empty: bool)
    ensures
        empty == (text@.len() == 0),
{
    text.as_str().is_empty()
}

} // verus!
