//! The texts under which archived rows and counters are stored: a season
//! number in decimal, and for a leaderboard row a colon and the user's name
//! after it.
//!
//! Reading a key undoes writing it: a text is read as a key exactly when it
//! is what writing some key gives, and then it is read as that key.

use vstd::prelude::*;
use crate::text::{decimal_digits, decimal_text, digit_char};

verus! {

/// The text under which the archived row of `user` in `season` is stored.
pub open spec fn archive_key_text(season: u64, user: Seq<char>) -> Seq<char> {
    decimal_digits(season as nat) + seq![':'] + user
}

/// Whether `c` is a decimal digit.
pub open spec fn is_digit(c: char) -> bool {
    exists|d: nat| d < 10 && c == #[trigger] digit_char(d)
}

/// The decimal writing of a number consists of digits, and starts with a
/// zero only if the number is zero.
pub proof fn lemma_decimal_is_digits(n: nat)
    ensures
        decimal_digits(n).len() >= 1,
        forall|i: int| 0 <= i < decimal_digits(n).len() ==> is_digit(#[trigger] decimal_digits(n)[i]),
        decimal_digits(n)[0] == '0' ==> n == 0,
        n < 10 <==> decimal_digits(n).len() == 1,
    decreases n,
{
    if n < 10 {
        assert(is_digit(digit_char(n)));
    } else {
        lemma_decimal_is_digits(n / 10);
        let head = decimal_digits(n / 10);
        let last = digit_char(n % 10);
        assert(is_digit(last));
        assert forall|i: int| 0 <= i < decimal_digits(n).len() implies is_digit(
            #[trigger] decimal_digits(n)[i],
        ) by {
            if i < head.len() {
                assert(decimal_digits(n)[i] == head[i]);
            }
        }
        assert(decimal_digits(n)[0] == head[0]);
    }
}

/// Different digits are written differently.
pub proof fn lemma_digits_differ(a: nat, b: nat)
    requires
        a < 10,
        b < 10,
        digit_char(a) == digit_char(b),
    ensures
        a == b,
{
}

/// Different numbers are written differently.
pub proof fn lemma_decimal_is_injective(a: nat, b: nat)
    requires
        decimal_digits(a) == decimal_digits(b),
    ensures
        a == b,
    decreases a,
{
    lemma_decimal_is_digits(a);
    lemma_decimal_is_digits(b);
    if a < 10 {
        lemma_digits_differ(a, b);
    } else {
        let da = decimal_digits(a / 10);
        let db = decimal_digits(b / 10);
        assert(decimal_digits(a).drop_last() =~= da);
        assert(decimal_digits(b).drop_last() =~= db);
        assert(decimal_digits(a).last() == digit_char(a % 10));
        assert(decimal_digits(b).last() == digit_char(b % 10));
        lemma_decimal_is_injective(a / 10, b / 10);
        lemma_digits_differ(a % 10, b % 10);
    }
}

/// A number whose writing starts with the writing of another is no smaller.
pub proof fn lemma_decimal_prefix_is_no_larger(a: nat, b: nat)
    requires
        decimal_digits(a).len() <= decimal_digits(b).len(),
        decimal_digits(b).take(decimal_digits(a).len() as int) == decimal_digits(a),
    ensures
        a <= b,
    decreases b,
{
    let wa = decimal_digits(a);
    let wb = decimal_digits(b);
    if wa.len() == wb.len() {
        assert(wb.take(wa.len() as int) =~= wb);
        lemma_decimal_is_injective(a, b);
    } else {
        lemma_decimal_is_digits(a);
        lemma_decimal_is_digits(b);
        assert(b >= 10);
        let head = decimal_digits(b / 10);
        assert(wb.drop_last() =~= head);
        assert(head.take(wa.len() as int) =~= wb.take(wa.len() as int));
        lemma_decimal_prefix_is_no_larger(a, b / 10);
    }
}

/// The value of a character that is a digit; `None` for any other character.
pub fn digit_value(c: char) -> (value: Option<u64>)
    ensures
        match value {
            Some(d) => d < 10 && c == digit_char(d as nat),
            None => !is_digit(c),
        },
{
    if c == '0' {
        Some(0)
    } else if c == '1' {
        Some(1)
    } else if c == '2' {
        Some(2)
    } else if c == '3' {
        Some(3)
    } else if c == '4' {
        Some(4)
    } else if c == '5' {
        Some(5)
    } else if c == '6' {
        Some(6)
    } else if c == '7' {
        Some(7)
    } else if c == '8' {
        Some(8)
    } else if c == '9' {
        Some(9)
    } else {
        None
    }
}

/// Reads a number written in decimal without leading zeros. Any other text,
/// and a number too large for the type, is refused.
pub fn parse_decimal(text: &str) -> (number: Option<u64>)
    ensures
        match number {
            Some(n) => text@ == decimal_digits(n as nat),
            None => forall|n: u64| text@ != decimal_digits(n as nat),
        },
{
    let len = text.unicode_len();
    if len == 0 {
        proof {
            assert forall|n: u64| text@ != decimal_digits(n as nat) by {
                lemma_decimal_is_digits(n as nat);
            }
        }
        return None;
    }
    let mut value: u64 = 0;
    let mut i: usize = 0;
    while i < len
        invariant
            i <= len,
            len == text@.len(),
            len > 0,
            i > 0 ==> text@.take(i as int) == decimal_digits(value as nat),
            i > 0 && len > 1 ==> value >= 1,
            i == 0 ==> value == 0,
        decreases len - i,
    {
        let c = text.get_char(i);
        let d = match digit_value(c) {
            Some(d) => d,
            None => {
                proof {
                    assert forall|n: u64| text@ != decimal_digits(n as nat) by {
                        lemma_decimal_is_digits(n as nat);
                        if text@ == decimal_digits(n as nat) {
                            assert(is_digit(decimal_digits(n as nat)[i as int]));
                        }
                    }
                }
                return None;
            },
        };
        if i == 0 {
            if d == 0 && len > 1 {
                proof {
                    assert forall|n: u64| text@ != decimal_digits(n as nat) by {
                        lemma_decimal_is_digits(n as nat);
                    }
                }
                return None;
            }
            value = d;
            proof {
                assert(text@.take(1) =~= seq![digit_char(d as nat)]);
                if len > 1 {
                    assert(d >= 1);
                }
            }
        } else {
            let ghost wider = (value * 10 + d) as nat;
            proof {
                assert(wider / 10 == value && wider % 10 == d);
                assert(wider >= 10);
                assert(text@.take(i as int + 1) =~= text@.take(i as int).push(text@[i as int]));
                assert(text@.take(i as int + 1) == decimal_digits(wider));
            }
            if value > (u64::MAX - d) / 10 {
                proof {
                    assert(wider > u64::MAX);
                    assert forall|n: u64| text@ != decimal_digits(n as nat) by {
                        if text@ == decimal_digits(n as nat) {
                            lemma_decimal_prefix_is_no_larger(wider, n as nat);
                        }
                    }
                }
                return None;
            }
            value = value * 10 + d;
        }
        i += 1;
    }
    proof {
        assert(text@.take(len as int) =~= text@);
    }
    Some(value)
}

/// The text under which the archived row of `user` in `season` is stored.
pub fn archive_key(season: u64, user: &String) -> (key: String)
    ensures
        key@ == archive_key_text(season, user@),
{
    proof {
        reveal_strlit(":");
        assert(":"@ =~= seq![':']);
    }
    decimal_text(season).concat(":").concat(user.as_str())
}

/// The text under which the archived counters of `season` are stored.
pub fn counter_key(season: u64) -> (key: String)
    ensures
        key@ == decimal_digits(season as nat),
{
    decimal_text(season)
}

/// Reads the text of an archived row as season and user. A text that is not
/// the key of a row is refused.
pub fn parse_archive_key(key: &String) -> (parts: Option<(u64, String)>)
    ensures
        match parts {
            Some((season, user)) => key@ == archive_key_text(season, user@),
            None => forall|season: u64, user: Seq<char>| key@ != archive_key_text(season, user),
        },
{
    let text = key.as_str();
    let len = text.unicode_len();
    let mut at: usize = 0;
    while at < len && text.get_char(at) != ':'
        invariant
            at <= len,
            len == text@.len(),
            forall|j: int| 0 <= j < at ==> text@[j] != ':',
        decreases len - at,
    {
        at += 1;
    }
    if at == len {
        proof {
            assert forall|season: u64, user: Seq<char>| key@ != archive_key_text(season, user) by {
                let digits = decimal_digits(season as nat);
                if key@ == archive_key_text(season, user) {
                    assert(archive_key_text(season, user)[digits.len() as int] == ':');
                }
            }
        }
        return None;
    }
    let number_text = text.substring_char(0, at);
    let user_text = text.substring_char(at + 1, len);
    proof {
        assert forall|season: u64, user: Seq<char>|
            key@ == archive_key_text(season, user) implies decimal_digits(season as nat)
            == number_text@ && user == user_text@ by {
            let digits = decimal_digits(season as nat);
            let written = archive_key_text(season, user);
            lemma_decimal_is_digits(season as nat);
            assert(written[digits.len() as int] == ':');
            assert forall|j: int| 0 <= j < digits.len() implies written[j] != ':' by {
                assert(written[j] == digits[j]);
                assert(is_digit(digits[j]));
            }
            assert(at == digits.len()) by {
                if at < digits.len() {
                    assert(written[at as int] != ':');
                } else if at > digits.len() {
                    assert(text@[digits.len() as int] != ':');
                }
            }
            assert(number_text@ =~= digits);
            assert(user_text@ =~= user);
        }
    }
    match parse_decimal(number_text) {
        Some(season) => {
            proof {
                assert(key@ =~= number_text@ + seq![':'] + user_text@);
            }
            Some((season, user_text.to_owned()))
        },
        None => None,
    }
}

} // verus!
