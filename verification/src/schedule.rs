//! How often the sweep runs: the configured number of seconds, or the
//! default where none is configured.

use vstd::prelude::*;
use vstd::std_specs::iter::IteratorSpec;

verus! {

/// The seconds between two sweeps where nothing else is configured.
pub const DEFAULT_REFRESH_SECONDS: u64 = 180;

/// Whether a symbol is one of the digits 0 to 9.
pub open spec fn is_digit(symbol: char) -> bool {
    '0' <= symbol <= '9'
}

/// The number that a digit stands for.
pub open spec fn digit_value(symbol: char) -> nat {
    (symbol as nat - '0' as nat) as nat
}

/// Whether every symbol of a text is a digit.
pub open spec fn all_digits(text: Seq<char>) -> bool {
    forall|i: int| 0 <= i < text.len() ==> is_digit(#[trigger] text[i])
}

/// The number that a text of digits stands for in base ten.
pub open spec fn decimal_value(digits: Seq<char>) -> nat
    decreases digits.len(),
{
    if digits.len() == 0 {
        0
    } else {
        decimal_value(digits.drop_last()) * 10 + digit_value(digits.last())
    }
}

/// The digits of a text that is taken as a number: the text itself, or what
/// follows a leading plus sign.
pub open spec fn unsigned_part(text: Seq<char>) -> Seq<char> {
    if text.len() > 0 && text[0] == '+' {
        text.drop_first()
    } else {
        text
    }
}

/// The number of seconds that a text names: it is made of digits only, at
/// least one, after an optional plus sign, and the number fits in 64 bits.
pub open spec fn seconds_named(text: Seq<char>) -> Option<u64> {
    let digits = unsigned_part(text);
    if digits.len() > 0 && all_digits(digits) && decimal_value(digits) <= u64::MAX {
        Some(decimal_value(digits) as u64)
    } else {
        None
    }
}

/// The seconds between two sweeps: the configured number where one is
/// configured and is a number, else the default.
pub open spec fn interval(configured: Option<Seq<char>>) -> u64 {
    match configured {
        Some(text) => match seconds_named(text) {
            Some(seconds) => seconds,
            None => DEFAULT_REFRESH_SECONDS,
        },
        None => DEFAULT_REFRESH_SECONDS,
    }
}

/// A text of digits stands for at least as much as any of its beginnings.
pub proof fn lemma_decimal_value_grows(digits: Seq<char>, length: int)
    requires
        0 <= length <= digits.len(),
    ensures
        decimal_value(digits.take(length)) <= decimal_value(digits),
    decreases digits.len() - length,
{
    if length < digits.len() {
        lemma_decimal_value_grows(digits, length + 1);
        assert(digits.take(length + 1).drop_last() =~= digits.take(length));
    } else {
        assert(digits.take(length) =~= digits);
    }
}

/// Reads the number of seconds that a text names, if it names one.
pub fn parse_seconds(text: &str) -> (seconds: Option<u64>)
    ensures
        seconds == seconds_named(text@),
{
    let mut left = text.chars();
    let mut value: u64 = 0;
    let mut seen: bool = false;
    let mut first: bool = true;
    let ghost digits = unsigned_part(text@);
    let ghost mut done: Seq<char> = Seq::empty();
    loop
        invariant_except_break
            digits == unsigned_part(text@),
            left.decrease() is Some,
            first ==> done.len() == 0 && text@ == left.remaining(),
            !first ==> digits == done + left.remaining(),
            all_digits(done),
            value == decimal_value(done),
            seen == (done.len() > 0),
        ensures
            digits == done,
            all_digits(done),
            value == decimal_value(done),
            seen == (done.len() > 0),
        decreases left.decrease()->0,
    {
        let was_first = first;
        first = false;
        match left.next() {
            None => {
                assert(digits =~= done);
                break ;
            },
            Some(symbol) => {
                if was_first && symbol == '+' {
                    assert(digits =~= done + left.remaining());
                } else {
                    proof {
                        if was_first {
                            assert(digits =~= done + seq![symbol] + left.remaining());
                        }
                        assert(digits[done.len() as int] == symbol);
                    }
                    if symbol < '0' || symbol > '9' {
                        return None;
                    }
                    let digit: u64 = (symbol as u64) - ('0' as u64);
                    proof {
                        assert(done.push(symbol).drop_last() =~= done);
                        assert(digits.take(done.len() as int + 1) =~= done.push(symbol));
                        lemma_decimal_value_grows(digits, done.len() as int + 1);
                    }
                    if value > (u64::MAX - digit) / 10 {
                        return None;
                    }
                    value = value * 10 + digit;
                    seen = true;
                    proof {
                        done = done.push(symbol);
                        assert(digits =~= done + left.remaining());
                    }
                }
            },
        }
    }
    if seen {
        Some(value)
    } else {
        None
    }
}

/// The seconds between two sweeps: the configured number where one is
/// configured and is a number, else the default.
pub fn refresh_seconds(configured: Option<&str>) -> (seconds: u64)
    ensures
        seconds == interval(
            match configured {
                Some(text) => Some(text@),
                None => None,
            },
        ),
{
    match configured {
        Some(text) => match parse_seconds(text) {
            Some(seconds) => seconds,
            None => DEFAULT_REFRESH_SECONDS,
        },
        None => DEFAULT_REFRESH_SECONDS,
    }
}

} // verus!
