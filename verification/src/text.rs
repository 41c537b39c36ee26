//! How integers are written and read as text.

use vstd::prelude::*;

verus! {

/// The character that writes the decimal digit `d`.
pub open spec fn digit_char(d: int) -> char {
    (d + '0' as int) as char
}

/// The digit that `c` writes in the base `radix`, if it writes one: `0` to
/// `9`, then the letters, in either case, from 10 on.
pub open spec fn digit_of(c: char, radix: u32) -> Option<int> {
    let d = if '0' <= c <= '9' {
        c as int - '0' as int
    } else if 'a' <= c <= 'z' {
        c as int - 'a' as int + 10
    } else if 'A' <= c <= 'Z' {
        c as int - 'A' as int + 10
    } else {
        36
    };
    if d < radix {
        Some(d)
    } else {
        None
    }
}

/// The number that the digits `s` write in the base `radix`; `None` where
/// `s` is empty or holds anything but digits of that base.
pub open spec fn digits_value(s: Seq<char>, radix: u32) -> Option<int>
    decreases s.len(),
{
    if s.len() == 0 {
        None
    } else {
        match digit_of(s.last(), radix) {
            None => None,
            Some(d) => if s.len() == 1 {
                Some(d)
            } else {
                match digits_value(s.drop_last(), radix) {
                    None => None,
                    Some(h) => Some(h * radix + d),
                }
            },
        }
    }
}

/// What reading `text` in the base `radix` gives for an integer type of the
/// range `lowest` to `highest`: the text is one optional sign, `+` or, for a
/// type with negative values, `-`, and then at least one digit and nothing
/// else; the number must be in range.
pub open spec fn parsed(text: Seq<char>, radix: u32, lowest: int, highest: int) -> Option<int> {
    let signed = text.len() > 0 && (text[0] == '+' || (text[0] == '-' && lowest < 0));
    let digits = if signed {
        text.skip(1)
    } else {
        text
    };
    let negative = signed && text[0] == '-';
    match digits_value(digits, radix) {
        None => None,
        Some(m) => {
            let v = if negative {
                -m
            } else {
                m
            };
            if lowest <= v <= highest {
                Some(v)
            } else {
                None
            }
        },
    }
}

/// The decimal digits of `n`, without leading zeros.
pub open spec fn decimal_digits(n: nat) -> Seq<char>
    decreases n,
{
    if n < 10 {
        seq![digit_char(n as int)]
    } else {
        decimal_digits(n / 10).push(digit_char((n % 10) as int))
    }
}

/// `v` in decimal digits, behind `-` where it is negative.
pub open spec fn decimal(v: int) -> Seq<char> {
    if v < 0 {
        seq!['-'] + decimal_digits((-v) as nat)
    } else {
        decimal_digits(v as nat)
    }
}

/// A decimal digit's character is read back as that digit.
pub proof fn lemma_digit_round_trip(d: int)
    requires
        0 <= d < 10,
    ensures
        digit_of(digit_char(d), 10) == Some(d),
        digit_char(d) != '+',
        digit_char(d) != '-',
{
}

/// The decimal digits of a number are read back as that number; they are
/// at least one, and the first is no sign.
pub proof fn lemma_digits_round_trip(n: nat)
    ensures
        digits_value(decimal_digits(n), 10) == Some(n as int),
        decimal_digits(n).len() >= 1,
        decimal_digits(n)[0] != '+',
        decimal_digits(n)[0] != '-',
    decreases n,
{
    if n < 10 {
        lemma_digit_round_trip(n as int);
    } else {
        let high = decimal_digits(n / 10);
        let low = digit_char((n % 10) as int);
        lemma_digits_round_trip(n / 10);
        lemma_digit_round_trip((n % 10) as int);
        assert(high.push(low).drop_last() =~= high);
        assert(high.push(low)[0] == high[0]);
    }
}

/// What is written for an integer of a type's range is read back, for that
/// type, as the same integer.
pub proof fn lemma_text_round_trip(v: int, lowest: int, highest: int)
    requires
        lowest <= v <= highest,
    ensures
        parsed(decimal(v), 10, lowest, highest) == Some(v),
{
    if v < 0 {
        let digits = decimal_digits((-v) as nat);
        lemma_digits_round_trip((-v) as nat);
        assert((seq!['-'] + digits).skip(1) =~= digits);
    } else {
        lemma_digits_round_trip(v as nat);
    }
}

} // verus!
