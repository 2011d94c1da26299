//! Decimal numerals, and the TCP ports that they name.

use vstd::prelude::*;

verus! {

/// The character of a decimal digit.
pub open spec fn digit_char(digit: nat) -> char {
    (48 + digit) as char
}

/// The decimal numeral of `n`, without leading zeros.
pub open spec fn decimal(n: nat) -> Seq<char>
    decreases n,
{
    if n < 10 {
        seq![digit_char(n)]
    } else {
        decimal(n / 10).push(digit_char(n % 10))
    }
}

/// A text of decimal digits only.
pub open spec fn all_digits(text: Seq<char>) -> bool {
    forall|i: int| 0 <= i < text.len() ==> '0' <= #[trigger] text[i] <= '9'
}

/// The number that a text of decimal digits stands for.
pub open spec fn numeral_value(digits: Seq<char>) -> nat
    decreases digits.len(),
{
    if digits.len() == 0 {
        0
    } else {
        numeral_value(digits.drop_last()) * 10 + (digits.last() as nat - 48) as nat
    }
}

/// `text` without a leading plus sign.
pub open spec fn without_plus(text: Seq<char>) -> Seq<char> {
    if text.len() > 0 && text[0] == '+' {
        text.skip(1)
    } else {
        text
    }
}

/// The port that `text` names: an optional plus sign, then one or more digits,
/// of a number that fits in 16 bits.
pub open spec fn port_named(text: Seq<char>) -> Option<u16> {
    let digits = without_plus(text);
    if digits.len() > 0 && all_digits(digits) && numeral_value(digits) <= u16::MAX {
        Some(numeral_value(digits) as u16)
    } else {
        None
    }
}

/// A numeral is worth no less than any numeral that it starts with.
proof fn lemma_value_of_prefix(digits: Seq<char>, n: int)
    requires
        0 <= n <= digits.len(),
    ensures
        numeral_value(digits.take(n)) <= numeral_value(digits),
    decreases digits.len(),
{
    if n == digits.len() {
        assert(digits.take(n) == digits);
    } else {
        lemma_value_of_prefix(digits.drop_last(), n);
        assert(digits.drop_last().take(n) == digits.take(n));
    }
}

/// Reads a port number; `None` where `text` is not the numeral of one.
pub fn parse_port(text: &str) -> (res: Option<u16>)
    ensures
        res == port_named(text@),
{
    let ghost digits = without_plus(text@);
    let ghost offset: int = text@.len() - digits.len();
    let mut value: u32 = 0;
    let mut first: bool = true;
    let mut seen: bool = false;
    for c in it: text.chars()
        invariant
            it.seq() == text@,
            digits == without_plus(text@),
            offset == text@.len() - digits.len(),
            first == (it.index() == 0),
            seen == (it.index() > offset),
            value <= u16::MAX,
            it.index() >= offset ==> {
                &&& all_digits(digits.take(it.index() - offset))
                &&& value == numeral_value(digits.take(it.index() - offset))
            },
            it.index() == 0 ==> value == 0,
    {
        let ghost i: int = it.index() as int;
        proof {
            assert(digits.take(0) == Seq::<char>::empty());
        }
        if first && c == '+' {
            first = false;
        } else {
            first = false;
            assert(digits[i - offset] == c);
            if c < '0' || c > '9' {
                assert(!all_digits(digits));
                return None;
            }
            proof {
                assert(digits.take(i + 1 - offset).drop_last() == digits.take(i - offset));
                lemma_value_of_prefix(digits, i + 1 - offset);
            }
            value = value * 10 + (c as u32 - 48);
            seen = true;
            if value > 65535 {
                return None;
            }
        }
    }
    assert(digits.take(digits.len() as int) == digits);
    if seen {
        Some(value as u16)
    } else {
        None
    }
}

/// Appends the decimal numeral of `n` to `out`.
pub fn push_decimal(out: &mut String, n: u32)
    ensures
        final(out)@ == old(out)@ + decimal(n as nat),
    decreases n,
{
    if n < 10 {
        out.push((48 + n as u8) as char);
    } else {
        push_decimal(out, n / 10);
        out.push((48 + (n % 10) as u8) as char);
    }
}

/// A numeral is made of digits and is worth the number that it was made from.
proof fn lemma_decimal_value(n: nat)
    ensures
        decimal(n).len() > 0,
        all_digits(decimal(n)),
        numeral_value(decimal(n)) == n,
    decreases n,
{
    reveal_with_fuel(numeral_value, 2);
    if n >= 10 {
        lemma_decimal_value(n / 10);
        assert(decimal(n).drop_last() == decimal(n / 10));
    } else {
        assert(decimal(n).drop_last() == Seq::<char>::empty());
    }
}

/// Law: a port written as a decimal numeral is read back as that port, with or
/// without a plus sign in front.
pub proof fn law_port_round_trip(port: u16)
    ensures
        port_named(decimal(port as nat)) == Some(port),
        port_named(seq!['+'] + decimal(port as nat)) == Some(port),
{
    lemma_decimal_value(port as nat);
    let numeral = decimal(port as nat);
    assert('0' <= numeral[0]);
    assert(without_plus(numeral) == numeral);
    assert(without_plus(seq!['+'] + numeral) =~= numeral);
}

/// Law: how a port is read, for texts of one character and less: a digit names the port
/// of its value, and nothing else names one.
pub proof fn law_parse_port_short(text: &str, res: Option<u16>)
    requires
        call_ensures(parse_port, (text,), res),
        text@.len() <= 1,
    ensures
        text@.len() == 1 && '0' <= text@[0] <= '9' ==> res == Some((text@[0] as int - 48) as u16),
        !(text@.len() == 1 && '0' <= text@[0] <= '9') ==> res is None,
{
    reveal_with_fuel(numeral_value, 2);
    if text@.len() == 1 {
        assert(text@.drop_last() == Seq::<char>::empty());
        assert(without_plus(text@).len() > 0 ==> without_plus(text@) == text@);
        assert('0' <= text@[0] <= '9' ==> all_digits(text@));
        assert(all_digits(text@) ==> '0' <= text@[0] <= '9');
    }
}

/// Law: how a port is read, from one character to the next: a digit behind a numeral makes
/// it ten times as much and the digit more, as long as that is a port; a digit behind a
/// lone plus sign starts a numeral; nothing else may follow, and what names no port names
/// none with a character more.
pub proof fn law_parse_port_next(
    text: &str,
    res: Option<u16>,
    longer: &str,
    longer_res: Option<u16>,
    c: char,
)
    requires
        call_ensures(parse_port, (text,), res),
        call_ensures(parse_port, (longer,), longer_res),
        text@.len() > 0,
        longer@ == text@.push(c),
    ensures
        !('0' <= c <= '9') ==> longer_res is None,
        '0' <= c <= '9' && text@ == seq!['+'] ==> longer_res == Some((c as int - 48) as u16),
        '0' <= c <= '9' && text@ != seq!['+'] ==> longer_res == (match res {
            Some(port) => if port * 10 + (c as int - 48) <= 65535 {
                Some((port * 10 + (c as int - 48)) as u16)
            } else {
                None
            },
            None => None,
        }),
{
    let short = without_plus(text@);
    let long = without_plus(longer@);
    assert(longer@[0] == text@[0]);
    assert(long == short.push(c));
    assert(long.last() == c);
    assert(long.drop_last() == short);
    assert(all_digits(long) <==> all_digits(short) && '0' <= c <= '9') by {
        if all_digits(long) {
            assert('0' <= long[long.len() - 1] <= '9');
            assert forall|i: int| 0 <= i < short.len() implies '0' <= #[trigger] short[i]
                <= '9' by {
                assert(long[i] == short[i]);
            }
        }
    }
    assert(numeral_value(long) == numeral_value(short) * 10 + (c as nat - 48) as nat);
    if short.len() == 0 {
        assert(text@ =~= seq!['+']);
    } else {
        assert(text@ != seq!['+']) by {
            if text@ == seq!['+'] {
                assert(text@[0] == '+');
            }
        }
        lemma_value_of_prefix(long, short.len() as int);
        assert(long.take(short.len() as int) == short);
    }
}

/// Law: a number below ten is written as its digit.
pub proof fn law_push_digit(out: &mut String, n: u32)
    requires
        call_ensures(push_decimal, (out, n), ()),
        n < 10,
    ensures
        final(out)@ == old(out)@.push((48 + n) as char),
{
}

/// Law: a number from ten on is written as its tenth is, and its last digit behind that.
pub proof fn law_push_decimal(out: &mut String, n: u32, tenth: &mut String)
    requires
        call_ensures(push_decimal, (out, n), ()),
        call_ensures(push_decimal, (tenth, (n / 10) as u32), ()),
        n >= 10,
        old(tenth)@ == old(out)@,
    ensures
        final(out)@ == final(tenth)@.push((48 + n % 10) as char),
{
}

/// Law: different numbers are written differently.
pub proof fn law_decimal_is_injective(m: nat, n: nat)
    ensures
        decimal(m) == decimal(n) <==> m == n,
{
    lemma_decimal_value(m);
    lemma_decimal_value(n);
}

} // verus!
