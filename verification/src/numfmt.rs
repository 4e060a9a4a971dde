//! Decimal rendering of the integer quantities that appear in a sample row.

use vstd::prelude::*;
use vstd::string::StringExecFns;

verus! {

/// The character for a single decimal digit value.
pub open spec fn spec_digit(d: int) -> char {
    if d == 0 {
        '0'
    } else if d == 1 {
        '1'
    } else if d == 2 {
        '2'
    } else if d == 3 {
        '3'
    } else if d == 4 {
        '4'
    } else if d == 5 {
        '5'
    } else if d == 6 {
        '6'
    } else if d == 7 {
        '7'
    } else if d == 8 {
        '8'
    } else {
        '9'
    }
}

/// The usual decimal rendering of a natural number: most significant digit
/// first, no sign, no leading zero except for the number zero itself.
pub open spec fn spec_decimal(n: nat) -> Seq<char>
    decreases n,
{
    if n < 10 {
        seq![spec_digit(n as int)]
    } else {
        spec_decimal(n / 10) + seq![spec_digit((n % 10) as int)]
    }
}

fn digit_str(d: u64) -> (r: &'static str)
    requires
        d < 10,
    ensures
        r@ =~= seq![spec_digit(d as int)],
{
    proof {
        reveal_strlit("0");
        reveal_strlit("1");
        reveal_strlit("2");
        reveal_strlit("3");
        reveal_strlit("4");
        reveal_strlit("5");
        reveal_strlit("6");
        reveal_strlit("7");
        reveal_strlit("8");
        reveal_strlit("9");
    }
    if d == 0 {
        "0"
    } else if d == 1 {
        "1"
    } else if d == 2 {
        "2"
    } else if d == 3 {
        "3"
    } else if d == 4 {
        "4"
    } else if d == 5 {
        "5"
    } else if d == 6 {
        "6"
    } else if d == 7 {
        "7"
    } else if d == 8 {
        "8"
    } else {
        "9"
    }
}

/// Renders an unsigned integer in decimal, exactly as its mathematical
/// decimal expansion.
pub fn u64_to_decimal(n: u64) -> (r: String)
    ensures
        r@ == spec_decimal(n as nat),
    decreases n,
{
    if n < 10 {
        String::from_str(digit_str(n))
    } else {
        let mut s = u64_to_decimal(n / 10);
        s.append(digit_str(n % 10));
        proof {
            assert(s@ =~= spec_decimal(n as nat));
        }
        s
    }
}

/// Converts a cumulative byte count to whole mebibytes, truncating, as the
/// sample rows report memory and I/O quantities.
pub fn mb_of_bytes(bytes: u64) -> (r: u64)
    ensures
        r == bytes as nat / 1048576,
{
    bytes / 1048576
}

/// The rendering of a percentage held in hundredths: the integer part in
/// decimal, a point, then exactly two fractional digits.
pub open spec fn spec_centi(c: nat) -> Seq<char> {
    spec_decimal(c / 100) + seq!['.', spec_digit(((c / 10) % 10) as int), spec_digit(
        (c % 10) as int,
    )]
}

/// Renders a percentage held in hundredths with a fixed two-decimal
/// fractional part, as the CPU column of a sample row shows it.
pub fn centi_percent_string(c: u64) -> (r: String)
    ensures
        r@ == spec_centi(c as nat),
{
    let mut s = u64_to_decimal(c / 100);
    proof {
        reveal_strlit(".");
    }
    s.append(".");
    s.append(digit_str((c / 10) % 10));
    s.append(digit_str(c % 10));
    proof {
        assert(s@ =~= spec_centi(c as nat));
    }
    s
}

/// Whether a character is one of the ten decimal digits.
pub open spec fn is_digit_char(c: char) -> bool {
    48 <= c as u32 <= 57
}

/// Every character of a decimal rendering is a digit, and the rendering is
/// never empty.
pub proof fn lemma_decimal_chars(n: nat)
    ensures
        spec_decimal(n).len() >= 1,
        forall|i: int| 0 <= i < spec_decimal(n).len() ==> is_digit_char(#[trigger] spec_decimal(n)[i]),
    decreases n,
{
    if n < 10 {
    } else {
        lemma_decimal_chars(n / 10);
    }
}

/// Every character of the two-decimal percentage rendering is a digit or the
/// decimal point, and the rendering is never empty.
pub proof fn lemma_centi_chars(c: nat)
    ensures
        spec_centi(c).len() >= 1,
        forall|i: int| 0 <= i < spec_centi(c).len() ==> (is_digit_char(#[trigger] spec_centi(c)[i])
            || spec_centi(c)[i] == '.'),
{
    lemma_decimal_chars(c / 100);
}

} // verus!
