//! Numbers as text: whole numbers and fixed-point fractions in decimal.

use vstd::prelude::*;
use vstd::string::StringExecFns;

verus! {

/// The most places after the point that a 32-bit fraction is written with.
pub const MAX_PLACES: u32 = 9;

/// Whether two strings hold the same characters.
pub fn same_text(a: &str, b: &str) -> (same: bool)
    ensures
        same == (a@ == b@),
{
    String::from_str(a) == String::from_str(b)
}

/// The character for a single decimal digit.
pub open spec fn digit_char(d: nat) -> char {
    if d == 0 {
        '0'
    } else if d == 1 {
        '1'
    } else if d == 2 {
        '2'
    } else if d == 3 {
        '3'
    } else if d == 4 {
        '4'
    } else if d == 5 {
        '5'
    } else if d == 6 {
        '6'
    } else if d == 7 {
        '7'
    } else if d == 8 {
        '8'
    } else {
        '9'
    }
}

/// A natural number in decimal, without leading zeros.
pub open spec fn decimal(n: nat) -> Seq<char>
    decreases n,
{
    if n < 10 {
        seq![digit_char(n)]
    } else {
        decimal(n / 10).push(digit_char(n % 10))
    }
}

/// An integer in decimal, with a minus sign in front of a negative one.
pub open spec fn signed_decimal(i: int) -> Seq<char> {
    if i < 0 {
        seq!['-'] + decimal((-i) as nat)
    } else {
        decimal(i as nat)
    }
}

/// Ten to the power `e`.
pub open spec fn pow10(e: nat) -> nat
    decreases e,
{
    if e == 0 {
        1
    } else {
        10 * pow10((e - 1) as nat)
    }
}

/// The digits after the point of `part` parts in `pow10(places)`, without
/// trailing zeros: nothing at all when `part` is zero.
pub open spec fn fraction(part: nat, places: nat) -> Seq<char>
    decreases places,
{
    if places == 0 || part == 0 {
        Seq::<char>::empty()
    } else {
        let unit = pow10((places - 1) as nat);
        seq![digit_char(part / unit)] + fraction(part % unit, (places - 1) as nat)
    }
}

/// A number of `pow10(places)`-th parts as a decimal fraction in its
/// shortest form: 150 hundredths read "1.5", and 100 read "1".
pub open spec fn fixed_point(value: nat, places: nat) -> Seq<char> {
    let unit = pow10(places);
    if value % unit == 0 {
        decimal(value / unit)
    } else {
        decimal(value / unit) + seq!['.'] + fraction(value % unit, places)
    }
}

/// The text of one decimal digit.
pub fn digit_text(d: u8) -> (text: &'static str)
    requires
        d < 10,
    ensures
        text@ == seq![digit_char(d as nat)],
{
    proof {
        reveal_strlit("0");
        reveal_strlit("1");
        reveal_strlit("2");
        reveal_strlit("3");
        reveal_strlit("4");
        reveal_strlit("5");
        reveal_strlit("6");
        reveal_strlit("7");
        reveal_strlit("8");
        reveal_strlit("9");
    }
    let text = if d == 0 {
        "0"
    } else if d == 1 {
        "1"
    } else if d == 2 {
        "2"
    } else if d == 3 {
        "3"
    } else if d == 4 {
        "4"
    } else if d == 5 {
        "5"
    } else if d == 6 {
        "6"
    } else if d == 7 {
        "7"
    } else if d == 8 {
        "8"
    } else {
        "9"
    };
    text
}

/// The powers of ten grow with the exponent and are never zero.
pub proof fn lemma_pow10_grows(smaller: nat, larger: nat)
    requires
        smaller <= larger,
    ensures
        1 <= pow10(smaller) <= pow10(larger),
    decreases larger,
{
    if smaller < larger {
        lemma_pow10_grows(smaller, (larger - 1) as nat);
    } else if larger > 0 {
        lemma_pow10_grows((smaller - 1) as nat, (larger - 1) as nat);
    }
}

/// Ten to the power `places`, for the powers that fit in 32 bits.
pub fn ten_to(places: u32) -> (unit: u32)
    requires
        places <= MAX_PLACES,
    ensures
        unit == pow10(places as nat),
        1 <= unit <= 1_000_000_000,
{
    assert(pow10(9) == 1_000_000_000) by {
        reveal_with_fuel(pow10, 10);
    }
    let mut unit: u32 = 1;
    let mut done: u32 = 0;
    while done < places
        invariant
            done <= places <= MAX_PLACES,
            unit == pow10(done as nat),
            pow10(9) == 1_000_000_000,
        decreases places - done,
    {
        proof {
            lemma_pow10_grows((done + 1) as nat, 9);
        }
        unit = unit * 10;
        done = done + 1;
    }
    proof {
        lemma_pow10_grows(places as nat, 9);
    }
    unit
}

/// Writes `n` in decimal at the end of `out`.
pub fn append_decimal(out: &mut String, n: u64)
    ensures
        final(out)@ == old(out)@ + decimal(n as nat),
    decreases n,
{
    if n >= 10 {
        append_decimal(out, n / 10);
    }
    let last: u8 = (n % 10) as u8;
    out.append(digit_text(last));
}

/// Writes `i` in decimal at the end of `out`, with its sign if negative.
pub fn append_signed_decimal(out: &mut String, i: i64)
    ensures
        final(out)@ == old(out)@ + signed_decimal(i as int),
{
    if i < 0 {
        proof {
            reveal_strlit("-");
        }
        out.append("-");
        let magnitude: u64 = if i == i64::MIN {
            9_223_372_036_854_775_808u64
        } else {
            (-i) as u64
        };
        append_decimal(out, magnitude);
    } else {
        append_decimal(out, i as u64);
    }
}

/// Writes the digits after the point of `part` parts in `pow10(places)` at
/// the end of `out`, without trailing zeros.
pub fn append_fraction(out: &mut String, part: u32, places: u32)
    requires
        places <= MAX_PLACES,
        part < pow10(places as nat),
    ensures
        final(out)@ == old(out)@ + fraction(part as nat, places as nat),
    decreases places,
{
    if places != 0 && part != 0 {
        let unit: u32 = ten_to(places - 1);
        let leading: u32 = part / unit;
        assert(leading < 10) by (nonlinear_arith)
            requires
                leading == part / unit,
                part < 10 * unit,
                unit > 0,
        ;
        out.append(digit_text(leading as u8));
        append_fraction(out, part % unit, places - 1);
        assert(out@ =~= old(out)@ + fraction(part as nat, places as nat));
    }
}

/// Writes `value` parts in `pow10(places)` at the end of `out` as a decimal
/// fraction in its shortest form.
pub fn append_fixed_point(out: &mut String, value: u32, places: u32)
    requires
        places <= MAX_PLACES,
    ensures
        final(out)@ == old(out)@ + fixed_point(value as nat, places as nat),
{
    let unit: u32 = ten_to(places);
    let whole: u32 = value / unit;
    let part: u32 = value % unit;
    append_decimal(out, whole as u64);
    if part != 0 {
        proof {
            reveal_strlit(".");
        }
        out.append(".");
        append_fraction(out, part, places);
    }
}

} // verus!
