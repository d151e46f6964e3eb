//! Verified construction of the decimal fragments the reports are made of:
//! plain decimal numbers, two-decimal fixed-point values, and right-aligned
//! columns.

use vstd::prelude::*;
use vstd::string::StringExecFns;

verus! {

/// The decimal digit character for `d` (meaningful for `d < 10`).
pub open spec fn digit_char(d: nat) -> char {
    if d == 0 {
        '0'
    } else if d == 1 {
        '1'
    } else if d == 2 {
        '2'
    } else if d == 3 {
        '3'
    } else if d == 4 {
        '4'
    } else if d == 5 {
        '5'
    } else if d == 6 {
        '6'
    } else if d == 7 {
        '7'
    } else if d == 8 {
        '8'
    } else {
        '9'
    }
}

/// The decimal representation of `n`, most significant digit first, with no
/// leading zeroes (a single `'0'` for zero).
pub open spec fn decimal_digits(n: nat) -> Seq<char>
    decreases n,
{
    if n < 10 {
        seq![digit_char(n)]
    } else {
        decimal_digits(n / 10).push(digit_char(n % 10))
    }
}

/// `n` padded on the left with `'0'` to two characters (meaningful for
/// `n < 100`).
pub open spec fn two_digits(n: nat) -> Seq<char> {
    if n < 10 {
        seq!['0', digit_char(n)]
    } else {
        decimal_digits(n)
    }
}

/// A value in hundredths rendered with exactly two decimal places.
pub open spec fn fixed2(n: nat) -> Seq<char> {
    decimal_digits(n / 100) + seq!['.'] + two_digits(n % 100)
}

/// `s` padded on the left with spaces to `width` characters; `s` unchanged
/// when it is already at least that wide.
pub open spec fn right_aligned(s: Seq<char>, width: nat) -> Seq<char> {
    if s.len() >= width {
        s
    } else {
        Seq::new((width - s.len()) as nat, |i: int| ' ') + s
    }
}

/// How many characters `decimal_digits(n)` has.
pub open spec fn digit_count(n: nat) -> nat
    decreases n,
{
    if n < 10 {
        1
    } else {
        1 + digit_count(n / 10)
    }
}

proof fn lemma_decimal_digits_len(n: nat)
    ensures
        decimal_digits(n).len() == digit_count(n),
    decreases n,
{
    if n >= 10 {
        lemma_decimal_digits_len(n / 10);
    }
}

proof fn lemma_digit_count_le(n: nat)
    ensures
        1 <= digit_count(n),
        n >= 1 ==> digit_count(n) <= n,
    decreases n,
{
    if n >= 10 {
        lemma_digit_count_le(n / 10);
    }
}

fn digit_str(d: u64) -> (s: &'static str)
    requires
        d < 10,
    ensures
        s@ =~= seq![digit_char(d as nat)],
{
    proof {
        reveal_strlit("0");
        reveal_strlit("1");
        reveal_strlit("2");
        reveal_strlit("3");
        reveal_strlit("4");
        reveal_strlit("5");
        reveal_strlit("6");
        reveal_strlit("7");
        reveal_strlit("8");
        reveal_strlit("9");
    }
    if d == 0 {
        "0"
    } else if d == 1 {
        "1"
    } else if d == 2 {
        "2"
    } else if d == 3 {
        "3"
    } else if d == 4 {
        "4"
    } else if d == 5 {
        "5"
    } else if d == 6 {
        "6"
    } else if d == 7 {
        "7"
    } else if d == 8 {
        "8"
    } else {
        "9"
    }
}

/// `n` written in decimal.
pub fn u64_to_string(n: u64) -> (s: String)
    ensures
        s@ == decimal_digits(n as nat),
    decreases n,
{
    if n < 10 {
        let s = digit_str(n).to_owned();
        proof {
            assert(s@ =~= decimal_digits(n as nat));
        }
        s
    } else {
        let mut s = u64_to_string(n / 10);
        s.append(digit_str(n % 10));
        proof {
            assert(s@ =~= decimal_digits(n as nat));
        }
        s
    }
}

/// A value in hundredths written with exactly two decimal places.
pub fn fixed2_to_string(n: u64) -> (s: String)
    ensures
        s@ == fixed2(n as nat),
{
    proof {
        reveal_strlit(".");
        reveal_strlit("0");
    }
    let mut s = u64_to_string(n / 100);
    s.append(".");
    let frac: u64 = n % 100;
    if frac < 10 {
        s.append("0");
    }
    let frac_digits = u64_to_string(frac);
    s.append(frac_digits.as_str());
    proof {
        assert(s@ =~= fixed2(n as nat));
    }
    s
}

/// `n` written in decimal and padded on the left with spaces to `width`
/// characters.
pub fn padded_u64(n: u64, width: u64) -> (s: String)
    ensures
        s@ == right_aligned(decimal_digits(n as nat), width as nat),
{
    proof {
        reveal_strlit(" ");
        lemma_decimal_digits_len(n as nat);
        lemma_digit_count_le(n as nat);
    }
    let mut count: u64 = 1;
    let mut m: u64 = n / 10;
    while m > 0
        invariant
            1 <= count <= digit_count(n as nat),
            digit_count(n as nat) <= u64::MAX,
            m > 0 ==> count + digit_count(m as nat) == digit_count(n as nat),
            m == 0 ==> count == digit_count(n as nat),
        decreases m,
    {
        proof {
            lemma_digit_count_le(m as nat);
        }
        count = count + 1;
        m = m / 10;
    }
    let pad: u64 = if width > count {
        width - count
    } else {
        0
    };
    let mut s = String::new();
    let mut j: u64 = 0;
    while j < pad
        invariant
            j <= pad,
            s@ =~= Seq::new(j as nat, |k: int| ' '),
        decreases pad - j,
    {
        s.append(" ");
        proof {
            reveal_strlit(" ");
            assert(s@ =~= Seq::new((j + 1) as nat, |k: int| ' '));
        }
        j = j + 1;
    }
    let digits = u64_to_string(n);
    s.append(digits.as_str());
    proof {
        assert(s@ =~= right_aligned(decimal_digits(n as nat), width as nat));
    }
    s
}

} // verus!
