//! Whole numbers as decimal text.

use crate::json::{all_digits, digits_value, integer_of_digits, integer_text};
use vstd::prelude::*;
use vstd::string::*;

verus! {

/// The character of a decimal digit.
pub open spec fn digit_char(d: nat) -> char
    recommends
        d < 10,
{
    if d == 0 {
        '0'
    } else if d == 1 {
        '1'
    } else if d == 2 {
        '2'
    } else if d == 3 {
        '3'
    } else if d == 4 {
        '4'
    } else if d == 5 {
        '5'
    } else if d == 6 {
        '6'
    } else if d == 7 {
        '7'
    } else if d == 8 {
        '8'
    } else {
        '9'
    }
}

/// The decimal digits of a natural number, without leading zeros.
pub open spec fn nat_text(n: nat) -> Seq<char>
    decreases n,
{
    if n < 10 {
        seq![digit_char(n)]
    } else {
        nat_text(n / 10).push(digit_char(n % 10))
    }
}

/// The decimal text of a whole number: its digits, behind a `-` where it is
/// negative.
pub open spec fn decimal_text(n: int) -> Seq<char> {
    if n < 0 {
        seq!['-'] + nat_text((-n) as nat)
    } else {
        nat_text(n as nat)
    }
}

fn digit_str(d: u64) -> (s: &'static str)
    requires
        d < 10,
    ensures
        s@ == seq![digit_char(d as nat)],
{
    proof {
        reveal_strlit("0");
        reveal_strlit("1");
        reveal_strlit("2");
        reveal_strlit("3");
        reveal_strlit("4");
        reveal_strlit("5");
        reveal_strlit("6");
        reveal_strlit("7");
        reveal_strlit("8");
        reveal_strlit("9");
    }
    let s = if d == 0 {
        "0"
    } else if d == 1 {
        "1"
    } else if d == 2 {
        "2"
    } else if d == 3 {
        "3"
    } else if d == 4 {
        "4"
    } else if d == 5 {
        "5"
    } else if d == 6 {
        "6"
    } else if d == 7 {
        "7"
    } else if d == 8 {
        "8"
    } else {
        "9"
    };
    assert(s@ =~= seq![digit_char(d as nat)]);
    s
}

/// Writes a natural number in decimal.
pub fn nat_decimal(n: u64) -> (s: String)
    ensures
        s@ == nat_text(n as nat),
    decreases n,
{
    if n < 10 {
        digit_str(n).to_owned()
    } else {
        let head = nat_decimal(n / 10);
        let s = head.concat(digit_str(n % 10));
        assert(s@ =~= nat_text(n as nat));
        s
    }
}

/// Writes a whole number in decimal.
pub fn decimal(n: i64) -> (s: String)
    ensures
        s@ == decimal_text(n as int),
{
    if n < 0 {
        let magnitude: u64 = if n == i64::MIN {
            9223372036854775808u64
        } else {
            (-n) as u64
        };
        let sign = "-".to_owned();
        proof {
            reveal_strlit("-");
            assert("-"@ =~= seq!['-']);
        }
        let digits = nat_decimal(magnitude);
        sign.concat(digits.as_str())
    } else {
        nat_decimal(n as u64)
    }
}

/// The digits of a natural number are digits, and spell that number.
pub proof fn lemma_nat_text_value(n: nat)
    ensures
        nat_text(n).len() > 0,
        all_digits(nat_text(n)),
        digits_value(nat_text(n)) == n,
        forall|i: int| 0 <= i < nat_text(n).len() ==> #[trigger] nat_text(n)[i] != '-' && nat_text(
            n,
        )[i] != '+',
    decreases n,
{
    if n < 10 {
        let s = nat_text(n);
        assert(s.drop_last() =~= Seq::<char>::empty());
        assert(digits_value(s.drop_last()) == 0);
        assert(s.last() == digit_char(n));
    } else {
        lemma_nat_text_value(n / 10);
        let s = nat_text(n);
        assert(s.drop_last() =~= nat_text(n / 10));
        assert(s.last() == digit_char(n % 10));
    }
}

/// Reading back the decimal text of a 64-bit whole number gives that number.
pub proof fn law_decimal_round_trip(n: int)
    requires
        i64::MIN <= n <= i64::MAX,
    ensures
        integer_text(decimal_text(n)) == Some(n),
{
    if n < 0 {
        let m = (-n) as nat;
        lemma_nat_text_value(m);
        let t = decimal_text(n);
        assert(t[0] == '-');
        assert(t.skip(1) =~= nat_text(m));
        assert(integer_of_digits(true, nat_text(m)) == Some(n));
    } else {
        lemma_nat_text_value(n as nat);
        let t = decimal_text(n);
        assert(t[0] != '-' && t[0] != '+');
        assert(integer_of_digits(false, t) == Some(n));
    }
}

} // verus!
