//! Decimal text of numbers.
use vstd::prelude::*;
use vstd::string::*;

verus! {

/// The character of the decimal digit `d` (below 10).
pub open spec fn digit_char(d: nat) -> char {
    (48 + d) as char
}

/// The decimal text of `n`, most significant digit first, with no leading
/// zeros (`0` is the single digit `0`).
pub open spec fn decimal(n: nat) -> Seq<char>
    decreases n,
{
    if n < 10 {
        seq![digit_char(n)]
    } else {
        decimal(n / 10) + seq![digit_char(n % 10)]
    }
}

/// The text of the single digit `d`.
fn digit_str(d: u64) -> (s: &'static str)
    requires
        d < 10,
    ensures
        s@ == seq![digit_char(d as nat)],
{
    proof {
        reveal_strlit("0");
        reveal_strlit("1");
        reveal_strlit("2");
        reveal_strlit("3");
        reveal_strlit("4");
        reveal_strlit("5");
        reveal_strlit("6");
        reveal_strlit("7");
        reveal_strlit("8");
        reveal_strlit("9");
    }
    let s = if d == 0 {
        "0"
    } else if d == 1 {
        "1"
    } else if d == 2 {
        "2"
    } else if d == 3 {
        "3"
    } else if d == 4 {
        "4"
    } else if d == 5 {
        "5"
    } else if d == 6 {
        "6"
    } else if d == 7 {
        "7"
    } else if d == 8 {
        "8"
    } else {
        "9"
    };
    assert(s@ =~= seq![digit_char(d as nat)]);
    s
}

/// The decimal text of `n`.
pub fn decimal_string(n: u64) -> (s: String)
    ensures
        s@ == decimal(n as nat),
    decreases n,
{
    if n < 10 {
        String::from_str(digit_str(n))
    } else {
        let mut s = decimal_string(n / 10);
        s.append(digit_str(n % 10));
        s
    }
}

/// Decimal text is made of digits and is never empty.
pub proof fn lemma_decimal_digits(n: nat)
    ensures
        decimal(n).len() >= 1,
        forall|i: int| 0 <= i < decimal(n).len() ==> '0' <= #[trigger] decimal(n)[i] <= '9',
    decreases n,
{
    if n >= 10 {
        lemma_decimal_digits(n / 10);
    }
}

/// Decimal text names one number: different numbers have different texts.
pub proof fn lemma_decimal_injective(n: nat, m: nat)
    requires
        decimal(n) == decimal(m),
    ensures
        n == m,
    decreases n,
{
    let d = decimal(n);
    if n < 10 && m < 10 {
        assert(d[0] == digit_char(n) && d[0] == digit_char(m));
    } else if n >= 10 && m >= 10 {
        let k = d.len() - 1;
        lemma_decimal_digits(n / 10);
        lemma_decimal_digits(m / 10);
        assert(d[k] == digit_char(n % 10));
        assert(decimal(m)[k] == digit_char(m % 10));
        assert(n % 10 == m % 10);
        assert(decimal(n / 10) =~= d.subrange(0, k));
        assert(decimal(m / 10) =~= decimal(m).subrange(0, k));
        lemma_decimal_injective(n / 10, m / 10);
    } else if n < 10 {
        lemma_decimal_digits(m / 10);
        assert(decimal(m).len() >= 2);
    } else {
        lemma_decimal_digits(n / 10);
        assert(decimal(n).len() >= 2);
    }
}

} // verus!
