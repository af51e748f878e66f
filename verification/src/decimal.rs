//! Decimal rendering of unsigned integers, used when addresses and
//! diagnostic messages are assembled.

use vstd::prelude::*;
use vstd::string::StringExecFns;

verus! {

/// The character for a single decimal digit.
pub open spec fn digit_char(d: nat) -> char {
    if d == 0 {
        '0'
    } else if d == 1 {
        '1'
    } else if d == 2 {
        '2'
    } else if d == 3 {
        '3'
    } else if d == 4 {
        '4'
    } else if d == 5 {
        '5'
    } else if d == 6 {
        '6'
    } else if d == 7 {
        '7'
    } else if d == 8 {
        '8'
    } else {
        '9'
    }
}

/// The usual decimal rendering of `n`, without leading zeros
/// (except for `n == 0`, which is rendered as `"0"`).
pub open spec fn spec_decimal(n: nat) -> Seq<char>
    decreases n,
{
    if n < 10 {
        seq![digit_char(n)]
    } else {
        spec_decimal(n / 10).push(digit_char(n % 10))
    }
}

/// The decimal digits `ds` (least significant first), read back most
/// significant first.
pub open spec fn rev_digit_chars(ds: Seq<u8>) -> Seq<char> {
    Seq::new(ds.len(), |i: int| digit_char(ds[ds.len() - 1 - i] as nat))
}

proof fn lemma_rev_digit_chars_push(ds: Seq<u8>, d: u8)
    ensures
        rev_digit_chars(ds.push(d)) == seq![digit_char(d as nat)] + rev_digit_chars(ds),
{
    assert(rev_digit_chars(ds.push(d)) =~= seq![digit_char(d as nat)] + rev_digit_chars(ds));
}

/// One decimal digit as a string slice.
fn digit_str(d: u8) -> (r: &'static str)
    requires
        d < 10,
    ensures
        r@ == seq![digit_char(d as nat)],
{
    proof {
        reveal_strlit("0");
        reveal_strlit("1");
        reveal_strlit("2");
        reveal_strlit("3");
        reveal_strlit("4");
        reveal_strlit("5");
        reveal_strlit("6");
        reveal_strlit("7");
        reveal_strlit("8");
        reveal_strlit("9");
    }
    if d == 0 {
        "0"
    } else if d == 1 {
        "1"
    } else if d == 2 {
        "2"
    } else if d == 3 {
        "3"
    } else if d == 4 {
        "4"
    } else if d == 5 {
        "5"
    } else if d == 6 {
        "6"
    } else if d == 7 {
        "7"
    } else if d == 8 {
        "8"
    } else {
        "9"
    }
}

/// Renders `n` in decimal.
pub fn u64_to_decimal(n: u64) -> (s: String)
    ensures
        s@ == spec_decimal(n as nat),
{
    if n == 0 {
        proof {
            reveal_strlit("0");
            assert("0"@ =~= seq![digit_char(0)]);
        }
        return String::from_str("0");
    }
    let mut digits: Vec<u8> = Vec::new();
    let mut m: u64 = n;
    loop
        invariant
            forall|i: int| 0 <= i < digits@.len() ==> digits@[i] < 10,
            digits@.len() == 0 ==> m == n,
            m > 0 && digits@.len() > 0 ==> spec_decimal(n as nat) == spec_decimal(m as nat)
                + rev_digit_chars(digits@),
            m == 0 ==> digits@.len() > 0 && spec_decimal(n as nat) == rev_digit_chars(digits@),
        ensures
            forall|i: int| 0 <= i < digits@.len() ==> digits@[i] < 10,
            digits@.len() > 0,
            spec_decimal(n as nat) == rev_digit_chars(digits@),
        decreases m, (if digits@.len() == 0 { 1int } else { 0int }),
    {
        if m == 0 {
            break ;
        }
        let d: u8 = (m % 10) as u8;
        let ghost old_digits = digits@;
        let ghost old_m = m;
        digits.push(d);
        m = m / 10;
        proof {
            lemma_rev_digit_chars_push(old_digits, d);
            if old_m < 10 {
                assert(m == 0);
                assert(spec_decimal(old_m as nat) == seq![digit_char(old_m as nat)]);
                if old_digits.len() == 0 {
                    assert(spec_decimal(n as nat) =~= rev_digit_chars(digits@));
                } else {
                    assert(spec_decimal(n as nat) == spec_decimal(old_m as nat) + rev_digit_chars(
                        old_digits,
                    ));
                    assert(spec_decimal(n as nat) =~= rev_digit_chars(digits@));
                }
            } else {
                assert(m > 0);
                assert(spec_decimal(old_m as nat) == spec_decimal(m as nat).push(
                    digit_char(d as nat),
                ));
                assert(spec_decimal(m as nat).push(digit_char(d as nat)) =~= spec_decimal(m as nat)
                    + seq![digit_char(d as nat)]);
                if old_digits.len() == 0 {
                    assert(old_m == n);
                    assert(spec_decimal(n as nat) =~= spec_decimal(m as nat) + rev_digit_chars(
                        digits@,
                    ));
                } else {
                    assert(spec_decimal(n as nat) == spec_decimal(old_m as nat) + rev_digit_chars(
                        old_digits,
                    ));
                    assert(spec_decimal(n as nat) =~= spec_decimal(m as nat) + rev_digit_chars(
                        digits@,
                    ));
                }
            }
        }
    }
    let mut s = String::new();
    let mut j: usize = digits.len();
    while j > 0
        invariant
            j <= digits@.len(),
            forall|i: int| 0 <= i < digits@.len() ==> digits@[i] < 10,
            spec_decimal(n as nat) == rev_digit_chars(digits@),
            s@ == rev_digit_chars(digits@).take(digits@.len() - j),
        decreases j,
    {
        j = j - 1;
        let d = digits[j];
        s.append(digit_str(d));
        proof {
            let full = rev_digit_chars(digits@);
            assert(full[digits@.len() - 1 - j] == digit_char(digits@[j as int] as nat));
            assert(s@ =~= full.take(digits@.len() - j));
        }
    }
    proof {
        assert(s@ =~= rev_digit_chars(digits@));
    }
    s
}

} // verus!
