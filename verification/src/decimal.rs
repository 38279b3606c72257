use vstd::prelude::*;

verus! {

/// The character for a single decimal digit.
pub open spec fn digit_char(d: int) -> char {
    if d == 0 {
        '0'
    } else if d == 1 {
        '1'
    } else if d == 2 {
        '2'
    } else if d == 3 {
        '3'
    } else if d == 4 {
        '4'
    } else if d == 5 {
        '5'
    } else if d == 6 {
        '6'
    } else if d == 7 {
        '7'
    } else if d == 8 {
        '8'
    } else {
        '9'
    }
}

/// The digits of a non-negative number, most significant first,
/// with no leading zeros (a single '0' for zero itself).
pub open spec fn dec_digits(n: nat) -> Seq<char>
    decreases n,
{
    if n < 10 {
        seq![digit_char(n as int)]
    } else {
        dec_digits(n / 10) + seq![digit_char((n % 10) as int)]
    }
}

/// The decimal representation of an integer, with a leading '-' when negative.
pub open spec fn dec_rep(n: int) -> Seq<char> {
    if n < 0 {
        seq!['-'] + dec_digits((-n) as nat)
    } else {
        dec_digits(n as nat)
    }
}

pub open spec fn pow10(k: nat) -> nat
    decreases k,
{
    if k == 0 {
        1
    } else {
        10 * pow10((k - 1) as nat)
    }
}

pub proof fn lemma_dec_digits_len(n: nat, k: nat)
    requires
        1 <= k,
        n < pow10(k),
    ensures
        1 <= dec_digits(n).len() <= k,
    decreases n,
{
    if n < 10 {
    } else {
        assert(pow10(k) == 10 * pow10((k - 1) as nat));
        assert(n / 10 < pow10((k - 1) as nat)) by (nonlinear_arith)
            requires
                n >= 10,
                n < 10 * pow10((k - 1) as nat),
        ;
        assert(k >= 2) by {
            if k == 1 {
                assert(pow10(1nat) == 10);
            }
        }
        lemma_dec_digits_len(n / 10, (k - 1) as nat);
    }
}

/// Bounds that every `i64` representation obeys: at most 19 digits
/// and a possible sign, and never empty.
pub proof fn lemma_dec_rep_len(n: int)
    requires
        i64::MIN <= n <= i64::MAX,
    ensures
        1 <= dec_rep(n).len() <= 20,
{
    reveal_with_fuel(pow10, 20);
    if n < 0 {
        lemma_dec_digits_len((-n) as nat, 19);
    } else {
        lemma_dec_digits_len(n as nat, 19);
    }
}

/// The digit characters of `ds`, read back to front.
spec fn rev_chars(ds: Seq<u64>) -> Seq<char> {
    Seq::new(ds.len(), |i: int| digit_char(ds[ds.len() - 1 - i] as int))
}

proof fn lemma_rev_chars_push(ds: Seq<u64>, d: u64)
    ensures
        rev_chars(ds.push(d)) == seq![digit_char(d as int)] + rev_chars(ds),
{
    assert(rev_chars(ds.push(d)) =~= seq![digit_char(d as int)] + rev_chars(ds));
}

/// Appends the character for one digit; the ten string literals keep the
/// reasoning on plain `Seq<char>` values.
fn append_digit(s: &mut String, d: u64)
    requires
        d < 10,
    ensures
        final(s)@ == old(s)@ + seq![digit_char(d as int)],
{
    if d == 0 {
        s.append("0");
        proof {
            reveal_strlit("0");
            assert(final(s)@ =~= old(s)@ + seq![digit_char(d as int)]);
        }
    } else if d == 1 {
        s.append("1");
        proof {
            reveal_strlit("1");
            assert(final(s)@ =~= old(s)@ + seq![digit_char(d as int)]);
        }
    } else if d == 2 {
        s.append("2");
        proof {
            reveal_strlit("2");
            assert(final(s)@ =~= old(s)@ + seq![digit_char(d as int)]);
        }
    } else if d == 3 {
        s.append("3");
        proof {
            reveal_strlit("3");
            assert(final(s)@ =~= old(s)@ + seq![digit_char(d as int)]);
        }
    } else if d == 4 {
        s.append("4");
        proof {
            reveal_strlit("4");
            assert(final(s)@ =~= old(s)@ + seq![digit_char(d as int)]);
        }
    } else if d == 5 {
        s.append("5");
        proof {
            reveal_strlit("5");
            assert(final(s)@ =~= old(s)@ + seq![digit_char(d as int)]);
        }
    } else if d == 6 {
        s.append("6");
        proof {
            reveal_strlit("6");
            assert(final(s)@ =~= old(s)@ + seq![digit_char(d as int)]);
        }
    } else if d == 7 {
        s.append("7");
        proof {
            reveal_strlit("7");
            assert(final(s)@ =~= old(s)@ + seq![digit_char(d as int)]);
        }
    } else if d == 8 {
        s.append("8");
        proof {
            reveal_strlit("8");
            assert(final(s)@ =~= old(s)@ + seq![digit_char(d as int)]);
        }
    } else {
        s.append("9");
        proof {
            reveal_strlit("9");
            assert(final(s)@ =~= old(s)@ + seq![digit_char(d as int)]);
        }
    }
}

/// Formats `n` in decimal, exactly as `dec_rep` describes it.
pub fn dec_string(n: i64) -> (s: String)
    ensures
        s@ == dec_rep(n as int),
{
    let ghost mag: nat = if n < 0 { (-n) as nat } else { n as nat };
    let mut m: u64 = if n < 0 {
        (-(n + 1)) as u64 + 1
    } else {
        n as u64
    };
    assert(m == mag);

    let mut digits: Vec<u64> = Vec::new();
    if m == 0 {
        digits.push(0);
        assert(dec_digits(mag) =~= rev_chars(digits@));
    }
    while m > 0
        invariant
            m == 0 ==> digits@.len() > 0,
            forall|i: int| 0 <= i < digits@.len() ==> digits@[i] < 10,
            dec_digits(mag) =~= (if m == 0 {
                Seq::<char>::empty()
            } else {
                dec_digits(m as nat)
            }) + rev_chars(digits@),
        decreases m,
    {
        let ghost old_m: u64 = m;
        let ghost old_digits = digits@;
        let d: u64 = m % 10;
        digits.push(d);
        m = m / 10;
        proof {
            lemma_rev_chars_push(old_digits, d);
            if old_m < 10 {
                assert(dec_digits(old_m as nat) == seq![digit_char(d as int)]);
            } else {
                assert(dec_digits(old_m as nat) == dec_digits((old_m / 10) as nat) + seq![
                    digit_char(d as int),
                ]);
            }
            assert(dec_digits(mag) =~= (if m == 0 {
                Seq::<char>::empty()
            } else {
                dec_digits(m as nat)
            }) + rev_chars(digits@));
        }
    }
    assert(dec_digits(mag) =~= rev_chars(digits@));

    let ghost prefix: Seq<char> = if n < 0 { seq!['-'] } else { Seq::empty() };
    let mut s = String::new();
    if n < 0 {
        s.append("-");
        proof {
            reveal_strlit("-");
            assert(s@ =~= prefix);
        }
    } else {
        assert(s@ =~= prefix);
    }

    let len: usize = digits.len();
    let mut j: usize = len;
    while j > 0
        invariant
            j <= len,
            len == digits@.len(),
            forall|i: int| 0 <= i < digits@.len() ==> digits@[i] < 10,
            s@ == prefix + rev_chars(digits@).take(len - j),
        decreases j,
    {
        let ghost k: int = len - j;
        j = j - 1;
        append_digit(&mut s, digits[j]);
        proof {
            let rev = rev_chars(digits@);
            assert(rev[k] == digit_char(digits@[j as int] as int));
            assert(rev.take(k + 1) =~= rev.take(k) + seq![rev[k]]);
            assert(s@ =~= prefix + rev.take(k + 1));
        }
    }
    proof {
        assert(rev_chars(digits@).take(len as int) =~= rev_chars(digits@));
        assert(s@ =~= dec_rep(n as int));
    }
    s
}

} // verus!
