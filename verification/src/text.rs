//! Decimal rendering of the share price.
//!
//! The authoritative price is the fixed-point integer scaled by 1e9; the
//! string beside it is only for human consumption. It is rendered from
//! that same integer: the whole part in decimal, then, when the nine
//! fractional digits are not all zero, a point and those digits with the
//! trailing zeros removed.

use vstd::prelude::*;
use vstd::string::StringExecFns;

verus! {

/// The decimal digit character for `d`.
pub open spec fn digit_char(d: nat) -> char
    recommends
        d < 10,
{
    if d == 0 {
        '0'
    } else if d == 1 {
        '1'
    } else if d == 2 {
        '2'
    } else if d == 3 {
        '3'
    } else if d == 4 {
        '4'
    } else if d == 5 {
        '5'
    } else if d == 6 {
        '6'
    } else if d == 7 {
        '7'
    } else if d == 8 {
        '8'
    } else {
        '9'
    }
}

/// `n` in decimal, without leading zeros (a single `'0'` for zero).
pub open spec fn dec_str(n: nat) -> Seq<char>
    decreases n,
{
    if n < 10 {
        seq![digit_char(n)]
    } else {
        dec_str(n / 10).push(digit_char(n % 10))
    }
}

/// The low `k` decimal digits of `n`, zero-padded to exactly `k` characters.
pub open spec fn pad_digits(n: nat, k: nat) -> Seq<char>
    decreases k,
{
    if k == 0 {
        Seq::empty()
    } else {
        pad_digits(n / 10, (k - 1) as nat).push(digit_char(n % 10))
    }
}

/// `n` rendered as `k` fractional digits with the trailing zeros removed:
/// low-order zero digits are dropped, the rest is zero-padded to the
/// remaining width.
pub open spec fn frac_digits(n: nat, k: nat) -> Seq<char>
    decreases k,
{
    if k == 0 {
        Seq::empty()
    } else if n % 10 == 0 {
        frac_digits(n / 10, (k - 1) as nat)
    } else {
        pad_digits(n, k)
    }
}

/// Ten to the `k`.
pub open spec fn pow10(k: nat) -> nat
    decreases k,
{
    if k == 0 {
        1nat
    } else {
        10 * pow10((k - 1) as nat)
    }
}

/// The display form of a fixed-point price `p` scaled by 1e9: the whole
/// part, then a point and the fractional digits when they are not all
/// zero.
pub open spec fn display_str(p: nat) -> Seq<char> {
    if p % 1000000000 == 0 {
        dec_str(p / 1000000000)
    } else {
        dec_str(p / 1000000000) + seq!['.'] + frac_digits(p % 1000000000, 9)
    }
}

/// The characters of `ds` read back to front: `ds` holds digits least
/// significant first, as the extraction loops produce them.
pub open spec fn rev_chars(ds: Seq<u64>) -> Seq<char>
    decreases ds.len(),
{
    if ds.len() == 0 {
        Seq::empty()
    } else {
        rev_chars(ds.drop_first()) + seq![digit_char(ds.first() as nat)]
    }
}

proof fn lemma_rev_chars_singleton(x: u64)
    ensures
        rev_chars(seq![x]) == seq![digit_char(x as nat)],
{
    assert(seq![x].drop_first() =~= Seq::<u64>::empty());
    assert(rev_chars(Seq::<u64>::empty()) =~= Seq::<char>::empty());
    assert(rev_chars(seq![x]) =~= seq![digit_char(x as nat)]);
}

proof fn lemma_rev_chars_push(ds: Seq<u64>, d: u64)
    ensures
        rev_chars(ds.push(d)) == seq![digit_char(d as nat)] + rev_chars(ds),
    decreases ds.len(),
{
    if ds.len() == 0 {
        assert(ds =~= Seq::<u64>::empty());
        assert(rev_chars(Seq::<u64>::empty()) =~= Seq::<char>::empty());
        assert(ds.push(d) =~= seq![d]);
        lemma_rev_chars_singleton(d);
        assert(rev_chars(ds.push(d)) =~= seq![digit_char(d as nat)] + rev_chars(ds));
    } else {
        assert(ds.push(d).drop_first() =~= ds.drop_first().push(d));
        lemma_rev_chars_push(ds.drop_first(), d);
        assert(ds.push(d).first() == ds.first());
        assert(rev_chars(ds) =~= rev_chars(ds.drop_first()) + seq![digit_char(ds.first() as nat)]);
        assert(rev_chars(ds.push(d)) =~= rev_chars(ds.drop_first().push(d)) + seq![digit_char(
            ds.first() as nat,
        )]);
        assert(rev_chars(ds.push(d)) =~= seq![digit_char(d as nat)] + rev_chars(ds));
    }
}

proof fn lemma_pow10_9()
    ensures
        pow10(9) == 1000000000nat,
{
    assert(pow10(0) == 1nat);
    assert(pow10(1) == 10nat);
    assert(pow10(2) == 100nat);
    assert(pow10(3) == 1000nat);
    assert(pow10(4) == 10000nat);
    assert(pow10(5) == 100000nat);
    assert(pow10(6) == 1000000nat);
    assert(pow10(7) == 10000000nat);
    assert(pow10(8) == 100000000nat);
    assert(pow10(9) == 1000000000nat);
}

/// Append the character of one decimal digit.
fn push_digit_char(s: &mut String, d: u64)
    requires
        d < 10,
    ensures
        final(s)@ == old(s)@ + seq![digit_char(d as nat)],
{
    if d == 0 {
        proof {
            reveal_strlit("0");
            assert(("0")@ =~= seq![digit_char(0)]);
        }
        s.append("0");
    } else if d == 1 {
        proof {
            reveal_strlit("1");
            assert(("1")@ =~= seq![digit_char(1)]);
        }
        s.append("1");
    } else if d == 2 {
        proof {
            reveal_strlit("2");
            assert(("2")@ =~= seq![digit_char(2)]);
        }
        s.append("2");
    } else if d == 3 {
        proof {
            reveal_strlit("3");
            assert(("3")@ =~= seq![digit_char(3)]);
        }
        s.append("3");
    } else if d == 4 {
        proof {
            reveal_strlit("4");
            assert(("4")@ =~= seq![digit_char(4)]);
        }
        s.append("4");
    } else if d == 5 {
        proof {
            reveal_strlit("5");
            assert(("5")@ =~= seq![digit_char(5)]);
        }
        s.append("5");
    } else if d == 6 {
        proof {
            reveal_strlit("6");
            assert(("6")@ =~= seq![digit_char(6)]);
        }
        s.append("6");
    } else if d == 7 {
        proof {
            reveal_strlit("7");
            assert(("7")@ =~= seq![digit_char(7)]);
        }
        s.append("7");
    } else if d == 8 {
        proof {
            reveal_strlit("8");
            assert(("8")@ =~= seq![digit_char(8)]);
        }
        s.append("8");
    } else {
        proof {
            reveal_strlit("9");
            assert(("9")@ =~= seq![digit_char(9)]);
        }
        s.append("9");
    }
}

/// Append the digits collected least significant first, back to front.
fn append_rev_digits(s: &mut String, digits: &Vec<u64>)
    requires
        forall|j: int| 0 <= j < digits@.len() ==> digits@[j] < 10,
    ensures
        final(s)@ == old(s)@ + rev_chars(digits@),
{
    let ghost orig: Seq<char> = s@;
    let mut idx: usize = digits.len();
    proof {
        assert(digits@.subrange(idx as int, digits@.len() as int) =~= Seq::<u64>::empty());
        assert(s@ =~= orig + rev_chars(digits@.subrange(idx as int, digits@.len() as int)));
    }
    while idx > 0
        invariant
            idx <= digits@.len(),
            forall|j: int| 0 <= j < digits@.len() ==> digits@[j] < 10,
            s@ == orig + rev_chars(digits@.subrange(idx as int, digits@.len() as int)),
        decreases idx,
    {
        let d = digits[idx - 1];
        push_digit_char(s, d);
        idx = idx - 1;
        proof {
            let sub_new = digits@.subrange(idx as int, digits@.len() as int);
            assert(sub_new.first() == digits@[idx as int]);
            assert(sub_new.drop_first() =~= digits@.subrange(idx as int + 1, digits@.len() as int));
            assert(s@ =~= orig + rev_chars(sub_new));
        }
    }
    proof {
        assert(digits@.subrange(0, digits@.len() as int) =~= digits@);
    }
}

/// Append `n` in decimal.
fn push_dec_str(s: &mut String, n: u64)
    ensures
        final(s)@ == old(s)@ + dec_str(n as nat),
{
    let mut digits: Vec<u64> = Vec::new();
    digits.push(n % 10);
    let mut m: u64 = n / 10;
    proof {
        lemma_rev_chars_singleton(n % 10);
        assert(digits@ =~= seq![n % 10]);
        assert(rev_chars(digits@) =~= seq![digit_char((n % 10) as nat)]);
        if m == 0 {
            assert(dec_str(n as nat) == rev_chars(digits@));
        } else {
            assert(dec_str(n as nat) =~= dec_str(m as nat) + rev_chars(digits@));
        }
    }
    while m > 0
        invariant
            digits@.len() >= 1,
            forall|j: int| 0 <= j < digits@.len() ==> digits@[j] < 10,
            m == 0 ==> dec_str(n as nat) == rev_chars(digits@),
            m > 0 ==> dec_str(n as nat) == dec_str(m as nat) + rev_chars(digits@),
        decreases m,
    {
        let d = m % 10;
        proof {
            lemma_rev_chars_push(digits@, d);
        }
        digits.push(d);
        let ghost m_prev: nat = m as nat;
        m = m / 10;
        proof {
            if m_prev < 10 {
                assert(dec_str(m_prev) =~= seq![digit_char(m_prev % 10)]);
                assert(dec_str(n as nat) =~= rev_chars(digits@));
            } else {
                assert(dec_str(m_prev) =~= dec_str(m_prev / 10) + seq![digit_char(m_prev % 10)]);
                assert(dec_str(n as nat) =~= dec_str(m as nat) + rev_chars(digits@));
            }
        }
    }
    append_rev_digits(s, &digits);
}

/// Append the fractional digits of `f`, nine wide before trimming.
fn push_frac_str(s: &mut String, f: u64)
    requires
        0 < f < 1000000000,
    ensures
        final(s)@ == old(s)@ + frac_digits(f as nat, 9),
{
    let mut g: u64 = f;
    let mut k: usize = 9;
    proof {
        lemma_pow10_9();
    }
    while g % 10 == 0
        invariant
            0 < g,
            k <= 9,
            (g as nat) < pow10(k as nat),
            frac_digits(f as nat, 9) == frac_digits(g as nat, k as nat),
        decreases k,
    {
        proof {
            assert(pow10(0) == 1nat);
            assert(k >= 1);
            assert(pow10(k as nat) == 10 * pow10((k - 1) as nat));
        }
        g = g / 10;
        k = k - 1;
    }
    let mut digits: Vec<u64> = Vec::new();
    let mut m: u64 = g;
    let mut i: usize = 0;
    proof {
        assert(rev_chars(digits@) =~= Seq::<char>::empty());
        assert(pad_digits(g as nat, k as nat) =~= pad_digits(m as nat, (k - i) as nat) + rev_chars(
            digits@,
        ));
    }
    while i < k
        invariant
            i <= k,
            digits@.len() == i,
            forall|j: int| 0 <= j < digits@.len() ==> digits@[j] < 10,
            pad_digits(g as nat, k as nat) == pad_digits(m as nat, (k - i) as nat) + rev_chars(
                digits@,
            ),
        decreases k - i,
    {
        let d = m % 10;
        proof {
            lemma_rev_chars_push(digits@, d);
        }
        digits.push(d);
        let ghost m_prev: nat = m as nat;
        let ghost w_prev: nat = (k - i) as nat;
        m = m / 10;
        i = i + 1;
        proof {
            assert(pad_digits(m_prev, w_prev) =~= pad_digits(m_prev / 10, (w_prev - 1) as nat)
                + seq![digit_char(m_prev % 10)]);
            assert(pad_digits(g as nat, k as nat) =~= pad_digits(m as nat, (k - i) as nat)
                + rev_chars(digits@));
        }
    }
    proof {
        assert(pad_digits(m as nat, 0) =~= Seq::<char>::empty());
        assert(pad_digits(g as nat, k as nat) =~= rev_chars(digits@));
        assert(frac_digits(f as nat, 9) == pad_digits(g as nat, k as nat));
    }
    append_rev_digits(s, &digits);
}

/// Render the display form of the fixed-point price `p` scaled by 1e9.
pub fn render_price(p: u64) -> (s: String)
    ensures
        s@ == display_str(p as nat),
{
    let whole: u64 = p / 1000000000;
    let frac: u64 = p % 1000000000;
    let mut s = String::new();
    push_dec_str(&mut s, whole);
    if frac != 0 {
        proof {
            reveal_strlit(".");
            assert((".")@ =~= seq!['.']);
        }
        s.append(".");
        push_frac_str(&mut s, frac);
    }
    proof {
        assert(s@ =~= display_str(p as nat));
    }
    s
}

} // verus!
