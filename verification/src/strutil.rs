//! Decimal rendering of unsigned integers, used wherever a number is placed
//! into a path, a command argument or a `/proc` identity file.

use vstd::prelude::*;

verus! {

/// The character for the decimal digit `d` (meaningful for `d < 10`).
pub open spec fn digit_char(d: nat) -> char {
    if d == 0 {
        '0'
    } else if d == 1 {
        '1'
    } else if d == 2 {
        '2'
    } else if d == 3 {
        '3'
    } else if d == 4 {
        '4'
    } else if d == 5 {
        '5'
    } else if d == 6 {
        '6'
    } else if d == 7 {
        '7'
    } else if d == 8 {
        '8'
    } else {
        '9'
    }
}

/// The decimal representation of `n`: most significant digit first, no
/// leading zeros, and `0` is rendered as the single digit `0`.
pub open spec fn dec_rep(n: nat) -> Seq<char>
    decreases n,
{
    if n < 10 {
        seq![digit_char(n)]
    } else {
        dec_rep(n / 10).push(digit_char(n % 10))
    }
}

/// The one-character string for the decimal digit `d`.
fn digit_str(d: u32) -> (r: &'static str)
    requires
        d < 10,
    ensures
        r@ == seq![digit_char(d as nat)],
{
    proof {
        reveal_strlit("0");
        reveal_strlit("1");
        reveal_strlit("2");
        reveal_strlit("3");
        reveal_strlit("4");
        reveal_strlit("5");
        reveal_strlit("6");
        reveal_strlit("7");
        reveal_strlit("8");
        reveal_strlit("9");
    }
    let r: &'static str = if d == 0 {
        "0"
    } else if d == 1 {
        "1"
    } else if d == 2 {
        "2"
    } else if d == 3 {
        "3"
    } else if d == 4 {
        "4"
    } else if d == 5 {
        "5"
    } else if d == 6 {
        "6"
    } else if d == 7 {
        "7"
    } else if d == 8 {
        "8"
    } else {
        "9"
    };
    proof {
        assert(r@ =~= seq![digit_char(d as nat)]);
    }
    r
}

/// Is `c` a decimal digit?
pub open spec fn is_digit(c: char) -> bool {
    c == '0' || c == '1' || c == '2' || c == '3' || c == '4' || c == '5' || c == '6' || c == '7'
        || c == '8' || c == '9'
}

/// The value of the decimal digit `c` (meaningful when `is_digit(c)`).
pub open spec fn d_of(c: char) -> nat {
    if c == '0' {
        0
    } else if c == '1' {
        1
    } else if c == '2' {
        2
    } else if c == '3' {
        3
    } else if c == '4' {
        4
    } else if c == '5' {
        5
    } else if c == '6' {
        6
    } else if c == '7' {
        7
    } else if c == '8' {
        8
    } else {
        9
    }
}

/// The value of a digit string, most significant digit first.
pub open spec fn digits_val(q: Seq<char>) -> nat
    decreases q.len(),
{
    if q.len() == 0 {
        0
    } else {
        digits_val(q.drop_last()) * 10 + d_of(q.last())
    }
}

/// Every character of a decimal representation is a digit.
pub proof fn lemma_dec_rep_is_digits(n: nat)
    ensures
        forall|i: int| 0 <= i < dec_rep(n).len() ==> is_digit(#[trigger] dec_rep(n)[i]),
    decreases n,
{
    if n < 10 {
        assert(dec_rep(n) == seq![digit_char(n)]);
        assert(is_digit(digit_char(n)));
    } else {
        lemma_dec_rep_is_digits(n / 10);
        let q = dec_rep(n);
        assert forall|i: int| 0 <= i < q.len() implies is_digit(#[trigger] q[i]) by {
            if i < q.len() - 1 {
                assert(q[i] == dec_rep(n / 10)[i]);
            } else {
                assert(q[i] == digit_char(n % 10));
                assert(is_digit(digit_char(n % 10)));
            }
        }
    }
}

/// A decimal representation is nonempty and carries no leading zero.
pub proof fn lemma_dec_rep_shape(n: nat)
    ensures
        dec_rep(n).len() >= 1,
        dec_rep(n).len() > 1 ==> dec_rep(n)[0] != '0',
        n >= 1 ==> dec_rep(n)[0] != '0',
    decreases n,
{
    if n >= 10 {
        lemma_dec_rep_shape(n / 10);
    }
}

/// Reading the digits of a decimal representation gives the number back.
pub proof fn lemma_digits_val_dec_rep(n: nat)
    ensures
        digits_val(dec_rep(n)) == n,
    decreases n,
{
    if n < 10 {
        let q = seq![digit_char(n)];
        assert(dec_rep(n) == q);
        assert(q.drop_last() =~= Seq::<char>::empty());
        assert(digits_val(Seq::<char>::empty()) == 0);
        assert(q.last() == digit_char(n));
        assert(d_of(digit_char(n)) == n);
    } else {
        lemma_digits_val_dec_rep(n / 10);
        let q = dec_rep(n);
        assert(q.drop_last() =~= dec_rep(n / 10));
        assert(q.last() == digit_char(n % 10));
        assert(d_of(digit_char(n % 10)) == n % 10);
    }
}

/// A nonempty digit string without a leading zero is the decimal
/// representation of its own value.
pub proof fn lemma_dec_rep_of_digits(q: Seq<char>)
    requires
        q.len() >= 1,
        forall|i: int| 0 <= i < q.len() ==> is_digit(#[trigger] q[i]),
        q.len() > 1 ==> q[0] != '0',
    ensures
        dec_rep(digits_val(q)) == q,
    decreases q.len(),
{
    if q.len() == 1 {
        let v = digits_val(q);
        assert(digits_val(q.drop_last()) == 0);
        assert(v == d_of(q[0]));
        assert(digit_char(d_of(q[0])) == q[0]);
        assert(dec_rep(v) =~= q);
    } else {
        let qp = q.drop_last();
        assert(forall|i: int| 0 <= i < qp.len() ==> is_digit(#[trigger] qp[i]));
        lemma_dec_rep_of_digits(qp);
        let vp = digits_val(qp);
        if vp == 0 {
            assert(dec_rep(0) =~= seq!['0']);
            assert(qp[0] == '0');
            assert(false);
        }
        let v = digits_val(q);
        assert(v == vp * 10 + d_of(q.last()));
        assert(v >= 10) by {
            assert(vp >= 1);
        }
        assert(v / 10 == vp && v % 10 == d_of(q.last())) by {
            assert(d_of(q.last()) < 10);
        }
        assert(digit_char(d_of(q.last())) == q.last());
        assert(dec_rep(v) == dec_rep(vp).push(digit_char((v % 10) as nat)));
        assert(dec_rep(v) =~= q);
    }
}

/// A number below one thousand is rendered in at most three digits.
pub proof fn lemma_dec_rep_len_le_3(n: nat)
    requires
        n < 1000,
    ensures
        dec_rep(n).len() <= 3,
{
    if n < 10 {
        assert(dec_rep(n).len() == 1);
    } else if n < 100 {
        assert(dec_rep(n / 10).len() == 1);
        assert(dec_rep(n).len() == 2);
    } else {
        let m = n / 10;
        assert(10 <= m < 100);
        assert(dec_rep(m / 10).len() == 1);
        assert(dec_rep(m).len() == 2);
        assert(dec_rep(n).len() == 3);
    }
}

/// Renders `n` in decimal.
pub fn u32_to_string(n: u32) -> (r: String)
    ensures
        r@ == dec_rep(n as nat),
    decreases n,
{
    if n < 10 {
        String::from_str(digit_str(n))
    } else {
        let mut s = u32_to_string(n / 10);
        s.append(digit_str(n % 10));
        proof {
            assert(s@ =~= dec_rep(n as nat));
        }
        s
    }
}

} // verus!
