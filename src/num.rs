use vstd::prelude::*;
use vstd::string::*;

verus! {

/// The decimal digit for `d` (`0 <= d < 10`).
pub open spec fn digit_char(d: int) -> char {
    if d == 0 {
        '0'
    } else if d == 1 {
        '1'
    } else if d == 2 {
        '2'
    } else if d == 3 {
        '3'
    } else if d == 4 {
        '4'
    } else if d == 5 {
        '5'
    } else if d == 6 {
        '6'
    } else if d == 7 {
        '7'
    } else if d == 8 {
        '8'
    } else {
        '9'
    }
}

/// Decimal text of a natural number, without leading zeros.
pub open spec fn nat_text(n: nat) -> Seq<char>
    decreases n,
{
    if n < 10 {
        seq![digit_char(n as int)]
    } else {
        nat_text(n / 10) + seq![digit_char((n % 10) as int)]
    }
}

/// The digits after the decimal point of `f` thousandths (`0 < f < 1000`),
/// trailing zeros dropped.
pub open spec fn frac_text(f: nat) -> Seq<char> {
    if f % 100 == 0 {
        seq![digit_char((f / 100) as int)]
    } else if f % 10 == 0 {
        seq![digit_char((f / 100) as int), digit_char((f / 10 % 10) as int)]
    } else {
        seq![digit_char((f / 100) as int), digit_char((f / 10 % 10) as int), digit_char((f % 10) as int)]
    }
}

/// Text of `m` thousandths: the whole part, then a point and the fraction
/// only where the fraction is not zero (`2000` is `2`, `400` is `0.4`).
pub open spec fn unsigned_milli_text(m: nat) -> Seq<char> {
    if m % 1000 == 0 {
        nat_text(m / 1000)
    } else {
        nat_text(m / 1000) + seq!['.'] + frac_text(m % 1000)
    }
}

/// Text of a signed fixed-point number of thousandths.
pub open spec fn milli_text(v: int) -> Seq<char> {
    if v < 0 {
        seq!['-'] + unsigned_milli_text((-v) as nat)
    } else {
        unsigned_milli_text(v as nat)
    }
}

/// The digits are the only characters that a number's text can hold,
/// besides a sign and a decimal point.
pub open spec fn is_number_char(c: char) -> bool {
    c == '-' || c == '.' || ('0' <= c && c <= '9')
}

proof fn lemma_digit_char(d: int)
    ensures
        is_number_char(digit_char(d)),
{
}

/// Every character of a natural number's text is a digit.
pub proof fn lemma_nat_text_chars(n: nat)
    ensures
        forall|i: int| 0 <= i < nat_text(n).len() ==> is_number_char(#[trigger] nat_text(n)[i]),
    decreases n,
{
    if n >= 10 {
        lemma_nat_text_chars(n / 10);
        lemma_digit_char((n % 10) as int);
        let t = nat_text(n);
        let h = nat_text(n / 10);
        assert forall|i: int| 0 <= i < t.len() implies is_number_char(#[trigger] t[i]) by {
            if i < h.len() {
                assert(t[i] == h[i]);
            }
        }
    } else {
        lemma_digit_char(n as int);
    }
}

/// Every character of a number's text is a sign, a digit or a point.
pub proof fn lemma_milli_text_chars(v: int)
    ensures
        forall|i: int| 0 <= i < milli_text(v).len() ==> is_number_char(#[trigger] milli_text(v)[i]),
{
    let m: nat = if v < 0 { (-v) as nat } else { v as nat };
    lemma_nat_text_chars(m / 1000);
    let f = m % 1000;
    lemma_digit_char((f / 100) as int);
    lemma_digit_char((f / 10 % 10) as int);
    lemma_digit_char((f % 10) as int);
    let u = unsigned_milli_text(m);
    assert forall|i: int| 0 <= i < u.len() implies is_number_char(#[trigger] u[i]) by {
        if i >= nat_text(m / 1000).len() {
        }
    }
    if v < 0 {
        assert forall|i: int| 0 <= i < milli_text(v).len() implies is_number_char(#[trigger] milli_text(v)[i]) by {
            if i > 0 {
                assert(milli_text(v)[i] == u[i - 1]);
            }
        }
    }
}

fn digit_str(d: u64) -> (r: &'static str)
    requires
        d < 10,
    ensures
        r@ == seq![digit_char(d as int)],
{
    proof {
        reveal_strlit("0");
        reveal_strlit("1");
        reveal_strlit("2");
        reveal_strlit("3");
        reveal_strlit("4");
        reveal_strlit("5");
        reveal_strlit("6");
        reveal_strlit("7");
        reveal_strlit("8");
        reveal_strlit("9");
    }
    if d == 0 {
        "0"
    } else if d == 1 {
        "1"
    } else if d == 2 {
        "2"
    } else if d == 3 {
        "3"
    } else if d == 4 {
        "4"
    } else if d == 5 {
        "5"
    } else if d == 6 {
        "6"
    } else if d == 7 {
        "7"
    } else if d == 8 {
        "8"
    } else {
        "9"
    }
}

/// Appends the decimal text of `n` to `out`.
pub fn append_nat(out: &mut String, n: u64)
    ensures
        final(out)@ == old(out)@ + nat_text(n as nat),
    decreases n,
{
    if n >= 10 {
        append_nat(out, n / 10);
    }
    out.append(digit_str(n % 10));
    proof {
        if n < 10 {
            assert(n % 10 == n);
        }
        assert(final(out)@ == old(out)@ + nat_text(n as nat));
    }
}

/// Appends the text of `v` thousandths to `out`.
pub fn append_milli(out: &mut String, v: i64)
    ensures
        final(out)@ == old(out)@ + milli_text(v as int),
{
    let m: u64 = if v < 0 {
        proof {
            reveal_strlit("-");
        }
        out.append("-");
        (0 - (v as i128)) as u64
    } else {
        v as u64
    };
    append_nat(out, m / 1000);
    let f: u64 = m % 1000;
    if f != 0 {
        proof {
            reveal_strlit(".");
        }
        out.append(".");
        out.append(digit_str(f / 100));
        if f % 100 != 0 {
            out.append(digit_str(f / 10 % 10));
            if f % 10 != 0 {
                out.append(digit_str(f % 10));
            }
        }
    }
    assert(final(out)@ == old(out)@ + milli_text(v as int));
}

} // verus!
