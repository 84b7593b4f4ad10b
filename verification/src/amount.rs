//! Fixed-point money amounts.
//!
//! An amount is a count of cents held in a `u64`, so that every amount has
//! exactly two fractional digits by construction and no binary floating
//! point is involved.  Rendering to the decimal text form used by the
//! storage layer is verified against the spec-level digit sequences below.

use vstd::prelude::*;

verus! {

/// The character for a single decimal digit.
pub open spec fn digit_char(d: nat) -> char {
    if d == 0 {
        '0'
    } else if d == 1 {
        '1'
    } else if d == 2 {
        '2'
    } else if d == 3 {
        '3'
    } else if d == 4 {
        '4'
    } else if d == 5 {
        '5'
    } else if d == 6 {
        '6'
    } else if d == 7 {
        '7'
    } else if d == 8 {
        '8'
    } else {
        '9'
    }
}

/// Whether a character is a decimal digit.
pub open spec fn is_digit(c: char) -> bool {
    c == '0' || c == '1' || c == '2' || c == '3' || c == '4' || c == '5' || c == '6' || c == '7'
        || c == '8' || c == '9'
}

/// The usual base-ten rendering of `n`, most significant digit first,
/// with no leading zeros except for `n == 0` itself.
pub open spec fn dec_seq(n: nat) -> Seq<char>
    decreases n,
{
    if n < 10 {
        seq![digit_char(n)]
    } else {
        dec_seq(n / 10) + seq![digit_char(n % 10)]
    }
}

/// The decimal text of an amount of `cents`: the whole units, a dot,
/// then exactly two fractional digits.
pub open spec fn amount_seq(cents: nat) -> Seq<char> {
    dec_seq(cents / 100) + seq!['.', digit_char((cents % 100) / 10), digit_char(cents % 10)]
}

/// Every character of `dec_seq` is a decimal digit.
pub proof fn lemma_dec_seq_digits(n: nat)
    ensures
        forall|i: int| 0 <= i < dec_seq(n).len() ==> is_digit(#[trigger] dec_seq(n)[i]),
    decreases n,
{
    if n < 10 {
        assert(dec_seq(n)[0] == digit_char(n));
    } else {
        lemma_dec_seq_digits(n / 10);
        assert forall|i: int| 0 <= i < dec_seq(n).len() implies is_digit(
            #[trigger] dec_seq(n)[i],
        ) by {
            let w = dec_seq(n / 10);
            if i < w.len() {
                assert(dec_seq(n)[i] == w[i]);
            } else {
                assert(dec_seq(n)[i] == digit_char(n % 10));
            }
        }
    }
}

/// An amount's text always carries exactly two fractional digits:
/// its third-from-last character is the only dot, and the two
/// characters after the dot are digits.
pub proof fn lemma_amount_two_fraction_digits(cents: nat)
    ensures
        amount_seq(cents).len() >= 4,
        amount_seq(cents)[amount_seq(cents).len() - 3] == '.',
        is_digit(amount_seq(cents)[amount_seq(cents).len() - 2]),
        is_digit(amount_seq(cents)[amount_seq(cents).len() - 1]),
        forall|i: int|
            0 <= i < amount_seq(cents).len() && i != amount_seq(cents).len() - 3
                ==> #[trigger] amount_seq(cents)[i] != '.',
{
    lemma_dec_seq_digits(cents / 100);
    assert forall|i: int|
        0 <= i < amount_seq(cents).len() && i != amount_seq(cents).len() - 3
        implies #[trigger] amount_seq(cents)[i] != '.' by {
        let s = amount_seq(cents);
        let w = dec_seq(cents / 100);
        if i < w.len() {
            assert(s[i] == w[i]);
            assert(is_digit(w[i]));
        }
    }
}

/// Appends the character for digit `d` to `s`.
fn append_digit(s: &mut String, d: u64)
    requires
        d < 10,
    ensures
        final(s)@ == old(s)@ + seq![digit_char(d as nat)],
{
    proof {
        reveal_strlit("0");
        reveal_strlit("1");
        reveal_strlit("2");
        reveal_strlit("3");
        reveal_strlit("4");
        reveal_strlit("5");
        reveal_strlit("6");
        reveal_strlit("7");
        reveal_strlit("8");
        reveal_strlit("9");
    }
    if d == 0 {
        s.append("0");
    } else if d == 1 {
        s.append("1");
    } else if d == 2 {
        s.append("2");
    } else if d == 3 {
        s.append("3");
    } else if d == 4 {
        s.append("4");
    } else if d == 5 {
        s.append("5");
    } else if d == 6 {
        s.append("6");
    } else if d == 7 {
        s.append("7");
    } else if d == 8 {
        s.append("8");
    } else {
        s.append("9");
    }
    proof {
        assert(s@ =~= old(s)@ + seq![digit_char(d as nat)]);
    }
}

/// Appends the base-ten rendering of `n` to `s`.
fn append_dec(s: &mut String, n: u64)
    ensures
        final(s)@ == old(s)@ + dec_seq(n as nat),
    decreases n,
{
    if n < 10 {
        append_digit(s, n);
    } else {
        append_dec(s, n / 10);
        append_digit(s, n % 10);
        proof {
            assert(s@ =~= old(s)@ + dec_seq(n as nat));
        }
    }
}

/// Renders an amount of `cents` as decimal text with exactly two
/// fractional digits, e.g. 12345 cents as "123.45".
pub fn amount_string(cents: u64) -> (r: String)
    ensures
        r@ == amount_seq(cents as nat),
{
    let mut s = String::new();
    append_dec(&mut s, cents / 100);
    proof {
        reveal_strlit(".");
    }
    s.append(".");
    append_digit(&mut s, (cents % 100) / 10);
    append_digit(&mut s, cents % 10);
    proof {
        assert(s@ =~= amount_seq(cents as nat));
    }
    s
}

} // verus!
