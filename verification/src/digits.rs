//! Decimal formatting of unsigned integers, with an exact character-level
//! specification. Used to render ports into endpoints, bind addresses and
//! query strings.

use vstd::prelude::*;
use vstd::string::StringExecFns;

verus! {

/// The character for one decimal digit.
pub open spec fn digit_char(d: nat) -> char
    recommends
        d < 10,
{
    if d == 0 {
        '0'
    } else if d == 1 {
        '1'
    } else if d == 2 {
        '2'
    } else if d == 3 {
        '3'
    } else if d == 4 {
        '4'
    } else if d == 5 {
        '5'
    } else if d == 6 {
        '6'
    } else if d == 7 {
        '7'
    } else if d == 8 {
        '8'
    } else {
        '9'
    }
}

/// The decimal representation of `n`, most significant digit first, with no
/// leading zeros (and a single `0` for zero itself).
pub open spec fn dec_digits(n: nat) -> Seq<char>
    decreases n,
{
    if n < 10 {
        seq![digit_char(n)]
    } else {
        dec_digits(n / 10).push(digit_char(n % 10))
    }
}

/// The characters for a stack of digits collected least significant first,
/// read back most significant first.
spec fn rev_chars(ds: Seq<u64>) -> Seq<char> {
    Seq::new(ds.len(), |i: int| digit_char(ds[ds.len() - 1 - i] as nat))
}

proof fn lemma_rev_chars_push(ds: Seq<u64>, d: u64)
    ensures
        rev_chars(ds.push(d)) =~= seq![digit_char(d as nat)] + rev_chars(ds),
{
}

/// Append the character of one decimal digit to `s`.
fn push_digit(s: &mut String, d: u64)
    requires
        d < 10,
    ensures
        final(s)@ == old(s)@.push(digit_char(d as nat)),
{
    proof {
        reveal_strlit("0");
        reveal_strlit("1");
        reveal_strlit("2");
        reveal_strlit("3");
        reveal_strlit("4");
        reveal_strlit("5");
        reveal_strlit("6");
        reveal_strlit("7");
        reveal_strlit("8");
        reveal_strlit("9");
    }
    match d {
        0 => s.append("0"),
        1 => s.append("1"),
        2 => s.append("2"),
        3 => s.append("3"),
        4 => s.append("4"),
        5 => s.append("5"),
        6 => s.append("6"),
        7 => s.append("7"),
        8 => s.append("8"),
        _ => s.append("9"),
    }
    proof {
        assert(s@ =~= old(s)@.push(digit_char(d as nat)));
    }
}

/// Render `n` in decimal.
pub fn fmt_u64(n: u64) -> (s: String)
    ensures
        s@ == dec_digits(n as nat),
{
    let mut rev: Vec<u64> = Vec::new();
    let mut m: u64 = n;
    loop
        invariant_except_break
            dec_digits(n as nat) == dec_digits(m as nat) + rev_chars(rev@),
        invariant
            forall|k: int| 0 <= k < rev@.len() ==> rev@[k] < 10,
        ensures
            forall|k: int| 0 <= k < rev@.len() ==> rev@[k] < 10,
            dec_digits(n as nat) == rev_chars(rev@),
        decreases m,
    {
        let d = m % 10;
        let ghost old_rev = rev@;
        let ghost old_m = m;
        rev.push(d);
        m = m / 10;
        proof {
            lemma_rev_chars_push(old_rev, d);
            if old_m >= 10 {
                assert(dec_digits(old_m as nat) == dec_digits((old_m / 10) as nat).push(
                    digit_char((old_m % 10) as nat),
                ));
                assert(dec_digits(m as nat).push(digit_char(d as nat)) + rev_chars(old_rev)
                    =~= dec_digits(m as nat) + rev_chars(rev@));
            } else {
                assert(dec_digits(old_m as nat) =~= seq![digit_char(d as nat)]);
                assert(seq![digit_char(d as nat)] + rev_chars(old_rev) =~= rev_chars(rev@));
            }
        }
        if m == 0 {
            break;
        }
    }
    let mut s = String::new();
    let len = rev.len();
    let mut i: usize = len;
    while i > 0
        invariant
            len == rev@.len(),
            i <= len,
            forall|k: int| 0 <= k < rev@.len() ==> rev@[k] < 10,
            s@ == rev_chars(rev@).take((len - i) as int),
        decreases i,
    {
        i = i - 1;
        push_digit(&mut s, rev[i]);
        proof {
            assert(rev_chars(rev@).take((len - i) as int) =~= rev_chars(rev@).take(
                (len - i - 1) as int,
            ).push(digit_char(rev@[i as int] as nat)));
        }
    }
    proof {
        assert(rev_chars(rev@).take(len as int) =~= rev_chars(rev@));
    }
    s
}

} // verus!
