//! Plain-text helpers: joining rendered terms with the `+` separator and
//! rendering unsigned integers in decimal.

use vstd::prelude::*;

verus! {

/// The terms of a query, joined by a single `+` between neighbours.
/// No separator leads or trails, so an empty list renders to the empty
/// sequence.
pub open spec fn join_plus(terms: Seq<Seq<char>>) -> Seq<char>
    decreases terms.len(),
{
    if terms.len() == 0 {
        Seq::empty()
    } else if terms.len() == 1 {
        terms[0]
    } else {
        join_plus(terms.drop_last()) + seq!['+'] + terms.last()
    }
}

/// Joining after appending one more term: the new term lands at the end,
/// preceded by a separator exactly when there already was a term.
pub proof fn lemma_join_plus_push(terms: Seq<Seq<char>>, t: Seq<char>)
    ensures
        terms.len() == 0 ==> join_plus(terms.push(t)) == t,
        terms.len() > 0 ==> join_plus(terms.push(t)) == join_plus(terms) + seq!['+'] + t,
{
    let pushed = terms.push(t);
    assert(pushed.last() == t);
    if terms.len() > 0 {
        assert(pushed.drop_last() =~= terms);
    }
}

/// Builds the joined rendering of `terms` in one pass.
pub fn join_terms(terms: &Vec<String>) -> (r: String)
    ensures
        r@ == join_plus(terms.deep_view()),
{
    let mut out = String::new();
    let ghost all = terms.deep_view();
    let n = terms.len();
    for i in 0..n
        invariant
            n == terms.len(),
            all == terms.deep_view(),
            all.len() == n,
            out@ == join_plus(all.take(i as int)),
    {
        proof {
            assert(all.take(i as int).push(all[i as int]) =~= all.take(i + 1));
            lemma_join_plus_push(all.take(i as int), all[i as int]);
            assert(all[i as int] == terms[i as int]@);
        }
        if i > 0 {
            out.append("+");
            proof {
                reveal_strlit("+");
                assert("+"@ =~= seq!['+']);
            }
        }
        out.append(terms[i].as_str());
    }
    proof {
        assert(all.take(n as int) =~= all);
    }
    out
}

/// The decimal digit characters, low to high.
pub open spec fn dec_digit(d: nat) -> char {
    if d == 0 {
        '0'
    } else if d == 1 {
        '1'
    } else if d == 2 {
        '2'
    } else if d == 3 {
        '3'
    } else if d == 4 {
        '4'
    } else if d == 5 {
        '5'
    } else if d == 6 {
        '6'
    } else if d == 7 {
        '7'
    } else if d == 8 {
        '8'
    } else {
        '9'
    }
}

/// The usual decimal rendering of `n`: most significant digit first,
/// no leading zeroes, and `0` itself rendered as the single digit `0`.
pub open spec fn dec_rep(n: nat) -> Seq<char>
    decreases n,
{
    if n < 10 {
        seq![dec_digit(n)]
    } else {
        dec_rep(n / 10).push(dec_digit(n % 10))
    }
}

/// One decimal digit as a borrowed string.
fn digit_str(d: usize) -> (r: &'static str)
    requires
        d < 10,
    ensures
        r@ == seq![dec_digit(d as nat)],
{
    proof {
        reveal_strlit("0");
        reveal_strlit("1");
        reveal_strlit("2");
        reveal_strlit("3");
        reveal_strlit("4");
        reveal_strlit("5");
        reveal_strlit("6");
        reveal_strlit("7");
        reveal_strlit("8");
        reveal_strlit("9");
    }
    let r = match d {
        0 => "0",
        1 => "1",
        2 => "2",
        3 => "3",
        4 => "4",
        5 => "5",
        6 => "6",
        7 => "7",
        8 => "8",
        _ => "9",
    };
    proof {
        assert(r@ =~= seq![dec_digit(d as nat)]);
    }
    r
}

/// Renders `n` in decimal.
pub fn usize_to_decimal(n: usize) -> (r: String)
    ensures
        r@ == dec_rep(n as nat),
    decreases n,
{
    if n < 10 {
        digit_str(n).to_owned()
    } else {
        let mut high = usize_to_decimal(n / 10);
        high.append(digit_str(n % 10));
        proof {
            assert(dec_rep((n / 10) as nat) + seq![dec_digit((n % 10) as nat)] =~= dec_rep(
                n as nat,
            ));
        }
        high
    }
}

} // verus!
