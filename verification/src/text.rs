//! Text building blocks for status messages: decimal rendering of counts,
//! comma-joined name lists, and pluralization.

use vstd::prelude::*;
use vstd::string::StringExecFns;

verus! {

/// The character for one decimal digit.
pub open spec fn digit_char(d: nat) -> char {
    if d == 0 {
        '0'
    } else if d == 1 {
        '1'
    } else if d == 2 {
        '2'
    } else if d == 3 {
        '3'
    } else if d == 4 {
        '4'
    } else if d == 5 {
        '5'
    } else if d == 6 {
        '6'
    } else if d == 7 {
        '7'
    } else if d == 8 {
        '8'
    } else {
        '9'
    }
}

/// Decimal rendering of `n`, most significant digit first, no leading zeros.
pub open spec fn dec_digits(n: nat) -> Seq<char>
    decreases n,
{
    if n < 10 {
        seq![digit_char(n)]
    } else {
        dec_digits(n / 10).push(digit_char(n % 10))
    }
}

fn push_digit(s: &mut String, d: u64)
    requires
        d < 10,
    ensures
        final(s)@ == old(s)@ + seq![digit_char(d as nat)],
{
    if d == 0 {
        s.append("0");
        proof {
            reveal_strlit("0");
            assert(s@ =~= old(s)@ + seq![digit_char(d as nat)]);
        }
    } else if d == 1 {
        s.append("1");
        proof {
            reveal_strlit("1");
            assert(s@ =~= old(s)@ + seq![digit_char(d as nat)]);
        }
    } else if d == 2 {
        s.append("2");
        proof {
            reveal_strlit("2");
            assert(s@ =~= old(s)@ + seq![digit_char(d as nat)]);
        }
    } else if d == 3 {
        s.append("3");
        proof {
            reveal_strlit("3");
            assert(s@ =~= old(s)@ + seq![digit_char(d as nat)]);
        }
    } else if d == 4 {
        s.append("4");
        proof {
            reveal_strlit("4");
            assert(s@ =~= old(s)@ + seq![digit_char(d as nat)]);
        }
    } else if d == 5 {
        s.append("5");
        proof {
            reveal_strlit("5");
            assert(s@ =~= old(s)@ + seq![digit_char(d as nat)]);
        }
    } else if d == 6 {
        s.append("6");
        proof {
            reveal_strlit("6");
            assert(s@ =~= old(s)@ + seq![digit_char(d as nat)]);
        }
    } else if d == 7 {
        s.append("7");
        proof {
            reveal_strlit("7");
            assert(s@ =~= old(s)@ + seq![digit_char(d as nat)]);
        }
    } else if d == 8 {
        s.append("8");
        proof {
            reveal_strlit("8");
            assert(s@ =~= old(s)@ + seq![digit_char(d as nat)]);
        }
    } else {
        s.append("9");
        proof {
            reveal_strlit("9");
            assert(s@ =~= old(s)@ + seq![digit_char(d as nat)]);
        }
    }
}

/// Appends the decimal rendering of `n` to `s`.
pub fn push_dec(s: &mut String, n: u64)
    ensures
        final(s)@ == old(s)@ + dec_digits(n as nat),
    decreases n,
{
    if n < 10 {
        push_digit(s, n);
    } else {
        push_dec(s, n / 10);
        push_digit(s, n % 10);
        proof {
            assert(s@ =~= old(s)@ + dec_digits(n as nat));
        }
    }
}

/// The given names joined with `", "`.
pub open spec fn joined(names: Seq<Seq<char>>) -> Seq<char>
    decreases names.len(),
{
    if names.len() == 0 {
        Seq::empty()
    } else if names.len() == 1 {
        names[0]
    } else {
        names[0] + ", "@ + joined(names.drop_first())
    }
}

fn join_from(names: &Vec<String>, i: usize) -> (r: String)
    requires
        i < names@.len(),
    ensures
        r@ == joined(names.deep_view().skip(i as int)),
    decreases names@.len() - i,
{
    let len = names.len();
    let mut r = names[i].clone();
    if i + 1 < len {
        r.append(", ");
        let rest = join_from(names, i + 1);
        r.append(rest.as_str());
        proof {
            assert(names.deep_view().skip(i as int).drop_first() =~= names.deep_view().skip(
                i as int + 1,
            ));
            assert(r@ =~= joined(names.deep_view().skip(i as int)));
        }
    } else {
        proof {
            assert(names.deep_view().skip(i as int) =~= seq![names.deep_view()[i as int]]);
        }
    }
    r
}

/// Joins the names with `", "`; empty input gives the empty string.
pub fn join_names(names: &Vec<String>) -> (r: String)
    ensures
        r@ == joined(names.deep_view()),
{
    if names.len() == 0 {
        String::new()
    } else {
        let r = join_from(names, 0);
        proof {
            assert(names.deep_view().skip(0) =~= names.deep_view());
        }
        r
    }
}

/// `"s"` when the count calls for a plural, empty otherwise.
pub open spec fn plural_suffix(n: nat) -> Seq<char> {
    if n >= 2 {
        "s"@
    } else {
        Seq::empty()
    }
}

/// Appends `"s"` exactly when `n` names call for a plural.
pub fn push_plural_suffix(s: &mut String, n: usize)
    ensures
        final(s)@ == old(s)@ + plural_suffix(n as nat),
{
    if n >= 2 {
        s.append("s");
    }
    proof {
        assert(s@ =~= old(s)@ + plural_suffix(n as nat));
    }
}

/// Pluralization law: one name takes no trailing `"s"`; two or more names do.
pub proof fn lemma_pluralization(n: nat)
    ensures
        n == 1 ==> plural_suffix(n) == Seq::<char>::empty(),
        n >= 2 ==> plural_suffix(n) == "s"@,
{
}

} // verus!
