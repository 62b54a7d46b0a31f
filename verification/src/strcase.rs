//! Text helpers for diagnostics: pluralization, decimal rendering of
//! counts, and comma-joined lists.

use vstd::prelude::*;

verus! {

/// The word as written when the count is exactly one, the word with an
/// `s` appended otherwise.
pub open spec fn plural_or_singular(count: nat, word: Seq<char>) -> Seq<char> {
    if count == 1 {
        word
    } else {
        word + "s"@
    }
}

pub fn to_plural_or_singular(count: usize, word: &str) -> (text: String)
    ensures
        text@ == plural_or_singular(count as nat, word@),
{
    let mut text = String::from_str(word);
    if count != 1 {
        text.append("s");
    }
    text
}

/// The decimal digit `d`, for `d < 10`, as a character.
pub open spec fn digit_char(d: nat) -> char {
    if d == 0 {
        '0'
    } else if d == 1 {
        '1'
    } else if d == 2 {
        '2'
    } else if d == 3 {
        '3'
    } else if d == 4 {
        '4'
    } else if d == 5 {
        '5'
    } else if d == 6 {
        '6'
    } else if d == 7 {
        '7'
    } else if d == 8 {
        '8'
    } else {
        '9'
    }
}

/// The decimal representation of `n`, most significant digit first,
/// without leading zeros (`0` itself is the single digit `0`).
pub open spec fn dec_chars(n: nat) -> Seq<char>
    decreases n,
{
    if n < 10 {
        seq![digit_char(n)]
    } else {
        dec_chars(n / 10).push(digit_char(n % 10))
    }
}

fn digit_str(d: usize) -> (s: &'static str)
    requires
        d < 10,
    ensures
        s@ == seq![digit_char(d as nat)],
{
    let s: &'static str = match d {
        0 => "0",
        1 => "1",
        2 => "2",
        3 => "3",
        4 => "4",
        5 => "5",
        6 => "6",
        7 => "7",
        8 => "8",
        _ => "9",
    };
    proof {
        reveal_strlit("0");
        reveal_strlit("1");
        reveal_strlit("2");
        reveal_strlit("3");
        reveal_strlit("4");
        reveal_strlit("5");
        reveal_strlit("6");
        reveal_strlit("7");
        reveal_strlit("8");
        reveal_strlit("9");
        assert(s@ =~= seq![digit_char(d as nat)]);
    }
    s
}

pub fn usize_to_string(n: usize) -> (s: String)
    ensures
        s@ == dec_chars(n as nat),
    decreases n,
{
    if n < 10 {
        String::from_str(digit_str(n))
    } else {
        let mut s = usize_to_string(n / 10);
        s.append(digit_str(n % 10));
        proof {
            assert(s@ =~= dec_chars((n / 10) as nat).push(digit_char((n % 10) as nat)));
        }
        s
    }
}

/// The items joined with a comma and a space between neighbours.
pub open spec fn join_comma(items: Seq<Seq<char>>) -> Seq<char>
    decreases items.len(),
{
    if items.len() == 0 {
        Seq::empty()
    } else if items.len() == 1 {
        items[0]
    } else {
        join_comma(items.drop_last()) + ", "@ + items.last()
    }
}

pub fn join_with_comma(items: &Vec<String>) -> (joined: String)
    ensures
        joined@ == join_comma(items.deep_view()),
{
    let mut joined = String::new();
    let mut i: usize = 0;
    while i < items.len()
        invariant
            0 <= i <= items@.len(),
            joined@ == join_comma(items.deep_view().take(i as int)),
        decreases items@.len() - i,
    {
        if i > 0 {
            joined.append(", ");
        }
        joined.append(items[i].as_str());
        proof {
            let dv = items.deep_view();
            assert(dv.take(i + 1).drop_last() =~= dv.take(i as int));
            assert(dv.take(i + 1).last() == dv[i as int]);
            if i == 0 {
                assert(joined@ =~= join_comma(dv.take(1)));
            }
        }
        i = i + 1;
    }
    proof {
        assert(items.deep_view().take(items@.len() as int) =~= items.deep_view());
    }
    joined
}

} // verus!
