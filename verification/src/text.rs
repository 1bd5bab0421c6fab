//! Decimal rendering of the integer values that appear in coordinates and in
//! bar-geometry options, together with the character-counting facts used to
//! state round-trip properties of rendered blocks.

use vstd::prelude::*;

verus! {

/// The decimal digit character for `d` (`0 <= d <= 9`).
pub open spec fn digit_char(d: int) -> char {
    if d == 0 {
        '0'
    } else if d == 1 {
        '1'
    } else if d == 2 {
        '2'
    } else if d == 3 {
        '3'
    } else if d == 4 {
        '4'
    } else if d == 5 {
        '5'
    } else if d == 6 {
        '6'
    } else if d == 7 {
        '7'
    } else if d == 8 {
        '8'
    } else {
        '9'
    }
}

/// The decimal text of a non-negative integer, most significant digit first,
/// with no leading zeros (except for the single digit `0` itself).
pub open spec fn nat_text(n: nat) -> Seq<char>
    decreases n,
{
    if n < 10 {
        seq![digit_char(n as int)]
    } else {
        nat_text(n / 10) + seq![digit_char((n % 10) as int)]
    }
}

/// The decimal text of an integer: a minus sign for negative values, then the
/// decimal digits of the magnitude.
pub open spec fn int_text(v: int) -> Seq<char> {
    if v < 0 {
        "-"@ + nat_text((-v) as nat)
    } else {
        nat_text(v as nat)
    }
}

/// Whether `c` is one of the ten decimal digit characters.
pub open spec fn is_digit_char(c: char) -> bool {
    c == '0' || c == '1' || c == '2' || c == '3' || c == '4' || c == '5' || c == '6' || c == '7'
        || c == '8' || c == '9'
}

/// How many times the character `c` occurs in `s`.
pub open spec fn char_count(s: Seq<char>, c: char) -> nat
    decreases s.len(),
{
    if s.len() == 0 {
        0
    } else {
        char_count(s.drop_last(), c) + (if s.last() == c {
            1nat
        } else {
            0nat
        })
    }
}

/// Counting occurrences distributes over concatenation.
pub proof fn lemma_char_count_add(a: Seq<char>, b: Seq<char>, c: char)
    ensures
        char_count(a + b, c) == char_count(a, c) + char_count(b, c),
    decreases b.len(),
{
    if b.len() == 0 {
        assert(a + b =~= a);
    } else {
        lemma_char_count_add(a, b.drop_last(), c);
        assert((a + b).drop_last() =~= a + b.drop_last());
        assert((a + b).last() == b.last());
    }
}

/// A one-character sequence contains `c` once if it is `c`, else not at all.
pub proof fn lemma_char_count_single(s: Seq<char>, c: char)
    requires
        s.len() == 1,
    ensures
        char_count(s, c) == (if s[0] == c {
            1nat
        } else {
            0nat
        }),
{
    assert(s.drop_last().len() == 0);
    assert(char_count(s.drop_last(), c) == 0);
}

/// A rendered non-negative integer never contains a non-digit character.
pub proof fn lemma_nat_text_count(n: nat, c: char)
    requires
        !is_digit_char(c),
    ensures
        char_count(nat_text(n), c) == 0,
    decreases n,
{
    if n < 10 {
        lemma_char_count_single(nat_text(n), c);
    } else {
        lemma_nat_text_count(n / 10, c);
        lemma_char_count_add(nat_text(n / 10), seq![digit_char((n % 10) as int)], c);
        lemma_char_count_single(seq![digit_char((n % 10) as int)], c);
    }
}

/// A rendered integer contains neither digits' absentees: any character that
/// is not a digit and not the minus sign never occurs in it.
pub proof fn lemma_int_text_count(v: int, c: char)
    requires
        !is_digit_char(c),
        c != '-',
    ensures
        char_count(int_text(v), c) == 0,
{
    if v < 0 {
        reveal_strlit("-");
        lemma_char_count_single("-"@, c);
        lemma_nat_text_count((-v) as nat, c);
        lemma_char_count_add("-"@, nat_text((-v) as nat), c);
    } else {
        lemma_nat_text_count(v as nat, c);
    }
}

/// The digit character for a machine-level digit value.
fn digit_str(d: u64) -> (r: &'static str)
    requires
        d < 10,
    ensures
        r@ == seq![digit_char(d as int)],
{
    if d == 0 {
        proof {
            reveal_strlit("0");
            assert("0"@ =~= seq![digit_char(d as int)]);
        }
        "0"
    } else if d == 1 {
        proof {
            reveal_strlit("1");
            assert("1"@ =~= seq![digit_char(d as int)]);
        }
        "1"
    } else if d == 2 {
        proof {
            reveal_strlit("2");
            assert("2"@ =~= seq![digit_char(d as int)]);
        }
        "2"
    } else if d == 3 {
        proof {
            reveal_strlit("3");
            assert("3"@ =~= seq![digit_char(d as int)]);
        }
        "3"
    } else if d == 4 {
        proof {
            reveal_strlit("4");
            assert("4"@ =~= seq![digit_char(d as int)]);
        }
        "4"
    } else if d == 5 {
        proof {
            reveal_strlit("5");
            assert("5"@ =~= seq![digit_char(d as int)]);
        }
        "5"
    } else if d == 6 {
        proof {
            reveal_strlit("6");
            assert("6"@ =~= seq![digit_char(d as int)]);
        }
        "6"
    } else if d == 7 {
        proof {
            reveal_strlit("7");
            assert("7"@ =~= seq![digit_char(d as int)]);
        }
        "7"
    } else if d == 8 {
        proof {
            reveal_strlit("8");
            assert("8"@ =~= seq![digit_char(d as int)]);
        }
        "8"
    } else {
        proof {
            reveal_strlit("9");
            assert("9"@ =~= seq![digit_char(d as int)]);
        }
        "9"
    }
}

/// Render a non-negative machine integer to decimal text.
pub fn u64_text(n: u64) -> (r: String)
    ensures
        r@ == nat_text(n as nat),
    decreases n,
{
    if n < 10 {
        String::from_str(digit_str(n))
    } else {
        let mut s = u64_text(n / 10);
        s.append(digit_str(n % 10));
        s
    }
}

/// Render a signed machine integer to decimal text.
pub fn i64_text(v: i64) -> (r: String)
    ensures
        r@ == int_text(v as int),
{
    if v >= 0 {
        u64_text(v as u64)
    } else {
        let magnitude: u64 = ((-(v + 1)) as u64) + 1;
        proof {
            assert(magnitude as int == -(v as int));
        }
        let mut s = String::from_str("-");
        s.append(u64_text(magnitude).as_str());
        proof {
            assert(s@ =~= int_text(v as int));
        }
        s
    }
}

} // verus!
