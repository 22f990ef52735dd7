//! Small string routines: splitting at the last occurrence of a separator,
//! decimal rendering, and comparison.

use vstd::prelude::*;
use vstd::string::*;

verus! {

/// Position of the last `sep` in `s`, or `-1` when `s` holds none.
pub open spec fn last_position(s: Seq<char>, sep: char) -> int
    decreases s.len(),
{
    if s.len() == 0 {
        -1
    } else if s.last() == sep {
        s.len() - 1
    } else {
        last_position(s.drop_last(), sep)
    }
}

/// What follows the last `sep` in `s`; all of `s` when it holds none.
pub open spec fn after_last(s: Seq<char>, sep: char) -> Seq<char> {
    s.subrange(last_position(s, sep) + 1, s.len() as int)
}

/// The character that renders the decimal digit `d`.
pub open spec fn digit_char(d: nat) -> char {
    if d == 0 {
        '0'
    } else if d == 1 {
        '1'
    } else if d == 2 {
        '2'
    } else if d == 3 {
        '3'
    } else if d == 4 {
        '4'
    } else if d == 5 {
        '5'
    } else if d == 6 {
        '6'
    } else if d == 7 {
        '7'
    } else if d == 8 {
        '8'
    } else {
        '9'
    }
}

/// The decimal rendering of `n`, most significant digit first, without
/// leading zeros.
pub open spec fn decimal_digits(n: nat) -> Seq<char>
    decreases n,
{
    if n < 10 {
        seq![digit_char(n)]
    } else {
        decimal_digits(n / 10).push(digit_char(n % 10))
    }
}

/// `last_position` is the one index that holds `sep` with no `sep` after it.
pub proof fn lemma_last_position(s: Seq<char>, sep: char)
    ensures
        -1 <= last_position(s, sep) < s.len(),
        last_position(s, sep) >= 0 ==> s[last_position(s, sep)] == sep,
        forall|j: int| last_position(s, sep) < j < s.len() ==> s[j] != sep,
    decreases s.len(),
{
    if s.len() > 0 && s.last() != sep {
        lemma_last_position(s.drop_last(), sep);
        let p = last_position(s.drop_last(), sep);
        assert forall|j: int| p < j < s.len() implies s[j] != sep by {
            if j < s.len() - 1 {
                assert(s.drop_last()[j] == s[j]);
            }
        }
    }
}

/// Any index that holds `sep` with no `sep` after it is `last_position`.
pub proof fn lemma_last_position_unique(s: Seq<char>, sep: char, p: int)
    requires
        -1 <= p < s.len(),
        p >= 0 ==> s[p] == sep,
        forall|j: int| p < j < s.len() ==> s[j] != sep,
    ensures
        last_position(s, sep) == p,
{
    lemma_last_position(s, sep);
}

/// Index of the last `sep` in `s`, counted in characters.
pub fn find_last(s: &str, sep: char) -> (found: Option<usize>)
    ensures
        match found {
            Some(i) => last_position(s@, sep) == i,
            None => last_position(s@, sep) == -1,
        },
{
    let n: usize = s.unicode_len();
    let mut i: usize = n;
    while i > 0
        invariant
            i <= n,
            n == s@.len(),
            forall|j: int| i <= j < n ==> s@[j] != sep,
        decreases i,
    {
        if s.get_char(i - 1) == sep {
            proof {
                lemma_last_position_unique(s@, sep, i - 1);
            }
            return Some(i - 1);
        }
        i -= 1;
    }
    proof {
        lemma_last_position_unique(s@, sep, -1);
    }
    None
}

/// The part of `s` behind its last `sep`, or a copy of `s` when it holds
/// none.
pub fn tail_after(s: &str, sep: char) -> (tail: String)
    ensures
        tail@ == after_last(s@, sep),
{
    let n: usize = s.unicode_len();
    match find_last(s, sep) {
        Some(i) => {
            proof {
                lemma_last_position(s@, sep);
            }
            String::from_str(s.substring_char(i + 1, n))
        },
        None => {
            assert(s@.subrange(0, s@.len() as int) =~= s@);
            String::from_str(s)
        },
    }
}

/// The one-character string for the decimal digit `d`.
fn digit_str(d: u64) -> (s: &'static str)
    requires
        d < 10,
    ensures
        s@ == seq![digit_char(d as nat)],
{
    proof {
        reveal_strlit("0");
        reveal_strlit("1");
        reveal_strlit("2");
        reveal_strlit("3");
        reveal_strlit("4");
        reveal_strlit("5");
        reveal_strlit("6");
        reveal_strlit("7");
        reveal_strlit("8");
        reveal_strlit("9");
    }
    let s: &'static str = if d == 0 {
        "0"
    } else if d == 1 {
        "1"
    } else if d == 2 {
        "2"
    } else if d == 3 {
        "3"
    } else if d == 4 {
        "4"
    } else if d == 5 {
        "5"
    } else if d == 6 {
        "6"
    } else if d == 7 {
        "7"
    } else if d == 8 {
        "8"
    } else {
        "9"
    };
    assert(s@ =~= seq![digit_char(d as nat)]);
    s
}

/// Renders `n` in decimal.
pub fn decimal(n: u64) -> (s: String)
    ensures
        s@ == decimal_digits(n as nat),
    decreases n,
{
    if n < 10 {
        String::from_str(digit_str(n))
    } else {
        let mut s = decimal(n / 10);
        s.append(digit_str(n % 10));
        assert(s@ =~= decimal_digits(n as nat));
        s
    }
}

/// Whether two strings hold the same characters.
pub fn same_text(a: &str, b: &str) -> (equal: bool)
    ensures
        equal <==> a@ == b@,
{
    let n: usize = a.unicode_len();
    if n != b.unicode_len() {
        return false;
    }
    let mut i: usize = 0;
    while i < n
        invariant
            i <= n,
            n == a@.len(),
            n == b@.len(),
            forall|j: int| 0 <= j < i ==> a@[j] == b@[j],
        decreases n - i,
    {
        if a.get_char(i) != b.get_char(i) {
            return false;
        }
        i += 1;
    }
    assert(a@ =~= b@);
    true
}

} // verus!
