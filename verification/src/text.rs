//! Small operations on text that the parsers share.

use vstd::prelude::*;
use vstd::string::StrSliceExecFns;
use vstd::string::StringExecFns;

verus! {

/// Whether `at` is the position of the first `c` in `text`.
pub open spec fn is_first_occurrence(text: Seq<char>, c: char, at: int) -> bool {
    &&& 0 <= at < text.len()
    &&& text[at] == c
    &&& forall|j: int| 0 <= j < at ==> text[j] != c
}

/// The position of the first `c` in a text that holds one.
pub open spec fn first_index_of(text: Seq<char>, c: char) -> int {
    choose|at: int| is_first_occurrence(text, c, at)
}

/// The part of `text` before its first `c`.
pub open spec fn before_first(text: Seq<char>, c: char) -> Seq<char> {
    text.subrange(0, first_index_of(text, c))
}

/// The part of `text` after its first `c`.
pub open spec fn after_first(text: Seq<char>, c: char) -> Seq<char> {
    text.subrange(first_index_of(text, c) + 1, text.len() as int)
}

/// A text that holds `c` has exactly one first occurrence of it.
pub proof fn lemma_first_index_of(text: Seq<char>, c: char)
    requires
        text.contains(c),
    ensures
        is_first_occurrence(text, c, first_index_of(text, c)),
        forall|at: int| is_first_occurrence(text, c, at) ==> at == first_index_of(text, c),
{
    let some = choose|i: int| 0 <= i < text.len() && text[i] == c;
    lemma_first_occurrence_exists(text, c, some);
}

proof fn lemma_first_occurrence_exists(text: Seq<char>, c: char, upto: int)
    requires
        0 <= upto < text.len(),
        text[upto] == c,
    ensures
        exists|at: int| is_first_occurrence(text, c, at),
    decreases upto,
{
    if exists|j: int| 0 <= j < upto && text[j] == c {
        let j = choose|j: int| 0 <= j < upto && text[j] == c;
        lemma_first_occurrence_exists(text, c, j);
    } else {
        assert(is_first_occurrence(text, c, upto));
    }
}

/// Finds the first `c` in `text`, counting in characters.
pub fn find_char(text: &str, c: char) -> (found: Option<usize>)
    ensures
        found is None <==> !text@.contains(c),
        found matches Some(at) ==> at == first_index_of(text@, c) && is_first_occurrence(
            text@,
            c,
            at as int,
        ),
{
    let length = text.unicode_len();
    let mut at: usize = 0;
    for x in it: text.chars()
        invariant
            at == it.index(),
            length == text@.len(),
            it.seq() == text@,
            forall|j: int| 0 <= j < at ==> text@[j] != c,
    {
        if x == c {
            proof {
                assert(is_first_occurrence(text@, c, at as int));
                lemma_first_index_of(text@, c);
            }
            return Some(at);
        }
        at = at + 1;
    }
    None
}

/// The character of a decimal digit.
pub open spec fn decimal_digit(d: nat) -> char {
    (d + 48) as u8 as char
}

/// A number in decimal, without leading zeros.
pub open spec fn decimal(n: nat) -> Seq<char>
    decreases n,
{
    if n < 10 {
        seq![decimal_digit(n)]
    } else {
        decimal(n / 10) + seq![decimal_digit(n % 10)]
    }
}

fn digit_text(d: u16) -> (text: &'static str)
    requires
        d < 10,
    ensures
        text@ == seq![decimal_digit(d as nat)],
{
    proof {
        reveal_strlit("0");
        reveal_strlit("1");
        reveal_strlit("2");
        reveal_strlit("3");
        reveal_strlit("4");
        reveal_strlit("5");
        reveal_strlit("6");
        reveal_strlit("7");
        reveal_strlit("8");
        reveal_strlit("9");
    }
    let text = if d == 0 {
        "0"
    } else if d == 1 {
        "1"
    } else if d == 2 {
        "2"
    } else if d == 3 {
        "3"
    } else if d == 4 {
        "4"
    } else if d == 5 {
        "5"
    } else if d == 6 {
        "6"
    } else if d == 7 {
        "7"
    } else if d == 8 {
        "8"
    } else {
        "9"
    };
    assert(text@ =~= seq![decimal_digit(d as nat)]);
    text
}

/// Writes `n` in decimal.
pub fn to_decimal(n: u16) -> (text: String)
    ensures
        text@ == decimal(n as nat),
    decreases n,
{
    if n < 10 {
        String::from_str(digit_text(n))
    } else {
        let mut text = to_decimal(n / 10);
        text.append(digit_text(n % 10));
        text
    }
}

} // verus!
