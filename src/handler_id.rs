//! Handler ids: a type character (`r` for a runner, `c` for a client)
//! followed by a sequence number written in decimal.

use vstd::prelude::*;
use vstd::relations::injective_on;
use vstd::set_lib::{lemma_int_range, lemma_len_subset, lemma_map_size, set_int_range};
use vstd::string::*;

verus! {

/// Whether a character names one of the two kinds of handlers.
pub open spec fn valid_handler_type(t: char) -> bool {
    t == 'r' || t == 'c'
}

/// The decimal digit for a number below ten.
pub open spec fn digit_char(d: nat) -> char {
    if d == 0 {
        '0'
    } else if d == 1 {
        '1'
    } else if d == 2 {
        '2'
    } else if d == 3 {
        '3'
    } else if d == 4 {
        '4'
    } else if d == 5 {
        '5'
    } else if d == 6 {
        '6'
    } else if d == 7 {
        '7'
    } else if d == 8 {
        '8'
    } else {
        '9'
    }
}

/// The decimal notation of a number, without leading zeros.
pub open spec fn decimal(n: nat) -> Seq<char>
    decreases n,
{
    if n < 10 {
        seq![digit_char(n)]
    } else {
        decimal(n / 10) + seq![digit_char(n % 10)]
    }
}

/// The id of the handler of type `t` with sequence number `n`.
pub open spec fn handler_id(t: char, n: nat) -> Seq<char> {
    seq![t] + decimal(n)
}

proof fn lemma_decimal_len(n: nat)
    ensures
        decimal(n).len() >= 1,
        n >= 10 ==> decimal(n).len() >= 2,
    decreases n,
{
    if n >= 10 {
        lemma_decimal_len(n / 10);
    }
}

proof fn lemma_digit_char_injective(x: nat, y: nat)
    requires
        x < 10,
        y < 10,
        digit_char(x) == digit_char(y),
    ensures
        x == y,
{
}

proof fn lemma_decimal_injective(a: nat, b: nat)
    requires
        decimal(a) == decimal(b),
    ensures
        a == b,
    decreases a,
{
    lemma_decimal_len(a);
    lemma_decimal_len(b);
    if a >= 10 && b >= 10 {
        let da = decimal(a);
        assert(da.last() == digit_char(a % 10));
        assert(decimal(b).last() == digit_char(b % 10));
        assert(da.drop_last() =~= decimal(a / 10));
        assert(decimal(b).drop_last() =~= decimal(b / 10));
        lemma_decimal_injective(a / 10, b / 10);
        lemma_digit_char_injective(a % 10, b % 10);
        assert(a == 10 * (a / 10) + a % 10) by (nonlinear_arith);
        assert(b == 10 * (b / 10) + b % 10) by (nonlinear_arith);
    } else if a < 10 && b < 10 {
        assert(decimal(a) == seq![digit_char(a)]);
        assert(decimal(b) == seq![digit_char(b)]);
        assert(seq![digit_char(a)][0] == seq![digit_char(b)][0]);
        lemma_digit_char_injective(a, b);
    }
}

/// Two ids of one type are equal only for equal sequence numbers.
pub proof fn lemma_handler_id_injective(t: char, a: nat, b: nat)
    requires
        handler_id(t, a) == handler_id(t, b),
    ensures
        a == b,
{
    assert(handler_id(t, a).drop_first() =~= decimal(a));
    assert(handler_id(t, b).drop_first() =~= decimal(b));
    lemma_decimal_injective(a, b);
}

/// The ids of one type with the numbers `0..=n` cannot all occur in a list of
/// at most `n` ids.
pub proof fn lemma_free_number_exists(t: char, ids: Seq<Seq<char>>, n: nat)
    requires
        forall|m: nat| m <= n ==> ids.contains(#[trigger] handler_id(t, m)),
    ensures
        n < ids.len(),
{
    let x = set_int_range(0, n + 1 as int);
    let f = |i: int| handler_id(t, i as nat);
    let y = x.map(f);
    lemma_int_range(0, n + 1 as int);
    assert(injective_on(f, x)) by {
        assert forall|a: int, b: int| x.contains(a) && x.contains(b) && #[trigger] f(a) == #[trigger] f(b)
            implies a == b by {
            lemma_handler_id_injective(t, a as nat, b as nat);
        }
    }
    lemma_map_size(x, y, f);
    assert(y.subset_of(ids.to_set())) by {
        assert forall|s: Seq<char>| y.contains(s) implies ids.to_set().contains(s) by {
            let i = choose|i: int| x.contains(i) && f(i) == s;
            assert(ids.contains(handler_id(t, i as nat)));
        }
    }
    lemma_len_subset(y, ids.to_set());
    ids.lemma_cardinality_of_set();
}

/// The decimal digit of a number below ten, as text.
fn digit_text(d: usize) -> (r: &'static str)
    requires
        d < 10,
    ensures
        r@ == seq![digit_char(d as nat)],
{
    if d == 0 {
        proof { reveal_strlit("0"); }
        "0"
    } else if d == 1 {
        proof { reveal_strlit("1"); }
        "1"
    } else if d == 2 {
        proof { reveal_strlit("2"); }
        "2"
    } else if d == 3 {
        proof { reveal_strlit("3"); }
        "3"
    } else if d == 4 {
        proof { reveal_strlit("4"); }
        "4"
    } else if d == 5 {
        proof { reveal_strlit("5"); }
        "5"
    } else if d == 6 {
        proof { reveal_strlit("6"); }
        "6"
    } else if d == 7 {
        proof { reveal_strlit("7"); }
        "7"
    } else if d == 8 {
        proof { reveal_strlit("8"); }
        "8"
    } else {
        proof { reveal_strlit("9"); }
        "9"
    }
}

/// The decimal notation of a number.
pub fn decimal_text(n: usize) -> (r: String)
    ensures
        r@ == decimal(n as nat),
    decreases n,
{
    if n < 10 {
        String::from_str(digit_text(n))
    } else {
        let mut s = decimal_text(n / 10);
        s.append(digit_text(n % 10));
        s
    }
}

/// The id of the handler of type `t` with sequence number `n`.
pub fn handler_id_text(t: char, n: usize) -> (r: String)
    requires
        valid_handler_type(t),
    ensures
        r@ == handler_id(t, n as nat),
{
    let mut s = if t == 'r' {
        proof { reveal_strlit("r"); }
        String::from_str("r")
    } else {
        proof { reveal_strlit("c"); }
        String::from_str("c")
    };
    let digits = decimal_text(n);
    s.append(digits.as_str());
    s
}

/// The first character of a text, or a space for the empty text.
pub open spec fn leading_char(s: Seq<char>) -> char {
    if s.len() > 0 {
        s[0]
    } else {
        ' '
    }
}

/// The first character of a text, or a space for the empty text.
pub(crate) fn leading_char_of(s: &str) -> (r: char)
    ensures
        r == leading_char(s@),
{
    let mut chars = s.chars();
    match chars.next() {
        Some(c) => c,
        None => ' ',
    }
}

} // verus!
