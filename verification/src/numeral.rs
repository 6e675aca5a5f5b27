//! Decimal text: rendering integers as decimal character sequences, and
//! recognising the decimal number tokens that coordinate fields must hold
//! (an optional minus sign, digits, and at most one decimal point with
//! digits on both sides).

use vstd::prelude::*;
use vstd::string::StrSliceExecFns;
use vstd::string::StringExecFns;

verus! {

pub open spec fn is_digit(c: char) -> bool {
    '0' <= c && c <= '9'
}

/// The digit character for a value below ten.
pub open spec fn digit_char(d: nat) -> char {
    if d == 0 {
        '0'
    } else if d == 1 {
        '1'
    } else if d == 2 {
        '2'
    } else if d == 3 {
        '3'
    } else if d == 4 {
        '4'
    } else if d == 5 {
        '5'
    } else if d == 6 {
        '6'
    } else if d == 7 {
        '7'
    } else if d == 8 {
        '8'
    } else {
        '9'
    }
}

/// The decimal rendering of a natural number, most significant digit first,
/// with no leading zeros (a bare `0` for zero).
pub open spec fn dec_nat(n: nat) -> Seq<char>
    decreases n,
{
    if n < 10 {
        seq![digit_char(n)]
    } else {
        dec_nat(n / 10) + seq![digit_char(n % 10)]
    }
}

/// The decimal rendering of an integer: a minus sign before the digits when
/// negative.
pub open spec fn dec_int(i: int) -> Seq<char> {
    if i < 0 {
        seq!['-'] + dec_nat((-i) as nat)
    } else {
        dec_nat(i as nat)
    }
}

fn digit_str(d: u64) -> (r: &'static str)
    requires
        d < 10,
    ensures
        r@ == seq![digit_char(d as nat)],
{
    proof {
        reveal_strlit("0");
        reveal_strlit("1");
        reveal_strlit("2");
        reveal_strlit("3");
        reveal_strlit("4");
        reveal_strlit("5");
        reveal_strlit("6");
        reveal_strlit("7");
        reveal_strlit("8");
        reveal_strlit("9");
    }
    let r = if d == 0 {
        "0"
    } else if d == 1 {
        "1"
    } else if d == 2 {
        "2"
    } else if d == 3 {
        "3"
    } else if d == 4 {
        "4"
    } else if d == 5 {
        "5"
    } else if d == 6 {
        "6"
    } else if d == 7 {
        "7"
    } else if d == 8 {
        "8"
    } else {
        "9"
    };
    proof {
        assert(r@ =~= seq![digit_char(d as nat)]);
    }
    r
}

/// Appends the decimal rendering of `n` to `out`.
pub fn push_dec_u64(n: u64, out: &mut String)
    ensures
        final(out)@ == old(out)@ + dec_nat(n as nat),
    decreases n,
{
    if n < 10 {
        out.append(digit_str(n));
    } else {
        proof {
            assert(n / 10 < n) by (nonlinear_arith)
                requires
                    n >= 10,
            ;
        }
        push_dec_u64(n / 10, out);
        out.append(digit_str(n % 10));
        proof {
            assert(old(out)@ + dec_nat((n / 10) as nat) + seq![digit_char((n % 10) as nat)]
                =~= old(out)@ + (dec_nat((n / 10) as nat) + seq![digit_char((n % 10) as nat)]));
        }
    }
}

/// Appends the decimal rendering of `n`, sign included, to `out`.
pub fn push_dec_i32(n: i32, out: &mut String)
    ensures
        final(out)@ == old(out)@ + dec_int(n as int),
{
    if n < 0 {
        proof {
            reveal_strlit("-");
        }
        out.append("-");
        proof {
            assert("-"@ =~= seq!['-']);
        }
        let m: i64 = -(n as i64);
        push_dec_u64(m as u64, out);
        proof {
            assert(old(out)@ + seq!['-'] + dec_nat((m as u64) as nat)
                =~= old(out)@ + (seq!['-'] + dec_nat((m as u64) as nat)));
        }
    } else {
        push_dec_u64(n as u64, out);
    }
}

/// Index of the first digit of a number token: one when a minus sign leads,
/// zero otherwise.
pub open spec fn num_start(s: Seq<char>) -> int {
    if s.len() > 0 && s[0] == '-' {
        1
    } else {
        0
    }
}

/// A decimal number token: an optional minus sign, then either digits alone
/// or digits, one decimal point, and digits again — never empty on either
/// side of the point.
pub open spec fn is_number_token(s: Seq<char>) -> bool {
    let b = num_start(s);
    ||| (b < s.len() && (forall|i: int| b <= i < s.len() ==> is_digit(#[trigger] s[i])))
    ||| (exists|k: int|
        b < k < s.len() - 1 && #[trigger] s[k] == '.' && (forall|i: int|
            b <= i < k ==> is_digit(#[trigger] s[i])) && (forall|i: int|
            k < i < s.len() ==> is_digit(#[trigger] s[i])))
}

proof fn lemma_not_token_bad_char(s: Seq<char>, p: int)
    requires
        num_start(s) <= p < s.len(),
        !is_digit(s[p]),
        s[p] != '.',
    ensures
        !is_number_token(s),
{
    if is_number_token(s) {
        let b = num_start(s);
        if b < s.len() && (forall|i: int| b <= i < s.len() ==> is_digit(#[trigger] s[i])) {
            assert(is_digit(s[p]));
        } else {
            let k = choose|k: int|
                b < k < s.len() - 1 && #[trigger] s[k] == '.' && (forall|i: int|
                    b <= i < k ==> is_digit(#[trigger] s[i])) && (forall|i: int|
                    k < i < s.len() ==> is_digit(#[trigger] s[i]));
            if p < k {
                assert(is_digit(s[p]));
            } else if p == k {
                assert(s[p] == '.');
            } else {
                assert(is_digit(s[p]));
            }
        }
    }
}

proof fn lemma_not_token_two_dots(s: Seq<char>, p1: int, p2: int)
    requires
        num_start(s) <= p1 < p2 < s.len(),
        s[p1] == '.',
        s[p2] == '.',
    ensures
        !is_number_token(s),
{
    if is_number_token(s) {
        let b = num_start(s);
        if b < s.len() && (forall|i: int| b <= i < s.len() ==> is_digit(#[trigger] s[i])) {
            assert(is_digit(s[p1]));
        } else {
            let k = choose|k: int|
                b < k < s.len() - 1 && #[trigger] s[k] == '.' && (forall|i: int|
                    b <= i < k ==> is_digit(#[trigger] s[i])) && (forall|i: int|
                    k < i < s.len() ==> is_digit(#[trigger] s[i]));
            if p1 < k {
                assert(is_digit(s[p1]));
            } else if p1 == k {
                assert(is_digit(s[p2]));
            } else {
                assert(is_digit(s[p1]));
            }
        }
    }
}

proof fn lemma_not_token_dot_at_edge(s: Seq<char>, d: int)
    requires
        num_start(s) <= d < s.len(),
        s[d] == '.',
        forall|j: int| num_start(s) <= j < s.len() && j != d ==> is_digit(#[trigger] s[j]),
        d == num_start(s) || d == s.len() - 1,
    ensures
        !is_number_token(s),
{
    if is_number_token(s) {
        let b = num_start(s);
        if b < s.len() && (forall|i: int| b <= i < s.len() ==> is_digit(#[trigger] s[i])) {
            assert(is_digit(s[d]));
        } else {
            let k = choose|k: int|
                b < k < s.len() - 1 && #[trigger] s[k] == '.' && (forall|i: int|
                    b <= i < k ==> is_digit(#[trigger] s[i])) && (forall|i: int|
                    k < i < s.len() ==> is_digit(#[trigger] s[i]));
            if k != d {
                assert(is_digit(s[k]));
            }
        }
    }
}

proof fn lemma_not_token_dot_at_start(s: Seq<char>)
    requires
        num_start(s) < s.len(),
        s[num_start(s)] == '.',
    ensures
        !is_number_token(s),
{
    if is_number_token(s) {
        let b = num_start(s);
        if b < s.len() && (forall|i: int| b <= i < s.len() ==> is_digit(#[trigger] s[i])) {
            assert(is_digit(s[b]));
        } else {
            let k = choose|k: int|
                b < k < s.len() - 1 && #[trigger] s[k] == '.' && (forall|i: int|
                    b <= i < k ==> is_digit(#[trigger] s[i])) && (forall|i: int|
                    k < i < s.len() ==> is_digit(#[trigger] s[i]));
            assert(is_digit(s[b]));
        }
    }
}

/// Decides whether `s` is a decimal number token.
pub fn is_number_str(s: &str) -> (r: bool)
    ensures
        r == is_number_token(s@),
{
    let n = s.unicode_len();
    if n == 0 {
        return false;
    }
    let first = s.get_char(0);
    let start: usize = if first == '-' {
        1
    } else {
        0
    };
    proof {
        assert(num_start(s@) == start as int);
    }
    if start == n {
        return false;
    }
    let mut i: usize = start;
    let mut dot: Option<usize> = None;
    while i < n
        invariant
            start <= i <= n,
            n == s@.len(),
            start as int == num_start(s@),
            start < n,
            match dot {
                Some(d) => start < d < i && s@[d as int] == '.' && (forall|j: int|
                    start <= j < i && j != d ==> is_digit(#[trigger] s@[j])),
                None => forall|j: int| start <= j < i ==> is_digit(#[trigger] s@[j]),
            },
        decreases n - i,
    {
        let c = s.get_char(i);
        if c == '.' {
            match dot {
                Some(d) => {
                    proof {
                        lemma_not_token_two_dots(s@, d as int, i as int);
                    }
                    return false;
                },
                None => {
                    if i == start {
                        proof {
                            lemma_not_token_dot_at_start(s@);
                        }
                        return false;
                    }
                    dot = Some(i);
                },
            }
        } else if !('0' <= c && c <= '9') {
            proof {
                lemma_not_token_bad_char(s@, i as int);
            }
            return false;
        }
        i += 1;
    }
    match dot {
        Some(d) => {
            if d + 1 < n {
                proof {
                    let b = num_start(s@);
                    assert(b < d as int && (d as int) < s@.len() - 1 && s@[d as int] == '.' && (forall|j: int|
                        b <= j < d as int ==> is_digit(#[trigger] s@[j])) && (forall|j: int|
                        (d as int) < j < s@.len() ==> is_digit(#[trigger] s@[j])));
                }
                true
            } else {
                proof {
                    lemma_not_token_dot_at_edge(s@, d as int);
                }
                false
            }
        },
        None => {
            proof {
                assert(num_start(s@) < s@.len() && (forall|j: int|
                    num_start(s@) <= j < s@.len() ==> is_digit(#[trigger] s@[j])));
            }
            true
        },
    }
}

} // verus!
