//! Which words are numbers, which of them are amounts, and how integers are
//! written in decimal.
//!
//! A word is a number when it is one of
//!
//! ```text
//! Float  ::= Sign? ( 'inf' | 'infinity' | 'nan' | Number )
//! Number ::= ( Digit+ | Digit+ '.' Digit* | Digit* '.' Digit+ ) Exp?
//! Exp    ::= 'e' Sign? Digit+
//! Sign   ::= [+-]
//! Digit  ::= [0-9]
//! ```
//!
//! with letters in either case. An amount is a number that is positive and
//! finite: it is not `inf`, `infinity` or `nan`, it has no `-` in front, and
//! it has a digit other than `0` before its exponent, if it has one.

use crate::text::{chars_of, folded, lemma_run, lemma_run_is, range_is, run, same_ignoring_case};
use vstd::prelude::*;

verus! {

/// Whether `c` is one of the digits `0` to `9`.
pub open spec fn is_digit(c: char) -> bool {
    '0' <= c <= '9'
}

/// Whether `c` is `+` or `-`.
pub open spec fn is_sign(c: char) -> bool {
    c == '+' || c == '-'
}

/// The digits.
pub open spec fn digit() -> spec_fn(char) -> bool {
    |c: char| is_digit(c)
}

/// The length of the longest prefix of `s` made of digits.
pub open spec fn digit_run(s: Seq<char>) -> nat {
    run(s, digit())
}

/// Whether `s` is an exponent: `e`, an optional sign, and one digit or more.
pub open spec fn is_exponent(s: Seq<char>) -> bool {
    &&& s.len() >= 1
    &&& (s[0] == 'e' || s[0] == 'E')
    &&& {
        let digits = if s.len() >= 2 && is_sign(s[1]) {
            s.skip(2)
        } else {
            s.skip(1)
        };
        digits.len() > 0 && digit_run(digits) == digits.len()
    }
}

/// Whether `s` is an unsigned decimal number: digits with at most one point
/// among them, at least one digit in all, and then possibly an exponent.
pub open spec fn is_decimal(s: Seq<char>) -> bool {
    let whole = digit_run(s);
    let point = if whole < s.len() && s[whole as int] == '.' {
        whole + 1
    } else {
        whole
    };
    let fraction = digit_run(s.skip(point as int));
    let end = point + fraction;
    &&& whole + fraction > 0
    &&& (end == s.len() || is_exponent(s.skip(end as int)))
}

/// What follows the sign of `s`, or `s` itself where it has none.
pub open spec fn unsigned(s: Seq<char>) -> Seq<char> {
    if s.len() >= 1 && is_sign(s[0]) {
        s.skip(1)
    } else {
        s
    }
}

/// Whether `s` is `inf`, `infinity` or `nan`, in any case.
pub open spec fn is_special(s: Seq<char>) -> bool {
    ||| same_ignoring_case(s, seq!['i', 'n', 'f'])
    ||| same_ignoring_case(s, seq!['i', 'n', 'f', 'i', 'n', 'i', 't', 'y'])
    ||| same_ignoring_case(s, seq!['n', 'a', 'n'])
}

/// Whether `s` is a number: after an optional sign, `inf`, `infinity` or `nan`
/// in any case, or an unsigned decimal number.
pub open spec fn is_number(s: Seq<char>) -> bool {
    is_special(unsigned(s)) || is_decimal(unsigned(s))
}

/// Whether `c` is one of the digits `1` to `9`.
pub open spec fn is_nonzero_digit(c: char) -> bool {
    '1' <= c <= '9'
}

/// The characters other than the `e` that begins an exponent.
pub open spec fn before_exponent() -> spec_fn(char) -> bool {
    |c: char| c != 'e' && c != 'E'
}

/// Whether `s` is an amount, that is a number which is positive and finite:
/// it is not `inf`, `infinity` or `nan`, it has no `-` in front, and it has a
/// digit other than `0` before its exponent, if it has one. How large or how
/// small the number is does not matter.
pub open spec fn is_amount(s: Seq<char>) -> bool {
    &&& is_number(s)
    &&& !is_special(unsigned(s))
    &&& !(s.len() >= 1 && s[0] == '-')
    &&& exists|i: int|
        0 <= i < run(s, before_exponent()) && is_nonzero_digit(#[trigger] s[i])
}

/// The amounts are the decimal numbers, with `+` in front or with no sign,
/// that have a digit other than `0` before their exponent: such a number is
/// never `inf`, `infinity` or `nan`.
pub proof fn lemma_amount_form(s: Seq<char>)
    ensures
        is_amount(s) <==> {
            &&& is_decimal(unsigned(s))
            &&& !(s.len() >= 1 && s[0] == '-')
            &&& exists|i: int|
                0 <= i < run(s, before_exponent()) && is_nonzero_digit(#[trigger] s[i])
        },
{
    let body = unsigned(s);
    if exists|i: int| 0 <= i < run(s, before_exponent()) && is_nonzero_digit(#[trigger] s[i]) {
        let i = choose|i: int|
            0 <= i < run(s, before_exponent()) && is_nonzero_digit(#[trigger] s[i]);
        lemma_run(s, before_exponent());
        let j = if s.len() >= 1 && is_sign(s[0]) {
            i - 1
        } else {
            i
        };
        assert(body[j] == s[i]);
        assert(folded(body[j]) == s[i] as u32);
        assert(!is_special(body));
    }
}

fn is_ascii_digit(c: char) -> (r: bool)
    ensures
        r == is_digit(c),
{
    '0' <= c && c <= '9'
}

/// The index after the digits that begin at `from`.
fn skip_digits(cs: &Vec<char>, from: usize) -> (r: usize)
    requires
        from <= cs.len(),
    ensures
        from <= r <= cs.len(),
        r - from == digit_run(cs@.skip(from as int)),
{
    let mut i: usize = from;
    while i < cs.len() && is_ascii_digit(cs[i])
        invariant
            from <= i <= cs.len(),
            forall|k: int| from <= k < i ==> is_digit(#[trigger] cs@[k]),
        decreases cs.len() - i,
    {
        i += 1;
    }
    proof {
        let rest = cs@.skip(from as int);
        assert forall|j: int| 0 <= j < i - from implies digit()(#[trigger] rest[j]) by {
            assert(rest[j] == cs@[from + j]);
        }
        lemma_run_is(rest, digit(), (i - from) as nat);
    }
    i
}

/// Tells whether `cs` holds an exponent from `from` on.
fn exponent_at(cs: &Vec<char>, from: usize) -> (r: bool)
    requires
        from <= cs.len(),
    ensures
        r == is_exponent(cs@.skip(from as int)),
{
    let ghost rest = cs@.skip(from as int);
    let n = cs.len();
    if from == n {
        return false;
    }
    assert(rest[0] == cs@[from as int]);
    if cs[from] != 'e' && cs[from] != 'E' {
        return false;
    }
    let mut start = from + 1;
    if start < n {
        assert(rest[1] == cs@[from + 1]);
        if cs[start] == '+' || cs[start] == '-' {
            start += 1;
        }
    }
    let end = skip_digits(cs, start);
    assert(rest.skip(start - from) == cs@.skip(start as int));
    start < n && end == n
}

/// Tells whether `cs` holds an unsigned decimal number from `from` on.
fn decimal_at(cs: &Vec<char>, from: usize) -> (r: bool)
    requires
        from <= cs.len(),
    ensures
        r == is_decimal(cs@.skip(from as int)),
{
    let ghost rest = cs@.skip(from as int);
    let n = cs.len();
    let whole_end = skip_digits(cs, from);
    let mut point = whole_end;
    if whole_end < n {
        assert(rest[whole_end - from] == cs@[whole_end as int]);
        if cs[whole_end] == '.' {
            point = whole_end + 1;
        }
    }
    let end = skip_digits(cs, point);
    assert(rest.skip(point - from) == cs@.skip(point as int));
    assert(rest.skip(end - from) == cs@.skip(end as int));
    let digits = (whole_end - from) + (end - point);
    if digits == 0 {
        return false;
    }
    end == n || exponent_at(cs, end)
}

/// Tells whether `cs` holds `inf`, `infinity` or `nan` from `from` on.
fn special_at(cs: &Vec<char>, from: usize) -> (r: bool)
    requires
        from <= cs.len(),
    ensures
        r == is_special(cs@.skip(from as int)),
{
    let inf: Vec<char> = vec!['i', 'n', 'f'];
    let infinity: Vec<char> = vec!['i', 'n', 'f', 'i', 'n', 'i', 't', 'y'];
    let nan: Vec<char> = vec!['n', 'a', 'n'];
    assert(inf@ == seq!['i', 'n', 'f']);
    assert(infinity@ == seq!['i', 'n', 'f', 'i', 'n', 'i', 't', 'y']);
    assert(nan@ == seq!['n', 'a', 'n']);
    let n = cs.len();
    assert(cs@.subrange(from as int, n as int) == cs@.skip(from as int));
    range_is(cs, from, n, &inf) || range_is(cs, from, n, &infinity) || range_is(cs, from, n, &nan)
}

/// The index after the sign of `cs`: 1 where it has one, 0 where it has none.
fn skip_sign(cs: &Vec<char>) -> (r: usize)
    ensures
        r <= cs.len(),
        cs@.skip(r as int) == unsigned(cs@),
{
    assert(cs@.skip(0) == cs@);
    if cs.len() >= 1 && (cs[0] == '+' || cs[0] == '-') {
        1
    } else {
        0
    }
}

/// Tells whether `cs` holds a number.
fn number_in(cs: &Vec<char>) -> (r: bool)
    ensures
        r == is_number(cs@),
{
    let from = skip_sign(cs);
    special_at(cs, from) || decimal_at(cs, from)
}

/// Tells whether `s` is a number.
pub fn is_numeric(s: &str) -> (r: bool)
    ensures
        r == is_number(s@),
{
    let cs = chars_of(s);
    number_in(&cs)
}

/// Tells whether `s` is an amount.
pub fn is_amount_text(s: &str) -> (r: bool)
    ensures
        r == is_amount(s@),
{
    let cs = chars_of(s);
    let from = skip_sign(&cs);
    if !number_in(&cs) || special_at(&cs, from) || (cs.len() >= 1 && cs[0] == '-') {
        return false;
    }
    let mut positive = false;
    let mut i: usize = 0;
    while i < cs.len() && cs[i] != 'e' && cs[i] != 'E'
        invariant
            i <= cs.len(),
            forall|k: int| 0 <= k < i ==> before_exponent()(#[trigger] cs@[k]),
            positive <==> exists|k: int| 0 <= k < i && is_nonzero_digit(#[trigger] cs@[k]),
        decreases cs.len() - i,
    {
        if '1' <= cs[i] && cs[i] <= '9' {
            positive = true;
        }
        i += 1;
    }
    proof {
        lemma_run_is(cs@, before_exponent(), i as nat);
    }
    positive
}

/// The character that stands for the digit `d`.
pub open spec fn digit_char(d: nat) -> char {
    if d == 0 {
        '0'
    } else if d == 1 {
        '1'
    } else if d == 2 {
        '2'
    } else if d == 3 {
        '3'
    } else if d == 4 {
        '4'
    } else if d == 5 {
        '5'
    } else if d == 6 {
        '6'
    } else if d == 7 {
        '7'
    } else if d == 8 {
        '8'
    } else {
        '9'
    }
}

/// `n` written in decimal, without leading zeros.
pub open spec fn decimal(n: nat) -> Seq<char>
    decreases n,
{
    if n < 10 {
        seq![digit_char(n)]
    } else {
        decimal(n / 10).push(digit_char(n % 10))
    }
}

/// `n` written in decimal, with `-` in front where it is negative.
pub open spec fn signed_decimal(n: int) -> Seq<char> {
    if n < 0 {
        seq!['-'] + decimal((-n) as nat)
    } else {
        decimal(n as nat)
    }
}

fn digit_text(d: u8) -> (r: &'static str)
    requires
        d < 10,
    ensures
        r@ == seq![digit_char(d as nat)],
{
    proof {
        reveal_strlit("0");
        reveal_strlit("1");
        reveal_strlit("2");
        reveal_strlit("3");
        reveal_strlit("4");
        reveal_strlit("5");
        reveal_strlit("6");
        reveal_strlit("7");
        reveal_strlit("8");
        reveal_strlit("9");
    }
    let r = match d {
        0 => "0",
        1 => "1",
        2 => "2",
        3 => "3",
        4 => "4",
        5 => "5",
        6 => "6",
        7 => "7",
        8 => "8",
        _ => "9",
    };
    assert(r@ =~= seq![digit_char(d as nat)]);
    r
}

/// Appends `n`, written in decimal, to `out`.
pub fn push_decimal(out: &mut String, n: u128)
    ensures
        final(out)@ == old(out)@ + decimal(n as nat),
    decreases n,
{
    if n >= 10 {
        push_decimal(out, n / 10);
    }
    let d: u8 = (n % 10) as u8;
    out.append(digit_text(d));
    assert(out@ =~= old(out)@ + decimal(n as nat));
}

/// Appends `n`, written in decimal with its sign, to `out`.
pub fn push_signed_decimal(out: &mut String, n: i64)
    ensures
        final(out)@ == old(out)@ + signed_decimal(n as int),
{
    if n < 0 {
        proof {
            reveal_strlit("-");
        }
        out.append("-");
        let wide: i128 = n as i128;
        let size: u128 = (-wide) as u128;
        push_decimal(out, size);
        assert(out@ =~= old(out)@ + signed_decimal(n as int));
    } else {
        push_decimal(out, n as u128);
    }
}

} // verus!
