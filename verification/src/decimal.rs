//! Decimal integers as text: what a run of digits denotes, how an integer is
//! written, and that reading undoes writing.

use vstd::prelude::*;
use vstd::string::*;
use crate::scan::{is_space, space_free};

verus! {

/// `c` is one of `0` to `9`.
pub open spec fn is_digit(c: char) -> bool {
    '0' <= c <= '9'
}

/// The number that the digit `c` stands for.
pub open spec fn digit_value(c: char) -> nat {
    (c as int - '0' as int) as nat
}

/// The digit that stands for `d`, for `d` below ten.
pub open spec fn digit_char(d: nat) -> char {
    ('0' as int + d) as char
}

/// Every character of `s` is a digit.
pub open spec fn all_digits(s: Seq<char>) -> bool {
    forall|i: int| 0 <= i < s.len() ==> is_digit(#[trigger] s[i])
}

/// The number that the digits `s` denote in base ten; leading zeros count
/// for nothing.
pub open spec fn digits_value(s: Seq<char>) -> nat
    decreases s.len(),
{
    if s.len() == 0 {
        0
    } else {
        digits_value(s.drop_last()) * 10 + digit_value(s.last())
    }
}

/// The digits of `n` in base ten, without leading zeros.
pub open spec fn digits_of(n: nat) -> Seq<char>
    decreases n,
{
    if n < 10 {
        seq![digit_char(n)]
    } else {
        digits_of(n / 10).push(digit_char(n % 10))
    }
}

/// How an integer is written: a minus sign for a negative one, then the
/// digits of its magnitude.
pub open spec fn render_int(v: int) -> Seq<char> {
    if v < 0 {
        seq!['-'] + digits_of((-v) as nat)
    } else {
        digits_of(v as nat)
    }
}

/// The integer that `s` denotes: an optional `+` or `-`, then one digit or
/// more and nothing else. Any other text denotes none.
pub open spec fn parse_int(s: Seq<char>) -> Option<int> {
    let signed = s.len() > 0 && (s[0] == '-' || s[0] == '+');
    let body = if signed {
        s.subrange(1, s.len() as int)
    } else {
        s
    };
    if body.len() == 0 || !all_digits(body) {
        None
    } else if signed && s[0] == '-' {
        Some(-(digits_value(body) as int))
    } else {
        Some(digits_value(body) as int)
    }
}

/// The `i32` that `s` denotes, if it denotes an integer in the range of `i32`.
pub open spec fn parse_i32_spec(s: Seq<char>) -> Option<i32> {
    match parse_int(s) {
        Some(v) => if i32::MIN <= v <= i32::MAX {
            Some(v as i32)
        } else {
            None
        },
        None => None,
    }
}

/// The digits of a number are digits, at least one of them, and denote it.
pub proof fn lemma_digits_of(n: nat)
    ensures
        digits_of(n).len() >= 1,
        all_digits(digits_of(n)),
        digits_value(digits_of(n)) == n,
    decreases n,
{
    if n < 10 {
        let s = digits_of(n);
        assert(s.drop_last() =~= Seq::<char>::empty());
        assert(digits_value(s.drop_last()) == 0);
    } else {
        lemma_digits_of(n / 10);
        let s = digits_of(n);
        assert(s.drop_last() =~= digits_of(n / 10));
        assert(s.last() == digit_char(n % 10));
    }
}

/// Reading what was written gives the integer back.
pub proof fn lemma_parse_render(v: int)
    ensures
        parse_int(render_int(v)) == Some(v),
{
    let s = render_int(v);
    if v < 0 {
        let m = (-v) as nat;
        lemma_digits_of(m);
        assert(s.subrange(1, s.len() as int) =~= digits_of(m));
    } else {
        lemma_digits_of(v as nat);
        assert(is_digit(s[0]));
    }
}

/// A written integer is not empty and holds no whitespace.
pub proof fn lemma_render_is_word(v: int)
    ensures
        render_int(v).len() >= 1,
        space_free(render_int(v)),
{
    let s = render_int(v);
    if v < 0 {
        let m = (-v) as nat;
        lemma_digits_of(m);
        assert forall|i: int| 0 <= i < s.len() implies !is_space(#[trigger] s[i]) by {
            if i > 0 {
                assert(s[i] == digits_of(m)[i - 1]);
                assert(is_digit(digits_of(m)[i - 1]));
            }
        }
    } else {
        lemma_digits_of(v as nat);
        assert forall|i: int| 0 <= i < s.len() implies !is_space(#[trigger] s[i]) by {
            assert(is_digit(s[i]));
        }
    }
}

/// The text of one digit.
fn digit_text(d: u64) -> (t: &'static str)
    requires
        d < 10,
    ensures
        t@ == seq![digit_char(d as nat)],
{
    proof {
        reveal_strlit("0");
        reveal_strlit("1");
        reveal_strlit("2");
        reveal_strlit("3");
        reveal_strlit("4");
        reveal_strlit("5");
        reveal_strlit("6");
        reveal_strlit("7");
        reveal_strlit("8");
        reveal_strlit("9");
    }
    let t = match d {
        0 => "0",
        1 => "1",
        2 => "2",
        3 => "3",
        4 => "4",
        5 => "5",
        6 => "6",
        7 => "7",
        8 => "8",
        _ => "9",
    };
    assert(t@ =~= seq![digit_char(d as nat)]);
    t
}

/// Appends the digits of `n` to `out`.
pub fn push_digits(out: &mut String, n: u64)
    ensures
        final(out)@ == old(out)@ + digits_of(n as nat),
    decreases n,
{
    if n >= 10 {
        push_digits(out, n / 10);
    }
    out.append(digit_text(n % 10));
    assert(out@ =~= old(out)@ + digits_of(n as nat));
}

/// Appends `v`, written in decimal, to `out`.
pub fn push_decimal(out: &mut String, v: i64)
    ensures
        final(out)@ == old(out)@ + render_int(v as int),
{
    if v < 0 {
        let magnitude: u64 = if v == i64::MIN {
            9223372036854775808u64
        } else {
            (-v) as u64
        };
        proof {
            reveal_strlit("-");
        }
        out.append("-");
        push_digits(out, magnitude);
        assert(out@ =~= old(out)@ + render_int(v as int));
    } else {
        push_digits(out, v as u64);
    }
}

/// Reads an `i32` written in decimal: an optional sign, then digits only.
/// `None` for any other text and for a number outside the range of `i32`.
pub fn parse_i32(text: &Vec<char>) -> (r: Option<i32>)
    ensures
        r == parse_i32_spec(text@),
{
    let n = text.len();
    if n == 0 {
        return None;
    }
    let negative = text[0] == '-';
    let start: usize = if text[0] == '-' || text[0] == '+' {
        1
    } else {
        0
    };
    if start == n {
        return None;
    }
    let ghost body = text@.subrange(start as int, n as int);
    assert(start == 0 ==> body =~= text@);
    let mut magnitude: i64 = 0;
    let mut too_big = false;
    let mut i: usize = start;
    while i < n
        invariant
            start <= i <= n,
            n == text.len(),
            body == text@.subrange(start as int, n as int),
            start == 0 ==> body == text@,
            start == 1 <==> text@[0] == '-' || text@[0] == '+',
            all_digits(body.take(i - start)),
            !too_big ==> magnitude == digits_value(body.take(i - start)) && magnitude
                <= 2147483648,
            too_big ==> digits_value(body.take(i - start)) > 2147483648,
        decreases n - i,
    {
        let c: char = text[i];
        let ghost seen = body.take(i - start);
        let ghost next = body.take(i - start + 1);
        proof {
            assert(next.drop_last() =~= seen);
            assert(next.last() == c);
        }
        if !(c >= '0' && c <= '9') {
            assert(!is_digit(body[i - start]));
            return None;
        }
        let d: i64 = (c as u32 - '0' as u32) as i64;
        if !too_big {
            magnitude = magnitude * 10 + d;
            if magnitude > 2147483648 {
                too_big = true;
            }
        }
        i = i + 1;
    }
    proof {
        assert(body.take(n - start) =~= body);
    }
    if too_big {
        None
    } else if negative {
        Some((-magnitude) as i32)
    } else if magnitude <= 2147483647 {
        Some(magnitude as i32)
    } else {
        None
    }
}

} // verus!
