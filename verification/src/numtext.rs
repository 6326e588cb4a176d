//! Numeric text handling without any floating point: a recognizer for the
//! decimal float grammar (optional sign, digits with optional fraction and
//! exponent, or the textual forms of the non-finite values), and decimal
//! formatting of unsigned integers. Sample values arrive as text; whether a
//! sample is kept depends only on whether its text fits this grammar.
use vstd::prelude::*;

verus! {

/// An ASCII decimal digit.
pub open spec fn is_digit(c: char) -> bool {
    '0' <= c && c <= '9'
}

/// One step of the float-grammar automaton. States: 0 start, 1 after sign,
/// 2 integer digits, 3 leading dot, 4 fraction digits or trailing dot,
/// 5 after the exponent mark, 6 after the exponent sign, 7 exponent digits;
/// -1 is the dead state.
pub open spec fn float_step(st: int, c: char) -> int {
    if st == 0 {
        if c == '+' || c == '-' {
            1
        } else if is_digit(c) {
            2
        } else if c == '.' {
            3
        } else {
            -1
        }
    } else if st == 1 {
        if is_digit(c) {
            2
        } else if c == '.' {
            3
        } else {
            -1
        }
    } else if st == 2 {
        if is_digit(c) {
            2
        } else if c == '.' {
            4
        } else if c == 'e' || c == 'E' {
            5
        } else {
            -1
        }
    } else if st == 3 {
        if is_digit(c) {
            4
        } else {
            -1
        }
    } else if st == 4 {
        if is_digit(c) {
            4
        } else if c == 'e' || c == 'E' {
            5
        } else {
            -1
        }
    } else if st == 5 {
        if c == '+' || c == '-' {
            6
        } else if is_digit(c) {
            7
        } else {
            -1
        }
    } else if st == 6 || st == 7 {
        if is_digit(c) {
            7
        } else {
            -1
        }
    } else {
        -1
    }
}

/// The automaton's accepting states: a number is complete after integer
/// digits, fraction digits (or a trailing dot), or exponent digits.
pub open spec fn float_accepting(st: int) -> bool {
    st == 2 || st == 4 || st == 7
}

/// The automaton's state after reading all of `s` from state `st`.
pub open spec fn spec_float_run(st: int, s: Seq<char>) -> int
    decreases s.len(),
{
    if s.len() == 0 {
        st
    } else {
        spec_float_run(float_step(st, s[0]), s.skip(1))
    }
}

/// The lower-case form of an ASCII letter; other characters stay themselves.
pub open spec fn lower(c: char) -> char {
    if 'A' <= c && c <= 'Z' {
        (((c as u8) + 32) as char)
    } else {
        c
    }
}

/// The textual forms of the non-finite values, compared without case:
/// `inf`, `infinity` and `nan`.
pub open spec fn is_nonfinite_text(t: Seq<char>) -> bool {
    ||| (t.len() == 3 && lower(t[0]) == 'i' && lower(t[1]) == 'n' && lower(t[2]) == 'f')
    ||| (t.len() == 8 && lower(t[0]) == 'i' && lower(t[1]) == 'n' && lower(t[2]) == 'f' && lower(
        t[3],
    ) == 'i' && lower(t[4]) == 'n' && lower(t[5]) == 'i' && lower(t[6]) == 't' && lower(t[7])
        == 'y')
    ||| (t.len() == 3 && lower(t[0]) == 'n' && lower(t[1]) == 'a' && lower(t[2]) == 'n')
}

/// `s` without its leading sign, if it carries one.
pub open spec fn strip_sign(s: Seq<char>) -> Seq<char> {
    if s.len() > 0 && (s[0] == '+' || s[0] == '-') {
        s.skip(1)
    } else {
        s
    }
}

/// Whether `s` reads as a 64-bit float: an optionally signed decimal number
/// with optional fraction and exponent, or a non-finite form.
pub open spec fn is_float_text(s: Seq<char>) -> bool {
    is_nonfinite_text(strip_sign(s)) || float_accepting(spec_float_run(0, s))
}

/// Whether the lower-case form of `c` is exactly the (lower-case) letter `l`.
fn char_matches(c: char, l: char) -> (b: bool)
    requires
        'a' <= l && l <= 'z',
    ensures
        b == (lower(c) == l),
{
    proof {
        if 'A' <= c && c <= 'Z' {
            assert(lower(c) == (((c as u8) + 32) as char));
        }
    }
    c == l || ('A' <= c && c <= 'Z' && (((c as u8) + 32) as char) == l)
}

/// One step of the float-grammar automaton, on machine integers.
pub(crate) fn float_step_exec(st: i8, c: char) -> (r: i8)
    ensures
        r as int == float_step(st as int, c),
        -1 <= r <= 7,
{
    if st == 0 {
        if c == '+' || c == '-' {
            1
        } else if c >= '0' && c <= '9' {
            2
        } else if c == '.' {
            3
        } else {
            -1
        }
    } else if st == 1 {
        if c >= '0' && c <= '9' {
            2
        } else if c == '.' {
            3
        } else {
            -1
        }
    } else if st == 2 {
        if c >= '0' && c <= '9' {
            2
        } else if c == '.' {
            4
        } else if c == 'e' || c == 'E' {
            5
        } else {
            -1
        }
    } else if st == 3 {
        if c >= '0' && c <= '9' {
            4
        } else {
            -1
        }
    } else if st == 4 {
        if c >= '0' && c <= '9' {
            4
        } else if c == 'e' || c == 'E' {
            5
        } else {
            -1
        }
    } else if st == 5 {
        if c == '+' || c == '-' {
            6
        } else if c >= '0' && c <= '9' {
            7
        } else {
            -1
        }
    } else if st == 6 || st == 7 {
        if c >= '0' && c <= '9' {
            7
        } else {
            -1
        }
    } else {
        -1
    }
}

/// Whether `s` reads as a 64-bit float, per `is_float_text`.
pub fn is_numeric_text(s: &str) -> (b: bool)
    ensures
        b == is_float_text(s@),
{
    let n = s.unicode_len();
    let start: usize = if n > 0 {
        let c0 = s.get_char(0);
        if c0 == '+' || c0 == '-' {
            1
        } else {
            0
        }
    } else {
        0
    };
    proof {
        assert(strip_sign(s@) =~= s@.skip(start as int));
    }
    let rest = n - start;
    let mut nonfinite = false;
    if rest == 3 {
        let a = s.get_char(start);
        let b = s.get_char(start + 1);
        let c = s.get_char(start + 2);
        nonfinite = (char_matches(a, 'i') && char_matches(b, 'n') && char_matches(c, 'f'))
            || (char_matches(a, 'n') && char_matches(b, 'a') && char_matches(c, 'n'));
    } else if rest == 8 {
        nonfinite = char_matches(s.get_char(start), 'i') && char_matches(s.get_char(start + 1), 'n')
            && char_matches(s.get_char(start + 2), 'f') && char_matches(
            s.get_char(start + 3),
            'i',
        ) && char_matches(s.get_char(start + 4), 'n') && char_matches(s.get_char(start + 5), 'i')
            && char_matches(s.get_char(start + 6), 't') && char_matches(s.get_char(start + 7), 'y');
    }
    proof {
        assert forall|k: int| 0 <= k < s@.skip(start as int).len() implies s@.skip(start as int)[k]
            == s@[start + k] by {}
    }
    if nonfinite {
        return true;
    }
    let mut st: i8 = 0;
    let mut i: usize = 0;
    proof {
        assert(s@.skip(0) =~= s@);
    }
    while i < n
        invariant
            i <= n,
            n == s@.len(),
            spec_float_run(0, s@) == spec_float_run(st as int, s@.skip(i as int)),
            -1 <= st <= 7,
        decreases n - i,
    {
        let c = s.get_char(i);
        let next: i8 = float_step_exec(st, c);
        proof {
            assert(s@.skip(i as int)[0] == s@[i as int]);
            assert(s@.skip(i as int).skip(1) =~= s@.skip(i as int + 1));
            assert(next as int == float_step(st as int, s@[i as int]));
        }
        st = next;
        i = i + 1;
    }
    proof {
        assert(s@.skip(n as int) =~= Seq::<char>::empty());
    }
    st == 2 || st == 4 || st == 7
}

/// The character of one decimal digit.
pub open spec fn spec_digit(d: int) -> char {
    if d == 0 {
        '0'
    } else if d == 1 {
        '1'
    } else if d == 2 {
        '2'
    } else if d == 3 {
        '3'
    } else if d == 4 {
        '4'
    } else if d == 5 {
        '5'
    } else if d == 6 {
        '6'
    } else if d == 7 {
        '7'
    } else if d == 8 {
        '8'
    } else {
        '9'
    }
}

/// The decimal text of a non-negative integer, without sign or padding.
pub open spec fn spec_u64_text(n: int) -> Seq<char>
    decreases n,
{
    if n < 10 {
        seq![spec_digit(n)]
    } else {
        spec_u64_text(n / 10).push(spec_digit(n % 10))
    }
}

fn digit_str(d: u64) -> (r: &'static str)
    requires
        d < 10,
    ensures
        r@ == seq![spec_digit(d as int)],
{
    proof {
        reveal_strlit("0");
        reveal_strlit("1");
        reveal_strlit("2");
        reveal_strlit("3");
        reveal_strlit("4");
        reveal_strlit("5");
        reveal_strlit("6");
        reveal_strlit("7");
        reveal_strlit("8");
        reveal_strlit("9");
    }
    let r = if d == 0 {
        "0"
    } else if d == 1 {
        "1"
    } else if d == 2 {
        "2"
    } else if d == 3 {
        "3"
    } else if d == 4 {
        "4"
    } else if d == 5 {
        "5"
    } else if d == 6 {
        "6"
    } else if d == 7 {
        "7"
    } else if d == 8 {
        "8"
    } else {
        "9"
    };
    proof {
        assert(r@ =~= seq![spec_digit(d as int)]);
    }
    r
}

/// The decimal text of `n`, for the time fields of a metrics request.
pub fn u64_to_string(n: u64) -> (r: String)
    ensures
        r@ == spec_u64_text(n as int),
    decreases n,
{
    if n < 10 {
        digit_str(n).to_owned()
    } else {
        let mut s = u64_to_string(n / 10);
        s.append(digit_str(n % 10));
        proof {
            assert(spec_u64_text(n as int / 10) + seq![spec_digit(n as int % 10)] =~= spec_u64_text(
                n as int / 10,
            ).push(spec_digit(n as int % 10)));
        }
        s
    }
}

} // verus!
