//! A small JSON reader for the metrics backend's response bodies. It accepts
//! the common JSON shapes the wire contract uses: objects, arrays, strings
//! with the single-character and `\u` escapes, numbers, `true`, `false` and
//! `null`,
//! with arbitrary whitespace and member order. Number tokens are kept as
//! text; nothing here computes with them.
use vstd::prelude::*;

verus! {

/// A parsed JSON value. Number tokens stay textual.
pub enum Json {
    Null,
    Bool(bool),
    Num(String),
    Str(String),
    Arr(Vec<Json>),
    Obj(Vec<(String, Json)>),
}

/// The mathematical shape of a parsed JSON value.
pub enum JsonV {
    Null,
    Bool(bool),
    Num(Seq<char>),
    Str(Seq<char>),
    Arr(Seq<JsonV>),
    Obj(Seq<(Seq<char>, JsonV)>),
}

/// The mathematical shape of a parsed value: number and string contents as
/// character sequences, arrays and objects as sequences of shapes.
pub open spec fn jview(j: Json) -> JsonV
    decreases j,
{
    match j {
        Json::Null => JsonV::Null,
        Json::Bool(b) => JsonV::Bool(b),
        Json::Num(t) => JsonV::Num(t@),
        Json::Str(t) => JsonV::Str(t@),
        Json::Arr(v) => JsonV::Arr(jview_elems(v@)),
        Json::Obj(v) => JsonV::Obj(jview_members(v@)),
    }
}

/// The shapes of an array's elements, in order.
pub open spec fn jview_elems(v: Seq<Json>) -> Seq<JsonV>
    decreases v,
{
    if v.len() == 0 {
        Seq::empty()
    } else {
        seq![jview(v[0])] + jview_elems(v.skip(1))
    }
}

/// The shapes of an object's members, in order.
pub open spec fn jview_members(v: Seq<(String, Json)>) -> Seq<(Seq<char>, JsonV)>
    decreases v,
{
    if v.len() == 0 {
        Seq::empty()
    } else {
        seq![(v[0].0@, jview(v[0].1))] + jview_members(v.skip(1))
    }
}

/// An object's member shapes line up with its members.
pub proof fn lemma_jview_members_index(v: Seq<(String, Json)>)
    ensures
        jview_members(v).len() == v.len(),
        forall|i: int|
            0 <= i < v.len() ==> jview_members(v)[i] == (v[i].0@, jview(v[i].1)),
    decreases v.len(),
{
    if v.len() > 0 {
        lemma_jview_members_index(v.skip(1));
        assert forall|i: int| 0 <= i < v.len() implies jview_members(v)[i] == (
            v[i].0@,
            jview(v[i].1),
        ) by {
            if i > 0 {
                assert(v.skip(1)[i - 1] == v[i]);
                assert(jview_members(v)[i] == jview_members(v.skip(1))[i - 1]);
            }
        }
    }
}

/// An array's element shapes line up with its elements.
pub proof fn lemma_jview_elems_index(v: Seq<Json>)
    ensures
        jview_elems(v).len() == v.len(),
        forall|i: int| 0 <= i < v.len() ==> jview_elems(v)[i] == jview(v[i]),
    decreases v.len(),
{
    if v.len() > 0 {
        lemma_jview_elems_index(v.skip(1));
        assert forall|i: int| 0 <= i < v.len() implies jview_elems(v)[i] == jview(v[i]) by {
            if i > 0 {
                assert(v.skip(1)[i - 1] == v[i]);
                assert(jview_elems(v)[i] == jview_elems(v.skip(1))[i - 1]);
            }
        }
    }
}

/// JSON insignificant whitespace.
pub open spec fn is_ws(c: char) -> bool {
    c == ' ' || c == '\t' || c == '\n' || c == '\r'
}

/// An ASCII decimal digit.
pub open spec fn is_digit(c: char) -> bool {
    '0' <= c && c <= '9'
}

/// The first position at or after `pos` that holds no whitespace.
pub open spec fn spec_ws_end(s: Seq<char>, pos: int) -> int
    decreases s.len() - pos,
{
    if 0 <= pos < s.len() && is_ws(s[pos]) {
        spec_ws_end(s, pos + 1)
    } else {
        pos
    }
}


fn ws_end(s: &str, pos: usize) -> (r: usize)
    requires
        pos <= s@.len(),
    ensures
        r == spec_ws_end(s@, pos as int),
        pos <= r <= s@.len(),
    decreases s@.len() - pos,
{
    if pos < s.unicode_len() {
        let c = s.get_char(pos);
        if c == ' ' || c == '\t' || c == '\n' || c == '\r' {
            return ws_end(s, pos + 1);
        }
    }
    pos
}

/// The decoded character of a single-character string escape, if the escape
/// is one of JSON's (`\u` sequences are handled separately).
pub open spec fn spec_escape(c: char) -> Option<char> {
    if c == '"' {
        Some('"')
    } else if c == '\\' {
        Some('\\')
    } else if c == '/' {
        Some('/')
    } else if c == 'b' {
        Some('\u{0008}')
    } else if c == 'f' {
        Some('\u{000C}')
    } else if c == 'n' {
        Some('\n')
    } else if c == 't' {
        Some('\t')
    } else if c == 'r' {
        Some('\r')
    } else {
        None
    }
}

/// The value of one hexadecimal digit, either case; -1 for any other
/// character.
pub open spec fn spec_hex_val(c: char) -> int {
    if '0' <= c && c <= '9' {
        c as int - '0' as int
    } else if 'a' <= c && c <= 'f' {
        c as int - 'a' as int + 10
    } else if 'A' <= c && c <= 'F' {
        c as int - 'A' as int + 10
    } else {
        -1
    }
}

/// The value of the four hexadecimal digits at `pos`, if all four are there.
pub open spec fn spec_hex4(s: Seq<char>, pos: int) -> Option<int> {
    if 0 <= pos && pos + 4 <= s.len() && spec_hex_val(s[pos]) >= 0 && spec_hex_val(s[pos + 1]) >= 0
        && spec_hex_val(s[pos + 2]) >= 0 && spec_hex_val(s[pos + 3]) >= 0 {
        Some(
            spec_hex_val(s[pos]) * 0x1000 + spec_hex_val(s[pos + 1]) * 0x100 + spec_hex_val(
                s[pos + 2],
            ) * 0x10 + spec_hex_val(s[pos + 3]),
        )
    } else {
        None
    }
}

/// The decoded content and end position of a string literal's body, read from
/// just after the opening quote: plain characters, the single-character
/// escapes, and `\u` escapes (a surrogate pair decodes to its one character;
/// a lone surrogate is an error). `None` on an unterminated literal or an
/// escape outside these forms.
pub open spec fn spec_string_body(s: Seq<char>, pos: int) -> Option<(Seq<char>, int)>
    decreases s.len() - pos,
{
    if pos < 0 || pos >= s.len() {
        None
    } else if s[pos] == '"' {
        Some((Seq::empty(), pos + 1))
    } else if s[pos] == '\\' {
        if pos + 1 < s.len() {
            if s[pos + 1] == 'u' {
                if pos + 6 <= s.len() {
                    match spec_hex4(s, pos + 2) {
                        None => None,
                        Some(c1) => if 0xD800 <= c1 < 0xDC00 {
                            if pos + 12 <= s.len() && s[pos + 6] == '\\' && s[pos + 7] == 'u' {
                                match spec_hex4(s, pos + 8) {
                                    None => None,
                                    Some(c2) => if 0xDC00 <= c2 < 0xE000 {
                                        match spec_string_body(s, pos + 12) {
                                            Some((t, e)) => Some(
                                                (
                                                    seq![
                                                        (((0x10000 + (c1 - 0xD800) * 0x400 + (c2
                                                            - 0xDC00)) as u32) as char)
                                                    ] + t,
                                                    e,
                                                ),
                                            ),
                                            None => None,
                                        }
                                    } else {
                                        None
                                    },
                                }
                            } else {
                                None
                            }
                        } else if 0xDC00 <= c1 < 0xE000 {
                            None
                        } else {
                            match spec_string_body(s, pos + 6) {
                                Some((t, e)) => Some((seq![((c1 as u32) as char)] + t, e)),
                                None => None,
                            }
                        },
                    }
                } else {
                    None
                }
            } else {
                match spec_escape(s[pos + 1]) {
                    Some(c) => match spec_string_body(s, pos + 2) {
                        Some((t, e)) => Some((seq![c] + t, e)),
                        None => None,
                    },
                    None => None,
                }
            }
        } else {
            None
        }
    } else {
        match spec_string_body(s, pos + 1) {
            Some((t, e)) => Some((seq![s[pos]] + t, e)),
            None => None,
        }
    }
}

/// The decoded content and end position of a whole string literal at `pos`.
pub open spec fn spec_parse_string(s: Seq<char>, pos: int) -> Option<(Seq<char>, int)> {
    if 0 <= pos < s.len() && s[pos] == '"' {
        spec_string_body(s, pos + 1)
    } else {
        None
    }
}


/// Relies on std's `String::push`: appends exactly one character.
#[verifier::external_body]
fn push_char(s: &mut String, c: char)
    ensures
        final (s)@ == old(s)@.push(c),
{
    s.push(c);
}

/// Relies on std's `char::from_u32`: it returns `Some` exactly for the valid
/// scalar values (not a surrogate, at most 0x10FFFF), and then the character
/// with that code point.
#[verifier::external_body]
fn char_from_code(code: u32) -> (r: char)
    requires
        code < 0xD800 || (0xE000 <= code && code <= 0x10FFFF),
    ensures
        r == ((code as u32) as char),
{
    char::from_u32(code).unwrap_or('\u{FFFD}')
}

fn hex_val(c: char) -> (r: Option<u8>)
    ensures
        match r {
            Some(v) => spec_hex_val(c) == v as int && v < 16,
            None => spec_hex_val(c) == -1,
        },
{
    if c >= '0' && c <= '9' {
        Some((c as u8) - 48)
    } else if c >= 'a' && c <= 'f' {
        Some((c as u8) - 97 + 10)
    } else if c >= 'A' && c <= 'F' {
        Some((c as u8) - 65 + 10)
    } else {
        None
    }
}

fn hex4(s: &str, pos: usize) -> (r: Option<u32>)
    requires
        pos <= s@.len(),
    ensures
        match r {
            Some(v) => spec_hex4(s@, pos as int) == Some(v as int) && v < 0x10000,
            None => spec_hex4(s@, pos as int) is None,
        },
{
    let n = s.unicode_len();
    if n - pos < 4 {
        return None;
    }
    let h0 = match hex_val(s.get_char(pos)) {
        None => {
            return None;
        },
        Some(v) => v,
    };
    let h1 = match hex_val(s.get_char(pos + 1)) {
        None => {
            return None;
        },
        Some(v) => v,
    };
    let h2 = match hex_val(s.get_char(pos + 2)) {
        None => {
            return None;
        },
        Some(v) => v,
    };
    let h3 = match hex_val(s.get_char(pos + 3)) {
        None => {
            return None;
        },
        Some(v) => v,
    };
    Some((h0 as u32) * 0x1000 + (h1 as u32) * 0x100 + (h2 as u32) * 0x10 + (h3 as u32))
}

fn parse_string(s: &str, pos: usize) -> (r: Option<(String, usize)>)
    requires
        pos <= s@.len(),
    ensures
        match r {
            Some((t, e)) => spec_parse_string(s@, pos as int) == Some((t@, e as int)) && pos < e
                <= s@.len(),
            None => spec_parse_string(s@, pos as int) is None,
        },
{
    let n = s.unicode_len();
    if pos >= n || s.get_char(pos) != '"' {
        return None;
    }
    let mut acc = String::new();
    let mut i = pos + 1;
    loop
        invariant
            pos < i <= n,
            n == s@.len(),
            pos < n && s@[pos as int] == '"',
            spec_string_body(s@, pos + 1) == match spec_string_body(s@, i as int) {
                Some((t, e)) => Some((acc@ + t, e)),
                None => None::<(Seq<char>, int)>,
            },
        decreases n - i,
    {
        if i >= n {
            return None;
        }
        let c = s.get_char(i);
        if c == '"' {
            proof {
                assert(spec_string_body(s@, i as int) == Some(
                    (Seq::<char>::empty(), i + 1 as int),
                ));
                assert(acc@ + Seq::<char>::empty() =~= acc@);
                assert(spec_string_body(s@, pos + 1) == Some((acc@, i + 1 as int)));
            }
            return Some((acc, i + 1));
        } else if c == '\\' {
            if i + 1 >= n {
                return None;
            }
            let d = s.get_char(i + 1);
            if d == 'u' {
                if n - i < 6 {
                    return None;
                }
                let c1 = match hex4(s, i + 2) {
                    None => {
                        return None;
                    },
                    Some(v) => v,
                };
                if 0xD800 <= c1 && c1 < 0xDC00 {
                    if n - i >= 12 && s.get_char(i + 6) == '\\' && s.get_char(i + 7) == 'u' {
                        let c2 = match hex4(s, i + 8) {
                            None => {
                                return None;
                            },
                            Some(v) => v,
                        };
                        if 0xDC00 <= c2 && c2 < 0xE000 {
                            let code: u32 = 0x10000 + (c1 - 0xD800) * 0x400 + (c2 - 0xDC00);
                            let dec = char_from_code(code);
                            let ghost prev = acc@;
                            push_char(&mut acc, dec);
                            proof {
                                assert forall|t: Seq<char>| true implies prev + (seq![dec] + t)
                                    =~= acc@ + t by {}
                            }
                            i = i + 12;
                        } else {
                            return None;
                        }
                    } else {
                        return None;
                    }
                } else if 0xDC00 <= c1 && c1 < 0xE000 {
                    return None;
                } else {
                    let dec = char_from_code(c1);
                    let ghost prev = acc@;
                    push_char(&mut acc, dec);
                    proof {
                        assert forall|t: Seq<char>| true implies prev + (seq![dec] + t) =~= acc@
                            + t by {}
                    }
                    i = i + 6;
                }
            } else {
                let dec: char = if d == '"' {
                    '"'
                } else if d == '\\' {
                    '\\'
                } else if d == '/' {
                    '/'
                } else if d == 'b' {
                    '\u{0008}'
                } else if d == 'f' {
                    '\u{000C}'
                } else if d == 'n' {
                    '\n'
                } else if d == 't' {
                    '\t'
                } else if d == 'r' {
                    '\r'
                } else {
                    return None;
                };
                let ghost prev = acc@;
                push_char(&mut acc, dec);
                proof {
                    assert forall|t: Seq<char>| true implies prev + (seq![dec] + t) =~= acc@
                        + t by {}
                }
                i = i + 2;
            }
        } else {
            let ghost prev = acc@;
            push_char(&mut acc, c);
            proof {
                assert forall|t: Seq<char>| true implies prev + (seq![c] + t) =~= acc@ + t by {}
            }
            i = i + 1;
        }
    }
}

/// Where a number token starting at `pos` in state `st` ends, together with
/// the automaton state it ends in (maximal munch).
pub open spec fn spec_num_scan(s: Seq<char>, pos: int, st: int) -> (int, int)
    decreases s.len() - pos,
{
    if 0 <= pos < s.len() && crate::numtext::float_step(st, s[pos]) != -1 {
        spec_num_scan(s, pos + 1, crate::numtext::float_step(st, s[pos]))
    } else {
        (pos, st)
    }
}

/// The end of a complete number token at `pos`, if one starts there.
pub open spec fn spec_num_end(s: Seq<char>, pos: int) -> Option<int> {
    if crate::numtext::float_accepting(spec_num_scan(s, pos, 0).1) {
        Some(spec_num_scan(s, pos, 0).0)
    } else {
        None
    }
}


fn num_end(s: &str, pos: usize) -> (r: Option<usize>)
    requires
        pos <= s@.len(),
    ensures
        match r {
            Some(e) => spec_num_end(s@, pos as int) == Some(e as int) && pos <= e <= s@.len(),
            None => spec_num_end(s@, pos as int) is None,
        },
{
    let n = s.unicode_len();
    let mut i = pos;
    let mut st: i8 = 0;
    loop
        invariant
            pos <= i <= n,
            n == s@.len(),
            st != -1,
            spec_num_scan(s@, pos as int, 0) == spec_num_scan(s@, i as int, st as int),
        decreases n - i,
    {
        if i >= n {
            if st == 2 || st == 4 || st == 7 {
                return Some(i);
            } else {
                return None;
            }
        }
        let next = crate::numtext::float_step_exec(st, s.get_char(i));
        if next == -1 {
            if st == 2 || st == 4 || st == 7 {
                return Some(i);
            } else {
                return None;
            }
        }
        st = next;
        i = i + 1;
    }
}

/// The value starting at `pos` (no leading whitespace) and its end position.
/// Objects and arrays may hold further values; whitespace between tokens is
/// insignificant.
pub open spec fn spec_parse_value(s: Seq<char>, pos: int) -> Option<(JsonV, int)>
    decreases s.len() - pos, 0int,
{
    if !(0 <= pos < s.len()) {
        None
    } else {
        let c = s[pos];
        if c == '"' {
            match spec_parse_string(s, pos) {
                Some((t, e)) => Some((JsonV::Str(t), e)),
                None => None,
            }
        } else if c == 't' {
            if pos + 4 <= s.len() && s[pos + 1] == 'r' && s[pos + 2] == 'u' && s[pos + 3] == 'e' {
                Some((JsonV::Bool(true), pos + 4))
            } else {
                None
            }
        } else if c == 'f' {
            if pos + 5 <= s.len() && s[pos + 1] == 'a' && s[pos + 2] == 'l' && s[pos + 3] == 's'
                && s[pos + 4] == 'e' {
                Some((JsonV::Bool(false), pos + 5))
            } else {
                None
            }
        } else if c == 'n' {
            if pos + 4 <= s.len() && s[pos + 1] == 'u' && s[pos + 2] == 'l' && s[pos + 3] == 'l' {
                Some((JsonV::Null, pos + 4))
            } else {
                None
            }
        } else if c == '-' || c == '+' || crate::numtext::is_digit(c) || c == '.' {
            match spec_num_end(s, pos) {
                Some(e) => if pos < e <= s.len() {
                    Some((JsonV::Num(s.subrange(pos, e)), e))
                } else {
                    None
                },
                None => None,
            }
        } else if c == '{' {
            match spec_parse_members(s, pos + 1) {
                Some((ms, e)) => Some((JsonV::Obj(ms), e)),
                None => None,
            }
        } else if c == '[' {
            match spec_parse_elements(s, pos + 1) {
                Some((vs, e)) => Some((JsonV::Arr(vs), e)),
                None => None,
            }
        } else {
            None
        }
    }
}

/// The members of an object read from just after its opening brace, and the
/// position after its closing brace.
pub open spec fn spec_parse_members(s: Seq<char>, pos: int) -> Option<
    (Seq<(Seq<char>, JsonV)>, int),
>
    decreases s.len() - pos, 1int,
{
    if !(0 <= pos <= s.len()) {
        None
    } else {
        let p = spec_ws_end(s, pos);
        if !(pos <= p < s.len()) {
            None
        } else if s[p] == '}' {
            Some((Seq::empty(), p + 1))
        } else {
            match spec_parse_string(s, p) {
                None => None,
                Some((k, q)) => {
                    let r = spec_ws_end(s, q);
                    if !(q <= r < s.len() && s[r] == ':') {
                        None
                    } else {
                        let w = spec_ws_end(s, r + 1);
                        if !(pos < w <= s.len()) {
                            None
                        } else {
                            match spec_parse_value(s, w) {
                                None => None,
                                Some((jv, e)) => {
                                    let t = spec_ws_end(s, e);
                                    if t < s.len() && s[t] == ',' {
                                        if pos < t + 1 {
                                            match spec_parse_members(s, t + 1) {
                                                None => None,
                                                Some((rest, e2)) => Some(
                                                    (seq![(k, jv)] + rest, e2),
                                                ),
                                            }
                                        } else {
                                            None
                                        }
                                    } else if t < s.len() && s[t] == '}' {
                                        Some((seq![(k, jv)], t + 1))
                                    } else {
                                        None
                                    }
                                },
                            }
                        }
                    }
                },
            }
        }
    }
}

/// The elements of an array read from just after its opening bracket, and the
/// position after its closing bracket.
pub open spec fn spec_parse_elements(s: Seq<char>, pos: int) -> Option<(Seq<JsonV>, int)>
    decreases s.len() - pos, 1int,
{
    if !(0 <= pos <= s.len()) {
        None
    } else {
        let p = spec_ws_end(s, pos);
        if !(pos <= p < s.len()) {
            None
        } else if s[p] == ']' {
            Some((Seq::empty(), p + 1))
        } else {
            match spec_parse_value(s, p) {
                None => None,
                Some((jv, e)) => {
                    let t = spec_ws_end(s, e);
                    if t < s.len() && s[t] == ',' {
                        if pos < t + 1 {
                            match spec_parse_elements(s, t + 1) {
                                None => None,
                                Some((rest, e2)) => Some((seq![jv] + rest, e2)),
                            }
                        } else {
                            None
                        }
                    } else if t < s.len() && s[t] == ']' {
                        Some((seq![jv], t + 1))
                    } else {
                        None
                    }
                },
            }
        }
    }
}

fn parse_value(s: &str, pos: usize) -> (r: Option<(Json, usize)>)
    requires
        pos <= s@.len(),
    ensures
        match r {
            Some((j, e)) => spec_parse_value(s@, pos as int) == Some((jview(j), e as int)) && pos
                < e <= s@.len(),
            None => spec_parse_value(s@, pos as int) is None,
        },
    decreases s@.len() - pos, 0int,
{
    let n = s.unicode_len();
    if pos >= n {
        return None;
    }
    let c = s.get_char(pos);
    if c == '"' {
        match parse_string(s, pos) {
            Some((t, e)) => Some((Json::Str(t), e)),
            None => None,
        }
    } else if c == 't' {
        if n - pos >= 4 && s.get_char(pos + 1) == 'r' && s.get_char(pos + 2) == 'u' && s.get_char(
            pos + 3,
        ) == 'e' {
            Some((Json::Bool(true), pos + 4))
        } else {
            None
        }
    } else if c == 'f' {
        if n - pos >= 5 && s.get_char(pos + 1) == 'a' && s.get_char(pos + 2) == 'l' && s.get_char(
            pos + 3,
        ) == 's' && s.get_char(pos + 4) == 'e' {
            Some((Json::Bool(false), pos + 5))
        } else {
            None
        }
    } else if c == 'n' {
        if n - pos >= 4 && s.get_char(pos + 1) == 'u' && s.get_char(pos + 2) == 'l' && s.get_char(
            pos + 3,
        ) == 'l' {
            Some((Json::Null, pos + 4))
        } else {
            None
        }
    } else if c == '-' || c == '+' || (c >= '0' && c <= '9') || c == '.' {
        match num_end(s, pos) {
            Some(e) => {
                if pos < e {
                    let t = s.substring_char(pos, e).to_owned();
                    Some((Json::Num(t), e))
                } else {
                    None
                }
            },
            None => None,
        }
    } else if c == '{' {
        match parse_members(s, pos + 1) {
            Some((ms, e)) => Some((Json::Obj(ms), e)),
            None => None,
        }
    } else if c == '[' {
        match parse_elements(s, pos + 1) {
            Some((vs, e)) => Some((Json::Arr(vs), e)),
            None => None,
        }
    } else {
        None
    }
}

fn parse_members(s: &str, pos: usize) -> (r: Option<(Vec<(String, Json)>, usize)>)
    requires
        pos <= s@.len(),
    ensures
        match r {
            Some((ms, e)) => spec_parse_members(s@, pos as int) == Some(
                (jview_members(ms@), e as int),
            ) && pos < e <= s@.len(),
            None => spec_parse_members(s@, pos as int) is None,
        },
    decreases s@.len() - pos, 1int,
{
    let n = s.unicode_len();
    let p = ws_end(s, pos);
    if p >= n {
        return None;
    }
    if s.get_char(p) == '}' {
        let v: Vec<(String, Json)> = Vec::new();
        proof {
            assert(jview_members(v@) =~= Seq::<(Seq<char>, JsonV)>::empty());
        }
        return Some((v, p + 1));
    }
    match parse_string(s, p) {
        None => None,
        Some((k, q)) => {
            let r1 = ws_end(s, q);
            if r1 >= n || s.get_char(r1) != ':' {
                return None;
            }
            let w = ws_end(s, r1 + 1);
            if !(pos < w) {
                return None;
            }
            match parse_value(s, w) {
                None => None,
                Some((jv, e)) => {
                    let t = ws_end(s, e);
                    if t < n && s.get_char(t) == ',' {
                        match parse_members(s, t + 1) {
                            None => None,
                            Some((mut rest, e2)) => {
                                let ghost old_rest = rest@;
                                let ghost gk = k@;
                                let ghost gjv = jview(jv);
                                rest.insert(0, (k, jv));
                                proof {
                                    assert(rest@.skip(1) =~= old_rest);
                                    assert(rest@[0].0@ == gk && jview(rest@[0].1) == gjv);
                                    assert(jview_members(rest@) == seq![(gk, gjv)]
                                        + jview_members(old_rest));
                                }
                                Some((rest, e2))
                            },
                        }
                    } else if t < n && s.get_char(t) == '}' {
                        let mut v: Vec<(String, Json)> = Vec::new();
                        let ghost gk = k@;
                        let ghost gjv = jview(jv);
                        v.push((k, jv));
                        proof {
                            assert(v@.skip(1) =~= Seq::<(String, Json)>::empty());
                            assert(v@[0].0@ == gk && jview(v@[0].1) == gjv);
                            assert(jview_members(v@.skip(1)) == Seq::<
                                (Seq<char>, JsonV),
                            >::empty());
                            assert(jview_members(v@) == seq![(gk, gjv)] + Seq::<
                                (Seq<char>, JsonV),
                            >::empty());
                            assert(jview_members(v@) =~= seq![(gk, gjv)]);
                        }
                        Some((v, t + 1))
                    } else {
                        None
                    }
                },
            }
        },
    }
}

fn parse_elements(s: &str, pos: usize) -> (r: Option<(Vec<Json>, usize)>)
    requires
        pos <= s@.len(),
    ensures
        match r {
            Some((vs, e)) => spec_parse_elements(s@, pos as int) == Some(
                (jview_elems(vs@), e as int),
            ) && pos < e <= s@.len(),
            None => spec_parse_elements(s@, pos as int) is None,
        },
    decreases s@.len() - pos, 1int,
{
    let n = s.unicode_len();
    let p = ws_end(s, pos);
    if p >= n {
        return None;
    }
    if s.get_char(p) == ']' {
        let v: Vec<Json> = Vec::new();
        proof {
            assert(jview_elems(v@) =~= Seq::<JsonV>::empty());
        }
        return Some((v, p + 1));
    }
    match parse_value(s, p) {
        None => None,
        Some((jv, e)) => {
            let t = ws_end(s, e);
            if t < n && s.get_char(t) == ',' {
                match parse_elements(s, t + 1) {
                    None => None,
                    Some((mut rest, e2)) => {
                        let ghost old_rest = rest@;
                        let ghost gjv = jview(jv);
                        rest.insert(0, jv);
                        proof {
                            assert(rest@.skip(1) =~= old_rest);
                            assert(jview(rest@[0]) == gjv);
                            assert(jview_elems(rest@) == seq![gjv] + jview_elems(old_rest));
                        }
                        Some((rest, e2))
                    },
                }
            } else if t < n && s.get_char(t) == ']' {
                let mut v: Vec<Json> = Vec::new();
                let ghost gjv = jview(jv);
                v.push(jv);
                proof {
                    assert(v@.skip(1) =~= Seq::<Json>::empty());
                    assert(jview(v@[0]) == gjv);
                    assert(jview_elems(v@.skip(1)) == Seq::<JsonV>::empty());
                    assert(jview_elems(v@) == seq![gjv] + Seq::<JsonV>::empty());
                    assert(jview_elems(v@) =~= seq![gjv]);
                }
                Some((v, t + 1))
            } else {
                None
            }
        },
    }
}

/// The value a whole document holds: one JSON value, possibly surrounded by
/// whitespace, with nothing after it.
pub open spec fn spec_parse_json(s: Seq<char>) -> Option<JsonV> {
    let p = spec_ws_end(s, 0);
    if !(0 <= p <= s.len()) {
        None
    } else {
        match spec_parse_value(s, p) {
            None => None,
            Some((jv, e)) => if spec_ws_end(s, e) == s.len() {
                Some(jv)
            } else {
                None
            },
        }
    }
}

/// Read a whole JSON document. `Some` exactly on the documents the grammar
/// accepts, and then the parsed shape is the document's.
pub fn parse_json(s: &str) -> (r: Option<Json>)
    ensures
        match r {
            Some(j) => spec_parse_json(s@) == Some(jview(j)),
            None => spec_parse_json(s@) is None,
        },
{
    let p = ws_end(s, 0);
    match parse_value(s, p) {
        None => None,
        Some((j, e)) => {
            let t = ws_end(s, e);
            if t == s.unicode_len() {
                Some(j)
            } else {
                None
            }
        },
    }
}

} // verus!
