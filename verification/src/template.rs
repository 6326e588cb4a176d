//! Query-template rendering: plain textual substitution of `{{name}}`
//! placeholders with the values of a variable mapping. Rendering fails when a
//! referenced variable is absent from the mapping, or a placeholder is left
//! unclosed; everything outside placeholders passes through unchanged.
use vstd::prelude::*;

verus! {

/// The position of the first `}}` at or after `pos`, if any.
pub open spec fn spec_find_close(s: Seq<char>, pos: int) -> Option<int>
    decreases s.len() - pos,
{
    if !(0 <= pos) {
        None
    } else if pos + 1 >= s.len() {
        None
    } else if s[pos] == '}' && s[pos + 1] == '}' {
        Some(pos)
    } else {
        spec_find_close(s, pos + 1)
    }
}

/// The value bound to `name` by the mapping: that of the last matching pair,
/// so a later `key=value` argument overrides an earlier one.
pub open spec fn spec_lookup(vars: Seq<(Seq<char>, Seq<char>)>, name: Seq<char>) -> Option<
    Seq<char>,
>
    decreases vars.len(),
{
    if vars.len() == 0 {
        None
    } else if vars[vars.len() - 1].0 == name {
        Some(vars[vars.len() - 1].1)
    } else {
        spec_lookup(vars.take(vars.len() - 1), name)
    }
}

/// The rendering of `s` from `pos` on: literal text is kept, each
/// `{{name}}` placeholder becomes the mapping's value for `name`, and the
/// whole rendering is `None` when a placeholder is unclosed or references a
/// name the mapping does not hold.
pub open spec fn spec_render_from(
    s: Seq<char>,
    pos: int,
    vars: Seq<(Seq<char>, Seq<char>)>,
) -> Option<Seq<char>>
    decreases s.len() - pos,
{
    if !(0 <= pos) {
        None
    } else if pos >= s.len() {
        Some(Seq::empty())
    } else if pos + 1 < s.len() && s[pos] == '{' && s[pos + 1] == '{' {
        match spec_find_close(s, pos + 2) {
            None => None,
            Some(j) => if !(pos + 2 <= j && j + 2 <= s.len()) {
                None
            } else {
                match spec_lookup(vars, s.subrange(pos + 2, j)) {
                    None => None,
                    Some(val) => match spec_render_from(s, j + 2, vars) {
                        None => None,
                        Some(rest) => Some(val + rest),
                    },
                }
            },
        }
    } else {
        match spec_render_from(s, pos + 1, vars) {
            None => None,
            Some(rest) => Some(seq![s[pos]] + rest),
        }
    }
}

/// The rendering of a whole template against a mapping.
pub open spec fn spec_render(s: Seq<char>, vars: Seq<(Seq<char>, Seq<char>)>) -> Option<Seq<char>> {
    spec_render_from(s, 0, vars)
}

/// The mathematical shape of a variable mapping.
pub open spec fn vars_view(v: Seq<(String, String)>) -> Seq<(Seq<char>, Seq<char>)> {
    Seq::new(v.len(), |i: int| (v[i].0@, v[i].1@))
}

/// Rendering a template against a fixed mapping is a function of the two:
/// any two renderings of the same template and mapping are identical.
pub proof fn lemma_render_deterministic(
    t: Seq<char>,
    vars: Seq<(Seq<char>, Seq<char>)>,
    r1: Option<Seq<char>>,
    r2: Option<Seq<char>>,
)
    requires
        r1 == spec_render(t, vars),
        r2 == spec_render(t, vars),
    ensures
        r1 == r2,
{
}

fn find_close(s: &str, pos: usize) -> (r: Option<usize>)
    requires
        pos <= s@.len(),
    ensures
        match r {
            Some(j) => spec_find_close(s@, pos as int) == Some(j as int) && pos <= j && j + 2
                <= s@.len(),
            None => spec_find_close(s@, pos as int) is None,
        },
    decreases s@.len() - pos,
{
    let n = s.unicode_len();
    if pos >= n || pos + 1 >= n {
        None
    } else if s.get_char(pos) == '}' && s.get_char(pos + 1) == '}' {
        Some(pos)
    } else {
        find_close(s, pos + 1)
    }
}

fn lookup(vars: &Vec<(String, String)>, name: &String) -> (r: Option<String>)
    ensures
        match r {
            Some(val) => spec_lookup(vars_view(vars@), name@) == Some(val@),
            None => spec_lookup(vars_view(vars@), name@) is None,
        },
{
    let n = vars.len();
    let mut k: usize = n;
    proof {
        assert(vars_view(vars@).take(n as int) =~= vars_view(vars@));
    }
    while k > 0
        invariant
            k <= n,
            n == vars@.len(),
            spec_lookup(vars_view(vars@), name@) == spec_lookup(
                vars_view(vars@).take(k as int),
                name@,
            ),
        decreases k,
    {
        proof {
            assert(vars_view(vars@).take(k as int)[k - 1] == vars_view(vars@)[k - 1]);
            assert(vars_view(vars@).take(k as int).take(k - 1) =~= vars_view(vars@).take(
                k as int - 1,
            ));
        }
        if vars[k - 1].0 == *name {
            return Some(vars[k - 1].1.clone());
        }
        k = k - 1;
    }
    proof {
        assert(vars_view(vars@).take(0) =~= Seq::<(Seq<char>, Seq<char>)>::empty());
    }
    None
}

fn render_from(s: &str, pos: usize, vars: &Vec<(String, String)>) -> (r: Option<String>)
    requires
        pos <= s@.len(),
    ensures
        match r {
            Some(t) => spec_render_from(s@, pos as int, vars_view(vars@)) == Some(t@),
            None => spec_render_from(s@, pos as int, vars_view(vars@)) is None,
        },
    decreases s@.len() - pos,
{
    let n = s.unicode_len();
    if pos >= n {
        let t = String::new();
        proof {
            assert(t@ =~= Seq::<char>::empty());
        }
        return Some(t);
    }
    if pos + 1 < n && s.get_char(pos) == '{' && s.get_char(pos + 1) == '{' {
        match find_close(s, pos + 2) {
            None => None,
            Some(j) => {
                let name = s.substring_char(pos + 2, j).to_owned();
                match lookup(vars, &name) {
                    None => None,
                    Some(val) => match render_from(s, j + 2, vars) {
                        None => None,
                        Some(rest) => Some(val.concat(rest.as_str())),
                    },
                }
            },
        }
    } else {
        match render_from(s, pos + 1, vars) {
            None => None,
            Some(rest) => {
                let c = s.substring_char(pos, pos + 1);
                proof {
                    assert(c@ =~= seq![s@[pos as int]]);
                }
                Some(c.to_owned().concat(rest.as_str()))
            },
        }
    }
}

/// Render a query template against a variable mapping (of pairs with the
/// same name, the last one binds). `Some` exactly when every placeholder is
/// closed and its name bound.
pub fn render_template(template: &str, vars: &Vec<(String, String)>) -> (r: Option<String>)
    ensures
        match r {
            Some(t) => spec_render(template@, vars_view(vars@)) == Some(t@),
            None => spec_render(template@, vars_view(vars@)) is None,
        },
{
    render_from(template, 0, vars)
}

} // verus!
