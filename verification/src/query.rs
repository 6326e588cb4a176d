//! Building metrics requests: resolve the server and query names against the
//! configuration, render the query template, and lay out the form fields and
//! time parameters of an instant or a range query. The HTTP transfer itself
//! is the unverified shell's job; it receives a finished `HttpRequest`.
use vstd::prelude::*;
use crate::cfg_file::ConfigFile;
use crate::cfg_file::QueryRef;
use crate::cfg_file::ServerRef;
use crate::cfg_file::spec_find_query;
use crate::cfg_file::spec_find_server;
use crate::errors::QueryError;
use crate::numtext::spec_u64_text;
use crate::numtext::u64_to_string;
use crate::template::render_template;
use crate::template::spec_render;
use crate::template::vars_view;

verus! {

/// How long back a range query looks, in seconds.
pub const RANGE_WINDOW_SECS: u64 = 3600;

/// One fully prepared HTTP POST: the endpoint and its form fields.
pub struct HttpRequest {
    pub url: String,
    pub form: Vec<(String, String)>,
}

/// The start of a range window: `now` less the window, not before time zero.
pub open spec fn spec_range_start(now: int) -> int {
    if now >= RANGE_WINDOW_SECS {
        now - RANGE_WINDOW_SECS
    } else {
        0
    }
}

/// The request an instant query prepares: the query endpoint of the named
/// server, the rendered template, and `now` as the `time` field; or the
/// error naming the first lookup or rendering step that failed.
pub open spec fn spec_prepare_query(
    servers: Seq<ServerRef>,
    queries: Seq<QueryRef>,
    sname: Seq<char>,
    qname: Seq<char>,
    vars: Seq<(Seq<char>, Seq<char>)>,
    now: int,
) -> Result<(Seq<char>, Seq<(Seq<char>, Seq<char>)>), QueryError> {
    match spec_find_server(servers, sname) {
        None => Err(QueryError::UnknownServer),
        Some(i) => match spec_find_query(queries, qname) {
            None => Err(QueryError::UnknownQuery),
            Some(j) => match spec_render(queries[j].query@, vars) {
                None => Err(QueryError::TemplateError),
                Some(q) => Ok(
                    (
                        servers[i].url@ + "/api/v1/query"@,
                        seq![("query"@, q), ("time"@, spec_u64_text(now))],
                    ),
                ),
            },
        },
    }
}

/// The request a range query prepares: the range endpoint, the rendered
/// template, a fixed step of one minute (`1m`), and the window
/// `[now - 3600, now]`.
pub open spec fn spec_prepare_query_range(
    servers: Seq<ServerRef>,
    queries: Seq<QueryRef>,
    sname: Seq<char>,
    qname: Seq<char>,
    vars: Seq<(Seq<char>, Seq<char>)>,
    now: int,
) -> Result<(Seq<char>, Seq<(Seq<char>, Seq<char>)>), QueryError> {
    match spec_find_server(servers, sname) {
        None => Err(QueryError::UnknownServer),
        Some(i) => match spec_find_query(queries, qname) {
            None => Err(QueryError::UnknownQuery),
            Some(j) => match spec_render(queries[j].query@, vars) {
                None => Err(QueryError::TemplateError),
                Some(q) => Ok(
                    (
                        servers[i].url@ + "/api/v1/query_range"@,
                        seq![
                            ("query"@, q),
                            ("step"@, "1m"@),
                            ("start"@, spec_u64_text(spec_range_start(now))),
                            ("end"@, spec_u64_text(now)),
                        ],
                    ),
                ),
            },
        },
    }
}

/// Prepare an instant query against the configuration. `Ok` exactly when the
/// server and query names resolve and the template renders; each `Err` names
/// the first step that failed.
pub fn prepare_query(
    config: &ConfigFile,
    server_name: &String,
    query_name: &String,
    vars: &Vec<(String, String)>,
    now_secs: u64,
) -> (r: Result<HttpRequest, QueryError>)
    ensures
        match r {
            Ok(req) => spec_prepare_query(
                config.servers@,
                config.queries@,
                server_name@,
                query_name@,
                vars_view(vars@),
                now_secs as int,
            ) == Ok::<_, QueryError>((req.url@, vars_view(req.form@))),
            Err(e) => spec_prepare_query(
                config.servers@,
                config.queries@,
                server_name@,
                query_name@,
                vars_view(vars@),
                now_secs as int,
            ) == Err::<(Seq<char>, Seq<(Seq<char>, Seq<char>)>), _>(e),
        },
{
    let i = match config.find_server(server_name) {
        None => {
            return Err(QueryError::UnknownServer);
        },
        Some(i) => i,
    };
    let j = match config.find_query(query_name) {
        None => {
            return Err(QueryError::UnknownQuery);
        },
        Some(j) => j,
    };
    let rendered = match render_template(config.queries[j].query.as_str(), vars) {
        None => {
            return Err(QueryError::TemplateError);
        },
        Some(q) => q,
    };
    let url = config.servers[i].url.clone().concat("/api/v1/query");
    let mut form: Vec<(String, String)> = Vec::new();
    form.push(("query".to_owned(), rendered));
    form.push(("time".to_owned(), u64_to_string(now_secs)));
    let req = HttpRequest { url, form };
    proof {
        let ghost spec_form = seq![
            ("query"@, spec_render(config.queries@[j as int].query@, vars_view(vars@)).unwrap()),
            ("time"@, spec_u64_text(now_secs as int)),
        ];
        assert(vars_view(req.form@) =~= spec_form);
    }
    Ok(req)
}

/// Prepare a range query against the configuration, over the window
/// `[now - 3600, now]` with a step of one minute. `Ok` exactly when the
/// server and query names resolve and the template renders.
pub fn prepare_query_range(
    config: &ConfigFile,
    server_name: &String,
    query_name: &String,
    vars: &Vec<(String, String)>,
    now_secs: u64,
) -> (r: Result<HttpRequest, QueryError>)
    ensures
        match r {
            Ok(req) => spec_prepare_query_range(
                config.servers@,
                config.queries@,
                server_name@,
                query_name@,
                vars_view(vars@),
                now_secs as int,
            ) == Ok::<_, QueryError>((req.url@, vars_view(req.form@))),
            Err(e) => spec_prepare_query_range(
                config.servers@,
                config.queries@,
                server_name@,
                query_name@,
                vars_view(vars@),
                now_secs as int,
            ) == Err::<(Seq<char>, Seq<(Seq<char>, Seq<char>)>), _>(e),
        },
{
    let i = match config.find_server(server_name) {
        None => {
            return Err(QueryError::UnknownServer);
        },
        Some(i) => i,
    };
    let j = match config.find_query(query_name) {
        None => {
            return Err(QueryError::UnknownQuery);
        },
        Some(j) => j,
    };
    let rendered = match render_template(config.queries[j].query.as_str(), vars) {
        None => {
            return Err(QueryError::TemplateError);
        },
        Some(q) => q,
    };
    let url = config.servers[i].url.clone().concat("/api/v1/query_range");
    let start: u64 = if now_secs >= RANGE_WINDOW_SECS {
        now_secs - RANGE_WINDOW_SECS
    } else {
        0
    };
    let mut form: Vec<(String, String)> = Vec::new();
    form.push(("query".to_owned(), rendered));
    form.push(("step".to_owned(), "1m".to_owned()));
    form.push(("start".to_owned(), u64_to_string(start)));
    form.push(("end".to_owned(), u64_to_string(now_secs)));
    let req = HttpRequest { url, form };
    proof {
        let ghost spec_form = seq![
            ("query"@, spec_render(config.queries@[j as int].query@, vars_view(vars@)).unwrap()),
            ("step"@, "1m"@),
            ("start"@, spec_u64_text(spec_range_start(now_secs as int))),
            ("end"@, spec_u64_text(now_secs as int)),
        ];
        assert(vars_view(req.form@) =~= spec_form);
    }
    Ok(req)
}

/// The position of the first `=` at or after `pos`, if any.
pub open spec fn spec_find_eq(s: Seq<char>, pos: int) -> Option<int>
    decreases s.len() - pos,
{
    if !(0 <= pos) {
        None
    } else if pos >= s.len() {
        None
    } else if s[pos] == '=' {
        Some(pos)
    } else {
        spec_find_eq(s, pos + 1)
    }
}

/// The variable binding one `key=value` argument makes: the text before the
/// first `=` binds the text between the first and second `=` (or the end).
/// `None` when the argument holds no `=` at all.
pub open spec fn spec_eval_pair(s: Seq<char>) -> Option<(Seq<char>, Seq<char>)> {
    match spec_find_eq(s, 0) {
        None => None,
        Some(i) => if !(0 <= i < s.len()) {
            None
        } else {
            let j = match spec_find_eq(s, i + 1) {
                Some(j) => j,
                None => s.len() as int,
            };
            if i + 1 <= j <= s.len() {
                Some((s.subrange(0, i), s.subrange(i + 1, j)))
            } else {
                None
            }
        },
    }
}

/// The variable mapping a list of `key=value` arguments makes, in order;
/// `None` when any argument holds no `=`.
pub open spec fn spec_eval_pairs(es: Seq<Seq<char>>) -> Option<Seq<(Seq<char>, Seq<char>)>>
    decreases es.len(),
{
    if es.len() == 0 {
        Some(Seq::empty())
    } else {
        match spec_eval_pair(es[0]) {
            None => None,
            Some(p) => match spec_eval_pairs(es.skip(1)) {
                None => None,
                Some(t) => Some(seq![p] + t),
            },
        }
    }
}

fn find_eq(s: &str, pos: usize) -> (r: Option<usize>)
    requires
        pos <= s@.len(),
    ensures
        match r {
            Some(j) => spec_find_eq(s@, pos as int) == Some(j as int) && pos <= j < s@.len(),
            None => spec_find_eq(s@, pos as int) is None,
        },
    decreases s@.len() - pos,
{
    if pos >= s.unicode_len() {
        None
    } else if s.get_char(pos) == '=' {
        Some(pos)
    } else {
        find_eq(s, pos + 1)
    }
}

/// The text sequences of a list of argument strings.
pub open spec fn strings_view(es: Seq<String>) -> Seq<Seq<char>> {
    Seq::new(es.len(), |i: int| es[i]@)
}

/// Turn the command line's `key=value` arguments into a variable mapping.
/// `Some` exactly when every argument holds an `=`.
pub fn parse_eval_pairs(eval: &Vec<String>) -> (r: Option<Vec<(String, String)>>)
    ensures
        match r {
            Some(vs) => spec_eval_pairs(strings_view(eval@)) == Some(vars_view(vs@)),
            None => spec_eval_pairs(strings_view(eval@)) is None,
        },
{
    proof {
        assert(strings_view(eval@).skip(0) =~= strings_view(eval@));
    }
    let n = eval.len();
    let mut out: Vec<(String, String)> = Vec::new();
    let mut k: usize = 0;
    while k < n
        invariant
            k <= n,
            n == eval@.len(),
            match spec_eval_pairs(strings_view(eval@).skip(k as int)) {
                Some(t) => spec_eval_pairs(strings_view(eval@)) == Some(vars_view(out@) + t),
                None => spec_eval_pairs(strings_view(eval@)) is None,
            },
        decreases n - k,
    {
        proof {
            assert(strings_view(eval@).skip(k as int)[0] == strings_view(eval@)[k as int]);
            assert(strings_view(eval@).skip(k as int).skip(1) =~= strings_view(eval@).skip(
                k as int + 1,
            ));
        }
        let e: &String = &eval[k];
        let len = e.as_str().unicode_len();
        let i = match find_eq(e.as_str(), 0) {
            None => {
                return None;
            },
            Some(i) => i,
        };
        let j = match find_eq(e.as_str(), i + 1) {
            Some(j) => j,
            None => len,
        };
        let key = e.as_str().substring_char(0, i).to_owned();
        let val = e.as_str().substring_char(i + 1, j).to_owned();
        let ghost gk = key@;
        let ghost gv = val@;
        let ghost prev = vars_view(out@);
        out.push((key, val));
        proof {
            assert(vars_view(out@) =~= prev.push((gk, gv)));
            assert forall|t: Seq<(Seq<char>, Seq<char>)>| true implies prev + (seq![(gk, gv)] + t)
                =~= vars_view(out@) + t by {}
        }
        k = k + 1;
    }
    proof {
        assert(strings_view(eval@).skip(n as int) =~= Seq::<Seq<char>>::empty());
        assert(vars_view(out@) + Seq::<(Seq<char>, Seq<char>)>::empty() =~= vars_view(out@));
    }
    Some(out)
}

} // verus!
