//! Interpretation of the metrics backend's response envelope
//! `{status, data?: {resultType, result: [{metric, value|values}]}}`: a
//! non-success status or missing data is a backend error, any other departure
//! from the expected shape is a parse error, and the sample pairs of all
//! series are flattened in backend order. A sample whose value text does not
//! read as a number is dropped, not an error.
use vstd::prelude::*;
use crate::errors::QueryError;
use crate::json::Json;
use crate::json::JsonV;
use crate::json::jview;
use crate::json::jview_elems;
use crate::json::jview_members;
use crate::json::lemma_jview_elems_index;
use crate::json::lemma_jview_members_index;
use crate::json::spec_parse_json;
use crate::json::parse_json;
use crate::numtext::is_float_text;
use crate::numtext::is_numeric_text;

verus! {

/// One point of a time series: both fields as the backend's text. The
/// timestamp is a number token; the value is the quoted value string.
pub struct Sample {
    pub timestamp: String,
    pub value: String,
}

impl View for Sample {
    type V = (Seq<char>, Seq<char>);

    open spec fn view(&self) -> (Seq<char>, Seq<char>) {
        (self.timestamp@, self.value@)
    }
}

/// The mathematical shape of a sample buffer.
pub open spec fn sview(ss: Seq<Sample>) -> Seq<(Seq<char>, Seq<char>)> {
    Seq::new(ss.len(), |i: int| ss[i]@)
}

/// The value of the first member called `key`, if any.
pub open spec fn spec_obj_get(ms: Seq<(Seq<char>, JsonV)>, key: Seq<char>) -> Option<JsonV>
    decreases ms.len(),
{
    if ms.len() == 0 {
        None
    } else if ms[0].0 == key {
        Some(ms[0].1)
    } else {
        spec_obj_get(ms.skip(1), key)
    }
}

/// The sample a `[timestamp, "value"]` pair holds; `None` when the pair is
/// not of that shape.
pub open spec fn spec_pair_sample(p: JsonV) -> Option<(Seq<char>, Seq<char>)> {
    match p {
        JsonV::Arr(items) => if items.len() == 2 {
            match (items[0], items[1]) {
                (JsonV::Num(ts), JsonV::Str(v)) => Some((ts, v)),
                _ => None,
            }
        } else {
            None
        },
        _ => None,
    }
}

/// The samples of a list of pairs; `None` when any pair is malformed.
pub open spec fn spec_pairs(ps: Seq<JsonV>) -> Option<Seq<(Seq<char>, Seq<char>)>>
    decreases ps.len(),
{
    if ps.len() == 0 {
        Some(Seq::empty())
    } else {
        match spec_pair_sample(ps[0]) {
            None => None,
            Some(s) => match spec_pairs(ps.skip(1)) {
                None => None,
                Some(t) => Some(seq![s] + t),
            },
        }
    }
}

/// The samples one series object contributes: its `values` list for a range
/// result, or its single `value` pair for an instant result.
pub open spec fn spec_series_samples(sv: JsonV) -> Option<Seq<(Seq<char>, Seq<char>)>> {
    match sv {
        JsonV::Obj(ms) => match spec_obj_get(ms, "values"@) {
            Some(JsonV::Arr(ps)) => spec_pairs(ps),
            Some(_) => None,
            None => match spec_obj_get(ms, "value"@) {
                Some(p) => match spec_pair_sample(p) {
                    Some(s) => Some(seq![s]),
                    None => None,
                },
                None => None,
            },
        },
        _ => None,
    }
}

/// All series' samples flattened in backend order; `None` when any series is
/// malformed.
pub open spec fn spec_result_samples(rs: Seq<JsonV>) -> Option<Seq<(Seq<char>, Seq<char>)>>
    decreases rs.len(),
{
    if rs.len() == 0 {
        Some(Seq::empty())
    } else {
        match spec_series_samples(rs[0]) {
            None => None,
            Some(h) => match spec_result_samples(rs.skip(1)) {
                None => None,
                Some(t) => Some(h + t),
            },
        }
    }
}

/// The samples whose value text reads as a number, in order; the others are
/// dropped.
pub open spec fn spec_keep_numeric(ss: Seq<(Seq<char>, Seq<char>)>) -> Seq<(Seq<char>, Seq<char>)>
    decreases ss.len(),
{
    if ss.len() == 0 {
        Seq::empty()
    } else {
        (if is_float_text(ss[0].1) {
            seq![ss[0]]
        } else {
            Seq::<(Seq<char>, Seq<char>)>::empty()
        }) + spec_keep_numeric(ss.skip(1))
    }
}

/// What one refresh makes of a response body: the kept samples on a
/// successful envelope, `ParseError` when the body or a series is not of the
/// expected shape, `BackendError` when the backend reported non-success or
/// returned no data.
pub open spec fn spec_refresh_outcome(body: Seq<char>) -> Result<
    Seq<(Seq<char>, Seq<char>)>,
    QueryError,
> {
    match spec_parse_json(body) {
        None => Err(QueryError::ParseError),
        Some(jv) => match jv {
            JsonV::Obj(ms) => match spec_obj_get(ms, "status"@) {
                Some(JsonV::Str(st)) => if st != "success"@ {
                    Err(QueryError::BackendError)
                } else {
                    match spec_obj_get(ms, "data"@) {
                        None => Err(QueryError::BackendError),
                        Some(JsonV::Null) => Err(QueryError::BackendError),
                        Some(JsonV::Obj(dms)) => match spec_obj_get(dms, "result"@) {
                            Some(JsonV::Arr(rs)) => match spec_result_samples(rs) {
                                Some(ss) => Ok(spec_keep_numeric(ss)),
                                None => Err(QueryError::ParseError),
                            },
                            _ => Err(QueryError::ParseError),
                        },
                        Some(_) => Err(QueryError::ParseError),
                    }
                },
                _ => Err(QueryError::ParseError),
            },
            _ => Err(QueryError::ParseError),
        },
    }
}

/// The position of the first member called `key`, if any.
fn obj_get(ms: &Vec<(String, Json)>, key: &String) -> (r: Option<usize>)
    ensures
        match r {
            Some(i) => i < ms@.len() && spec_obj_get(jview_members(ms@), key@) == Some(
                jview(ms@[i as int].1),
            ),
            None => spec_obj_get(jview_members(ms@), key@) is None,
        },
{
    proof {
        lemma_jview_members_index(ms@);
        assert(jview_members(ms@).skip(0) =~= jview_members(ms@));
    }
    let n = ms.len();
    let mut k: usize = 0;
    while k < n
        invariant
            k <= n,
            n == ms@.len(),
            jview_members(ms@).len() == n,
            forall|i: int|
                0 <= i < n ==> jview_members(ms@)[i] == (ms@[i].0@, jview(ms@[i].1)),
            spec_obj_get(jview_members(ms@), key@) == spec_obj_get(
                jview_members(ms@).skip(k as int),
                key@,
            ),
        decreases n - k,
    {
        proof {
            assert(jview_members(ms@).skip(k as int)[0] == jview_members(ms@)[k as int]);
            assert(jview_members(ms@).skip(k as int).skip(1) =~= jview_members(ms@).skip(
                k as int + 1,
            ));
        }
        if ms[k].0 == *key {
            return Some(k);
        }
        k = k + 1;
    }
    proof {
        assert(jview_members(ms@).skip(n as int) =~= Seq::<(Seq<char>, JsonV)>::empty());
    }
    None
}

/// The sample one `[timestamp, "value"]` pair holds.
fn pair_sample(p: &Json) -> (r: Option<Sample>)
    ensures
        match r {
            Some(s) => spec_pair_sample(jview(*p)) == Some(s@),
            None => spec_pair_sample(jview(*p)) is None,
        },
{
    match p {
        Json::Arr(items) => {
            proof {
                lemma_jview_elems_index(items@);
            }
            if items.len() == 2 {
                let ts: &Json = &items[0];
                let v: &Json = &items[1];
                match (ts, v) {
                    (Json::Num(t), Json::Str(s)) => Some(
                        Sample { timestamp: t.clone(), value: s.clone() },
                    ),
                    _ => None,
                }
            } else {
                None
            }
        },
        _ => None,
    }
}

/// The samples of a `values` list.
fn pairs_samples(ps: &Vec<Json>) -> (r: Option<Vec<Sample>>)
    ensures
        match r {
            Some(ss) => spec_pairs(jview_elems(ps@)) == Some(sview(ss@)),
            None => spec_pairs(jview_elems(ps@)) is None,
        },
{
    proof {
        lemma_jview_elems_index(ps@);
        assert(jview_elems(ps@).skip(0) =~= jview_elems(ps@));
    }
    let n = ps.len();
    let mut out: Vec<Sample> = Vec::new();
    let mut k: usize = 0;
    while k < n
        invariant
            k <= n,
            n == ps@.len(),
            jview_elems(ps@).len() == n,
            forall|i: int| 0 <= i < n ==> jview_elems(ps@)[i] == jview(ps@[i]),
            out@.len() == k,
            match spec_pairs(jview_elems(ps@).skip(k as int)) {
                Some(t) => spec_pairs(jview_elems(ps@)) == Some(sview(out@) + t),
                None => spec_pairs(jview_elems(ps@)) is None,
            },
        decreases n - k,
    {
        proof {
            assert(jview_elems(ps@).skip(k as int)[0] == jview_elems(ps@)[k as int]);
            assert(jview_elems(ps@).skip(k as int).skip(1) =~= jview_elems(ps@).skip(k as int + 1));
        }
        match pair_sample(&ps[k]) {
            None => {
                return None;
            },
            Some(s) => {
                let ghost prev = sview(out@);
                let ghost gs = s@;
                out.push(s);
                proof {
                    assert(sview(out@) =~= prev.push(gs));
                    assert forall|t: Seq<(Seq<char>, Seq<char>)>| true implies prev + (seq![gs] + t)
                        =~= sview(out@) + t by {}
                }
            },
        }
        k = k + 1;
    }
    proof {
        assert(jview_elems(ps@).skip(n as int) =~= Seq::<JsonV>::empty());
        assert(sview(out@) + Seq::<(Seq<char>, Seq<char>)>::empty() =~= sview(out@));
    }
    Some(out)
}

/// The samples one series object contributes.
fn series_samples(series: &Json) -> (r: Option<Vec<Sample>>)
    ensures
        match r {
            Some(ss) => spec_series_samples(jview(*series)) == Some(sview(ss@)),
            None => spec_series_samples(jview(*series)) is None,
        },
{
    match series {
        Json::Obj(ms) => {
            let values_key = "values".to_owned();
            match obj_get(ms, &values_key) {
                Some(i) => {
                    match &ms[i].1 {
                        Json::Arr(ps) => pairs_samples(ps),
                        _ => None,
                    }
                },
                None => {
                    let value_key = "value".to_owned();
                    match obj_get(ms, &value_key) {
                        Some(i) => match pair_sample(&ms[i].1) {
                            Some(s) => {
                                let ghost gs = s@;
                                let mut out: Vec<Sample> = Vec::new();
                                out.push(s);
                                proof {
                                    assert(sview(out@) =~= seq![gs]);
                                }
                                Some(out)
                            },
                            None => None,
                        },
                        None => None,
                    }
                },
            }
        },
        _ => None,
    }
}

/// All series' samples, flattened in backend order.
fn result_samples(rs: &Vec<Json>) -> (r: Option<Vec<Sample>>)
    ensures
        match r {
            Some(ss) => spec_result_samples(jview_elems(rs@)) == Some(sview(ss@)),
            None => spec_result_samples(jview_elems(rs@)) is None,
        },
{
    proof {
        lemma_jview_elems_index(rs@);
        assert(jview_elems(rs@).skip(0) =~= jview_elems(rs@));
    }
    let n = rs.len();
    let mut out: Vec<Sample> = Vec::new();
    let mut k: usize = 0;
    while k < n
        invariant
            k <= n,
            n == rs@.len(),
            jview_elems(rs@).len() == n,
            forall|i: int| 0 <= i < n ==> jview_elems(rs@)[i] == jview(rs@[i]),
            match spec_result_samples(jview_elems(rs@).skip(k as int)) {
                Some(t) => spec_result_samples(jview_elems(rs@)) == Some(sview(out@) + t),
                None => spec_result_samples(jview_elems(rs@)) is None,
            },
        decreases n - k,
    {
        proof {
            assert(jview_elems(rs@).skip(k as int)[0] == jview_elems(rs@)[k as int]);
            assert(jview_elems(rs@).skip(k as int).skip(1) =~= jview_elems(rs@).skip(k as int + 1));
        }
        match series_samples(&rs[k]) {
            None => {
                return None;
            },
            Some(mut chunk) => {
                let ghost prev = sview(out@);
                let ghost gh = sview(chunk@);
                out.append(&mut chunk);
                proof {
                    assert(sview(out@) =~= prev + gh);
                    assert forall|t: Seq<(Seq<char>, Seq<char>)>| true implies prev + (gh + t) =~= (
                    prev + gh) + t by {}
                }
            },
        }
        k = k + 1;
    }
    proof {
        assert(jview_elems(rs@).skip(n as int) =~= Seq::<JsonV>::empty());
        assert(sview(out@) + Seq::<(Seq<char>, Seq<char>)>::empty() =~= sview(out@));
    }
    Some(out)
}

/// The samples whose value text reads as a number, in order.
fn keep_numeric(ss: Vec<Sample>) -> (r: Vec<Sample>)
    ensures
        sview(r@) == spec_keep_numeric(sview(ss@)),
{
    proof {
        assert(sview(ss@).skip(0) =~= sview(ss@));
    }
    let n = ss.len();
    let mut out: Vec<Sample> = Vec::new();
    let mut k: usize = 0;
    while k < n
        invariant
            k <= n,
            n == ss@.len(),
            spec_keep_numeric(sview(ss@)) == sview(out@) + spec_keep_numeric(
                sview(ss@).skip(k as int),
            ),
        decreases n - k,
    {
        proof {
            assert(sview(ss@).skip(k as int)[0] == sview(ss@)[k as int]);
            assert(sview(ss@).skip(k as int).skip(1) =~= sview(ss@).skip(k as int + 1));
        }
        if is_numeric_text(ss[k].value.as_str()) {
            let ghost prev = sview(out@);
            let ghost gs = ss@[k as int]@;
            out.push(Sample { timestamp: ss[k].timestamp.clone(), value: ss[k].value.clone() });
            proof {
                assert(sview(out@) =~= prev.push(gs));
                assert forall|t: Seq<(Seq<char>, Seq<char>)>| true implies prev + (seq![gs] + t)
                    =~= sview(out@) + t by {}
            }
        }
        k = k + 1;
    }
    proof {
        assert(sview(ss@).skip(n as int) =~= Seq::<(Seq<char>, Seq<char>)>::empty());
        assert(sview(out@) + Seq::<(Seq<char>, Seq<char>)>::empty() =~= sview(out@));
    }
    out
}

/// Read a response body into the samples of this refresh, or the error the
/// refresh reports: `ParseError` for a body outside the expected shape,
/// `BackendError` for a non-success status or missing data.
pub fn parse_prom_response(body: &str) -> (r: Result<Vec<Sample>, QueryError>)
    ensures
        match r {
            Ok(ss) => spec_refresh_outcome(body@) == Ok::<_, QueryError>(sview(ss@)),
            Err(e) => spec_refresh_outcome(body@) == Err::<Seq<(Seq<char>, Seq<char>)>, _>(e),
        },
{
    let parsed = match parse_json(body) {
        None => {
            return Err(QueryError::ParseError);
        },
        Some(j) => j,
    };
    match &parsed {
        Json::Obj(ms) => {
            let status_key = "status".to_owned();
            let st_ix = match obj_get(ms, &status_key) {
                None => {
                    return Err(QueryError::ParseError);
                },
                Some(i) => i,
            };
            match &ms[st_ix].1 {
                Json::Str(st) => {
                    let success = "success".to_owned();
                    if !(*st == success) {
                        return Err(QueryError::BackendError);
                    }
                    let data_key = "data".to_owned();
                    let data_ix = match obj_get(ms, &data_key) {
                        None => {
                            return Err(QueryError::BackendError);
                        },
                        Some(i) => i,
                    };
                    match &ms[data_ix].1 {
                        Json::Null => Err(QueryError::BackendError),
                        Json::Obj(dms) => {
                            let result_key = "result".to_owned();
                            let res_ix = match obj_get(dms, &result_key) {
                                None => {
                                    return Err(QueryError::ParseError);
                                },
                                Some(i) => i,
                            };
                            match &dms[res_ix].1 {
                                Json::Arr(rs) => match result_samples(rs) {
                                    None => Err(QueryError::ParseError),
                                    Some(ss) => Ok(keep_numeric(ss)),
                                },
                                _ => Err(QueryError::ParseError),
                            }
                        },
                        _ => Err(QueryError::ParseError),
                    }
                },
                _ => Err(QueryError::ParseError),
            }
        },
        _ => Err(QueryError::ParseError),
    }
}

} // verus!
