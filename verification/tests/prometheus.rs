use clifana::is_numeric_text;
use clifana::parse_prom_response;
use clifana::u64_to_string;
use clifana::QueryError;

#[test]
fn range_matrix_flattens_to_ordered_samples() {
    let body = "{\"status\":\"success\",\"data\":{\"resultType\":\"matrix\",\"result\":[{\"metric\":{},\"values\":[[1000,\"1.5\"],[1060,\"2.0\"]]}]}}";
    let samples = parse_prom_response(body).unwrap();
    assert_eq!(samples.len(), 2);
    assert_eq!(samples[0].timestamp, "1000");
    assert_eq!(samples[0].value, "1.5");
    assert_eq!(samples[1].timestamp, "1060");
    assert_eq!(samples[1].value, "2.0");
    // The texts carry exactly the numbers the backend sent.
    assert_eq!(samples[0].timestamp.parse::<f64>().unwrap(), 1000.0);
    assert_eq!(samples[0].value.parse::<f64>().unwrap(), 1.5);
    assert_eq!(samples[1].timestamp.parse::<f64>().unwrap(), 1060.0);
    assert_eq!(samples[1].value.parse::<f64>().unwrap(), 2.0);
}

#[test]
fn error_status_is_a_backend_error() {
    assert_eq!(parse_prom_response("{\"status\":\"error\"}").err(), Some(QueryError::BackendError));
}

#[test]
fn success_without_data_is_a_backend_error() {
    assert_eq!(
        parse_prom_response("{\"status\":\"success\"}").err(),
        Some(QueryError::BackendError)
    );
    assert_eq!(
        parse_prom_response("{\"status\":\"success\",\"data\":null}").err(),
        Some(QueryError::BackendError)
    );
}

#[test]
fn malformed_json_is_a_parse_error() {
    assert_eq!(parse_prom_response("{\"status\":").err(), Some(QueryError::ParseError));
    assert_eq!(parse_prom_response("").err(), Some(QueryError::ParseError));
    assert_eq!(parse_prom_response("not json").err(), Some(QueryError::ParseError));
}

#[test]
fn envelope_without_status_is_a_parse_error() {
    assert_eq!(parse_prom_response("{\"data\":{}}").err(), Some(QueryError::ParseError));
}

#[test]
fn instant_vector_yields_one_sample_per_series() {
    let body = "{\"status\":\"success\",\"data\":{\"resultType\":\"vector\",\"result\":[{\"metric\":{\"job\":\"node\"},\"value\":[17,\"0.25\"]},{\"metric\":{\"job\":\"web\"},\"value\":[17,\"0.75\"]}]}}";
    let samples = parse_prom_response(body).unwrap();
    assert_eq!(samples.len(), 2);
    assert_eq!(samples[0].value, "0.25");
    assert_eq!(samples[1].value, "0.75");
}

#[test]
fn empty_result_yields_no_samples() {
    let body = "{\"status\":\"success\",\"data\":{\"resultType\":\"vector\",\"result\":[]}}";
    assert_eq!(parse_prom_response(body).unwrap().len(), 0);
}

#[test]
fn non_numeric_sample_value_is_dropped_not_fatal() {
    let body = "{\"status\":\"success\",\"data\":{\"resultType\":\"matrix\",\"result\":[{\"metric\":{},\"values\":[[1,\"abc\"],[2,\"3.5\"],[3,\"NaN\"]]}]}}";
    let samples = parse_prom_response(body).unwrap();
    // "abc" is dropped; "3.5" and "NaN" both read as 64-bit floats.
    assert_eq!(samples.len(), 2);
    assert_eq!(samples[0].value, "3.5");
    assert_eq!(samples[1].value, "NaN");
}

#[test]
fn whitespace_and_member_order_are_insignificant() {
    let body = " { \"data\" : { \"result\" : [ ] , \"resultType\" : \"vector\" } , \"status\" : \"success\" } ";
    assert_eq!(parse_prom_response(body).unwrap().len(), 0);
}

#[test]
fn unicode_escapes_in_strings_are_decoded() {
    // A backend that escapes `<` inside a label value must not fail the
    // refresh; the label itself is never read.
    let body = "{\"status\":\"success\",\"data\":{\"resultType\":\"vector\",\"result\":[{\"metric\":{\"le\":\"a\\u003cb\"},\"value\":[1,\"2.5\"]}]}}";
    let samples = parse_prom_response(body).unwrap();
    assert_eq!(samples.len(), 1);
    assert_eq!(samples[0].value, "2.5");
    // Escapes inside a value string decode before the numeric check.
    let body = "{\"status\":\"success\",\"data\":{\"result\":[{\"metric\":{},\"values\":[[1,\"1.5\\u0030\"]]}]}}";
    let samples = parse_prom_response(body).unwrap();
    assert_eq!(samples[0].value, "1.50");
}

#[test]
fn surrogate_pairs_decode_and_lone_surrogates_fail() {
    let body = "{\"status\":\"success\",\"data\":{\"result\":[{\"metric\":{\"x\":\"\\uD83D\\uDE00\"},\"value\":[1,\"3.5\"]}]}}";
    let samples = parse_prom_response(body).unwrap();
    assert_eq!(samples[0].value, "3.5");
    let lone = "{\"status\":\"success\",\"data\":{\"result\":[{\"metric\":{\"x\":\"\\uD83D\"},\"value\":[1,\"3.5\"]}]}}";
    assert_eq!(parse_prom_response(lone).err(), Some(QueryError::ParseError));
}

#[test]
fn backspace_and_formfeed_escapes_are_accepted() {
    let body = "{\"status\":\"success\",\"data\":{\"result\":[{\"metric\":{\"x\":\"a\\bb\\fc\"},\"value\":[1,\"4.5\"]}]}}";
    let samples = parse_prom_response(body).unwrap();
    assert_eq!(samples[0].value, "4.5");
}

#[test]
fn numeric_text_follows_the_float_grammar() {
    for ok in ["1", "-1.5", "+.5", "1.", "2e10", "3.5E-2", "NaN", "nan", "-Inf", "infinity"] {
        assert!(is_numeric_text(ok), "{} should read as a number", ok);
        assert!(ok.parse::<f64>().is_ok());
    }
    for bad in ["", "-", ".", "1e", "e5", "1.5.2", "abc", "Infinityy", "--1"] {
        assert!(!is_numeric_text(bad), "{} should not read as a number", bad);
        assert!(bad.parse::<f64>().is_err());
    }
}

#[test]
fn decimal_formatting_is_exact() {
    assert_eq!(u64_to_string(0), "0");
    assert_eq!(u64_to_string(7), "7");
    assert_eq!(u64_to_string(1060), "1060");
    assert_eq!(u64_to_string(u64::MAX), "18446744073709551615");
}
