use wrappers::cell::{coerce, Cell, Column, TypeTag};
use wrappers::credentials::{accept_token, bearer_value};
use wrappers::error::ScanError;
use wrappers::json::Json;
use wrappers::options::{require_option, sheet_url, source_url};
use wrappers::parse::{from_value, parse_document};
use wrappers::point::{join_coordinates, Point};
use wrappers::retry::{decide, replay, Attempt, Decision, FetchEnd, DEFAULT_MAX_ATTEMPTS};
use wrappers::row::{find_field, project_record};
use wrappers::session::{records_of, strip_guard, Phase, ScanSession};

fn col(num: usize, name: &str, type_tag: TypeTag) -> Column {
    Column { num, name: name.to_string(), type_tag }
}

fn doc(text: &str) -> Json {
    parse_document(text).unwrap()
}

const SHEET_BODY: &str = ")]}'\n{\"table\":{\"rows\":[{\"c\":[{\"v\":1},{\"v\":\"a\"}]}]}}";

#[test]
fn sheet_body_gives_one_row_then_exhaustion() {
    let mut s = ScanSession::new();
    let cols = vec![col(1, "id", TypeTag::Int64), col(2, "val", TypeTag::Text)];
    assert_eq!(s.begin_scan(cols, SHEET_BODY), Ok(()));
    assert_eq!(s.phase(), Phase::Scanning);
    let row = s.next_row().unwrap().unwrap();
    assert_eq!(row.cols, vec!["id".to_string(), "val".to_string()]);
    assert_eq!(row.cells, vec![Cell::Int64(1), Cell::Text("a".to_string())]);
    assert_eq!(s.next_row(), Ok(None));
    assert_eq!(s.phase(), Phase::Exhausted);
}

#[test]
fn exhaustion_is_stable() {
    let mut s = ScanSession::new();
    s.begin_scan(vec![col(1, "id", TypeTag::Int64)], SHEET_BODY).unwrap();
    assert!(s.next_row().unwrap().is_some());
    for _ in 0..3 {
        assert_eq!(s.next_row(), Ok(None));
        assert_eq!(s.cursor(), 1);
        assert_eq!(s.record_count(), 1);
        assert_eq!(s.phase(), Phase::Exhausted);
    }
}

#[test]
fn end_scan_twice_is_harmless() {
    let mut s = ScanSession::new();
    s.begin_scan(vec![col(1, "id", TypeTag::Int64)], SHEET_BODY).unwrap();
    assert_eq!(s.end_scan(), Ok(()));
    assert_eq!((s.phase(), s.cursor(), s.record_count()), (Phase::Closed, 0, 0));
    assert_eq!(s.end_scan(), Ok(()));
    assert_eq!((s.phase(), s.cursor(), s.record_count()), (Phase::Closed, 0, 0));
    assert_eq!(s.next_row(), Ok(None));
}

#[test]
fn row_follows_columns_whatever_the_record() {
    let record = doc("{\"c\":[{\"v\":\"x\"}]}");
    let cols = vec![
        col(3, "z", TypeTag::Json),
        col(1, "a", TypeTag::Text),
        col(1, "b", TypeTag::Json),
        col(9, "c", TypeTag::Int64),
    ];
    let row = project_record(&record, &cols).unwrap();
    assert_eq!(row.cols, vec!["z".to_string(), "a".to_string(), "b".to_string(), "c".to_string()]);
    assert_eq!(
        row.cells,
        vec![Cell::Null, Cell::Text("x".to_string()), Cell::Json(Json::Str("x".to_string())), Cell::Null]
    );
    let odd = doc("[1, 2, 3]");
    let row = project_record(&odd, &cols).unwrap();
    assert_eq!(row.cells, vec![Cell::Null, Cell::Null, Cell::Null, Cell::Null]);
}

#[test]
fn absent_field_gives_null() {
    let record = doc("{\"c\":[{\"v\":5}]}");
    let cols = vec![col(2, "missing", TypeTag::Other(1184))];
    let row = project_record(&record, &cols).unwrap();
    assert_eq!(row.cells, vec![Cell::Null]);
    assert_eq!(find_field(&record, 0), None);
    assert_eq!(find_field(&record, 1), Some(&Json::Number("5".to_string())));
}

#[test]
fn unsupported_type_names_the_column() {
    let record = doc("{\"c\":[{\"v\":5},{\"v\":\"t\"}]}");
    let cols = vec![col(1, "n", TypeTag::Int64), col(2, "when", TypeTag::Other(1184))];
    assert_eq!(
        project_record(&record, &cols),
        Err(ScanError::UnsupportedColumnType { name: "when".to_string(), ordinal: 2 })
    );
    let mut s = ScanSession::new();
    let body = ")]}'\n{\"table\":{\"rows\":[{\"c\":[{\"v\":5},{\"v\":\"t\"}]}]}}";
    s.begin_scan(cols, body).unwrap();
    assert_eq!(
        s.next_row(),
        Err(ScanError::UnsupportedColumnType { name: "when".to_string(), ordinal: 2 })
    );
    assert_eq!(s.phase(), Phase::Failed);
    assert_eq!(s.cursor(), 0);
}

#[test]
fn number_is_truncated_not_rounded() {
    let c = col(1, "n", TypeTag::Int64);
    assert_eq!(coerce(&doc("3.9"), &c), Ok(Cell::Int64(3)));
    assert_eq!(coerce(&doc("-3.9"), &c), Ok(Cell::Int64(-3)));
    assert_eq!(coerce(&doc("42"), &c), Ok(Cell::Int64(42)));
}

#[test]
fn coercion_pairings() {
    let t = col(2, "t", TypeTag::Text);
    let n = col(1, "n", TypeTag::Int64);
    let j = col(3, "j", TypeTag::Json);
    assert_eq!(coerce(&doc("\"hi\""), &t), Ok(Cell::Text("hi".to_string())));
    assert_eq!(
        coerce(&doc("null"), &t),
        Err(ScanError::UnsupportedColumnType { name: "t".to_string(), ordinal: 2 })
    );
    assert_eq!(
        coerce(&doc("null"), &n),
        Err(ScanError::UnsupportedColumnType { name: "n".to_string(), ordinal: 1 })
    );
    assert_eq!(coerce(&doc("null"), &j), Ok(Cell::Json(Json::Null)));
    assert_eq!(
        coerce(&doc("\"7\""), &n),
        Err(ScanError::UnsupportedColumnType { name: "n".to_string(), ordinal: 1 })
    );
    assert_eq!(
        coerce(&doc("7"), &t),
        Err(ScanError::UnsupportedColumnType { name: "t".to_string(), ordinal: 2 })
    );
    let v = doc("{\"a\":[true,null]}");
    assert_eq!(coerce(&v, &j), Ok(Cell::Json(doc("{\"a\":[true,null]}"))));
}

#[test]
fn parse_builds_the_document() {
    assert_eq!(
        doc("{\"a\":[1,\"b\",false,null]}"),
        Json::Object(vec![(
            "a".to_string(),
            Json::Array(vec![
                Json::Number("1".to_string()),
                Json::Str("b".to_string()),
                Json::Bool(false),
                Json::Null,
            ])
        )])
    );
    assert_eq!(parse_document("{\"a\":"), Err(ScanError::InvalidJson));
    assert_eq!(parse_document(""), Err(ScanError::InvalidJson));
}

#[test]
fn same_body_gives_same_rows() {
    let cols = vec![col(1, "id", TypeTag::Int64), col(2, "val", TypeTag::Text)];
    let mut a = ScanSession::new();
    let mut b = ScanSession::new();
    a.begin_scan(cols.clone(), SHEET_BODY).unwrap();
    b.begin_scan(cols, SHEET_BODY).unwrap();
    assert_eq!(a.next_row(), b.next_row());
    assert_eq!(a.next_row(), b.next_row());
}

#[test]
fn guard_literal_is_required() {
    assert_eq!(strip_guard(")]}'\n[1]"), Ok("[1]"));
    assert_eq!(strip_guard("[1]"), Err(ScanError::MalformedResponse));
    assert_eq!(strip_guard(")]}'"), Err(ScanError::MalformedResponse));
    let mut s = ScanSession::new();
    assert_eq!(s.begin_scan(vec![], "{\"table\":{\"rows\":[]}}"), Err(ScanError::MalformedResponse));
    assert_eq!(s.phase(), Phase::Created);
    assert_eq!(s.begin_scan(vec![], ")]}'\n{\"table\":"), Err(ScanError::InvalidJson));
    assert_eq!(s.begin_scan(vec![], ")]}'\n{\"table\":{}}"), Err(ScanError::MalformedResponse));
    assert_eq!(s.begin_scan(vec![], ")]}'\n{\"table\":{\"rows\":[]}}"), Ok(()));
    assert_eq!(s.next_row(), Ok(None));
}

#[test]
fn records_come_from_table_rows() {
    let d = doc("{\"table\":{\"rows\":[1,2]}}");
    assert_eq!(
        records_of(&d),
        Ok(vec![Json::Number("1".to_string()), Json::Number("2".to_string())])
    );
    assert_eq!(records_of(&doc("{\"table\":{\"rows\":3}}")), Err(ScanError::MalformedResponse));
}

#[test]
fn vector_point_projects_to_row() {
    let p = Point {
        id: 7,
        payload: Some(doc("{\"k\":\"v\"}")),
        vector: Some(vec![1.0f64.to_string(), 2.5f64.to_string()]),
    };
    let cols = vec![col(1, "id", TypeTag::Int64), col(2, "payload", TypeTag::Json), col(3, "vector", TypeTag::Text)];
    let row = p.into_row(&cols);
    assert_eq!(row.cols, vec!["id".to_string(), "payload".to_string(), "vector".to_string()]);
    assert_eq!(
        row.cells,
        vec![Cell::Int64(7), Cell::Json(doc("{\"k\":\"v\"}")), Cell::Text("1, 2.5".to_string())]
    );
}

#[test]
fn point_without_parts_gives_nulls() {
    let p = Point { id: -1, payload: None, vector: None };
    let cols = vec![col(1, "payload", TypeTag::Json), col(2, "vector", TypeTag::Text), col(3, "other", TypeTag::Text)];
    assert_eq!(p.into_row(&cols).cells, vec![Cell::Null, Cell::Null, Cell::Null]);
    assert_eq!(join_coordinates(&vec![]), "");
    assert_eq!(join_coordinates(&vec!["0.5".to_string()]), "0.5");
}

#[test]
fn transient_then_success_delivers() {
    let outs = vec![Attempt::Status(503), Attempt::Status(200)];
    assert_eq!(replay(DEFAULT_MAX_ATTEMPTS, &outs), (FetchEnd::Delivered(1), 2));
}

#[test]
fn persistent_transient_fails_after_budget() {
    let outs = vec![Attempt::Status(503); 5];
    assert_eq!(replay(DEFAULT_MAX_ATTEMPTS, &outs), (FetchEnd::Failed(ScanError::HttpTransient), 3));
    let outs = vec![Attempt::NetworkError, Attempt::Status(429), Attempt::Status(502)];
    assert_eq!(replay(DEFAULT_MAX_ATTEMPTS, &outs), (FetchEnd::Failed(ScanError::HttpTransient), 3));
}

#[test]
fn non_transient_status_fails_at_once() {
    let outs = vec![Attempt::Status(404), Attempt::Status(200)];
    assert_eq!(replay(DEFAULT_MAX_ATTEMPTS, &outs), (FetchEnd::Failed(ScanError::HttpStatus(404)), 1));
    assert_eq!(decide(3, 1, Attempt::Status(204)), Decision::Deliver);
    assert_eq!(decide(3, 1, Attempt::Status(408)), Decision::Fail(ScanError::HttpStatus(408)));
    assert_eq!(decide(3, 1, Attempt::Status(429)), Decision::Retry);
    assert_eq!(
        replay(DEFAULT_MAX_ATTEMPTS, &vec![Attempt::Status(408), Attempt::Status(200)]),
        (FetchEnd::Failed(ScanError::HttpStatus(408)), 1)
    );
    assert_eq!(decide(3, 2, Attempt::Status(500)), Decision::Retry);
    assert_eq!(decide(3, 3, Attempt::Status(500)), Decision::Fail(ScanError::HttpTransient));
    assert_eq!(replay(3, &vec![Attempt::Status(503)]), (FetchEnd::Pending, 1));
}

#[test]
fn options_and_url() {
    let opts = vec![
        ("sheet_id".to_string(), "0".to_string()),
        ("spread_sheet_id".to_string(), "abc".to_string()),
    ];
    assert_eq!(require_option("sheet_id", &opts), Ok("0".to_string()));
    assert_eq!(require_option("sa_key_id", &opts), Err(ScanError::MissingOption("sa_key_id".to_string())));
    assert_eq!(
        sheet_url("abc", "0"),
        "https://docs.google.com/spreadsheets/d/abc/gviz/tq?gid=0&tqx=out:json"
    );
    assert_eq!(
        source_url(&opts),
        Ok("https://docs.google.com/spreadsheets/d/abc/gviz/tq?gid=0&tqx=out:json".to_string())
    );
    assert_eq!(
        source_url(&opts[..1].to_vec()),
        Err(ScanError::MissingOption("spread_sheet_id".to_string()))
    );
}

#[test]
fn token_must_be_issued() {
    assert_eq!(accept_token(Some("ya29.x")), Ok("ya29.x".to_string()));
    assert_eq!(accept_token(Some("")), Err(ScanError::NoTokenIssued));
    assert_eq!(accept_token(None), Err(ScanError::NoTokenIssued));
    assert_eq!(bearer_value("abc"), "Bearer abc");
}

#[test]
fn serde_value_converts_one_for_one() {
    let v: serde_json::Value = serde_json::from_str("{\"k\":[1.5,\"v\",null]}").unwrap();
    assert_eq!(
        from_value(v),
        Json::Object(vec![(
            "k".to_string(),
            Json::Array(vec![Json::Number("1.5".to_string()), Json::Str("v".to_string()), Json::Null])
        )])
    );
}
